//! Content fingerprints.
//!
//! The fingerprint of a file is the 64-bit FNV-1a hash of its bytes. It is
//! computed chunk by chunk, so that a file never has to be held in memory as
//! a whole, and written as the text `fnv1a64:` followed by sixteen lowercase
//! hexadecimal digits, so that a stored fingerprint names its algorithm.

use vstd::prelude::*;

verus! {

/// The state of the hash before any byte.
pub const FNV_OFFSET_BASIS: u64 = 0xcbf2_9ce4_8422_2325;

/// The multiplier of the hash.
pub const FNV_PRIME: u64 = 0x0000_0100_0000_01b3;

/// The state after one more byte.
pub open spec fn absorb(state: u64, byte: u8) -> u64 {
    (state ^ (byte as u64)).wrapping_mul(FNV_PRIME)
}

/// The state after the bytes of `bytes`, in order.
pub open spec fn absorb_all(state: u64, bytes: Seq<u8>) -> u64
    decreases bytes.len(),
{
    if bytes.len() == 0 {
        state
    } else {
        absorb(absorb_all(state, bytes.drop_last()), bytes.last())
    }
}

/// The fingerprint of a content.
pub open spec fn fingerprint(bytes: Seq<u8>) -> u64 {
    absorb_all(FNV_OFFSET_BASIS, bytes)
}

/// The sixteen hexadecimal digits, in order of their value.
pub open spec fn hex_digits() -> Seq<char> {
    seq!['0', '1', '2', '3', '4', '5', '6', '7', '8', '9', 'a', 'b', 'c', 'd', 'e', 'f']
}

/// The `i`-th group of four bits of `value`, counted from the most
/// significant.
pub open spec fn nibble(value: u64, i: int) -> u64 {
    (value >> ((60 - 4 * i) as u64)) & 0xf
}

/// `value` in sixteen lowercase hexadecimal digits.
pub open spec fn hex_of(value: u64) -> Seq<char> {
    Seq::new(16, |i: int| hex_digits()[nibble(value, i) as int])
}

/// The text that stands for the fingerprint `value`.
pub open spec fn digest_text(value: u64) -> Seq<char> {
    "fnv1a64:"@ + hex_of(value)
}

/// Feeding a content in two parts gives the state that feeding it at once
/// gives: a fingerprint does not depend on how the content was cut into
/// chunks.
pub proof fn lemma_absorb_all_concat(state: u64, head: Seq<u8>, tail: Seq<u8>)
    ensures
        absorb_all(state, head + tail) == absorb_all(absorb_all(state, head), tail),
    decreases tail.len(),
{
    if tail.len() == 0 {
        assert(head + tail =~= head);
    } else {
        assert((head + tail).drop_last() =~= head + tail.drop_last());
        lemma_absorb_all_concat(state, head, tail.drop_last());
    }
}

/// Two fingerprints are written alike only if they are the same number: to
/// compare the texts is to compare the fingerprints.
pub proof fn lemma_digest_text_is_injective(a: u64, b: u64)
    requires
        digest_text(a) == digest_text(b),
    ensures
        a == b,
{
    let prefix = "fnv1a64:"@;
    assert(hex_of(a) =~= digest_text(a).skip(prefix.len() as int));
    assert(hex_of(b) =~= digest_text(b).skip(prefix.len() as int));
    assert forall|i: int| 0 <= i < 16 implies nibble(a, i) == nibble(b, i) by {
        let shift = (60 - 4 * i) as u64;
        let x = nibble(a, i);
        let y = nibble(b, i);
        assert(x < 16) by (bit_vector)
            requires
                x == (a >> shift) & 0xf,
        ;
        assert(y < 16) by (bit_vector)
            requires
                y == (b >> shift) & 0xf,
        ;
        assert(hex_of(a)[i] == hex_digits()[x as int]);
        assert(hex_of(b)[i] == hex_digits()[y as int]);
    }
    assert(nibble(a, 0) == nibble(b, 0) && nibble(a, 1) == nibble(b, 1) && nibble(a, 2) == nibble(b, 2)
        && nibble(a, 3) == nibble(b, 3));
    assert(nibble(a, 4) == nibble(b, 4) && nibble(a, 5) == nibble(b, 5) && nibble(a, 6) == nibble(b, 6)
        && nibble(a, 7) == nibble(b, 7));
    assert(nibble(a, 8) == nibble(b, 8) && nibble(a, 9) == nibble(b, 9) && nibble(a, 10) == nibble(
        b,
        10,
    ) && nibble(a, 11) == nibble(b, 11));
    assert(nibble(a, 12) == nibble(b, 12) && nibble(a, 13) == nibble(b, 13) && nibble(a, 14)
        == nibble(b, 14) && nibble(a, 15) == nibble(b, 15));
    assert(a == b) by (bit_vector)
        requires
            (a >> 60) & 0xf == (b >> 60) & 0xf,
            (a >> 56) & 0xf == (b >> 56) & 0xf,
            (a >> 52) & 0xf == (b >> 52) & 0xf,
            (a >> 48) & 0xf == (b >> 48) & 0xf,
            (a >> 44) & 0xf == (b >> 44) & 0xf,
            (a >> 40) & 0xf == (b >> 40) & 0xf,
            (a >> 36) & 0xf == (b >> 36) & 0xf,
            (a >> 32) & 0xf == (b >> 32) & 0xf,
            (a >> 28) & 0xf == (b >> 28) & 0xf,
            (a >> 24) & 0xf == (b >> 24) & 0xf,
            (a >> 20) & 0xf == (b >> 20) & 0xf,
            (a >> 16) & 0xf == (b >> 16) & 0xf,
            (a >> 12) & 0xf == (b >> 12) & 0xf,
            (a >> 8) & 0xf == (b >> 8) & 0xf,
            (a >> 4) & 0xf == (b >> 4) & 0xf,
            (a >> 0) & 0xf == (b >> 0) & 0xf,
    ;
}

fn hex_digit_text(n: u64) -> (digit: &'static str)
    requires
        n < 16,
    ensures
        digit@ == seq![hex_digits()[n as int]],
{
    proof {
        reveal_strlit("0");
        reveal_strlit("1");
        reveal_strlit("2");
        reveal_strlit("3");
        reveal_strlit("4");
        reveal_strlit("5");
        reveal_strlit("6");
        reveal_strlit("7");
        reveal_strlit("8");
        reveal_strlit("9");
        reveal_strlit("a");
        reveal_strlit("b");
        reveal_strlit("c");
        reveal_strlit("d");
        reveal_strlit("e");
        reveal_strlit("f");
    }
    let digit = match n {
        0 => "0",
        1 => "1",
        2 => "2",
        3 => "3",
        4 => "4",
        5 => "5",
        6 => "6",
        7 => "7",
        8 => "8",
        9 => "9",
        10 => "a",
        11 => "b",
        12 => "c",
        13 => "d",
        14 => "e",
        _ => "f",
    };
    assert(digit@ =~= seq![hex_digits()[n as int]]);
    digit
}

/// The text that stands for the fingerprint `value`.
pub fn digest_string(value: u64) -> (text: String)
    ensures
        text@ == digest_text(value),
{
    let mut text = String::from_str("fnv1a64:");
    let mut i: u64 = 0;
    while i < 16
        invariant
            i <= 16,
            text@ == "fnv1a64:"@ + hex_of(value).take(i as int),
        decreases 16 - i,
    {
        let shift: u64 = 60 - 4 * i;
        let n: u64 = (value >> shift) & 0xf;
        assert(n < 16) by (bit_vector)
            requires
                n == (value >> shift) & 0xf,
        ;
        assert(n == nibble(value, i as int));
        text.append(hex_digit_text(n));
        assert(text@ =~= "fnv1a64:"@ + hex_of(value).take(i + 1));
        i = i + 1;
    }
    assert(hex_of(value).take(16) =~= hex_of(value));
    text
}

/// Computes the fingerprint of a content that arrives in chunks.
pub struct ContentHasher {
    state: u64,
    consumed: Ghost<Seq<u8>>,
}

impl View for ContentHasher {
    type V = Seq<u8>;

    /// The bytes fed so far.
    closed spec fn view(&self) -> Seq<u8> {
        self.consumed@
    }
}

impl ContentHasher {
    #[verifier::type_invariant]
    spec fn tracks_consumed(&self) -> bool {
        self.state == fingerprint(self.consumed@)
    }

    /// A hasher that has seen no byte yet.
    pub fn new() -> (hasher: Self)
        ensures
            hasher@ == Seq::<u8>::empty(),
    {
        ContentHasher { state: FNV_OFFSET_BASIS, consumed: Ghost(Seq::empty()) }
    }

    /// Feeds the next chunk of the content.
    pub fn update(&mut self, chunk: &[u8])
        ensures
            final(self)@ == old(self)@ + chunk@,
    {
        proof {
            use_type_invariant(&*self);
        }
        let mut state: u64 = self.state;
        let mut i: usize = 0;
        while i < chunk.len()
            invariant
                i <= chunk.len(),
                state == absorb_all(self.state, chunk@.take(i as int)),
            decreases chunk.len() - i,
        {
            proof {
                assert(chunk@.take(i + 1).drop_last() =~= chunk@.take(i as int));
            }
            state = (state ^ (chunk[i] as u64)).wrapping_mul(FNV_PRIME);
            i = i + 1;
        }
        proof {
            assert(chunk@.take(i as int) =~= chunk@);
            lemma_absorb_all_concat(FNV_OFFSET_BASIS, self.consumed@, chunk@);
        }
        *self = ContentHasher { state, consumed: Ghost(self.consumed@ + chunk@) };
    }

    /// The fingerprint of the bytes fed so far, as a number.
    pub fn value(&self) -> (value: u64)
        ensures
            value == fingerprint(self@),
    {
        proof {
            use_type_invariant(self);
        }
        self.state
    }

    /// The fingerprint of the bytes fed so far, as text.
    pub fn finish(&self) -> (text: String)
        ensures
            text@ == digest_text(fingerprint(self@)),
    {
        digest_string(self.value())
    }
}

/// The fingerprint of `bytes`, as text.
pub fn hash_bytes(bytes: &[u8]) -> (text: String)
    ensures
        text@ == digest_text(fingerprint(bytes@)),
{
    let mut hasher = ContentHasher::new();
    hasher.update(bytes);
    assert(hasher@ =~= bytes@);
    hasher.finish()
}

} // verus!
