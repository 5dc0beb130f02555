//! Character-level helpers on strings: case folding, and the name and
//! extension of a path.
//!
//! Paths are read as sequences of characters in which `/` separates the
//! components.

use vstd::prelude::*;

verus! {

/// The lowercase form that `str::to_lowercase` gives to `s`.
pub uninterp spec fn lowercase(s: Seq<char>) -> Seq<char>;

/// Calls `str::to_lowercase` of the standard library, whose result is a
/// function of the characters of `s` alone. Nothing is proved of it here: the
/// contract only gives that result its name, [`lowercase`].
#[verifier::external_body]
pub(crate) fn to_lowercase(s: &str) -> (lower: String)
    ensures
        lower@ == lowercase(s@),
{
    s.to_lowercase()
}

/// Position of the last `c` in `s`, or -1 where `s` holds none.
pub open spec fn last_index_of(s: Seq<char>, c: char) -> int
    decreases s.len(),
{
    if s.len() == 0 {
        -1
    } else if s.last() == c {
        s.len() - 1
    } else {
        last_index_of(s.drop_last(), c)
    }
}

/// [`last_index_of`] is a position of `c` after which no `c` follows, or -1
/// when there is no `c` at all.
pub proof fn lemma_last_index_of(s: Seq<char>, c: char)
    ensures
        -1 <= last_index_of(s, c) < s.len(),
        last_index_of(s, c) >= 0 ==> s[last_index_of(s, c)] == c,
        forall|j: int| last_index_of(s, c) < j < s.len() ==> s[j] != c,
    decreases s.len(),
{
    if s.len() > 0 && s.last() != c {
        let front = s.drop_last();
        lemma_last_index_of(front, c);
        assert forall|j: int| last_index_of(s, c) < j < s.len() implies s[j] != c by {
            if j < front.len() {
                assert(front[j] == s[j]);
            }
        }
    }
}

/// The last component of `path`: what follows its last `/`, or all of it.
pub open spec fn file_name_of(path: Seq<char>) -> Seq<char> {
    path.skip(last_index_of(path, '/') + 1)
}

/// The extension of a file name: what follows its last `.`, unless that dot
/// opens the name, or the name is `..`, or it holds no dot.
pub open spec fn extension_of(name: Seq<char>) -> Option<Seq<char>> {
    let dot = last_index_of(name, '.');
    if dot <= 0 || name == seq!['.', '.'] {
        None
    } else {
        Some(name.skip(dot + 1))
    }
}

/// A name with an extension is a stem that is not empty, a dot, and the
/// extension, which holds no dot.
pub proof fn lemma_extension_of(name: Seq<char>)
    requires
        extension_of(name) is Some,
    ensures
        ({
            let ext = extension_of(name)->0;
            let stem = name.take(name.len() - ext.len() - 1);
            &&& stem.len() > 0
            &&& name == stem + seq!['.'] + ext
            &&& !ext.contains('.')
        }),
{
    let ext = extension_of(name)->0;
    let dot = last_index_of(name, '.');
    lemma_last_index_of(name, '.');
    assert(name =~= name.take(dot) + seq!['.'] + ext);
    assert forall|j: int| 0 <= j < ext.len() implies ext[j] != '.' by {
        assert(ext[j] == name[dot + 1 + j]);
    }
}

/// The extension of the last component of `path`.
pub open spec fn path_extension_of(path: Seq<char>) -> Option<Seq<char>> {
    extension_of(file_name_of(path))
}

/// The characters of `s`, in order.
pub fn chars_of(s: &str) -> (chars: Vec<char>)
    ensures
        chars@ == s@,
{
    let mut chars: Vec<char> = Vec::new();
    for c in it: s.chars()
        invariant
            chars@ == it.seq().take(it.index() as int),
            it.seq() == s@,
    {
        chars.push(c);
    }
    chars
}

/// Finds the last `c` among `chars`.
pub fn find_last(chars: &Vec<char>, c: char) -> (found: Option<usize>)
    ensures
        match found {
            Some(i) => i < chars.len() && chars[i as int] == c && i as int == last_index_of(
                chars@,
                c,
            ),
            None => last_index_of(chars@, c) == -1,
        },
{
    let mut i: usize = chars.len();
    assert(chars@.take(i as int) =~= chars@);
    while i > 0
        invariant
            i <= chars.len(),
            last_index_of(chars@, c) == last_index_of(chars@.take(i as int), c),
        decreases i,
    {
        if chars[i - 1] == c {
            return Some(i - 1);
        }
        proof {
            assert(chars@.take(i as int).drop_last() =~= chars@.take(i - 1));
        }
        i = i - 1;
    }
    None
}

/// The last component of `path`.
pub fn file_name(path: &str) -> (name: &str)
    ensures
        name@ == file_name_of(path@),
{
    let chars = chars_of(path);
    let start: usize = match find_last(&chars, '/') {
        Some(i) => i + 1,
        None => 0,
    };
    path.substring_char(start, chars.len())
}

/// The extension of the file name `name`, if it has one.
pub fn extension(name: &str) -> (ext: Option<&str>)
    ensures
        match ext {
            Some(e) => extension_of(name@) == Some(e@),
            None => extension_of(name@) is None,
        },
{
    let chars = chars_of(name);
    match find_last(&chars, '.') {
        None => None,
        Some(dot) => {
            if dot == 0 || (chars.len() == 2 && chars[0] == '.') {
                proof {
                    if dot != 0 {
                        assert(chars@ =~= seq!['.', '.']);
                    }
                }
                None
            } else {
                Some(name.substring_char(dot + 1, chars.len()))
            }
        },
    }
}

/// The extension of the last component of `path`, if it has one.
pub fn path_extension(path: &str) -> (ext: Option<&str>)
    ensures
        match ext {
            Some(e) => path_extension_of(path@) == Some(e@),
            None => path_extension_of(path@) is None,
        },
{
    extension(file_name(path))
}

} // verus!
