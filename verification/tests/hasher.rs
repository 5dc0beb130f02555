use file_sync::hasher::{digest_string, hash_bytes, ContentHasher, FNV_OFFSET_BASIS, FNV_PRIME};

#[test]
fn fingerprint_of_no_bytes_is_the_offset_basis() {
    assert_eq!(ContentHasher::new().value(), 0xcbf29ce484222325);
    assert_eq!(FNV_OFFSET_BASIS, 0xcbf29ce484222325);
    assert_eq!(FNV_PRIME, 0x100000001b3);
    assert_eq!(hash_bytes(b""), "fnv1a64:cbf29ce484222325");
}

#[test]
fn fingerprint_of_one_byte() {
    let mut hasher = ContentHasher::new();
    hasher.update(b"a");
    assert_eq!(hasher.value(), 0xaf63dc4c8601ec8c);
    assert_eq!(hasher.finish(), "fnv1a64:af63dc4c8601ec8c");
}

#[test]
fn fingerprint_of_a_word() {
    assert_eq!(hash_bytes(b"foobar"), "fnv1a64:85944171f73967e8");
}

#[test]
fn fingerprint_does_not_depend_on_the_chunks() {
    let content: Vec<u8> = (0..1000u32).map(|i| (i * 7 % 251) as u8).collect();
    let whole = hash_bytes(&content);
    for cut in [0usize, 1, 2, 499, 999, 1000] {
        let mut hasher = ContentHasher::new();
        hasher.update(&content[..cut]);
        hasher.update(&content[cut..]);
        assert_eq!(hasher.finish(), whole);
    }
    let mut byte_by_byte = ContentHasher::new();
    for b in &content {
        byte_by_byte.update(&[*b]);
    }
    assert_eq!(byte_by_byte.finish(), whole);
}

#[test]
fn fingerprint_tells_contents_apart() {
    assert_ne!(hash_bytes(b"hello"), hash_bytes(b"hellp"));
    assert_ne!(hash_bytes(b"ab"), hash_bytes(b"ba"));
    assert_ne!(hash_bytes(b""), hash_bytes(&[0u8]));
}

#[test]
fn digest_is_sixteen_lowercase_hex_digits_after_the_algorithm() {
    assert_eq!(digest_string(0), "fnv1a64:0000000000000000");
    assert_eq!(digest_string(u64::MAX), "fnv1a64:ffffffffffffffff");
    assert_eq!(digest_string(0x0123456789abcdef), "fnv1a64:0123456789abcdef");
    assert_eq!(digest_string(0xf), "fnv1a64:000000000000000f");
}

#[test]
fn finish_can_be_asked_more_than_once() {
    let mut hasher = ContentHasher::new();
    hasher.update(b"foo");
    let early = hasher.finish();
    assert_eq!(hasher.finish(), early);
    hasher.update(b"bar");
    assert_eq!(hasher.finish(), "fnv1a64:85944171f73967e8");
}
