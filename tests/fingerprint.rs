use zed_ruby::fingerprint::{cache_root_for, fnv1a_hash, hex_text};

#[test]
fn fnv1a_known_values() {
    assert_eq!(fnv1a_hash(b""), 0xcbf29ce484222325);
    assert_eq!(fnv1a_hash(b"a"), 0xaf63dc4c8601ec8c);
    assert_eq!(fnv1a_hash(b"foobar"), 0x85944171f73967e8);
}

#[test]
fn hex_text_has_sixteen_digits() {
    assert_eq!(hex_text(0), "0000000000000000");
    assert_eq!(hex_text(0x1), "0000000000000001");
    assert_eq!(hex_text(0xaf63dc4c8601ec8c), "af63dc4c8601ec8c");
    assert_eq!(hex_text(u64::MAX), "ffffffffffffffff");
}

#[test]
fn cache_root_is_named_by_the_probe() {
    assert_eq!(cache_root_for("/ext", b"a"), "/ext/af63dc4c8601ec8c");
    assert_eq!(cache_root_for("/ext/", b""), "/ext/cbf29ce484222325");
}
