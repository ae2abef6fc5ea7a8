use reqcapture::ident::fresh_capture_id;

#[test]
fn identifier_has_version_and_variant_bits() {
    for _ in 0..256 {
        let id = fresh_capture_id();
        assert_eq!((id >> 76) & 0xf, 4);
        assert_eq!((id >> 62) & 0x3, 2);
    }
}

#[test]
fn identifiers_pairwise_distinct() {
    let n = 10_000;
    let mut ids: Vec<u128> = Vec::with_capacity(n);
    for _ in 0..n {
        ids.push(fresh_capture_id());
    }
    ids.sort_unstable();
    for pair in ids.windows(2) {
        assert_ne!(pair[0], pair[1]);
    }
}

#[test]
fn identifiers_are_not_constant() {
    let first = fresh_capture_id();
    let mut saw_other = false;
    for _ in 0..64 {
        if fresh_capture_id() != first {
            saw_other = true;
        }
    }
    assert!(saw_other);
}
