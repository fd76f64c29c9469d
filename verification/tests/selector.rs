use cross_contract_flipper::selector::Selector;

fn digest_counting_from(first: u8) -> [u8; 32] {
    let mut digest = [0u8; 32];
    let mut byte: u8 = first;
    for slot in digest.iter_mut() {
        *slot = byte;
        byte = byte.wrapping_add(1);
    }
    digest
}

#[test]
fn flip_selector_is_the_published_identifier() {
    assert_eq!(Selector::flip().bytes, [0x63, 0x3a, 0xa5, 0x51]);
}

#[test]
fn flip_selector_is_derived_from_the_name() {
    assert_eq!(Selector::flip(), Selector::from_name(b"flip"));
}

#[test]
fn selector_from_name_hashes_the_name() {
    assert_eq!(Selector::from_name(b"get").bytes, [0x2f, 0x86, 0x5b, 0xd9]);
    assert_eq!(Selector::from_name(b"new").bytes, [0x9b, 0xae, 0x9d, 0x5e]);
}

#[test]
fn selector_from_name_does_not_echo_the_name() {
    let name: [u8; 4] = [0x66, 0x6c, 0x69, 0x70];
    assert_ne!(Selector::from_name(&name).bytes, name);
}

#[test]
fn selector_of_the_empty_name() {
    assert_eq!(Selector::from_name(b"").bytes, [0x0e, 0x57, 0x51, 0xc0]);
}

#[test]
fn selector_from_name_tells_names_apart() {
    assert_ne!(Selector::from_name(b"flip"), Selector::from_name(b"flop"));
    assert_ne!(Selector::from_name(b"flip"), Selector::from_name(b"Flip"));
}

#[test]
fn selector_from_digest_keeps_the_first_four_bytes() {
    let digest = digest_counting_from(10);
    assert_eq!(Selector::from_digest(&digest).bytes, [10, 11, 12, 13]);
}

#[test]
fn selector_from_digest_ignores_the_rest() {
    let mut digest = digest_counting_from(0);
    let before = Selector::from_digest(&digest);
    digest[4] = 0xff;
    digest[31] = 0xff;
    assert_eq!(Selector::from_digest(&digest), before);
    digest[3] = 0xff;
    assert_eq!(Selector::from_digest(&digest).bytes, [0, 1, 2, 0xff]);
}

#[test]
fn selector_from_digest_of_the_flip_digest() {
    let digest: [u8; 32] = [
        0x63, 0x3a, 0xa5, 0x51, 0x65, 0x8c, 0x02, 0xf9, 0xc6, 0xce, 0x1f, 0x7c, 0x6b, 0xf7, 0xc7,
        0xcf, 0x68, 0xa9, 0xa5, 0x76, 0xc7, 0x64, 0x8b, 0x80, 0xa5, 0xa6, 0xb3, 0x46, 0x35, 0x8b,
        0xa1, 0x27,
    ];
    assert_eq!(Selector::from_digest(&digest), Selector::flip());
}
