use kalk::encoding::base64_encode;

#[test]
fn base64_encodes_empty() {
    assert_eq!(base64_encode(b""), "");
}

#[test]
fn base64_encodes_one_byte() {
    assert_eq!(base64_encode(b"f"), "Zg==");
}

#[test]
fn base64_encodes_two_bytes() {
    assert_eq!(base64_encode(b"fo"), "Zm8=");
}

#[test]
fn base64_encodes_three_bytes() {
    assert_eq!(base64_encode(b"foo"), "Zm9v");
}

#[test]
fn base64_encodes_four_bytes() {
    assert_eq!(base64_encode(b"foob"), "Zm9vYg==");
}

#[test]
fn base64_encodes_known_string() {
    // "Hello, World!" → standard base64
    assert_eq!(base64_encode(b"Hello, World!"), "SGVsbG8sIFdvcmxkIQ==");
}

#[test]
fn base64_uses_the_whole_alphabet() {
    let bytes: Vec<u8> = (0u8..=255).collect();
    let out = base64_encode(&bytes);
    assert_eq!(out.len(), 4 * ((256 + 2) / 3));
    assert!(out.starts_with("AAECAwQFBgcICQoLDA0ODxAREhMUFRYXGBkaGxwdHh8g"));
    assert!(out.ends_with("+/w=="));
    assert_eq!(base64_encode(&[0xfb, 0xff]), "+/8=");
}

#[test]
fn base64_of_a_concatenation_at_a_group_boundary() {
    let a = b"foobar";
    let b = b"!?";
    let mut ab = a.to_vec();
    ab.extend_from_slice(b);
    assert_eq!(base64_encode(&ab), base64_encode(a) + &base64_encode(b));
}
