//! Fixed vectors for the two percent-encoders and the hex encoder.

use cloud_storage::encoding::{hex_encode, percent_encode, percent_encode_noslash};

fn strict(s: &str) -> String {
    String::from_utf8(percent_encode(s.as_bytes())).unwrap()
}

fn path(s: &str) -> String {
    String::from_utf8(percent_encode_noslash(s.as_bytes())).unwrap()
}

#[test]
fn strict_escapes_space_and_slash() {
    assert_eq!(strict("a b/c"), "a%20b%2Fc");
}

#[test]
fn path_keeps_slashes() {
    assert_eq!(path("a b/c"), "a%20b/c");
    assert_eq!(path("path/to/file.png"), "path/to/file.png");
}

#[test]
fn keep_sets_survive() {
    assert_eq!(strict("AZaz09*-._"), "AZaz09*-._");
    assert_eq!(path("AZaz09*-._/~"), "AZaz09*-._/~");
    // the two extra path bytes are escaped by the strict encoder
    assert_eq!(strict("/~"), "%2F%7E");
}

#[test]
fn multibyte_input_is_encoded_byte_by_byte() {
    // one three-byte character
    assert_eq!(strict("\u{6d4b}"), "%E6%B5%8B");
    // two-byte characters
    assert_eq!(strict("\u{e4}\u{f6}"), "%C3%A4%C3%B6");
    assert_eq!(path("\u{e4}/\u{f6}"), "%C3%A4/%C3%B6");
}

#[test]
fn encoding_is_total_on_awkward_names() {
    // every input encodes; the output only holds kept bytes and triplets
    let awkward = "asdf&&+1?=3,,-_()*&^%$#@!`~{}[]\\|:;\"'<>,.?/\u{e4}\u{f6}\u{fc}\u{eb}\u{df}";
    let out = strict(awkward);
    for b in out.bytes() {
        let kept = b.is_ascii_alphanumeric() || b == b'*' || b == b'-' || b == b'.' || b == b'_';
        assert!(kept || b == b'%', "unexpected byte {} in output", b);
    }
    let empty = strict("");
    assert_eq!(empty, "");
}

#[test]
fn hex_is_lower_case_two_digits_per_byte() {
    assert_eq!(String::from_utf8(hex_encode(&[0xde, 0xad, 0xbe, 0xef])).unwrap(), "deadbeef");
    assert_eq!(String::from_utf8(hex_encode(&[0x00, 0x0f, 0xf0])).unwrap(), "000ff0");
    assert_eq!(String::from_utf8(hex_encode(&[])).unwrap(), "");
}
