use socket_demo::endpoint::Endpoint;
use socket_demo::text::dec_string;
use socket_demo::text::decode_lossy;

fn check_against_std(bytes: &[u8]) {
    let expected = String::from_utf8_lossy(bytes).into_owned();
    assert_eq!(decode_lossy(bytes), expected);
}

#[test]
fn decode_empty() {
    assert_eq!(decode_lossy(&[]), "");
    check_against_std(&[]);
}

#[test]
fn decode_ascii() {
    assert_eq!(decode_lossy(b"Hello, from server"), "Hello, from server");
    check_against_std(b"Hello, from server");
}

#[test]
fn decode_multibyte() {
    let text = "h\u{e9}llo \u{2603} \u{1f980}";
    assert_eq!(decode_lossy(text.as_bytes()), text);
    check_against_std(text.as_bytes());
}

#[test]
fn decode_lone_invalid_byte() {
    assert_eq!(decode_lossy(&[0xff]), "\u{FFFD}");
    check_against_std(&[0xff]);
}

#[test]
fn decode_invalid_in_middle() {
    assert_eq!(decode_lossy(&[0xe2, 0x28, 0xa1]), "\u{FFFD}(\u{FFFD}");
    check_against_std(&[0xe2, 0x28, 0xa1]);
}

#[test]
fn decode_truncated_two_byte() {
    assert_eq!(decode_lossy(&[0xc3]), "\u{FFFD}");
    check_against_std(&[0xc3]);
}

#[test]
fn decode_truncated_three_byte() {
    assert_eq!(decode_lossy(&[0xe0, 0xa0]), "\u{FFFD}");
    check_against_std(&[0xe0, 0xa0]);
}

#[test]
fn decode_truncated_four_byte() {
    assert_eq!(decode_lossy(&[0xf0, 0x9f, 0x92]), "\u{FFFD}");
    check_against_std(&[0xf0, 0x9f, 0x92]);
}

#[test]
fn decode_overlong() {
    assert_eq!(decode_lossy(&[0xc0, 0x80]), "\u{FFFD}\u{FFFD}");
    check_against_std(&[0xc0, 0x80]);
}

#[test]
fn decode_surrogate() {
    assert_eq!(decode_lossy(&[0xed, 0xa0, 0x80]), "\u{FFFD}\u{FFFD}\u{FFFD}");
    check_against_std(&[0xed, 0xa0, 0x80]);
}

#[test]
fn decode_out_of_range_four_byte() {
    assert_eq!(
        decode_lossy(&[0xf4, 0x90, 0x80, 0x80]),
        "\u{FFFD}\u{FFFD}\u{FFFD}\u{FFFD}"
    );
    check_against_std(&[0xf4, 0x90, 0x80, 0x80]);
}

#[test]
fn decode_mixed_valid_and_invalid() {
    let bytes = [b'a', 0xc3, 0xa9, 0xf0, 0x9f, b'z', 0x80, b'!'];
    assert_eq!(decode_lossy(&bytes), "a\u{e9}\u{FFFD}z\u{FFFD}!");
    check_against_std(&bytes);
}

#[test]
fn dec_string_values() {
    assert_eq!(dec_string(0), "0");
    assert_eq!(dec_string(7), "7");
    assert_eq!(dec_string(10), "10");
    assert_eq!(dec_string(8080), "8080");
    assert_eq!(dec_string(65535), "65535");
    assert_eq!(dec_string(u64::MAX), "18446744073709551615");
}

#[test]
fn endpoint_rendering() {
    assert_eq!(Endpoint::new(127, 0, 0, 1, 8080).render(), "127.0.0.1:8080");
    assert_eq!(Endpoint::new(0, 0, 0, 0, 0).render(), "0.0.0.0:0");
    assert_eq!(
        Endpoint::new(255, 255, 255, 255, 65535).render(),
        "255.255.255.255:65535"
    );
}
