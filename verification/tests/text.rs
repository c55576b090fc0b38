use nvml_rs::error::ErrorKind;
use nvml_rs::text::{decode, push_decimal, push_lowered, zeroed};

const ILL_FORMED: &str = "text from the driver is not valid UTF-8";

#[test]
fn zeroed_buffer_has_the_capacity_and_only_zeros() {
    let buffer = zeroed(64);
    assert_eq!(buffer.len(), 64);
    assert!(buffer.iter().all(|byte| *byte == 0));
    assert_eq!(zeroed(0), Vec::<u8>::new());
}

#[test]
fn zeroed_buffer_decodes_to_the_empty_text() {
    assert_eq!(decode(&zeroed(80), 80), Ok(String::new()));
    assert_eq!(decode(&zeroed(80), 3), Ok(String::new()));
    assert_eq!(decode(&[], 80), Ok(String::new()));
}

#[test]
fn decoding_stops_at_the_first_terminator() {
    let mut buffer = zeroed(16);
    buffer[..5].copy_from_slice(b"Tesla");
    buffer[6..9].copy_from_slice(b"old");
    assert_eq!(decode(&buffer, 16), Ok(String::from("Tesla")));
}

#[test]
fn decoding_without_terminator_takes_the_whole_field() {
    assert_eq!(decode(b"abcdef", 6), Ok(String::from("abcdef")));
    assert_eq!(decode(b"abcdef", 100), Ok(String::from("abcdef")));
}

#[test]
fn decoding_does_not_read_past_the_capacity() {
    assert_eq!(decode(b"abcdef", 4), Ok(String::from("abcd")));
    assert_eq!(decode(b"abcdef", 0), Ok(String::new()));
    assert_eq!(decode(b"ab\0def", 4), Ok(String::from("ab")));
}

#[test]
fn decoding_reads_utf8() {
    let mut buffer = zeroed(16);
    let name = "Gerät µ";
    buffer[..name.len()].copy_from_slice(name.as_bytes());
    assert_eq!(decode(&buffer, 16), Ok(String::from(name)));
}

#[test]
fn decoding_ill_formed_text_is_a_local_error() {
    let error = decode(&[0x47, 0xff, 0x50, 0], 4).unwrap_err();
    assert_eq!(error.kind(), ErrorKind::LocalError);
    assert_eq!(error.message().map(|m| m.as_str()), Some(ILL_FORMED));
}

#[test]
fn decoding_a_character_cut_by_the_capacity_is_a_local_error() {
    let bytes = "aµ".as_bytes();
    assert_eq!(bytes.len(), 3);
    let error = decode(bytes, 2).unwrap_err();
    assert_eq!(error.kind(), ErrorKind::LocalError);
    assert_eq!(decode(bytes, 3), Ok(String::from("aµ")));
}

#[test]
fn ill_formed_bytes_after_the_terminator_are_not_read() {
    assert_eq!(decode(&[b'o', b'k', 0, 0xff, 0xfe], 5), Ok(String::from("ok")));
}

#[test]
fn decimal_of_small_and_large_numbers() {
    let cases: [(u64, &str); 7] = [
        (0, "0"),
        (7, "7"),
        (10, "10"),
        (99, "99"),
        (100, "100"),
        (4294967295, "4294967295"),
        (u64::MAX, "18446744073709551615"),
    ];
    for (value, expected) in cases {
        let mut text = String::new();
        push_decimal(&mut text, value);
        assert_eq!(text, expected);
    }
}

#[test]
fn decimal_is_appended_to_what_is_there() {
    let mut text = String::from("n=");
    push_decimal(&mut text, 1205);
    assert_eq!(text, "n=1205");
}

#[test]
fn lowering_turns_ascii_capitals_only() {
    let mut text = String::new();
    push_lowered(&mut text, "0000:3B:00.0");
    assert_eq!(text, "0000:3b:00.0");

    let mut text = String::from(">");
    push_lowered(&mut text, "AZaz@[`{ÄÖ");
    assert_eq!(text, ">azaz@[`{ÄÖ");
}

#[test]
fn lowering_nothing_appends_nothing() {
    let mut text = String::from("same");
    push_lowered(&mut text, "");
    assert_eq!(text, "same");
}
