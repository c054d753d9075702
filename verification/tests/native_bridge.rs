use shell_bridge::error::BridgeError;
use shell_bridge::native::{fetch_native_text, find_terminator};

#[test]
fn text_before_the_terminator_is_returned() {
    assert_eq!(fetch_native_text(Some(b"hi\0")), Ok("hi".to_string()));
}

#[test]
fn null_pointer_is_a_failed_native_call() {
    assert_eq!(fetch_native_text(None), Err(BridgeError::NativeCallFailed));
}

#[test]
fn empty_text_is_an_empty_string() {
    assert_eq!(fetch_native_text(Some(b"\0")), Ok(String::new()));
}

#[test]
fn bytes_after_the_terminator_are_not_read() {
    assert_eq!(fetch_native_text(Some(b"hi\0there\0")), Ok("hi".to_string()));
    assert_eq!(fetch_native_text(Some(b"ok\0\xff\xfe")), Ok("ok".to_string()));
}

#[test]
fn text_of_several_bytes_per_character_is_decoded_whole() {
    let mut bytes = "h\u{e9}llo \u{2713} \u{1F600}".as_bytes().to_vec();
    bytes.push(0);
    let text = fetch_native_text(Some(&bytes)).unwrap();
    assert_eq!(text, "h\u{e9}llo \u{2713} \u{1F600}");
    assert_eq!(text.chars().count(), 9);
    assert_eq!(text.len(), bytes.len() - 1);
}

#[test]
fn long_text_is_not_truncated() {
    let mut bytes = vec![b'x'; 10_000];
    bytes.push(0);
    let text = fetch_native_text(Some(&bytes)).unwrap();
    assert_eq!(text.len(), 10_000);
    assert!(text.bytes().all(|b| b == b'x'));
}

#[test]
fn stray_byte_is_an_encoding_error_at_its_offset() {
    assert_eq!(
        fetch_native_text(Some(b"a\xffb\0")),
        Err(BridgeError::EncodingError { offset: 1 })
    );
}

#[test]
fn malformed_first_byte_has_offset_zero() {
    assert_eq!(
        fetch_native_text(Some(b"\x80abc\0")),
        Err(BridgeError::EncodingError { offset: 0 })
    );
}

#[test]
fn cut_off_sequence_is_an_encoding_error_where_it_starts() {
    assert_eq!(
        fetch_native_text(Some(b"ab\xe2\x82\0")),
        Err(BridgeError::EncodingError { offset: 2 })
    );
}

#[test]
fn offset_counts_bytes_not_characters() {
    let mut bytes = "\u{e9}\u{e9}".as_bytes().to_vec();
    bytes.push(0xc0);
    bytes.push(0);
    assert_eq!(
        fetch_native_text(Some(&bytes)),
        Err(BridgeError::EncodingError { offset: 4 })
    );
}

#[test]
fn overlong_and_surrogate_encodings_are_refused() {
    assert_eq!(
        fetch_native_text(Some(b"\xc0\xaf\0")),
        Err(BridgeError::EncodingError { offset: 0 })
    );
    assert_eq!(
        fetch_native_text(Some(b"x\xed\xa0\x80\0")),
        Err(BridgeError::EncodingError { offset: 1 })
    );
}

#[test]
fn malformed_bytes_after_the_terminator_do_not_matter() {
    assert_eq!(fetch_native_text(Some(b"fine\0\xff")), Ok("fine".to_string()));
}

#[test]
fn terminator_is_the_first_zero_byte() {
    assert_eq!(find_terminator(b"\0"), 0);
    assert_eq!(find_terminator(b"abc\0"), 3);
    assert_eq!(find_terminator(b"a\0b\0"), 1);
}
