use opencv::mat::{Mat, NativeResult};
use opencv::text::{decode_message, message_is_text};

#[test]
fn null_message_means_no_error() {
    let ret = NativeResult { error_msg: 0, result: 0x5000 };
    assert!(!ret.reports_error());
}

#[test]
fn nonnull_message_means_error() {
    assert!(NativeResult { error_msg: 1, result: 0 }.reports_error());
    assert!(NativeResult { error_msg: 0xdead_beef, result: 0 }.reports_error());
    assert!(NativeResult { error_msg: 0x7f00_0000_1000, result: 0 }.reports_error());
}

#[test]
fn message_with_zero_low_bits_is_not_an_error() {
    let ret = NativeResult { error_msg: 0x1_0000_0000, result: 0x77 };
    assert!(!ret.reports_error());
    match Mat::from_native_result(ret, Vec::new()) {
        Ok(m) => {
            assert_eq!(m.ptr, 0x77);
            assert!(m.owned);
        }
        Err(_) => panic!("expected a matrix"),
    }
}

#[test]
fn success_gives_owned_handle() {
    let ret = NativeResult { error_msg: 0, result: 0x1234_5678 };
    match Mat::from_native_result(ret, vec![0xff]) {
        Ok(m) => {
            assert_eq!(m.ptr, 0x1234_5678);
            assert!(m.owned);
        }
        Err(_) => panic!("expected a matrix"),
    }
}

#[test]
fn failure_gives_native_message() {
    let ret = NativeResult { error_msg: 0x10, result: 0x99 };
    match Mat::from_native_result(ret, b"bad size".to_vec()) {
        Ok(_) => panic!("expected an error"),
        Err(s) => assert_eq!(s, "bad size"),
    }
}

#[test]
fn failure_with_multibyte_message() {
    let ret = NativeResult { error_msg: 0x10, result: 0 };
    let bytes = "größe ≠ 3 😀".as_bytes().to_vec();
    match Mat::from_native_result(ret, bytes.clone()) {
        Ok(_) => panic!("expected an error"),
        Err(s) => {
            assert_eq!(s, "größe ≠ 3 😀");
            assert_eq!(s.into_bytes(), bytes);
        }
    }
}

#[test]
fn failure_with_empty_message() {
    let ret = NativeResult { error_msg: 0x10, result: 0 };
    match Mat::from_native_result(ret, Vec::new()) {
        Ok(_) => panic!("expected an error"),
        Err(s) => assert_eq!(s, ""),
    }
}

#[test]
fn decode_message_accepts_utf8() {
    assert_eq!(decode_message(b"abc".to_vec()), Some(String::from("abc")));
    assert_eq!(decode_message(vec![0xc3, 0xa9]), Some(String::from("é")));
}

#[test]
fn decode_message_rejects_malformed() {
    assert_eq!(decode_message(vec![0xff]), None);
    assert_eq!(decode_message(vec![0xc0, 0x80]), None);
    assert_eq!(decode_message(vec![0xed, 0xa0, 0x80]), None);
    assert_eq!(decode_message(vec![0xf4, 0x90, 0x80, 0x80]), None);
    assert_eq!(decode_message(vec![0xe2, 0x82]), None);
}

#[test]
fn message_is_text_matches_decode() {
    assert!(message_is_text(&b"ok".to_vec()));
    assert!(message_is_text(&Vec::new()));
    assert!(!message_is_text(&vec![0x80]));
    assert!(!message_is_text(&vec![0xc0, 0x80]));
}
