use ledger_cli::status::{StatusCode, NO_ERROR};

#[test]
fn success_is_0x9000() {
    assert_eq!(NO_ERROR, 0x9000);
    assert!(StatusCode(0x9000).is_success());
    assert!(StatusCode(NO_ERROR).is_success());
}

#[test]
fn every_other_code_is_a_failure() {
    for code in 0..=u16::MAX {
        assert_eq!(StatusCode(code).is_success(), code == 0x9000);
    }
}

#[test]
fn from_bytes_is_big_endian() {
    assert_eq!(StatusCode::from_bytes(0x90, 0x00), StatusCode(0x9000));
    assert_eq!(StatusCode::from_bytes(0x6A, 0x82), StatusCode(0x6A82));
    assert_eq!(StatusCode::from_bytes(0x00, 0x90), StatusCode(0x0090));
    assert_eq!(StatusCode::from_bytes(0xFF, 0xFF), StatusCode(0xFFFF));
}

#[test]
fn from_bytes_agrees_with_std_on_all_words() {
    for code in 0..=u16::MAX {
        let [hi, lo] = code.to_be_bytes();
        assert_eq!(StatusCode::from_bytes(hi, lo).raw(), code);
    }
}

#[test]
fn unknown_codes_stay_distinct() {
    assert_ne!(StatusCode(0x6A82), StatusCode(0x6A80));
    assert_ne!(StatusCode(0x1234), StatusCode(0x1235));
    assert_eq!(StatusCode(0x1234).raw(), 0x1234);
}
