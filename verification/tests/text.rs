use webrender::text::{numbered, to_decimal};

#[test]
fn numbers_are_written_in_decimal() {
    assert_eq!(to_decimal(0), "0");
    assert_eq!(to_decimal(9), "9");
    assert_eq!(to_decimal(10), "10");
    assert_eq!(to_decimal(1234567890), "1234567890");
    assert_eq!(to_decimal(u64::MAX), "18446744073709551615");
}

#[test]
fn names_are_numbered() {
    assert_eq!(numbered("WRWorker#", 7), "WRWorker#7");
    assert_eq!(numbered("", 42), "42");
}
