use tf_log_parser::date::{parse_date, DateTime};
use tf_log_parser::error::Error;
use tf_log_parser::num::{parse_centi, parse_i32, parse_u32};

#[test]
fn test_parse_date() {
    let dt = parse_date(b"08/06/2018 - 21:13:57").unwrap();
    assert_eq!(
        DateTime { year: 2018, month: 8, day: 6, hour: 21, minute: 13, second: 57 },
        dt
    );
}

#[test]
fn test_timestamp_differences() {
    let a = DateTime { year: 2018, month: 8, day: 6, hour: 21, minute: 13, second: 0 };
    let b = DateTime { year: 2018, month: 8, day: 6, hour: 21, minute: 13, second: 57 };
    assert_eq!(57, b.timestamp() - a.timestamp());
    let c = DateTime { year: 2018, month: 8, day: 6, hour: 23, minute: 59, second: 59 };
    let d = DateTime { year: 2018, month: 8, day: 7, hour: 0, minute: 0, second: 0 };
    assert_eq!(1, d.timestamp() - c.timestamp());
    // 2020 is a leap year: two whole days from the 28th of February to the 1st of March.
    let e = DateTime { year: 2020, month: 2, day: 28, hour: 12, minute: 0, second: 0 };
    let f = DateTime { year: 2020, month: 3, day: 1, hour: 12, minute: 0, second: 0 };
    assert_eq!(2 * 86400, f.timestamp() - e.timestamp());
}

#[test]
fn test_malformed_date_is_rejected() {
    assert_eq!(Err(Error::Malformed), parse_date(b"xx/06/2018 - 21:13:57"));
    assert_eq!(Err(Error::Malformed), parse_date(b"08/06/2018"));
}

#[test]
fn test_parse_centi_values() {
    assert_eq!(Some(150), parse_centi(b"1.5"));
    assert_eq!(Some(800), parse_centi(b"8.0"));
    assert_eq!(Some(1000), parse_centi(b"10"));
    assert_eq!(Some(123), parse_centi(b"1.23"));
    assert_eq!(Some(123), parse_centi(b"1.239"));
    assert_eq!(None, parse_centi(b"abc"));
    assert_eq!(None, parse_centi(b""));
}

#[test]
fn test_parse_integers() {
    assert_eq!(Some(80), parse_u32(b"80"));
    assert_eq!(None, parse_u32(b"80x"));
    assert_eq!(None, parse_u32(b"4294967296"));
    assert_eq!(Some(-12), parse_i32(b"-12"));
    assert_eq!(Some(2147483647), parse_i32(b"2147483647"));
    assert_eq!(None, parse_i32(b"2147483648"));
}
