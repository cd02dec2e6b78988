use crypto::bignum::UBig;
use crypto::text::{
    format_number, hex_to_biguint, parse_biguint, parse_decimal, parse_reconstruct_shares_param,
    parse_shares_param, parse_verify_share_param, split,
};

fn n(v: u64) -> UBig {
    UBig::from_u64(v)
}

#[test]
fn parse_numbers() {
    assert_eq!(parse_biguint("1234").unwrap(), n(1234));
    assert_eq!(parse_biguint("0x1f").unwrap(), n(31));
    assert_eq!(parse_biguint("0XFF").unwrap(), n(255));
    assert_eq!(parse_biguint("+12").unwrap(), n(12));
    assert_eq!(parse_biguint("1_000").unwrap(), n(1000));
    assert_eq!(parse_biguint("").unwrap_err(), "cannot parse integer from empty string");
    assert_eq!(parse_biguint("0x").unwrap_err(), "cannot parse integer from empty string");
    assert_eq!(parse_biguint("12a").unwrap_err(), "invalid digit found in string");
    assert_eq!(parse_biguint("_1").unwrap_err(), "invalid digit found in string");
    assert_eq!(parse_biguint("++1").unwrap_err(), "invalid digit found in string");
    assert_eq!(parse_decimal("0x10").unwrap_err(), "invalid digit found in string");
    assert_eq!(hex_to_biguint("ff").unwrap(), n(255));
    assert_eq!(hex_to_biguint("0xff").unwrap(), n(255));
}

#[test]
fn format_numbers() {
    assert_eq!(format_number(&n(255), true), "0xff");
    assert_eq!(format_number(&n(255), false), "255");
    assert_eq!(format_number(&n(0), true), "0x0");
    assert_eq!(format_number(&n(0), false), "0");
    let big = parse_decimal("57896044618658097711785492504343953926634992332820282019728792003956564819949").unwrap();
    assert_eq!(
        format_number(&big, true),
        "0x7fffffffffffffffffffffffffffffffffffffffffffffffffffffffffffffed"
    );
}

#[test]
fn split_on_separator() {
    assert_eq!(split("1:2:3", ':'), vec!["1", "2", "3"]);
    assert_eq!(split(":a:", ':'), vec!["", "a", ""]);
    assert_eq!(split("", ':'), vec![""]);
}

#[test]
fn parse_verify_share() {
    let (i, s, t) = parse_verify_share_param("3:0x10:20").unwrap();
    assert_eq!(i, 3);
    assert_eq!(s, n(16));
    assert_eq!(t, n(20));
    assert_eq!(
        parse_verify_share_param("3:4").unwrap_err(),
        "share value must be in format index:s:t, receive: \"3:4\""
    );
    assert!(parse_verify_share_param("x:1:2")
        .unwrap_err()
        .starts_with("cannot parse index value x, error: "));
    assert_eq!(
        parse_verify_share_param("1:zz:2").unwrap_err(),
        "cannot parse s=zz of share=\"1:zz:2\" error: \"invalid digit found in string\""
    );
    assert_eq!(
        parse_verify_share_param("1:2:").unwrap_err(),
        "cannot parse t= of share=\"1:2:\" error: \"cannot parse integer from empty string\""
    );
}

#[test]
fn parse_reconstruct_share() {
    let (x, y) = parse_reconstruct_shares_param("2:0x2a").unwrap();
    assert_eq!(x, n(2));
    assert_eq!(y, n(42));
    assert_eq!(parse_reconstruct_shares_param("1").unwrap_err(), "cannot parse share param: \"1\"");
    assert_eq!(
        parse_reconstruct_shares_param("q:1").unwrap_err(),
        "cannot parse x=q of share=\"q:1\" error: \"invalid digit found in string\""
    );
}

#[test]
fn parse_decimal_share() {
    let (x, y) = parse_shares_param("5:1188").unwrap();
    assert_eq!(x, n(5));
    assert_eq!(y, n(1188));
    assert_eq!(parse_shares_param("1:2:3").unwrap_err(), "cannot parse share param: \"1:2:3\"");
    assert_eq!(
        parse_shares_param("0x1:2").unwrap_err(),
        "cannot parse x=0x1 of share=\"0x1:2\" . error: ParseBigIntError { kind: InvalidDigit }"
    );
    assert_eq!(
        parse_shares_param("1:").unwrap_err(),
        "cannot parse y= of share=\"1:\" . Error: ParseBigIntError { kind: Empty }"
    );
}

#[test]
fn parse_verify_share_index_error() {
    assert_eq!(
        parse_verify_share_param("x:1:2").unwrap_err(),
        "cannot parse index value x, error: ParseIntError { kind: InvalidDigit }"
    );
}
