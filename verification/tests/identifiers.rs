//! The identifier types, their column conversions, and the text helpers
//! they parse and print with.
use credchain::database::types::{AccountId, OptPostId, PgU64, PostId};
use credchain::text;

#[test]
fn pg_u64_round_trips_through_bigint() {
    let v = PgU64::from(u64::MAX);
    let column: i64 = v.into();
    assert_eq!(column, -1);
    assert_eq!(PgU64::from(column), v);
    assert_eq!(u64::from(PgU64::from(7_u64)), 7);
}

#[test]
fn pg_u64_from_signed_wraps() {
    assert_eq!(PgU64::from(-1_i64).0, u64::MAX);
    assert_eq!(PgU64::from(-1_i32).0, u64::MAX);
    assert_eq!(PgU64::from(5_i32).0, 5);
}

#[test]
fn account_id_round_trips_through_integer() {
    let id = AccountId::from(u32::MAX);
    let column: i32 = id.into();
    assert_eq!(column, -1);
    assert_eq!(AccountId::from(column), id);
}

#[test]
fn post_id_round_trips_through_bigint() {
    let id = PostId::from(u64::MAX);
    let column: i64 = id.into();
    assert_eq!(column, -1);
    assert_eq!(PostId::from(column), id);
    assert_eq!(u64::from(PostId::from(9_u64)), 9);
}

#[test]
fn opt_post_id_from_column() {
    assert_eq!(OptPostId::from(None::<i64>), OptPostId(None));
    assert_eq!(OptPostId::from(Some(3_i64)), OptPostId(Some(PostId(3))));
}

#[test]
fn account_id_from_param() {
    assert_eq!(AccountId::from_param("42").unwrap().0, 42);
    assert_eq!(AccountId::from_param("+7").unwrap().0, 7);
    assert_eq!(AccountId::from_param("0").unwrap().0, 0);
    assert_eq!(AccountId::from_param("4294967295").unwrap().0, u32::MAX);
    assert!(AccountId::from_param("4294967296").is_err());
    assert!(AccountId::from_param("").is_err());
    assert!(AccountId::from_param("+").is_err());
    assert!(AccountId::from_param("12a").is_err());
    assert!(AccountId::from_param("-1").is_err());
}

#[test]
fn post_id_from_param() {
    assert_eq!(PostId::from_param("18446744073709551615").unwrap().0, u64::MAX);
    assert!(PostId::from_param("18446744073709551616").is_err());
    assert!(PostId::from_param(" 1").is_err());
}

#[test]
fn parse_matches_std() {
    for input in ["", "+", "0", "+42", "007", "4294967295", "4294967296", "1e3", "-5", "99x"] {
        assert_eq!(text::parse_u32(input), input.parse::<u32>().ok(), "input {input:?}");
        assert_eq!(text::parse_u64(input), input.parse::<u64>().ok(), "input {input:?}");
    }
    assert_eq!(
        text::parse_u64("18446744073709551615"),
        Some(u64::MAX),
    );
    assert_eq!(text::parse_u64("18446744073709551616"), None);
}

#[test]
fn decimal_formatting() {
    assert_eq!(text::u64_to_dec(0), "0");
    assert_eq!(text::u64_to_dec(7), "7");
    assert_eq!(text::u64_to_dec(1234567890), "1234567890");
    assert_eq!(text::u64_to_dec(u64::MAX), "18446744073709551615");
    assert_eq!(text::u64_to_two_dec(0), "00");
    assert_eq!(text::u64_to_two_dec(9), "09");
    assert_eq!(text::u64_to_two_dec(99), "99");
}

#[test]
fn equality_helpers() {
    assert!(text::bytes_eq(b"abc", b"abc"));
    assert!(!text::bytes_eq(b"abc", b"abd"));
    assert!(!text::bytes_eq(b"abc", b"ab"));
    assert!(text::str_eq("grüß", "grüß"));
    assert!(!text::str_eq("grüß", "gruss"));
    assert!(text::str_eq("", ""));
}
