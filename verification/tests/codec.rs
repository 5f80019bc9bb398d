use aghast::rpc::{
    encode_rpc, get_custom_id_rpc, parse_u64, u64_to_dec, FromCidArgs, FromCidArgsError,
};
use aghast::{db_to_id, id_to_db};

#[test]
fn encode_joins_with_colons() {
    let args = vec!["123".to_string(), "456".to_string()];
    assert_eq!(encode_rpc("open_form", &args), "open_form:123:456");
    let empty: Vec<String> = Vec::new();
    assert_eq!(encode_rpc("open_form", &empty), "open_form");
}

#[test]
fn decode_splits_on_colons() {
    let (name, args) = get_custom_id_rpc("form_submit:1:2").unwrap();
    assert_eq!(name, "form_submit");
    assert_eq!(args, vec!["1".to_string(), "2".to_string()]);
}

#[test]
fn decode_name_only() {
    let (name, args) = get_custom_id_rpc("just_a_name").unwrap();
    assert_eq!(name, "just_a_name");
    assert!(args.is_empty());
}

#[test]
fn decode_fails_only_on_empty() {
    assert!(get_custom_id_rpc("").is_err());
    assert!(get_custom_id_rpc(":").is_ok());
    let (name, args) = get_custom_id_rpc(":a").unwrap();
    assert_eq!(name, "");
    assert_eq!(args, vec!["a".to_string()]);
}

#[test]
fn round_trip_preserves_name_and_args() {
    let args = vec!["42".to_string(), "wumpus".to_string(), "".to_string()];
    let encoded = encode_rpc("report", &args);
    let (name, decoded) = get_custom_id_rpc(&encoded).unwrap();
    assert_eq!(name, "report");
    assert_eq!(decoded, args);
}

#[test]
fn typed_decode_arity_one() {
    let args = vec!["77".to_string()];
    let (v,): (u64,) = FromCidArgs::from_args(&args).unwrap();
    assert_eq!(v, 77);
}

#[test]
fn typed_decode_preserves_order() {
    let args = vec!["1".to_string(), "two".to_string(), "3".to_string()];
    let (a, b, c): (u64, String, u64) = FromCidArgs::from_args(&args).unwrap();
    assert_eq!(a, 1);
    assert_eq!(b, "two");
    assert_eq!(c, 3);
}

#[test]
fn typed_decode_too_few_reports_missing_count() {
    let args = vec!["1".to_string()];
    let r: Result<(u64, u64, u64), FromCidArgsError> = FromCidArgs::from_args(&args);
    assert_eq!(r.unwrap_err(), FromCidArgsError::RequiredCustomIdArgMissing(2));
}

#[test]
fn typed_decode_too_many_reports_both_counts() {
    let args = vec!["1".to_string(), "2".to_string(), "3".to_string()];
    let r: Result<(u64,), FromCidArgsError> = FromCidArgs::from_args(&args);
    assert_eq!(r.unwrap_err(), FromCidArgsError::ExtraCustomIdArgs(1, 3));
}

#[test]
fn typed_decode_count_mismatch_all_arities() {
    let empty: Vec<String> = Vec::new();
    let one = vec!["9".to_string()];
    let r1: Result<(u64,), FromCidArgsError> = FromCidArgs::from_args(&empty);
    assert_eq!(r1.unwrap_err(), FromCidArgsError::RequiredCustomIdArgMissing(1));
    let r2: Result<(u64, u64), FromCidArgsError> = FromCidArgs::from_args(&one);
    assert_eq!(r2.unwrap_err(), FromCidArgsError::RequiredCustomIdArgMissing(1));
    let r5: Result<(u64, u64, u64, u64, u64), FromCidArgsError> = FromCidArgs::from_args(&one);
    assert_eq!(r5.unwrap_err(), FromCidArgsError::RequiredCustomIdArgMissing(4));
    let r10: Result<(u64, u64, u64, u64, u64, u64, u64, u64, u64, u64), FromCidArgsError> =
        FromCidArgs::from_args(&empty);
    assert_eq!(r10.unwrap_err(), FromCidArgsError::RequiredCustomIdArgMissing(10));
    let eleven: Vec<String> = (0..11).map(|i: u32| i.to_string()).collect();
    let r10b: Result<(u64, u64, u64, u64, u64, u64, u64, u64, u64, u64), FromCidArgsError> =
        FromCidArgs::from_args(&eleven);
    assert_eq!(r10b.unwrap_err(), FromCidArgsError::ExtraCustomIdArgs(10, 11));
}

#[test]
fn typed_decode_success_at_arity_ten() {
    let ten: Vec<String> = (1..=10).map(|i: u32| i.to_string()).collect();
    let t: (u64, u64, u64, u64, u64, u64, u64, u64, u64, u64) =
        FromCidArgs::from_args(&ten).unwrap();
    assert_eq!(t, (1, 2, 3, 4, 5, 6, 7, 8, 9, 10));
}

#[test]
fn typed_decode_unconvertible_element() {
    let args = vec!["not_a_number".to_string()];
    let r: Result<(u64,), FromCidArgsError> = FromCidArgs::from_args(&args);
    assert_eq!(r.unwrap_err(), FromCidArgsError::UnconvertibleArgs(0));
}

#[test]
fn parse_u64_accepts_digits_only() {
    assert_eq!(parse_u64("0"), Some(0));
    assert_eq!(parse_u64("302094807046684672"), Some(302094807046684672));
    assert_eq!(parse_u64("18446744073709551615"), Some(u64::MAX));
    assert_eq!(parse_u64("18446744073709551616"), None);
    assert_eq!(parse_u64(""), None);
    assert_eq!(parse_u64("12a"), None);
    assert_eq!(parse_u64("-1"), None);
}

#[test]
fn u64_decimal_rendering_round_trips() {
    for n in [0u64, 7, 10, 99, 1000, u64::MAX] {
        let s = u64_to_dec(n);
        assert_eq!(s, n.to_string());
        assert_eq!(parse_u64(&s), Some(n));
    }
}

#[test]
fn identifier_codec_is_a_lossless_bit_reinterpretation() {
    assert_eq!(id_to_db(0), 0);
    assert_eq!(id_to_db(u64::MAX), -1);
    assert_eq!(id_to_db(1 << 63), i64::MIN);
    for id in [0u64, 1, 42, u64::MAX, 1 << 63, 0x7fff_ffff_ffff_ffff] {
        assert_eq!(db_to_id(id_to_db(id)), id);
    }
    for db in [0i64, -1, i64::MIN, i64::MAX, 123456789] {
        assert_eq!(id_to_db(db_to_id(db)), db);
    }
}
