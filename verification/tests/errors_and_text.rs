use rust_app::errors::{not_found_to_none, AppError, Kind};
use rust_app::text::{
    int_error_text, nat_to_string, padded_int_string, padded_nat_string, parse_int,
    split_once_exact, str_equal, strip_prefix, zero_string, IntErrorKind,
};

#[test]
fn kind_names_are_variant_names() {
    assert_eq!(Kind::BadRequest.name(), "BadRequest");
    assert_eq!(Kind::Unauthorized.name(), "Unauthorized");
    assert_eq!(Kind::Forbidden.name(), "Forbidden");
    assert_eq!(Kind::NotFound.name(), "NotFound");
    assert_eq!(Kind::Duplicate.name(), "Duplicate");
    assert_eq!(Kind::Internal.name(), "Internal");
}

#[test]
fn error_builders_fill_their_fields() {
    let e = Kind::BadRequest.with("bad".to_string());
    assert_eq!(e.kind, Kind::BadRequest);
    assert_eq!(e.msg.as_deref(), Some("bad"));
    assert_eq!(e.src, None);

    let e = Kind::Internal.from_src("io failed".to_string());
    assert_eq!(e.msg, None);
    assert_eq!(e.src.as_deref(), Some("io failed"));

    let e = Kind::NotFound.into_err();
    assert_eq!((e.kind, e.msg, e.src), (Kind::NotFound, None, None));

    let e = Kind::Duplicate.default();
    assert_eq!((e.kind, e.msg, e.src), (Kind::Duplicate, None, None));

    let e = Kind::BadRequest.with("m".to_string()).with_src("s".to_string());
    assert_eq!(e.msg.as_deref(), Some("m"));
    assert_eq!(e.src.as_deref(), Some("s"));
}

#[test]
fn error_text_prefers_message_then_source_then_kind() {
    let e = Kind::BadRequest.with("m".to_string()).with_src("s".to_string());
    assert_eq!(e.text(), "m");
    let e = Kind::Internal.from_src("s".to_string());
    assert_eq!(e.text(), "s");
    let e = Kind::Forbidden.into_err();
    assert_eq!(e.text(), "Forbidden");
}

#[test]
fn duplicate_copies_every_field() {
    let e = AppError { kind: Kind::Internal, msg: Some("a".to_string()), src: Some("b".to_string()) };
    let d = e.duplicate();
    assert_eq!(d.kind, Kind::Internal);
    assert_eq!(d.msg.as_deref(), Some("a"));
    assert_eq!(d.src.as_deref(), Some("b"));
}

#[test]
fn not_found_becomes_none_and_others_pass() {
    let r: Result<u32, AppError> = Ok(3);
    assert!(matches!(not_found_to_none(r), Ok(Some(3))));
    let r: Result<u32, AppError> = Err(Kind::NotFound.into_err());
    assert!(matches!(not_found_to_none(r), Ok(None)));
    let r: Result<u32, AppError> = Err(Kind::Internal.with("x".to_string()));
    match not_found_to_none(r) {
        Err(e) => {
            assert_eq!(e.kind, Kind::Internal);
            assert_eq!(e.msg.as_deref(), Some("x"));
        }
        Ok(_) => panic!("expected the error to pass"),
    }
}

#[test]
fn numbers_are_written_in_decimal() {
    assert_eq!(nat_to_string(0), "0");
    assert_eq!(nat_to_string(7), "7");
    assert_eq!(nat_to_string(1200), "1200");
    assert_eq!(nat_to_string(u64::MAX), u64::MAX.to_string());
    assert_eq!(zero_string(3), "000");
    assert_eq!(zero_string(0), "");
}

#[test]
fn padding_matches_rust_formatting() {
    assert_eq!(padded_nat_string(7, 2), format!("{:02}", 7));
    assert_eq!(padded_nat_string(123, 2), format!("{:02}", 123));
    assert_eq!(padded_nat_string(5, 4), "0005");
    assert_eq!(padded_int_string(-5, 4), format!("{:04}", -5));
    assert_eq!(padded_int_string(-12345, 4), format!("{:04}", -12345));
    assert_eq!(padded_int_string(2024, 4), "2024");
}

#[test]
fn parse_int_follows_from_str() {
    assert_eq!(parse_int("2024", true, -1000000, 1000000), Ok(2024));
    assert_eq!(parse_int("+12", false, 0, 255), Ok(12));
    assert_eq!(parse_int("-7", true, -128, 127), Ok(-7));
    assert_eq!(parse_int("", true, -128, 127), Err(IntErrorKind::Empty));
    assert_eq!(parse_int("-", true, -128, 127), Err(IntErrorKind::InvalidDigit));
    assert_eq!(parse_int("+", false, 0, 255), Err(IntErrorKind::InvalidDigit));
    assert_eq!(parse_int("1a", false, 0, 255), Err(IntErrorKind::InvalidDigit));
    assert_eq!(parse_int("-1", false, 0, 255), Err(IntErrorKind::InvalidDigit));
    assert_eq!(parse_int("256", false, 0, 255), Err(IntErrorKind::PosOverflow));
    assert_eq!(parse_int("-129", true, -128, 127), Err(IntErrorKind::NegOverflow));
    assert_eq!("256".parse::<u8>().unwrap_err().to_string(), int_error_text(IntErrorKind::PosOverflow));
    assert_eq!("".parse::<u8>().unwrap_err().to_string(), int_error_text(IntErrorKind::Empty));
    assert_eq!("x".parse::<u8>().unwrap_err().to_string(), int_error_text(IntErrorKind::InvalidDigit));
    assert_eq!(
        "-129".parse::<i8>().unwrap_err().to_string(),
        int_error_text(IntErrorKind::NegOverflow)
    );
}

#[test]
fn split_once_needs_exactly_one_separator() {
    assert_eq!(split_once_exact("2024-05", '-'), Some(("2024", "05")));
    assert_eq!(split_once_exact("2024", '-'), None);
    assert_eq!(split_once_exact("2024-05-01", '-'), None);
    assert_eq!(split_once_exact("-", '-'), Some(("", "")));
}

#[test]
fn prefixes_and_equality() {
    assert_eq!(strip_prefix("Bearer abc", "Bearer "), Some("abc"));
    assert_eq!(strip_prefix("Bear", "Bearer "), None);
    assert_eq!(strip_prefix("bearer abc", "Bearer "), None);
    assert!(str_equal("男性", "男性"));
    assert!(!str_equal("a", "ab"));
}
