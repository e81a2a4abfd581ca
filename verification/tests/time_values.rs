use rust_app::domain::types::time::{
    date_slash_of, now, seconds_since, Date, FromTimestamp, LocalDateTime, ParseFromRfc3339,
    ToRfc3339, ToTimestamp, YM,
};
use rust_app::util::{duration_date_string, duration_date_string_at};

fn ym(s: &str) -> Result<(i32, u32), String> {
    YM::try_from_str(s).map(|v| (v.year, v.month))
}

#[test]
fn ym_reads_year_and_month() {
    assert_eq!(ym("2024-05"), Ok((2024, 5)));
    assert_eq!(ym("2024-12"), Ok((2024, 12)));
    assert_eq!(ym("-5-01"), Err("Invalid YM format".to_string()));
    assert_eq!(ym("202405"), Err("Invalid YM format".to_string()));
    assert_eq!(ym("2024-05-01"), Err("Invalid YM format".to_string()));
    assert_eq!(ym("20x4-05"), Err("Invalid year: invalid digit found in string".to_string()));
    assert_eq!(ym("-05"), Err("Invalid year: cannot parse integer from empty string".to_string()));
    assert_eq!(ym("2024-"), Err("Invalid month: cannot parse integer from empty string".to_string()));
    assert_eq!(ym("2024-+"), Err("Invalid month: invalid digit found in string".to_string()));
    assert_eq!(ym("2024-13"), Err("Month must be between 1 and 12".to_string()));
    assert_eq!(ym("2024-00"), Err("Month must be between 1 and 12".to_string()));
    assert_eq!(
        ym("99999999999-01"),
        Err("Invalid year: number too large to fit in target type".to_string())
    );
}

#[test]
fn ym_text_reads_back() {
    for (y, m) in [(2024, 5), (0, 1), (9, 12), (12345, 7)] {
        let v = YM { year: y, month: m };
        let t = v.to_text();
        assert_eq!(t, format!("{:04}-{:02}", y, m));
        assert_eq!(ym(&t), Ok((y, m)));
    }
    assert_eq!(YM { year: 2024, month: 5 }.to_text(), "2024-05");
}

#[test]
fn ym_and_dates() {
    let d = YM { year: 2024, month: 2 }.to_date();
    assert_eq!((d.year(), d.month(), d.day()), (2024, 2, 1));
    let back = YM::from_date(&Date::from_ymd_opt(2023, 11, 30).unwrap());
    assert_eq!((back.year, back.month), (2023, 11));
}

#[test]
fn dates_follow_the_calendar() {
    assert!(Date::from_ymd_opt(2024, 2, 29).is_some());
    assert!(Date::from_ymd_opt(2023, 2, 29).is_none());
    assert!(Date::from_ymd_opt(1900, 2, 29).is_none());
    assert!(Date::from_ymd_opt(2000, 2, 29).is_some());
    assert!(Date::from_ymd_opt(2024, 4, 31).is_none());
    assert!(Date::from_ymd_opt(2024, 13, 1).is_none());
    assert!(Date::from_ymd_opt(2024, 1, 0).is_none());
}

#[test]
fn dates_are_read_and_written_as_iso_days() {
    let d = Date::parse_from_rfc3339("2024-03-09").unwrap();
    assert_eq!((d.year(), d.month(), d.day()), (2024, 3, 9));
    assert_eq!(d.to_rfc3339(), "2024-03-09");
    assert!(Date::parse_from_rfc3339("2024-02-30").is_err());
    assert!(Date::parse_from_rfc3339("yesterday").is_err());
    let far = Date::from_ymd_opt(12345, 1, 2).unwrap();
    assert_eq!(far.to_rfc3339(), "+12345-01-02");
}

#[test]
fn instants_from_timestamps_and_back() {
    let t = LocalDateTime::from_timestamp(1_700_000_000).unwrap();
    assert_eq!(t.to_timestamp(), 1_700_000_000);
    assert_eq!(t.subsec_nanos(), 0);
    assert!(LocalDateTime::from_timestamp(8_210_266_876_799).is_ok());
    assert!(LocalDateTime::from_timestamp(-8_334_601_228_800).is_ok());
    assert_eq!(LocalDateTime::from_timestamp(8_210_266_876_800).unwrap_err(), "Invalid timestamp");
    assert_eq!(LocalDateTime::from_timestamp(-8_334_601_228_801).unwrap_err(), "Invalid timestamp");
    assert_eq!(LocalDateTime::from_timestamp(i64::MIN).unwrap_err(), "Invalid timestamp");
    let p = LocalDateTime::parse_from_rfc3339("2024-01-02T03:04:05.25+09:00").unwrap();
    assert_eq!(p.subsec_nanos(), 250_000_000);
    let wall = p.to_timestamp() + p.offset_seconds() as i64;
    assert!((wall - (1_704_132_245 - 9 * 3600)).abs() < 86_400);
    assert!(LocalDateTime::parse_from_rfc3339("2024-01-02").is_err());
    let fixed = LocalDateTime::from_parts(0, 0, 32400).unwrap();
    assert_eq!(fixed.to_rfc3339(), "1970-01-01T09:00:00+09:00");
}

#[test]
fn seconds_between_instants_truncate_toward_zero() {
    let a = LocalDateTime::from_parts(100, 900_000_000, 0).unwrap();
    let b = LocalDateTime::from_parts(50, 0, 0).unwrap();
    assert_eq!(seconds_since(&a, &b), 50);
    assert_eq!(seconds_since(&b, &a), -50);
}

#[test]
fn elapsed_time_in_words() {
    let base = LocalDateTime::from_parts(1_700_000_000, 0, 0).unwrap();
    let at = |secs: i64| LocalDateTime::from_parts(1_700_000_000 + secs, 0, 0).unwrap();
    assert_eq!(duration_date_string_at(&at(59), &base), "たった今");
    assert_eq!(duration_date_string_at(&at(60), &base), "1分前");
    assert_eq!(duration_date_string_at(&at(3599), &base), "59分前");
    assert_eq!(duration_date_string_at(&at(3600), &base), "1時間前");
    assert_eq!(duration_date_string_at(&at(86399), &base), "23時間前");
    assert_eq!(duration_date_string_at(&at(86400), &base), date_slash_of(&base));
    assert_eq!(date_slash_of(&base), "2023/11/14");
    assert_eq!(date_slash_of(&LocalDateTime::from_parts(-1, 0, 0).unwrap()), "1969/12/31");
    assert_eq!(date_slash_of(&LocalDateTime::from_parts(951_782_400, 0, 0).unwrap()), "2000/02/29");
    assert_eq!(date_slash_of(&LocalDateTime::from_parts(951_782_399, 0, 32_400).unwrap()), "2000/02/29");
    assert_eq!(date_slash_of(&LocalDateTime::from_parts(951_782_400, 0, -3_600).unwrap()), "2000/02/28");
    assert_eq!(duration_date_string(&now()), "たった今");
}
