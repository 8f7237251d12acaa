use chrono::Offset;
use dev_tool::time::analyze_datetime_format;
use dev_tool::time::convert_ms_timestamp;
use dev_tool::time::convert_timestamp;
use dev_tool::time::datetime_to_ms_timestamp;
use dev_tool::time::datetime_to_ms_timestamp_with_format;
use dev_tool::time::datetime_to_timestamp;
use dev_tool::time::datetime_to_timestamp_with_format;
use dev_tool::time::format_by_index;
use dev_tool::time::get_all_supported_formats;
use dev_tool::time::get_current_time;
use dev_tool::time::get_current_time_with_format;
use dev_tool::time::get_current_timestamp;
use dev_tool::time::get_current_ms_timestamp;
use dev_tool::time::infer_date_format;
use dev_tool::time::infer_time_format;
use dev_tool::time::ms_timestamp_to_datetime;
use dev_tool::time::ms_timestamp_to_datetime_with_format;
use dev_tool::time::parse_timestamp;
use dev_tool::time::timestamp_to_datetime;
use dev_tool::time::timestamp_to_datetime_with_format;
use dev_tool::time::validate_time_format;
use dev_tool::TimeLogic;

#[test]
fn full_datetime_to_timestamp() {
    assert_eq!(
        datetime_to_timestamp_with_format("2023-04-01 15:30:45", "%Y-%m-%d %H:%M:%S"),
        Ok(1_680_334_245)
    );
}

#[test]
fn date_only_heuristic_midnight_beijing() {
    assert_eq!(
        datetime_to_timestamp_with_format("2023/04/01", "%Y-%m-%d %H:%M:%S"),
        Ok(1_680_278_400)
    );
    assert_eq!(
        datetime_to_timestamp_with_format("2023/04/01", "%H:%M"),
        Ok(1_680_278_400)
    );
    assert_eq!(
        datetime_to_timestamp_with_format("2023-04-01", "%Y/%m/%d"),
        Ok(1_680_278_400)
    );
    assert_eq!(
        datetime_to_timestamp_with_format("2023@04@01", "%Y-%m-%d"),
        Ok(1_680_278_400)
    );
    assert_eq!(
        datetime_to_timestamp_with_format("2023年04月01日", "%Y-%m-%d"),
        Ok(1_680_278_400)
    );
}

#[test]
fn empty_format_is_rejected() {
    let err = validate_time_format("").unwrap_err();
    assert!(err.contains("empty"));
}

#[test]
fn validator_accepts_plain_formats() {
    assert_eq!(validate_time_format("%Y-%m-%d %H:%M:%S"), Ok(()));
    assert_eq!(validate_time_format("%Y/%m/%d"), Ok(()));
    assert_eq!(validate_time_format("%Y年%m月%d日"), Ok(()));
    assert_eq!(validate_time_format("%H:%M"), Ok(()));
}

#[test]
fn validator_names_the_bad_character() {
    assert_eq!(
        validate_time_format("%Q"),
        Err("invalid time-format character: Q".to_string())
    );
    assert_eq!(
        validate_time_format("abc"),
        Err("invalid time-format character: a".to_string())
    );
    // The sub-second canned formats fall outside the allowed set: '3'.
    assert_eq!(
        validate_time_format("%Y-%m-%d %H:%M:%S.%3f"),
        Err("invalid time-format character: 3".to_string())
    );
}

#[test]
fn validator_requires_a_specifier() {
    assert_eq!(
        validate_time_format("---"),
        Err("time format must contain one of %Y %y %m %d %H %M %S".to_string())
    );
    assert_eq!(
        validate_time_format("%f"),
        Err("time format must contain one of %Y %y %m %d %H %M %S".to_string())
    );
}

#[test]
fn validator_rejects_unrenderable_format() {
    // A trailing bare '%' is an error item for strftime.
    assert_eq!(validate_time_format("%Y%"), Err("invalid time format".to_string()));
}

#[test]
fn parse_timestamp_accepts_decimal_i64() {
    assert_eq!(parse_timestamp("123"), Ok(123));
    assert_eq!(parse_timestamp("-5"), Ok(-5));
    assert_eq!(parse_timestamp("+7"), Ok(7));
    assert_eq!(parse_timestamp("000123"), Ok(123));
    assert_eq!(parse_timestamp("9223372036854775807"), Ok(i64::MAX));
    assert_eq!(parse_timestamp("-9223372036854775808"), Ok(i64::MIN));
}

#[test]
fn parse_timestamp_rejects_everything_else() {
    assert_eq!(parse_timestamp(""), Err("invalid timestamp"));
    assert_eq!(parse_timestamp("+"), Err("invalid timestamp"));
    assert_eq!(parse_timestamp("12a"), Err("invalid timestamp"));
    assert_eq!(parse_timestamp(" 12"), Err("invalid timestamp"));
    assert_eq!(parse_timestamp("9223372036854775808"), Err("invalid timestamp"));
    assert_eq!(parse_timestamp("-9223372036854775809"), Err("invalid timestamp"));
    assert_eq!(parse_timestamp("1.5"), Err("invalid timestamp"));
}

#[test]
fn timestamp_rendering_round_trips_subseconds() {
    let text = ms_timestamp_to_datetime(1_680_334_245_123).unwrap();
    assert!(text.ends_with(".123"));
    let plain = timestamp_to_datetime(1_680_334_245).unwrap();
    assert!(!plain.is_empty());
}

#[test]
fn negative_millisecond_timestamps() {
    assert_eq!(ms_timestamp_to_datetime(-1500), None);
    assert!(ms_timestamp_to_datetime(-1000).is_some());
    assert!(ms_timestamp_to_datetime_with_format(-1, "%Y-%m-%d").is_none());
}

#[test]
fn out_of_range_timestamps_are_refused() {
    assert_eq!(timestamp_to_datetime(i64::MAX), None);
    assert_eq!(timestamp_to_datetime_with_format(i64::MIN, "%Y-%m-%d"), None);
    assert!(timestamp_to_datetime_with_format(0, "%Y-%m-%d %H:%M:%S").is_some());
}

#[test]
fn full_shape_walks_the_canned_table() {
    // Matches the hours-and-minutes canned format, not the default.
    assert_eq!(
        datetime_to_timestamp_with_format("2023-04-01 15:30", "%Y-%m-%d %H:%M:%S"),
        Ok(1_680_334_200)
    );
    // Sub-second text only matches the canned '%3f' entries.
    assert_eq!(
        datetime_to_ms_timestamp_with_format("2023-04-01 15:30:45.123", "%Y-%m-%d %H:%M:%S"),
        Ok(1_680_334_245_123)
    );
}

#[test]
fn millisecond_conversion_scales_seconds() {
    assert_eq!(
        datetime_to_ms_timestamp_with_format("2023-04-01 15:30:45", "%Y-%m-%d %H:%M:%S"),
        Ok(1_680_334_245_000)
    );
    assert_eq!(datetime_to_ms_timestamp("2023/04/01"), Ok(1_680_278_400_000));
    assert_eq!(datetime_to_timestamp("2023-04-01 15:30:45"), Ok(1_680_334_245));
}

#[test]
fn time_only_uses_todays_date() {
    let ts = datetime_to_timestamp_with_format("15:30", "%Y-%m-%d %H:%M:%S").unwrap();
    let now = parse_timestamp(&get_current_timestamp()).unwrap();
    // Today's 15:30 Beijing time lies within a day and a half of now.
    assert!((ts - now).abs() < 36 * 3600);
}

#[test]
fn total_failure_names_format_and_example() {
    let err =
        datetime_to_timestamp_with_format("2023-13-99", "%Y-%m-%d %H:%M:%S").unwrap_err();
    assert_eq!(
        err,
        "invalid date format, expected \"%Y-%m-%d %H:%M:%S\" like \"2023-04-01\""
    );
    let err = datetime_to_timestamp_with_format("99:99", "%H:%M").unwrap_err();
    assert_eq!(err, "invalid time format, expected \"%H:%M\" like \"15:30:45\"");
    let err = datetime_to_timestamp_with_format("9999", "%H").unwrap_err();
    assert_eq!(
        err,
        "invalid datetime format, expected \"%H\" like \"2023-04-01 15:30:45\""
    );
}

#[test]
fn now_round_trips_under_the_beijing_rule() {
    let text = get_current_time_with_format("%Y-%m-%d %H:%M:%S");
    let ts = datetime_to_timestamp_with_format(&text, "%Y-%m-%d %H:%M:%S").unwrap();
    let now = parse_timestamp(&get_current_timestamp()).unwrap();
    let local_offset = chrono::Local::now().offset().fix().local_minus_utc() as i64;
    let expected = now + local_offset - 8 * 3600;
    assert!((ts - expected).abs() <= 1, "ts={ts} expected={expected}");
}

#[test]
fn current_time_is_rendered() {
    assert!(!get_current_time().is_empty());
    assert!(!get_current_time_with_format("%Y").is_empty());
    // An unrenderable format yields the empty text.
    assert_eq!(get_current_time_with_format("%Y%"), "");
}

#[test]
fn current_timestamps_look_sane() {
    let s = parse_timestamp(&get_current_timestamp()).unwrap();
    let ms = parse_timestamp(&get_current_ms_timestamp()).unwrap();
    assert!(s > 1_600_000_000);
    assert!((ms / 1000 - s).abs() <= 2);
}

#[test]
fn canned_table_is_fixed() {
    let formats = get_all_supported_formats();
    assert_eq!(formats.len(), 18);
    assert_eq!(formats[0], "%Y-%m-%d %H:%M:%S");
    assert_eq!(formats[2], "%Y年%m月%d日 %H:%M:%S");
    assert_eq!(formats[9], "%H:%M");
    assert_eq!(formats[17], "%Y@%m@%d %H:%M:%S.%3f");
}

#[test]
fn index_lookup_falls_back_to_default() {
    assert_eq!(format_by_index(0), "%Y-%m-%d %H:%M:%S");
    assert_eq!(format_by_index(9), "%H:%M");
    assert_eq!(format_by_index(17), "%Y@%m@%d %H:%M:%S.%3f");
    assert_eq!(format_by_index(-1), "%Y-%m-%d %H:%M:%S");
    assert_eq!(format_by_index(18), "%Y-%m-%d %H:%M:%S");
}

#[test]
fn shape_classification() {
    assert_eq!(analyze_datetime_format("2023-04-01"), (true, false, true, false, false));
    assert_eq!(analyze_datetime_format("15:30"), (false, true, false, true, false));
    assert_eq!(
        analyze_datetime_format("2023-04-01 15:30:45"),
        (true, true, false, false, true)
    );
    assert_eq!(analyze_datetime_format("hello"), (false, false, false, false, false));
}

#[test]
fn format_inference() {
    assert_eq!(infer_date_format("2023-04-01"), "%Y-%m-%d");
    assert_eq!(infer_date_format("2023/04/01"), "%Y/%m/%d");
    assert_eq!(infer_date_format("2023@04@01"), "%Y@%m@%d");
    assert_eq!(infer_date_format("2023年04月01日"), "%Y年%m月%d日");
    assert_eq!(infer_date_format("x"), "%Y-%m-%d");
    assert_eq!(infer_time_format("15:30"), "%H:%M");
    assert_eq!(infer_time_format("15:30:45"), "%H:%M:%S");
}

#[test]
fn string_timestamp_conversions() {
    assert_eq!(convert_timestamp("abc"), "Invalid timestamp");
    assert_eq!(convert_timestamp(&i64::MAX.to_string()), "Invalid timestamp");
    let rendered = convert_timestamp("1680334245");
    assert!(!rendered.is_empty());
    assert_ne!(rendered, "Invalid timestamp");
    assert_eq!(convert_ms_timestamp("xyz"), "Invalid timestamp");
    assert_eq!(convert_ms_timestamp("-1500"), "Invalid timestamp");
    assert!(convert_ms_timestamp("1680334245123").ends_with(".123"));
}

#[test]
fn logic_converts_with_stored_format() {
    let logic = TimeLogic::new();
    assert_eq!(logic.convert_to_timestamp("   "), "please enter a datetime");
    assert_eq!(
        logic.convert_to_timestamp("2023-04-01 15:30:45"),
        "seconds timestamp: 1680334245"
    );
    assert_eq!(
        logic.convert_to_ms_timestamp("2023-04-01 15:30:45"),
        "milliseconds timestamp: 1680334245000"
    );
    let failed = logic.convert_to_timestamp("blah");
    assert!(failed.starts_with("conversion failed: "));
    assert!(!logic.get_current_time().is_empty());
}

#[test]
fn blank_detection_covers_unicode_whitespace() {
    let logic = TimeLogic::new();
    assert_eq!(logic.convert_to_timestamp("\u{000B}"), "please enter a datetime");
    assert_eq!(
        logic.convert_to_ms_timestamp("\u{3000}\u{00A0} "),
        "please enter a datetime"
    );
}

#[test]
fn logic_setter_validates() {
    let mut logic = TimeLogic::new();
    assert_eq!(logic.set_time_format("%Y/%m/%d %H:%M:%S".to_string()), Ok(()));
    assert_eq!(
        logic.convert_to_timestamp("2023/04/01 15:30:45"),
        "seconds timestamp: 1680334245"
    );
    let err = logic.set_time_format("%Q".to_string()).unwrap_err();
    assert_eq!(err, "invalid time-format character: Q");
    // The stored format is unchanged after a rejected set.
    assert_eq!(
        logic.convert_to_timestamp("2023/04/01 15:30:45"),
        "seconds timestamp: 1680334245"
    );
}
