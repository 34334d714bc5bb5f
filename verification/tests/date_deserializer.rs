use databend_query::calendar::{uniform_date, CalendarDate};
use databend_query::date_deserializer::{check_date, parse_date_text, DateDeserializer, JsonValue};
use databend_query::error::ErrorCode;
use databend_query::values::{Column, Scalar};

fn date(y: i32, m: u32, d: u32) -> CalendarDate {
    CalendarDate::from_ymd_opt(y, m, d).unwrap()
}

#[test]
fn uniform_date_counts_days_from_epoch() {
    assert_eq!(uniform_date(date(1970, 1, 1)), 0);
    assert_eq!(uniform_date(date(1970, 1, 2)), 1);
    assert_eq!(uniform_date(date(1969, 12, 31)), -1);
    assert_eq!(uniform_date(date(2000, 1, 1)), 10957);
    assert_eq!(uniform_date(date(2000, 3, 1)), 11017);
    assert_eq!(uniform_date(date(1000, 1, 1)), -354285);
    assert_eq!(uniform_date(date(9999, 12, 31)), 2932896);
    assert_eq!(uniform_date(date(1, 1, 1)), -719162);
    assert_eq!(uniform_date(date(0, 1, 1)), -719528);
}

#[test]
fn uniform_date_consecutive_days() {
    // across a month end, a leap day and a year end
    assert_eq!(uniform_date(date(2024, 2, 29)) + 1, uniform_date(date(2024, 3, 1)));
    assert_eq!(uniform_date(date(2023, 2, 28)) + 1, uniform_date(date(2023, 3, 1)));
    assert_eq!(uniform_date(date(1999, 12, 31)) + 1, uniform_date(date(2000, 1, 1)));
    assert_eq!(uniform_date(date(1900, 2, 28)) + 1, uniform_date(date(1900, 3, 1)));
}

#[test]
fn calendar_date_validity() {
    assert!(CalendarDate::from_ymd_opt(2024, 2, 29).is_some());
    assert!(CalendarDate::from_ymd_opt(2023, 2, 29).is_none());
    assert!(CalendarDate::from_ymd_opt(1900, 2, 29).is_none());
    assert!(CalendarDate::from_ymd_opt(2000, 2, 29).is_some());
    assert!(CalendarDate::from_ymd_opt(2023, 4, 31).is_none());
    assert!(CalendarDate::from_ymd_opt(2023, 13, 1).is_none());
    assert!(CalendarDate::from_ymd_opt(2023, 0, 1).is_none());
    assert!(CalendarDate::from_ymd_opt(2023, 1, 0).is_none());
    assert!(CalendarDate::from_ymd_opt(262143, 1, 1).is_none());
}

#[test]
fn parse_date_text_accepts_dates_and_times() {
    assert_eq!(parse_date_text(b"2023-03-15"), Ok(date(2023, 3, 15)));
    assert_eq!(parse_date_text(b"2024-02-29"), Ok(date(2024, 2, 29)));
    assert_eq!(parse_date_text(b"2023-03-15 10:20:30"), Ok(date(2023, 3, 15)));
    assert_eq!(parse_date_text(b"2023-03-15T23:59:59.123456"), Ok(date(2023, 3, 15)));
}

#[test]
fn parse_date_text_rejects_malformed_text() {
    let err = Err(ErrorCode::BadBytes("Cannot parse value to Date type".to_string()));
    assert_eq!(parse_date_text(b"2023-02-29"), err);
    assert_eq!(parse_date_text(b"2023-3-15"), err);
    assert_eq!(parse_date_text(b"20230315"), err);
    assert_eq!(parse_date_text(b"2023-03-15 24:00:00"), err);
    assert_eq!(parse_date_text(b"2023-03-15 10:20"), err);
    assert_eq!(parse_date_text(b"2023-03-15 10:20:30."), err);
    assert_eq!(parse_date_text(b"2023-03-15x"), err);
    assert_eq!(parse_date_text(b""), err);
}

#[test]
fn check_date_range() {
    assert_eq!(check_date(-354285), Ok(-354285));
    assert_eq!(check_date(2932896), Ok(2932896));
    assert_eq!(check_date(2932897), Err("date is out of range".to_string()));
    assert_eq!(check_date(-354286), Err("date is out of range".to_string()));
}

#[test]
fn with_capacity_is_empty() {
    let d = DateDeserializer::with_capacity(16);
    assert_eq!(d.len(), 0);
    assert!(d.buffer.is_empty());
    assert_eq!(d.memory_size(), 0);
}

#[test]
fn de_binary_reads_little_endian_and_advances() {
    let mut d = DateDeserializer::with_capacity(4);
    let bytes: Vec<u8> = vec![1, 0, 0, 0, 0xff, 0xff, 0xff, 0xff, 9];
    let mut reader: &[u8] = &bytes;
    assert_eq!(d.de_binary(&mut reader), Ok(()));
    assert_eq!(reader, &[0xff, 0xff, 0xff, 0xff, 9]);
    assert_eq!(d.de_binary(&mut reader), Ok(()));
    assert_eq!(reader, &[9]);
    assert_eq!(
        d.de_binary(&mut reader),
        Err(ErrorCode::Io("failed to fill whole buffer".to_string()))
    );
    assert_eq!(reader, &[9]);
    assert_eq!(d.builder, vec![1, -1]);
    assert_eq!(d.len(), 2);
    assert_eq!(d.memory_size(), 8);
}

#[test]
fn de_default_adds_day_zero() {
    let mut d = DateDeserializer::with_capacity(1);
    d.de_default();
    assert_eq!(d.builder, vec![0]);
}

#[test]
fn de_fixed_binary_batch_reads_rows() {
    let mut d = DateDeserializer::with_capacity(4);
    let bytes: Vec<u8> = vec![
        1, 0, 0, 0, 7, //
        0, 1, 0, 0, 7, //
        0, 0, 0, 0x80, 7,
    ];
    assert_eq!(d.de_fixed_binary_batch(&bytes, 5, 3), Ok(()));
    assert_eq!(d.builder, vec![1, 256, i32::MIN]);
}

#[test]
fn de_fixed_binary_batch_stops_at_short_row() {
    let mut d = DateDeserializer::with_capacity(4);
    let bytes: Vec<u8> = vec![2, 0, 0, 0, 3, 0, 0];
    assert_eq!(
        d.de_fixed_binary_batch(&bytes, 4, 2),
        Err(ErrorCode::Io("failed to fill whole buffer".to_string()))
    );
    assert_eq!(d.builder, vec![2]);
}

#[test]
fn de_json_reads_date_strings() {
    let mut d = DateDeserializer::with_capacity(4);
    assert_eq!(d.de_json(&JsonValue::String("1970-01-02".to_string())), Ok(()));
    assert_eq!(d.de_json(&JsonValue::String("2000-01-01 12:00:00".to_string())), Ok(()));
    assert_eq!(d.builder, vec![1, 10957]);
    assert_eq!(
        d.de_json(&JsonValue::Number("1".to_string())),
        Err(ErrorCode::Internal("Incorrect string value".to_string()))
    );
    assert_eq!(
        d.de_json(&JsonValue::String("not a date".to_string())),
        Err(ErrorCode::BadBytes("Cannot parse value to Date type".to_string()))
    );
    assert_eq!(d.builder, vec![1, 10957]);
}

#[test]
fn append_then_pop_gives_the_value_back() {
    let mut d = DateDeserializer::with_capacity(4);
    assert_eq!(d.append_data_value(Scalar::Date(19000)), Ok(()));
    assert_eq!(d.pop_data_value(), Ok(Scalar::Date(19000)));
    assert_eq!(d.len(), 0);
    assert_eq!(
        d.pop_data_value(),
        Err(ErrorCode::Internal("Date column is empty when pop data value".to_string()))
    );
}

#[test]
fn append_rejects_other_values_and_out_of_range_dates() {
    let mut d = DateDeserializer::with_capacity(4);
    assert_eq!(
        d.append_data_value(Scalar::Boolean(true)),
        Err(ErrorCode::Internal("Unable to get date value".to_string()))
    );
    assert_eq!(
        d.append_data_value(Scalar::Date(3000000)),
        Err(ErrorCode::Internal("date is out of range".to_string()))
    );
    assert_eq!(d.len(), 0);
}

#[test]
fn finish_to_column_hands_over_values() {
    let mut d = DateDeserializer::with_capacity(4);
    d.de_default();
    assert_eq!(d.append_data_value(Scalar::Date(-5)), Ok(()));
    assert_eq!(d.finish_to_column(), Column::Date(vec![0, -5]));
    assert_eq!(d.len(), 0);
    assert_eq!(d.finish_to_column(), Column::Date(vec![]));
}

#[test]
fn calendar_year_range() {
    assert!(CalendarDate::from_ymd_opt(262142, 12, 31).is_some());
    assert!(CalendarDate::from_ymd_opt(-262143, 1, 1).is_some());
    assert!(CalendarDate::from_ymd_opt(-262144, 12, 31).is_none());
    assert_eq!(uniform_date(date(262142, 12, 31)), 95026236);
    assert_eq!(uniform_date(date(-262143, 1, 1)), -96465292);
}

#[test]
fn error_message_is_kept() {
    let e = ErrorCode::Io("failed to fill whole buffer".to_string());
    assert_eq!(e.message(), "failed to fill whole buffer");
}

#[test]
fn day_numbers_count_the_days_between() {
    assert_eq!(uniform_date(date(2000, 3, 1)) - uniform_date(date(1999, 3, 1)), 366);
    assert_eq!(uniform_date(date(2001, 3, 1)) - uniform_date(date(2000, 3, 1)), 365);
    assert!(uniform_date(date(2023, 12, 31)) < uniform_date(date(2024, 1, 1)));
}
