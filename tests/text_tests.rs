use common_tests::calendar::{CalendarDate, LocalDateTime};
use common_tests::metrics::{export_directory, export_header, ExportRecord, Metrics};
use common_tests::text::decimal_text;

#[test]
fn decimal_text_renders_digits() {
    assert_eq!(decimal_text(0), "0");
    assert_eq!(decimal_text(7), "7");
    assert_eq!(decimal_text(10), "10");
    assert_eq!(decimal_text(1234567890), "1234567890");
    assert_eq!(decimal_text(u64::MAX), u64::MAX.to_string());
}

#[test]
fn calendar_date_checks_days() {
    assert!(CalendarDate::new(2024, 2, 29).is_some());
    assert!(CalendarDate::new(2023, 2, 29).is_none());
    assert!(CalendarDate::new(1900, 2, 29).is_none());
    assert!(CalendarDate::new(2000, 2, 29).is_some());
    assert!(CalendarDate::new(2024, 4, 31).is_none());
    assert!(CalendarDate::new(2024, 13, 1).is_none());
    assert!(CalendarDate::new(2024, 0, 1).is_none());
    assert!(CalendarDate::new(2024, 1, 0).is_none());
    assert!(CalendarDate::new(10000, 1, 1).is_none());
}

#[test]
fn local_date_time_checks_clock() {
    let d = CalendarDate::new(2025, 3, 9).unwrap();
    assert!(LocalDateTime::new(d, 23, 59, 59).is_some());
    assert!(LocalDateTime::new(d, 24, 0, 0).is_none());
    assert!(LocalDateTime::new(d, 0, 60, 0).is_none());
    assert!(LocalDateTime::new(d, 0, 0, 60).is_none());
}

#[test]
fn record_fields_render_timestamp() {
    let day = CalendarDate::new(2025, 3, 9).unwrap();
    let rec = ExportRecord { offset_s: 1, response_time_ms: 42, status: 200 };
    assert_eq!(rec.fields(&day), vec!["2025-03-09 00:00:01", "42", "200"]);
    let rec = ExportRecord { offset_s: 3723, response_time_ms: 0, status: 500 };
    assert_eq!(rec.fields(&day), vec!["2025-03-09 01:02:03", "0", "500"]);
    let rec = ExportRecord { offset_s: 86400 + 5, response_time_ms: 9, status: 200 };
    assert_eq!(rec.fields(&day)[0], "2025-03-09 00:00:05");
}

#[test]
fn header_and_directory() {
    assert_eq!(export_header(), vec!["timestamp", "response_time", "status"]);
    assert_eq!(export_directory(), "bi/data");
}

#[test]
fn export_file_name_pattern() {
    let m = Metrics::new(String::from("perf_test"));
    let day = CalendarDate::new(2025, 1, 7).unwrap();
    let now = LocalDateTime::new(day, 8, 5, 3).unwrap();
    assert_eq!(m.export_file_name(&now), "bi/data/perf_test-07-01-2025_08-05-03.csv");
}
