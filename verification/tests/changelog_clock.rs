use nearsend::changelog::parse_changelog;
use nearsend::clock::{date_label, format_clock_time, format_date_time, format_timestamp, CalendarDate, LocalDateTime};

#[test]
fn changelog_sections() {
    let src = "# NearSend\n## 说明\n- ignored\n## v1.2.0\n- 新增分享\n  - 修复问题  \n## v1.1.0\n## v1.0.0\n- 初版\n";
    let sections = parse_changelog(src);
    assert_eq!(sections.len(), 2);
    assert_eq!(sections[0].version, "v1.2.0");
    assert_eq!(sections[0].items, vec!["新增分享".to_string(), "修复问题".to_string()]);
    assert_eq!(sections[1].version, "v1.0.0");
    assert_eq!(sections[1].items, vec!["初版".to_string()]);
    assert!(parse_changelog("").is_empty());
}

fn day(year: i32, month: u32, d: u32) -> CalendarDate {
    CalendarDate { year, month, day: d }
}

#[test]
fn day_labels() {
    let today = day(2024, 3, 1);
    let yesterday = Some(day(2024, 2, 29));
    assert_eq!(date_label(Some(today), today, yesterday), "今天");
    assert_eq!(date_label(Some(day(2024, 2, 29)), today, yesterday), "昨天");
    assert_eq!(date_label(Some(day(2024, 1, 5)), today, yesterday), "1月5日");
    assert_eq!(date_label(Some(day(2023, 12, 31)), today, yesterday), "2023年12月31日");
    assert_eq!(date_label(None, today, yesterday), "更早");
}

#[test]
fn times() {
    let t = LocalDateTime { date: day(2024, 3, 1), hour: 9, minute: 5 };
    assert_eq!(format_date_time(Some(t)), "2024/3/1 09:05");
    assert_eq!(format_date_time(None), "-");
    assert_eq!(format_clock_time(Some(t)), "09:05");
    let s = format_timestamp(0);
    assert!(s.starts_with("1970/1/1") || s.starts_with("1969/12/31"));
}
