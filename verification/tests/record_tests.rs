use attendance_report::calendar::Date;
use attendance_report::record::{
    decode_date, decode_row, decode_rows, record_is_usable, retain_usable, RawRow, Record,
    RowError,
};

fn row(person: &str, date: Option<&str>, status: &str) -> RawRow {
    RawRow {
        person: person.to_string(),
        department: "研发部".to_string(),
        date: date.map(|d| d.to_string()),
        attendance_time: "08:45".to_string(),
        clock_time: "08:40".to_string(),
        clock_status: status.to_string(),
    }
}

fn record(date: Option<Date>, clock_time: &str, status: &str) -> Record {
    Record {
        person: "张三".to_string(),
        department: "研发部".to_string(),
        date,
        attendance_time: "08:45".to_string(),
        clock_time: clock_time.to_string(),
        clock_status: status.to_string(),
    }
}

#[test]
fn decode_date_takes_a_missing_or_blank_cell_for_no_date() {
    assert_eq!(decode_date(&None), Ok(None));
    assert_eq!(decode_date(&Some(String::new())), Ok(None));
    assert_eq!(decode_date(&Some("   ".to_string())), Ok(None));
    assert_eq!(decode_date(&Some(" \t\n".to_string())), Ok(None));
    assert_eq!(decode_date(&Some("\u{3000}".to_string())), Ok(None));
}

#[test]
fn decode_date_reads_a_date() {
    assert_eq!(decode_date(&Some("2024-05-10".to_string())), Ok(Date::from_ymd(2024, 5, 10)));
    assert!(Date::from_ymd(2024, 5, 10).is_some());
}

#[test]
fn decode_date_reports_text_that_is_no_date() {
    assert_eq!(decode_date(&Some("2024/05/10".to_string())), Err(RowError::MalformedDate));
    assert_eq!(decode_date(&Some("昨天".to_string())), Err(RowError::MalformedDate));
    assert_eq!(decode_date(&Some("2024-02-30".to_string())), Err(RowError::MalformedDate));
}

#[test]
fn decode_row_keeps_the_cells_of_the_row() {
    let decoded = decode_row(&row("张三", Some("2024-05-10"), "正常")).expect("a record");
    assert_eq!(decoded.person, "张三");
    assert_eq!(decoded.department, "研发部");
    assert_eq!(decoded.date, Date::from_ymd(2024, 5, 10));
    assert_eq!(decoded.attendance_time, "08:45");
    assert_eq!(decoded.clock_time, "08:40");
    assert_eq!(decoded.clock_status, "正常");
    assert_eq!(decode_row(&row("张三", Some("x"), "正常")), Err(RowError::MalformedDate));
    assert_eq!(decode_row(&row("张三", None, "正常")).expect("a record").date, None);
}

#[test]
fn decode_rows_leaves_out_the_rows_with_a_malformed_date() {
    let rows = vec![
        row("甲", Some("2024-05-10"), "正常"),
        row("乙", Some("not a date"), "正常"),
        row("丙", Some(""), "正常"),
        row("丁", None, "正常"),
        row("戊", Some("2024-05-11"), "正常"),
    ];
    let records = decode_rows(&rows);
    let people: Vec<&str> = records.iter().map(|r| r.person.as_str()).collect();
    assert_eq!(people, vec!["甲", "丙", "丁", "戊"]);
    assert_eq!(records[1].date, None);
    assert_eq!(records[2].date, None);
    assert_eq!(records[3].date, Date::from_ymd(2024, 5, 11));
}

#[test]
fn record_is_usable_asks_for_date_time_and_status() {
    let day = Date::from_ymd(2024, 5, 10);
    assert!(record_is_usable(&record(day, "08:40", "正常")));
    assert!(record_is_usable(&record(day, "08:40", "请假(事假)")));
    assert!(!record_is_usable(&record(None, "08:40", "正常")));
    assert!(!record_is_usable(&record(day, "", "正常")));
    assert!(!record_is_usable(&record(day, "08:40", "")));
}

#[test]
fn record_is_usable_refuses_business_trips() {
    let day = Date::from_ymd(2024, 5, 10);
    assert!(!record_is_usable(&record(day, "08:40", "出差")));
    assert!(!record_is_usable(&record(day, "08:40", "外勤(出差)")));
    assert!(record_is_usable(&record(day, "08:40", "外出")));
    assert!(record_is_usable(&record(day, "08:40", "出 差")));
}

#[test]
fn retain_usable_keeps_the_order_of_what_it_keeps() {
    let day = Date::from_ymd(2024, 5, 10);
    let records = vec![
        record(day, "08:40", "正常"),
        record(None, "08:41", "正常"),
        record(day, "08:42", "出差"),
        record(day, "08:43", "迟到"),
        record(day, "", "缺卡"),
    ];
    let kept = retain_usable(records);
    let times: Vec<&str> = kept.iter().map(|r| r.clock_time.as_str()).collect();
    assert_eq!(times, vec!["08:40", "08:43"]);
}
