use attendance_report::calendar::Date;
use attendance_report::matrix::{
    cell_style, cell_value, classify, find_record, Punch, Slot, Style, EVENING_CHECKPOINT,
    MISSING_PUNCH, MORNING_CHECKPOINT, NORMAL_STATUS, TIME_SEPARATOR,
};
use attendance_report::record::Record;

fn ymd(year: i32, month: u32, day: u32) -> Date {
    Date::from_ymd(year, month, day).expect("the day exists")
}

fn record(person: &str, day: u32, checkpoint: &str, clock_time: &str, status: &str) -> Record {
    Record {
        person: person.to_string(),
        department: "研发部".to_string(),
        date: Some(ymd(2024, 5, day)),
        attendance_time: checkpoint.to_string(),
        clock_time: clock_time.to_string(),
        clock_status: status.to_string(),
    }
}

fn sample() -> Vec<Record> {
    vec![
        record("张三", 10, "08:45", "08:40", "正常"),
        record("张三", 10, "17:30", "17:35", "正常"),
        record("李四", 10, "08:45", "09:10", "迟到"),
        record("李四", 10, "17:30", "请假", "请假(事假)"),
        record("张三", 10, "08:45", "08:44", "正常"),
        record("王五", 10, "08:45", "0840", "正常"),
        record("赵六", 10, "08:45", "-", "请假(哺乳假/工间休息假)"),
    ]
}

#[test]
fn the_fixed_texts_are_those_of_the_export() {
    assert_eq!(MORNING_CHECKPOINT, "08:45");
    assert_eq!(EVENING_CHECKPOINT, "17:30");
    assert_eq!(NORMAL_STATUS, "正常");
    assert_eq!(MISSING_PUNCH, "缺卡");
    assert_eq!(TIME_SEPARATOR, ':');
    assert_eq!(Slot::Morning.checkpoint(), "08:45");
    assert_eq!(Slot::Evening.checkpoint(), "17:30");
}

#[test]
fn find_record_takes_the_first_record_that_fits() {
    let records = sample();
    let found = find_record(&records, "研发部", "张三", &ymd(2024, 5, 10), Slot::Morning);
    assert_eq!(found.map(|r| r.clock_time.as_str()), Some("08:40"));
    let found = find_record(&records, "研发部", "张三", &ymd(2024, 5, 10), Slot::Evening);
    assert_eq!(found.map(|r| r.clock_time.as_str()), Some("17:35"));
}

#[test]
fn find_record_compares_every_part() {
    let records = sample();
    let day = ymd(2024, 5, 10);
    assert!(find_record(&records, "市场部", "张三", &day, Slot::Morning).is_none());
    assert!(find_record(&records, "研发部", "张三丰", &day, Slot::Morning).is_none());
    assert!(find_record(&records, "研发部", "张三", &ymd(2024, 5, 11), Slot::Morning).is_none());
    assert!(find_record(&records, "研发部", "王五", &day, Slot::Evening).is_none());
    assert!(find_record(&Vec::new(), "研发部", "张三", &day, Slot::Morning).is_none());
}

#[test]
fn find_record_matches_the_checkpoint_as_text() {
    let records = vec![record("张三", 10, "8:45", "08:40", "正常")];
    assert!(find_record(&records, "研发部", "张三", &ymd(2024, 5, 10), Slot::Morning).is_none());
}

#[test]
fn classify_tells_the_three_kinds_apart() {
    let records = sample();
    assert_eq!(classify(Some(&records[0])), Punch::OnTime("08:40".to_string()));
    assert_eq!(classify(Some(&records[2])), Punch::Exception("迟到".to_string()));
    assert_eq!(classify(Some(&records[3])), Punch::Exception("事假".to_string()));
    assert_eq!(classify(Some(&records[6])), Punch::Exception("哺乳假".to_string()));
    assert_eq!(classify(None), Punch::Missing);
}

#[test]
fn punch_text_is_the_time_the_reason_or_the_marker() {
    assert_eq!(Punch::OnTime("08:40".to_string()).text(), "08:40");
    assert_eq!(Punch::Exception("事假".to_string()).text(), "事假");
    assert_eq!(Punch::Missing.text(), "缺卡");
}

#[test]
fn cell_value_of_a_missing_punch_is_the_marker_and_flagged() {
    let records = sample();
    let text = cell_value(&records, "研发部", "王五", &ymd(2024, 5, 10), Slot::Evening);
    assert_eq!(text, "缺卡");
    assert_eq!(cell_style(&text), Style::Flagged);
}

#[test]
fn cell_value_of_a_normal_punch_is_the_clock_time_as_it_stands() {
    let records = sample();
    let text = cell_value(&records, "研发部", "张三", &ymd(2024, 5, 10), Slot::Morning);
    assert_eq!(text, "08:40");
    assert_eq!(cell_style(&text), Style::Plain);
    let text = cell_value(&records, "研发部", "王五", &ymd(2024, 5, 10), Slot::Morning);
    assert_eq!(text, "0840");
    assert_eq!(cell_style(&text), Style::Flagged);
}

#[test]
fn cell_value_of_an_exception_is_its_reason() {
    let records = sample();
    let day = ymd(2024, 5, 10);
    assert_eq!(cell_value(&records, "研发部", "李四", &day, Slot::Morning), "迟到");
    assert_eq!(cell_value(&records, "研发部", "李四", &day, Slot::Evening), "事假");
    assert_eq!(cell_value(&records, "研发部", "赵六", &day, Slot::Morning), "哺乳假");
}

#[test]
fn cell_style_looks_at_the_text_alone() {
    assert_eq!(cell_style("08:40"), Style::Plain);
    assert_eq!(cell_style(":"), Style::Plain);
    assert_eq!(cell_style("事假:半天"), Style::Plain);
    assert_eq!(cell_style("缺卡"), Style::Flagged);
    assert_eq!(cell_style("事假"), Style::Flagged);
    assert_eq!(cell_style(""), Style::Flagged);
    assert_eq!(cell_style("08：40"), Style::Flagged);
}
