use attendance_report::active::{find_active_dates, ACTIVE_DATE_THRESHOLD};
use attendance_report::calendar::Date;
use attendance_report::record::Record;

fn ymd(year: i32, month: u32, day: u32) -> Date {
    Date::from_ymd(year, month, day).expect("the day exists")
}

fn records_on(date: Option<Date>, count: usize) -> Vec<Record> {
    (0..count)
        .map(|i| Record {
            person: format!("员工{i}"),
            department: "研发部".to_string(),
            date,
            attendance_time: "08:45".to_string(),
            clock_time: "08:40".to_string(),
            clock_status: "正常".to_string(),
        })
        .collect()
}

#[test]
fn the_threshold_is_thirty() {
    assert_eq!(ACTIVE_DATE_THRESHOLD, 30);
}

#[test]
fn a_date_with_exactly_thirty_records_is_not_active() {
    let records = records_on(Some(ymd(2024, 5, 10)), 30);
    assert_eq!(find_active_dates(&records), vec![]);
}

#[test]
fn a_date_with_thirty_one_records_is_active() {
    let records = records_on(Some(ymd(2024, 5, 10)), 31);
    assert_eq!(find_active_dates(&records), vec![ymd(2024, 5, 10)]);
}

#[test]
fn no_records_give_no_active_dates() {
    assert_eq!(find_active_dates(&Vec::new()), vec![]);
}

#[test]
fn active_dates_come_earliest_first_and_once() {
    let mut records = records_on(Some(ymd(2024, 5, 12)), 20);
    records.extend(records_on(Some(ymd(2024, 5, 10)), 31));
    records.extend(records_on(Some(ymd(2024, 4, 30)), 40));
    records.extend(records_on(Some(ymd(2024, 5, 12)), 20));
    records.extend(records_on(Some(ymd(2024, 5, 11)), 30));
    records.extend(records_on(Some(ymd(2023, 12, 31)), 35));
    records.extend(records_on(Some(ymd(2024, 6, 1)), 5));
    assert_eq!(
        find_active_dates(&records),
        vec![ymd(2023, 12, 31), ymd(2024, 4, 30), ymd(2024, 5, 10), ymd(2024, 5, 12)]
    );
}

#[test]
fn records_without_a_date_count_for_no_date() {
    let mut records = records_on(None, 100);
    records.extend(records_on(Some(ymd(2024, 5, 10)), 30));
    assert_eq!(find_active_dates(&records), vec![]);
}

#[test]
fn records_of_one_date_count_together_wherever_they_stand() {
    let mut records = Vec::new();
    for _ in 0..31 {
        records.extend(records_on(Some(ymd(2024, 5, 10)), 1));
        records.extend(records_on(Some(ymd(2024, 5, 9)), 1));
    }
    records.pop();
    assert_eq!(find_active_dates(&records), vec![ymd(2024, 5, 10)]);
}
