use attendance_report::calendar::{minute_string, parse_minute, Date, DateTime};
use attendance_report::import::{
    check_import_extension, convert_table, handle_import, import_file_name, import_table,
    parse_datetime, parse_html_table, ImportError, ImportRecord,
};
use attendance_report::roster::{merged_members, Departments};
use indexmap::IndexMap;

fn minute(year: i32, month: u32, day: u32, hour: u32, minute: u32) -> DateTime {
    let date = Date::from_ymd(year, month, day).expect("the day exists");
    DateTime::new(date, hour, minute).expect("the minute exists")
}

fn accounts(people: &[(&str, &str)]) -> IndexMap<String, String> {
    let mut map = IndexMap::new();
    for (person, account) in people {
        map.insert(person.to_string(), account.to_string());
    }
    map
}

fn roster(departments: &[(&str, &[(&str, &str)])]) -> Departments {
    let mut map = IndexMap::new();
    for (name, people) in departments {
        map.insert(name.to_string(), accounts(people));
    }
    Departments { departments: map }
}

fn punch(name: &str, account: &str, time: DateTime) -> ImportRecord {
    ImportRecord { name: name.to_string(), account: account.to_string(), time }
}

fn cells(name: &str, date: &str, time_in: &str, time_out: &str) -> Vec<String> {
    let mut row = vec![String::new(); 11];
    row[0] = "1".to_string();
    row[2] = name.to_string();
    row[6] = date.to_string();
    row[9] = time_in.to_string();
    row[10] = time_out.to_string();
    row
}

fn html_row(tag: &str, cells: &[&str]) -> String {
    let mut row = String::from("<tr>");
    for cell in cells {
        row.push_str(&format!("<{tag}>{cell}</{tag}>"));
    }
    row.push_str("</tr>");
    row
}

fn export(class: &str) -> String {
    let head = html_row("th", &["序号", "工号", "姓名", "a", "b", "c", "日期", "d", "e", "上班", "下班"]);
    let first = html_row(
        "td",
        &["1", "001", " 张三 ", "", "", "", "2024-05-10", "", "", "08:40:12", "17:35:59"],
    );
    let second = html_row(
        "td",
        &["2", "002", "李四", "", "", "", "2024-05-10", "", "", "", "18:01:00"],
    );
    let third = html_row(
        "td",
        &["3", "003", "路人", "", "", "", "2024-05-10", "", "", "08:00:00", "18:00:00"],
    );
    let short = html_row("td", &["合计", "3"]);
    format!(
        "<html><body><table class=\"Other\"><tr><td>x</td></tr></table>\
         <table class=\"{class}\">{head}{first}{second}{third}{short}</table></body></html>"
    )
}

#[test]
fn parse_datetime_reads_date_and_time_to_the_minute() {
    assert_eq!(parse_datetime("2024-05-10", "08:40:12"), Some(minute(2024, 5, 10, 8, 40)));
    assert_eq!(parse_datetime("2024-05-10", "17:35:00"), Some(minute(2024, 5, 10, 17, 35)));
    assert_eq!(parse_datetime("2024-12-31", "23:59:59"), Some(minute(2024, 12, 31, 23, 59)));
}

#[test]
fn parse_datetime_refuses_what_is_no_date_and_time() {
    assert_eq!(parse_datetime("2024-05-10", ""), None);
    assert_eq!(parse_datetime("", "08:40:12"), None);
    assert_eq!(parse_datetime("2024-05-10", "08:40"), None);
    assert_eq!(parse_datetime("2024-05-10", "24:00:00"), None);
    assert_eq!(parse_datetime("2024-02-30", "08:40:12"), None);
    assert_eq!(parse_datetime("日期", "上班"), None);
}

#[test]
fn parse_minute_goes_by_the_format() {
    assert_eq!(parse_minute("10/05/2024 08:40", "%d/%m/%Y %H:%M"), Some(minute(2024, 5, 10, 8, 40)));
    assert_eq!(parse_minute("2024-05-10 08:40:12", "%d/%m/%Y %H:%M"), None);
}

#[test]
fn date_time_new_takes_the_minutes_of_a_day() {
    let date = Date::from_ymd(2024, 5, 10).expect("the day exists");
    let t = DateTime::new(date, 23, 59).expect("the minute exists");
    assert_eq!((t.date(), t.hour(), t.minute()), (date, 23, 59));
    assert!(DateTime::new(date, 0, 0).is_some());
    assert!(DateTime::new(date, 24, 0).is_none());
    assert!(DateTime::new(date, 0, 60).is_none());
}

#[test]
fn minute_string_pads_with_zeros() {
    assert_eq!(minute_string(&minute(2024, 5, 10, 8, 4)), "2024-05-10 08:04");
    assert_eq!(minute_string(&minute(2024, 12, 31, 23, 59)), "2024-12-31 23:59");
    assert_eq!(minute_string(&minute(987, 1, 2, 0, 0)), "0987-01-02 00:00");
    assert_eq!(minute_string(&minute(0, 1, 2, 0, 0)), "0000-01-02 00:00");
}

#[test]
fn minute_string_signs_the_years_outside_four_digits() {
    assert_eq!(minute_string(&minute(-308, 3, 14, 1, 2)), "-0308-03-14 01:02");
    assert_eq!(minute_string(&minute(-1, 3, 14, 1, 2)), "-0001-03-14 01:02");
    assert_eq!(minute_string(&minute(10000, 3, 14, 1, 2)), "+10000-03-14 01:02");
    assert_eq!(minute_string(&minute(-12345, 3, 14, 1, 2)), "-12345-03-14 01:02");
}

#[test]
fn minute_string_writes_what_chrono_writes() {
    for year in [-262143, -10000, -9999, -1000, -999, -1, 0, 1, 999, 1000, 9999, 10000, 262142] {
        for (month, day, hour, min) in [(1, 1, 0, 0), (9, 30, 9, 5), (12, 31, 23, 59)] {
            let ours = minute_string(&minute(year, month, day, hour, min));
            let theirs = chrono::NaiveDate::from_ymd_opt(year, month, day)
                .expect("the day exists")
                .and_hms_opt(hour, min, 0)
                .expect("the minute exists")
                .format("%Y-%m-%d %H:%M")
                .to_string();
            assert_eq!(ours, theirs);
        }
    }
}

#[test]
fn convert_table_gives_arrival_then_departure() {
    let known = accounts(&[("张三", "A1"), ("李四", "A2")]);
    let rows = vec![
        cells(" 张三 ", "2024-05-10", "08:40:12", "17:35:59"),
        cells("李四", " 2024-05-11 ", "\t09:00:00", "18:00:00\n"),
    ];
    assert_eq!(
        convert_table(&rows, &known),
        vec![
            punch("张三", "A1", minute(2024, 5, 10, 8, 40)),
            punch("张三", "A1", minute(2024, 5, 10, 17, 35)),
            punch("李四", "A2", minute(2024, 5, 11, 9, 0)),
            punch("李四", "A2", minute(2024, 5, 11, 18, 0)),
        ]
    );
}

#[test]
fn convert_table_leaves_out_the_punches_it_cannot_read() {
    let known = accounts(&[("张三", "A1")]);
    let rows = vec![
        cells("张三", "2024-05-10", "", "17:35:59"),
        cells("张三", "2024-05-11", "08:40:12", "-"),
        cells("张三", "日期", "08:40:12", "17:35:59"),
    ];
    assert_eq!(
        convert_table(&rows, &known),
        vec![
            punch("张三", "A1", minute(2024, 5, 10, 17, 35)),
            punch("张三", "A1", minute(2024, 5, 11, 8, 40)),
        ]
    );
}

#[test]
fn convert_table_leaves_out_people_without_an_account() {
    let known = accounts(&[("张三", ""), ("李四", "A2")]);
    let rows = vec![
        cells("张三", "2024-05-10", "08:40:12", "17:35:59"),
        cells("路人", "2024-05-10", "08:40:12", "17:35:59"),
        cells("", "2024-05-10", "08:40:12", "17:35:59"),
    ];
    assert_eq!(convert_table(&rows, &known), vec![]);
    assert_eq!(convert_table(&rows, &IndexMap::new()), vec![]);
}

#[test]
fn convert_table_leaves_out_the_rows_that_are_too_short() {
    let known = accounts(&[("张三", "A1")]);
    let mut ten = cells("张三", "2024-05-10", "08:40:12", "17:35:59");
    ten.pop();
    let mut twelve = cells("张三", "2024-05-12", "08:40:12", "17:35:59");
    twelve.push("备注".to_string());
    let rows = vec![Vec::new(), vec!["合计".to_string()], ten, twelve];
    assert_eq!(
        convert_table(&rows, &known),
        vec![
            punch("张三", "A1", minute(2024, 5, 12, 8, 40)),
            punch("张三", "A1", minute(2024, 5, 12, 17, 35)),
        ]
    );
}

#[test]
fn parse_html_table_reads_the_punch_table() {
    let known = accounts(&[("张三", "A1"), ("李四", "A2")]);
    assert_eq!(
        parse_html_table(&export("Punch_Report"), &known),
        Ok(vec![
            punch("张三", "A1", minute(2024, 5, 10, 8, 40)),
            punch("张三", "A1", minute(2024, 5, 10, 17, 35)),
            punch("李四", "A2", minute(2024, 5, 10, 18, 1)),
        ])
    );
}

#[test]
fn parse_html_table_misses_a_table_of_another_class() {
    let known = accounts(&[("张三", "A1")]);
    assert_eq!(parse_html_table(&export("Report"), &known), Err(ImportError::TableNotFound));
    assert_eq!(parse_html_table("", &known), Err(ImportError::TableNotFound));
    assert_eq!(parse_html_table("考勤", &known), Err(ImportError::TableNotFound));
}

#[test]
fn parse_html_table_of_an_empty_table_gives_no_punches() {
    let known = accounts(&[("张三", "A1")]);
    let html = "<table class=\"Punch_Report\"></table>";
    assert_eq!(parse_html_table(html, &known), Ok(vec![]));
}

#[test]
fn import_table_starts_with_the_headings() {
    assert_eq!(import_table(&Vec::new()), vec![vec!["姓名", "账号", "打卡时间"]]);
    let records = vec![
        punch("张三", "A1", minute(2024, 5, 10, 8, 40)),
        punch("李四", "A2", minute(2024, 5, 10, 18, 1)),
    ];
    assert_eq!(
        import_table(&records),
        vec![
            vec!["姓名", "账号", "打卡时间"],
            vec!["张三", "A1", "2024-05-10 08:40"],
            vec!["李四", "A2", "2024-05-10 18:01"],
        ]
    );
}

#[test]
fn handle_import_converts_the_bytes_of_an_export() {
    let config = roster(&[("研发部", &[("张三", "A1")]), ("市场部", &[("李四", "B1")])]);
    assert_eq!(
        handle_import(export("Punch_Report").as_bytes(), &config),
        Ok(vec![
            vec!["姓名".to_string(), "账号".to_string(), "打卡时间".to_string()],
            vec!["张三".to_string(), "A1".to_string(), "2024-05-10 08:40".to_string()],
            vec!["张三".to_string(), "A1".to_string(), "2024-05-10 17:35".to_string()],
            vec!["李四".to_string(), "B1".to_string(), "2024-05-10 18:01".to_string()],
        ])
    );
}

#[test]
fn handle_import_skips_a_byte_order_mark() {
    let config = roster(&[("研发部", &[("张三", "A1")])]);
    let mut bytes = vec![0xEF, 0xBB, 0xBF];
    bytes.extend_from_slice(export("Punch_Report").as_bytes());
    let rows = handle_import(&bytes, &config).expect("the rows");
    assert_eq!(rows.len(), 3);
    assert_eq!(rows[1], vec!["张三", "A1", "2024-05-10 08:40"]);
}

#[test]
fn handle_import_replaces_malformed_bytes() {
    let config = roster(&[("研发部", &[("张三", "A1")])]);
    let mut bytes = export("Punch_Report").into_bytes();
    bytes.extend_from_slice(&[0xFF, 0xFE, 0x80]);
    let rows = handle_import(&bytes, &config).expect("the rows");
    assert_eq!(rows.len(), 3);
}

#[test]
fn handle_import_misses_the_table_in_other_bytes() {
    let config = roster(&[("研发部", &[("张三", "A1")])]);
    assert_eq!(handle_import(&[], &config), Err(ImportError::TableNotFound));
    assert_eq!(handle_import(b"<table></table>", &config), Err(ImportError::TableNotFound));
}

#[test]
fn merged_members_keeps_the_first_place_and_the_last_account() {
    let config = roster(&[
        ("研发部", &[("张三", "A1"), ("李四", "A2")]),
        ("市场部", &[("王五", "B1"), ("张三", "B2")]),
        ("财务部", &[]),
    ]);
    let merged = merged_members(&config);
    let entries: Vec<(&str, &str)> =
        merged.iter().map(|(k, v)| (k.as_str(), v.as_str())).collect();
    assert_eq!(entries, vec![("张三", "B2"), ("李四", "A2"), ("王五", "B1")]);
    assert_eq!(merged_members(&roster(&[])).len(), 0);
}

#[test]
fn handle_import_takes_the_account_of_the_last_department() {
    let config = roster(&[("研发部", &[("张三", "A1")]), ("市场部", &[("张三", "B2")])]);
    let rows = handle_import(export("Punch_Report").as_bytes(), &config).expect("the rows");
    assert_eq!(rows[1], vec!["张三", "B2", "2024-05-10 08:40"]);
}

#[test]
fn check_import_extension_accepts_xls_alone() {
    assert_eq!(check_import_extension("xls"), Ok(()));
    assert_eq!(check_import_extension("XLS"), Ok(()));
    assert_eq!(check_import_extension("xlsx"), Err(ImportError::UnsupportedExtension));
    assert_eq!(check_import_extension("html"), Err(ImportError::UnsupportedExtension));
    assert_eq!(check_import_extension(""), Err(ImportError::UnsupportedExtension));
}

#[test]
fn import_file_name_puts_the_suffix_behind_the_stem() {
    assert_eq!(import_file_name("五月打卡"), "五月打卡_oa.xlsx");
    assert_eq!(import_file_name(""), "_oa.xlsx");
}

#[test]
fn every_import_error_has_its_message() {
    assert_eq!(ImportError::UnsupportedExtension.message(), "仅支持考勤软件导出的.xls文件");
    assert_eq!(
        ImportError::TableNotFound.message(),
        "未找到指定的数据表,确认考勤软件导出的.xls文件是否完整"
    );
}
