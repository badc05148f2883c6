//! The attendance report: one sheet for each department of the roster.

use rust_xlsxwriter::XlsxError;
use vstd::prelude::*;
use vstd::string::StringExecFns;

use crate::active::{active_dates, find_active_dates};
use crate::calendar::Date;
use crate::layout::{layout_sheet, sheet_for, Sheet, SheetView};
use crate::record::{
    decode_rows, decoded_rows, record_views, retain_usable, row_views, usable_records, RawRow,
    RawRowView, Record, RecordView,
};
use crate::roster::{
    department_at, department_count, member_names, names_of, Departments, RosterView,
};
use crate::text::lowercased;

verus! {

/// `rust_xlsxwriter::XlsxError`, of which nothing is read.
#[verifier::external_type_specification]
#[verifier::external_body]
pub struct ExXlsxError(XlsxError);

/// What is put behind the name of the source file to name the report.
pub const REPORT_SUFFIX: &'static str = "_process.xlsx";

/// The longest name that a sheet can have, in characters.
pub const SHEET_NAME_LIMIT: usize = 31;

/// Why no report was made.
#[derive(Debug, PartialEq, Eq)]
pub enum ReportError {
    /// The source file is neither an `.xls` nor an `.xlsx` file.
    UnsupportedExtension,
    /// No date has enough records to belong to the reporting period.
    EmptyAttendance,
    /// A department has a name that no sheet can have.
    InvalidDepartmentName(String),
}

/// An error as contracts see it.
pub enum ReportErrorView {
    UnsupportedExtension,
    EmptyAttendance,
    InvalidDepartmentName(Seq<char>),
}

impl View for ReportError {
    type V = ReportErrorView;

    open spec fn view(&self) -> ReportErrorView {
        match self {
            ReportError::UnsupportedExtension => ReportErrorView::UnsupportedExtension,
            ReportError::EmptyAttendance => ReportErrorView::EmptyAttendance,
            ReportError::InvalidDepartmentName(name) => ReportErrorView::InvalidDepartmentName(
                name@,
            ),
        }
    }
}

/// What the user is told of an error.
pub open spec fn error_text(e: ReportErrorView) -> Seq<char> {
    match e {
        ReportErrorView::UnsupportedExtension => "仅支持 .xls/.xlsx 文件"@,
        ReportErrorView::EmptyAttendance => "考勤记录为空"@,
        ReportErrorView::InvalidDepartmentName(name) => "invalid department name for output format: "@
            + name,
    }
}

impl ReportError {
    /// What the user is told of the error.
    pub fn message(&self) -> (r: String)
        ensures
            r@ == error_text(self@),
    {
        match self {
            ReportError::UnsupportedExtension => "仅支持 .xls/.xlsx 文件".to_owned(),
            ReportError::EmptyAttendance => "考勤记录为空".to_owned(),
            ReportError::InvalidDepartmentName(name) => {
                let mut r = "invalid department name for output format: ".to_owned();
                r.append(name.as_str());
                r
            },
        }
    }
}

/// The sheets of a report, in the order of the roster.
#[derive(Debug, PartialEq, Eq)]
pub struct Report {
    pub sheets: Vec<Sheet>,
}

/// The sheets of a sequence of sheets, as contracts see them.
pub open spec fn sheet_views(sheets: Seq<Sheet>) -> Seq<SheetView> {
    sheets.map_values(|s: Sheet| s@)
}

impl View for Report {
    type V = Seq<SheetView>;

    open spec fn view(&self) -> Seq<SheetView> {
        sheet_views(self.sheets@)
    }
}

/// A character that no sheet name may hold.
pub open spec fn is_forbidden_in_sheet_name(c: char) -> bool {
    c == '*' || c == '?' || c == ':' || c == '[' || c == ']' || c == '\\' || c == '/'
}

/// A name that a sheet can have: not empty, not longer than the limit,
/// free of the forbidden characters, and neither starting nor ending with an
/// apostrophe.
pub open spec fn is_sheet_name(name: Seq<char>) -> bool {
    &&& 0 < name.len() <= SHEET_NAME_LIMIT
    &&& forall|i: int| 0 <= i < name.len() ==> !is_forbidden_in_sheet_name(#[trigger] name[i])
    &&& name.first() != '\''
    &&& name.last() != '\''
}

/// Taken on trust from rust_xlsxwriter: `utility::check_sheet_name` accepts
/// exactly the names that `is_sheet_name` describes. Which error it gives
/// for another name is left open.
pub assume_specification[ rust_xlsxwriter::utility::check_sheet_name ](name: &str) -> (r: Result<
    (),
    XlsxError,
>)
    ensures
        r is Ok <==> is_sheet_name(name@),
;

/// The first department of the roster whose name no sheet can have.
pub open spec fn first_invalid_name(roster: RosterView) -> Option<Seq<char>>
    decreases roster.len(),
{
    if roster.len() == 0 {
        None
    } else if !is_sheet_name(roster.first().0) {
        Some(roster.first().0)
    } else {
        first_invalid_name(roster.drop_first())
    }
}

/// One sheet for each department, in the order of the roster.
pub open spec fn report_sheets(
    records: Seq<RecordView>,
    roster: RosterView,
    dates: Seq<Date>,
) -> Seq<SheetView> {
    Seq::new(
        roster.len(),
        |k: int| sheet_for(records, roster[k].0, names_of(roster[k].1), dates),
    )
}

/// The report on `records` for `roster`: an error where no date is active,
/// else an error where a department cannot name a sheet, else the sheets
/// with a column for each active date.
pub open spec fn report_for(records: Seq<RecordView>, roster: RosterView) -> Result<
    Seq<SheetView>,
    ReportErrorView,
> {
    if active_dates(records).len() == 0 {
        Err(ReportErrorView::EmptyAttendance)
    } else {
        match first_invalid_name(roster) {
            Some(name) => Err(ReportErrorView::InvalidDepartmentName(name)),
            None => Ok(report_sheets(records, roster, active_dates(records))),
        }
    }
}

/// The report on the rows of an export: the report on the records that can
/// be decoded and used.
pub open spec fn attendance_report(rows: Seq<RawRowView>, roster: RosterView) -> Result<
    Seq<SheetView>,
    ReportErrorView,
> {
    report_for(usable_records(decoded_rows(rows)), roster)
}

/// `result` is the outcome `wanted`.
pub open spec fn is_outcome(
    result: Result<Report, ReportError>,
    wanted: Result<Seq<SheetView>, ReportErrorView>,
) -> bool {
    match result {
        Ok(report) => wanted == Ok::<Seq<SheetView>, ReportErrorView>(report@),
        Err(e) => wanted == Err::<Seq<SheetView>, ReportErrorView>(e@),
    }
}

/// An extension that names a spreadsheet, whatever its case.
pub open spec fn is_spreadsheet_extension(extension: Seq<char>) -> bool {
    lowercased(extension) == "xls"@ || lowercased(extension) == "xlsx"@
}

/// Accepts the extension of a source file where it names a spreadsheet.
pub fn check_extension(extension: &str) -> (r: Result<(), ReportError>)
    ensures
        r is Ok <==> is_spreadsheet_extension(extension@),
        r is Err ==> r->Err_0@ == ReportErrorView::UnsupportedExtension,
{
    let lower = extension.to_lowercase();
    let xls = "xls".to_owned();
    let xlsx = "xlsx".to_owned();
    if lower == xls || lower == xlsx {
        Ok(())
    } else {
        Err(ReportError::UnsupportedExtension)
    }
}

/// The name of the report file for a source file whose name, without its
/// extension, is `stem`.
pub fn output_file_name(stem: &str) -> (r: String)
    ensures
        r@ == stem@ + REPORT_SUFFIX@,
{
    let mut r = stem.to_owned();
    r.append(REPORT_SUFFIX);
    r
}

/// Builds the report on `records` for the roster `config`. Every record is
/// counted and looked up: callers hand in the records that a report can use.
pub fn build_report(records: &Vec<Record>, config: &Departments) -> (r: Result<Report, ReportError>)
    ensures
        is_outcome(r, report_for(record_views(records@), config@)),
{
    let ghost all = record_views(records@);
    let ghost roster = config@;
    let dates = find_active_dates(records);
    if dates.len() == 0 {
        return Err(ReportError::EmptyAttendance);
    }
    let n: usize = department_count(&config.departments);
    let mut sheets: Vec<Sheet> = Vec::new();
    let mut k: usize = 0;
    assert(roster.skip(0) =~= roster);
    while k < n
        invariant
            k <= n,
            n == roster.len(),
            roster == config@,
            all == record_views(records@),
            dates@ == active_dates(all),
            dates.len() > 0,
            sheets.len() == k,
            first_invalid_name(roster) == first_invalid_name(roster.skip(k as int)),
            forall|j: int|
                0 <= j < k ==> (#[trigger] sheets@[j])@ == report_sheets(all, roster, dates@)[j],
        decreases n - k,
    {
        assert(roster.skip(k as int).drop_first() =~= roster.skip(k + 1));
        match department_at(&config.departments, k) {
            Some(entry) => {
                let name = entry.0.as_str();
                match rust_xlsxwriter::utility::check_sheet_name(name) {
                    Ok(_) => {},
                    Err(_) => {
                        return Err(ReportError::InvalidDepartmentName(name.to_owned()));
                    },
                }
                let members = member_names(entry.1);
                let sheet = layout_sheet(records, name, &members, &dates);
                sheets.push(sheet);
            },
            None => {},
        }
        k += 1;
    }
    let report = Report { sheets };
    assert(report@ =~= report_sheets(all, roster, dates@));
    Ok(report)
}

/// Builds the attendance report from the rows of an export: decodes the
/// rows, drops what a report cannot use, finds the active dates and lays
/// out one sheet for each department of the roster `config`.
pub fn handle_attendance(rows: &Vec<RawRow>, config: &Departments) -> (r: Result<
    Report,
    ReportError,
>)
    ensures
        is_outcome(r, attendance_report(row_views(rows@), config@)),
{
    let records = retain_usable(decode_rows(rows));
    build_report(&records, config)
}

} // verus!
