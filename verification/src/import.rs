//! Turning the punch table of a time clock export into the rows that the
//! office system takes in: name, account and time of each punch.

use indexmap::IndexMap;
use vstd::prelude::*;
use vstd::string::StringExecFns;

use crate::calendar::{minute_string, minute_text, parse_minute, parsed_datetime, DateTime};
use crate::roster::{
    account_in, member_account, member_entries, merged_entries, merged_members, Departments,
    RosterView,
};
use crate::text::{lowercased, text_views, trimmed};

verus! {

/// The selector of the punch table in an export.
pub const PUNCH_TABLE: &'static str = "table[class=\"Punch_Report\"]";

/// The selector of the rows of the table.
pub const TABLE_ROW: &'static str = "tr";

/// The selector of the cells of a row.
pub const TABLE_CELL: &'static str = "td, th";

/// The place in a row of the cell with the name.
pub const NAME_CELL: usize = 2;

/// The place in a row of the cell with the date.
pub const DATE_CELL: usize = 6;

/// The place in a row of the cell with the time of arrival.
pub const TIME_IN_CELL: usize = 9;

/// The place in a row of the cell with the time of departure.
pub const TIME_OUT_CELL: usize = 10;

/// The format of a date and a time of the export, a space between them.
pub const PUNCH_FORMAT: &'static str = "%Y-%m-%d %H:%M:%S";

/// What is put behind the name of the source file to name the result.
pub const IMPORT_SUFFIX: &'static str = "_oa.xlsx";

/// The largest export that can be decoded: decoding may take three times
/// its length.
pub const MAX_EXPORT_LEN: usize = usize::MAX / 4;

/// One punch, as the office system takes it in.
#[derive(Debug, PartialEq, Eq)]
pub struct ImportRecord {
    pub name: String,
    pub account: String,
    pub time: DateTime,
}

/// A punch as contracts see it.
pub struct ImportRecordView {
    pub name: Seq<char>,
    pub account: Seq<char>,
    pub time: DateTime,
}

impl View for ImportRecord {
    type V = ImportRecordView;

    open spec fn view(&self) -> ImportRecordView {
        ImportRecordView { name: self.name@, account: self.account@, time: self.time }
    }
}

/// Why an export was not converted.
#[derive(Clone, Copy, Debug, PartialEq, Eq, Structural)]
pub enum ImportError {
    /// The source file is no `.xls` file.
    UnsupportedExtension,
    /// The export holds no punch table.
    TableNotFound,
}

/// The punches of a sequence of records.
pub open spec fn import_record_views(records: Seq<ImportRecord>) -> Seq<ImportRecordView> {
    records.map_values(|r: ImportRecord| r@)
}

/// The texts of the cells of a table, row by row.
pub open spec fn table_view(rows: Seq<Vec<String>>) -> Seq<Seq<Seq<char>>> {
    rows.map_values(|row: Vec<String>| text_views(row@))
}

/// The texts of the cells of a table that may be missing.
pub open spec fn optional_table_view(table: Option<Vec<Vec<String>>>) -> Option<
    Seq<Seq<Seq<char>>>,
> {
    match table {
        Some(rows) => Some(table_view(rows@)),
        None => None,
    }
}

/// The text that `encoding_rs::UTF_8` decodes from `bytes`.
pub uninterp spec fn utf8_text(bytes: Seq<u8>) -> Seq<char>;

/// The texts of the cells that the scraper crate finds in `html`: in the
/// first element that the selector `table` matches, for each element under
/// it that `row` matches, the text of each element under that which `cell`
/// matches. `None` where a selector cannot be parsed or `table` matches
/// nothing.
pub uninterp spec fn scraped_cells(
    html: Seq<char>,
    table: Seq<char>,
    row: Seq<char>,
    cell: Seq<char>,
) -> Option<Seq<Seq<Seq<char>>>>;

/// Taken on trust from encoding_rs: `UTF_8.decode` turns bytes into text; it
/// looks for a byte order mark and replaces what is malformed. What comes out
/// depends on the bytes alone and is left to the crate. It takes up to three
/// times the length of the bytes, which therefore has a limit.
#[verifier::external_body]
fn decode_utf8(bytes: &[u8]) -> (r: String)
    requires
        bytes.len() <= MAX_EXPORT_LEN,
    ensures
        r@ == utf8_text(bytes@),
{
    let (text, _, _) = encoding_rs::UTF_8.decode(bytes);
    text.into_owned()
}

/// Taken on trust from scraper: `Html::parse_document` parses `html`,
/// `Selector::parse` the selectors; `Html::select` and `ElementRef::select`
/// walk the matches, and the pieces of `ElementRef::text` make the text of a
/// cell. What is found depends on the four texts alone and is left to the
/// crate.
#[verifier::external_body]
fn scrape_table(html: &str, table: &str, row: &str, cell: &str) -> (r: Option<Vec<Vec<String>>>)
    ensures
        optional_table_view(r) == scraped_cells(html@, table@, row@, cell@),
{
    let table = scraper::Selector::parse(table).ok()?;
    let row = scraper::Selector::parse(row).ok()?;
    let cell = scraper::Selector::parse(cell).ok()?;
    let document = scraper::Html::parse_document(html);
    let found = document.select(&table).next()?;
    Some(
        found.select(&row).map(
            |r| r.select(&cell).map(|c| c.text().collect::<String>()).collect(),
        ).collect(),
    )
}

/// What the user is told of an error.
pub open spec fn import_error_text(e: ImportError) -> Seq<char> {
    match e {
        ImportError::UnsupportedExtension => "仅支持考勤软件导出的.xls文件"@,
        ImportError::TableNotFound => "未找到指定的数据表,确认考勤软件导出的.xls文件是否完整"@,
    }
}

impl ImportError {
    /// What the user is told of the error.
    pub fn message(&self) -> (r: String)
        ensures
            r@ == import_error_text(*self),
    {
        match self {
            ImportError::UnsupportedExtension => "仅支持考勤软件导出的.xls文件".to_owned(),
            ImportError::TableNotFound => "未找到指定的数据表,确认考勤软件导出的.xls文件是否完整".to_owned(),
        }
    }
}

/// The punch of the person at the given date and time: none where date and
/// time are not written as the export writes them.
pub open spec fn punch_of(
    name: Seq<char>,
    account: Seq<char>,
    date: Seq<char>,
    time: Seq<char>,
) -> Seq<ImportRecordView> {
    match parsed_datetime(date + seq![' '] + time, PUNCH_FORMAT@) {
        Some(t) => seq![ImportRecordView { name, account, time: t }],
        None => Seq::empty(),
    }
}

/// The punches of one row: arrival, then departure, of the person named in
/// it. None where the row is too short to hold both times, and none where
/// the person has no account or an empty one.
pub open spec fn row_records(cells: Seq<Seq<char>>, accounts: Seq<(Seq<char>, Seq<char>)>) -> Seq<
    ImportRecordView,
> {
    if cells.len() <= TIME_OUT_CELL {
        Seq::empty()
    } else {
        match account_in(accounts, trimmed(cells[NAME_CELL as int])) {
            Some(account) => if account.len() == 0 {
                Seq::empty()
            } else {
                punch_of(
                    trimmed(cells[NAME_CELL as int]),
                    account,
                    trimmed(cells[DATE_CELL as int]),
                    trimmed(cells[TIME_IN_CELL as int]),
                ) + punch_of(
                    trimmed(cells[NAME_CELL as int]),
                    account,
                    trimmed(cells[DATE_CELL as int]),
                    trimmed(cells[TIME_OUT_CELL as int]),
                )
            },
            None => Seq::empty(),
        }
    }
}

/// The punches of the rows of a table, in the order of the rows.
pub open spec fn table_records(
    rows: Seq<Seq<Seq<char>>>,
    accounts: Seq<(Seq<char>, Seq<char>)>,
) -> Seq<ImportRecordView>
    decreases rows.len(),
{
    if rows.len() == 0 {
        Seq::empty()
    } else {
        table_records(rows.drop_last(), accounts) + row_records(rows.last(), accounts)
    }
}

/// The rows of the result: the headings, then name, account and minute of
/// each punch.
pub open spec fn import_rows(records: Seq<ImportRecordView>) -> Seq<Seq<Seq<char>>> {
    seq![seq!["姓名"@, "账号"@, "打卡时间"@]] + records.map_values(
        |r: ImportRecordView| seq![r.name, r.account, minute_text(r.time)],
    )
}

/// What becomes of an export: an error where it holds no punch table, else
/// the rows for the punches of the people of the roster.
pub open spec fn import_outcome(bytes: Seq<u8>, roster: RosterView) -> Result<
    Seq<Seq<Seq<char>>>,
    ImportError,
> {
    match scraped_cells(utf8_text(bytes), PUNCH_TABLE@, TABLE_ROW@, TABLE_CELL@) {
        Some(rows) => Ok(import_rows(table_records(rows, merged_entries(roster)))),
        None => Err(ImportError::TableNotFound),
    }
}

/// An extension that names an export of the time clock, whatever its case.
pub open spec fn is_export_extension(extension: Seq<char>) -> bool {
    lowercased(extension) == "xls"@
}

/// Accepts the extension of a source file where it names an export.
pub fn check_import_extension(extension: &str) -> (r: Result<(), ImportError>)
    ensures
        r is Ok <==> is_export_extension(extension@),
        r is Err ==> r->Err_0 == ImportError::UnsupportedExtension,
{
    let lower = extension.to_lowercase();
    let xls = "xls".to_owned();
    if lower == xls {
        Ok(())
    } else {
        Err(ImportError::UnsupportedExtension)
    }
}

/// The name of the result file for a source file whose name, without its
/// extension, is `stem`.
pub fn import_file_name(stem: &str) -> (r: String)
    ensures
        r@ == stem@ + IMPORT_SUFFIX@,
{
    let mut r = stem.to_owned();
    r.append(IMPORT_SUFFIX);
    r
}

/// The minute written in a date and a time of the export.
pub fn parse_datetime(date_str: &str, time_str: &str) -> (r: Option<DateTime>)
    ensures
        r == parsed_datetime(date_str@ + seq![' '] + time_str@, PUNCH_FORMAT@),
{
    proof {
        reveal_strlit(" ");
    }
    let mut text = date_str.to_owned();
    text.append(" ");
    text.append(time_str);
    assert(text@ =~= date_str@ + seq![' '] + time_str@);
    parse_minute(text.as_str(), PUNCH_FORMAT)
}

fn push_punch(
    records: &mut Vec<ImportRecord>,
    name: &str,
    account: &String,
    date: &str,
    time: &str,
)
    ensures
        import_record_views(final(records)@) == import_record_views(old(records)@) + punch_of(
            name@,
            account@,
            date@,
            time@,
        ),
{
    let ghost before = import_record_views(records@);
    match parse_datetime(date, time) {
        Some(t) => {
            records.push(ImportRecord { name: name.to_owned(), account: account.clone(), time: t });
        },
        None => {},
    }
    assert(import_record_views(records@) =~= before + punch_of(name@, account@, date@, time@));
}

/// Adds the punches of one row to `records`.
fn push_row(records: &mut Vec<ImportRecord>, cells: &Vec<String>, names_map: &IndexMap<String, String>)
    ensures
        import_record_views(final(records)@) == import_record_views(old(records)@) + row_records(
            text_views(cells@),
            member_entries(*names_map),
        ),
{
    if cells.len() <= TIME_OUT_CELL {
        return ;
    }
    let name = cells[NAME_CELL].as_str().trim();
    match member_account(names_map, name) {
        Some(account) => {
            if !account.as_str().is_empty() {
                let date = cells[DATE_CELL].as_str().trim();
                let time_in = cells[TIME_IN_CELL].as_str().trim();
                let time_out = cells[TIME_OUT_CELL].as_str().trim();
                push_punch(records, name, account, date, time_in);
                push_punch(records, name, account, date, time_out);
            }
        },
        None => {},
    }
}

/// The punches of the rows of a table, in the order of the rows, for the
/// people that `names_map` knows.
pub fn convert_table(rows: &Vec<Vec<String>>, names_map: &IndexMap<String, String>) -> (records:
    Vec<ImportRecord>)
    ensures
        import_record_views(records@) == table_records(table_view(rows@), member_entries(*names_map)),
{
    let ghost all = table_view(rows@);
    let mut records: Vec<ImportRecord> = Vec::new();
    let mut i: usize = 0;
    while i < rows.len()
        invariant
            i <= rows.len(),
            all == table_view(rows@),
            import_record_views(records@) == table_records(
                all.take(i as int),
                member_entries(*names_map),
            ),
        decreases rows.len() - i,
    {
        assert(all.take(i + 1).drop_last() =~= all.take(i as int));
        push_row(&mut records, &rows[i], names_map);
        i += 1;
    }
    assert(all.take(rows.len() as int) =~= all);
    records
}

/// Finds the punch table in the text of an export and reads the punches of
/// the people that `names_map` knows.
pub fn parse_html_table(html_content: &str, names_map: &IndexMap<String, String>) -> (r: Result<
    Vec<ImportRecord>,
    ImportError,
>)
    ensures
        match scraped_cells(html_content@, PUNCH_TABLE@, TABLE_ROW@, TABLE_CELL@) {
            Some(rows) => r matches Ok(records) && import_record_views(records@) == table_records(
                rows,
                member_entries(*names_map),
            ),
            None => r == Err::<Vec<ImportRecord>, ImportError>(ImportError::TableNotFound),
        },
{
    match scrape_table(html_content, PUNCH_TABLE, TABLE_ROW, TABLE_CELL) {
        Some(rows) => Ok(convert_table(&rows, names_map)),
        None => Err(ImportError::TableNotFound),
    }
}

/// The rows of the result for the given punches.
pub fn import_table(records: &Vec<ImportRecord>) -> (rows: Vec<Vec<String>>)
    ensures
        table_view(rows@) == import_rows(import_record_views(records@)),
{
    let ghost wanted = import_rows(import_record_views(records@));
    let mut rows: Vec<Vec<String>> = Vec::new();
    let mut headings: Vec<String> = Vec::new();
    headings.push("姓名".to_owned());
    headings.push("账号".to_owned());
    headings.push("打卡时间".to_owned());
    rows.push(headings);
    let mut i: usize = 0;
    while i < records.len()
        invariant
            i <= records.len(),
            wanted == import_rows(import_record_views(records@)),
            rows.len() == i + 1,
            forall|k: int| 0 <= k < rows.len() ==> text_views(#[trigger] rows@[k]@) == wanted[k],
        decreases records.len() - i,
    {
        let record = &records[i];
        let mut row: Vec<String> = Vec::new();
        row.push(record.name.clone());
        row.push(record.account.clone());
        row.push(minute_string(&record.time));
        rows.push(row);
        i += 1;
    }
    rows
}

/// Converts an export of the time clock: decodes its bytes, reads the punch
/// table and gives the rows of the result for the people of the roster.
pub fn handle_import(bytes: &[u8], config: &Departments) -> (r: Result<Vec<Vec<String>>, ImportError>)
    requires
        bytes.len() <= MAX_EXPORT_LEN,
    ensures
        match r {
            Ok(rows) => import_outcome(bytes@, config@) == Ok::<Seq<Seq<Seq<char>>>, ImportError>(
                table_view(rows@),
            ),
            Err(e) => import_outcome(bytes@, config@) == Err::<Seq<Seq<Seq<char>>>, ImportError>(e),
        },
{
    let names_map = merged_members(config);
    let html = decode_utf8(bytes);
    match parse_html_table(html.as_str(), &names_map) {
        Ok(records) => Ok(import_table(&records)),
        Err(e) => Err(e),
    }
}

} // verus!
