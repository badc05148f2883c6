//! The sheet of one department: a title, two heading rows and two rows for
//! each person, with one column for each active date.

use vstd::prelude::*;
use vstd::string::StringExecFns;

use crate::calendar::{date_heading, date_heading_text, date_to_weekday, weekday_text, Date};
use crate::matrix::{cell_style, cell_text, cell_value, style_of, Slot, Style};
use crate::record::{record_views, Record, RecordView};
use crate::text::{
    decimal, decimal_string, signed_decimal, signed_decimal_string, text_views,
};

verus! {

/// The heading of the column of names.
pub const NAME_HEADING: &'static str = "人员名称";

/// The heading of the column of checkpoints.
pub const SLOT_HEADING: &'static str = "时段";

/// The heading of the column kept for signatures.
pub const SIGNATURE_HEADING: &'static str = "签名";

/// The label of the morning row.
pub const MORNING_LABEL: &'static str = "上午";

/// The label of the afternoon row.
pub const AFTERNOON_LABEL: &'static str = "下午";

/// What follows department, year and month in a title.
pub const TITLE_SUFFIX: &'static str = "考勤报表";

/// The width of the column of names and of each date column.
pub const WIDE_COLUMN: u16 = 9;

/// The width of the column of checkpoints.
pub const SLOT_COLUMN: u16 = 5;

/// The width of the column kept for signatures.
pub const SIGNATURE_COLUMN: u16 = 14;

/// The height of every row.
pub const ROW_HEIGHT: u16 = 38;

/// The paper size code of A4.
pub const PAPER_A4: u8 = 9;

/// The font of every cell.
pub const FONT_NAME: &'static str = "Arial";

/// The font size of titles and headings, in points.
pub const HEADER_FONT_SIZE: u8 = 12;

/// The font size of every other cell, in points.
pub const BODY_FONT_SIZE: u8 = 11;

/// How the cells of a style look.
#[derive(Clone, Copy, Debug, PartialEq, Eq, Structural)]
pub struct Look {
    pub bold: bool,
    /// Centred across and down the cell.
    pub centered: bool,
    /// A thin border on every side.
    pub bordered: bool,
    pub font_size: u8,
    /// Red text in place of black.
    pub red: bool,
}

/// How the cells of a style look: all bold, centred and bordered; titles
/// and headings larger; flagged cells in red.
pub open spec fn look_of(style: Style) -> Look {
    Look {
        bold: true,
        centered: true,
        bordered: true,
        font_size: if style == Style::Header {
            HEADER_FONT_SIZE
        } else {
            BODY_FONT_SIZE
        },
        red: style == Style::Flagged,
    }
}

/// How the cells of a style look.
pub fn look(style: Style) -> (r: Look)
    ensures
        r == look_of(style),
{
    Look {
        bold: true,
        centered: true,
        bordered: true,
        font_size: match style {
            Style::Header => HEADER_FONT_SIZE,
            _ => BODY_FONT_SIZE,
        },
        red: match style {
            Style::Flagged => true,
            _ => false,
        },
    }
}

/// One cell of a sheet.
#[derive(Debug, PartialEq, Eq)]
pub struct Cell {
    pub text: String,
    pub style: Style,
}

/// A cell as contracts see it.
pub struct CellView {
    pub text: Seq<char>,
    pub style: Style,
}

impl View for Cell {
    type V = CellView;

    open spec fn view(&self) -> CellView {
        CellView { text: self.text@, style: self.style }
    }
}

/// A block of cells shown as one: rows `first_row` to `last_row`, columns
/// `first_col` to `last_col`, all counted from 0. It shows its top left cell.
#[derive(Clone, Copy, Debug, PartialEq, Eq, Structural)]
pub struct MergeRange {
    pub first_row: usize,
    pub first_col: usize,
    pub last_row: usize,
    pub last_col: usize,
}

/// A merged block as contracts see it.
pub struct MergeView {
    pub first_row: int,
    pub first_col: int,
    pub last_row: int,
    pub last_col: int,
}

impl View for MergeRange {
    type V = MergeView;

    open spec fn view(&self) -> MergeView {
        MergeView {
            first_row: self.first_row as int,
            first_col: self.first_col as int,
            last_row: self.last_row as int,
            last_col: self.last_col as int,
        }
    }
}

/// Page margins, in tenths of an inch.
#[derive(Clone, Copy, Debug, PartialEq, Eq, Structural)]
pub struct Margins {
    pub left: u8,
    pub right: u8,
    pub top: u8,
    pub bottom: u8,
    pub header: u8,
    pub footer: u8,
}

/// How a sheet is printed.
#[derive(Clone, Copy, Debug, PartialEq, Eq, Structural)]
pub struct PageSetup {
    pub landscape: bool,
    pub paper_size: u8,
    /// The number of pages across which the sheet is fitted.
    pub fit_width: u16,
    /// The number of pages down which the sheet is fitted; 0 for as many
    /// as it takes.
    pub fit_height: u16,
    pub center_horizontally: bool,
    pub margins: Margins,
}

/// The sheet of one department.
#[derive(Debug, PartialEq, Eq)]
pub struct Sheet {
    pub name: String,
    /// The cells, row by row. Every row has the same length.
    pub rows: Vec<Vec<Cell>>,
    pub merges: Vec<MergeRange>,
    /// The width of each column, in characters.
    pub column_widths: Vec<u16>,
    /// The height of every row, in points.
    pub row_height: u16,
    pub page: PageSetup,
}

/// A sheet as contracts see it.
pub struct SheetView {
    pub name: Seq<char>,
    pub rows: Seq<Seq<CellView>>,
    pub merges: Seq<MergeView>,
    pub column_widths: Seq<u16>,
    pub row_height: u16,
    pub page: PageSetup,
}

/// The cells of a row.
pub open spec fn row_view(row: Seq<Cell>) -> Seq<CellView> {
    row.map_values(|c: Cell| c@)
}

/// The cells of a grid, row by row.
pub open spec fn grid_view(rows: Seq<Vec<Cell>>) -> Seq<Seq<CellView>> {
    rows.map_values(|row: Vec<Cell>| row_view(row@))
}

/// The merged blocks of a sequence of ranges.
pub open spec fn merge_views(merges: Seq<MergeRange>) -> Seq<MergeView> {
    merges.map_values(|m: MergeRange| m@)
}

impl View for Sheet {
    type V = SheetView;

    open spec fn view(&self) -> SheetView {
        SheetView {
            name: self.name@,
            rows: grid_view(self.rows@),
            merges: merge_views(self.merges@),
            column_widths: self.column_widths@,
            row_height: self.row_height,
            page: self.page,
        }
    }
}

/// A cell with the given text and style.
pub open spec fn cell(text: Seq<char>, style: Style) -> CellView {
    CellView { text, style }
}

/// A cell without text.
pub open spec fn blank(style: Style) -> CellView {
    CellView { text: Seq::empty(), style }
}

/// The title of a sheet: department, then year and month of `first`.
pub open spec fn title_text(department: Seq<char>, first: Date) -> Seq<char> {
    department + signed_decimal(first.spec_year() as int) + "年"@ + decimal(
        first.spec_month() as nat,
    ) + "月"@ + TITLE_SUFFIX@
}

/// The label of a checkpoint row.
pub open spec fn slot_label(slot: Slot) -> Seq<char> {
    match slot {
        Slot::Morning => MORNING_LABEL@,
        Slot::Evening => AFTERNOON_LABEL@,
    }
}

/// Row 0: the title in the first cell, the other cells blank.
pub open spec fn title_row(title: Seq<char>, dates: Seq<Date>) -> Seq<CellView> {
    Seq::new(
        dates.len() + 3,
        |c: int|
            if c == 0 {
                cell(title, Style::Header)
            } else {
                blank(Style::Header)
            },
    )
}

/// Row 1: the headings of the two leading columns, of each date column and
/// of the signature column.
pub open spec fn heading_row(dates: Seq<Date>) -> Seq<CellView> {
    Seq::new(
        dates.len() + 3,
        |c: int|
            if c == 0 {
                cell(NAME_HEADING@, Style::Header)
            } else if c == 1 {
                cell(SLOT_HEADING@, Style::Header)
            } else if c < dates.len() + 2 {
                cell(date_heading_text(dates[c - 2]), Style::Header)
            } else {
                cell(SIGNATURE_HEADING@, Style::Header)
            },
    )
}

/// Row 2: the weekday under each date; the other cells blank.
pub open spec fn weekday_row(dates: Seq<Date>) -> Seq<CellView> {
    Seq::new(
        dates.len() + 3,
        |c: int|
            if 2 <= c < dates.len() + 2 {
                cell(weekday_text(dates[c - 2]), Style::Header)
            } else {
                blank(Style::Header)
            },
    )
}

/// One of the two rows of a person: the name (in the morning row only), the
/// label of the checkpoint, the punch of each date, and the blank kept for
/// the signature.
pub open spec fn person_row(
    records: Seq<RecordView>,
    department: Seq<char>,
    person: Seq<char>,
    dates: Seq<Date>,
    slot: Slot,
) -> Seq<CellView> {
    Seq::new(
        dates.len() + 3,
        |c: int|
            if c == 0 {
                if slot == Slot::Morning {
                    cell(person, Style::Plain)
                } else {
                    blank(Style::Plain)
                }
            } else if c == 1 {
                cell(slot_label(slot), Style::Plain)
            } else if c < dates.len() + 2 {
                cell(
                    cell_text(records, department, person, dates[c - 2], slot),
                    style_of(cell_text(records, department, person, dates[c - 2], slot)),
                )
            } else {
                blank(Style::Signature)
            },
    )
}

/// The rows of a sheet: title, headings, weekdays, then for each person the
/// morning row and the afternoon row.
pub open spec fn sheet_rows(
    records: Seq<RecordView>,
    department: Seq<char>,
    members: Seq<Seq<char>>,
    dates: Seq<Date>,
) -> Seq<Seq<CellView>> {
    Seq::new(
        3 + 2 * members.len(),
        |r: int|
            if r == 0 {
                title_row(title_text(department, dates[0]), dates)
            } else if r == 1 {
                heading_row(dates)
            } else if r == 2 {
                weekday_row(dates)
            } else {
                person_row(
                    records,
                    department,
                    members[(r - 3) / 2],
                    dates,
                    if (r - 3) % 2 == 0 {
                        Slot::Morning
                    } else {
                        Slot::Evening
                    },
                )
            },
    )
}

/// The block from the first row and column to the last.
pub open spec fn merge(first_row: int, first_col: int, last_row: int, last_col: int) -> MergeView {
    MergeView { first_row, first_col, last_row, last_col }
}

/// The merged blocks of a sheet with `people` people and `dates` dates: the
/// title across row 0; the headings of the two leading columns and of the
/// signature column down rows 1 and 2; then for each person the name and
/// the signature down both rows.
pub open spec fn sheet_merges(people: int, dates: int) -> Seq<MergeView> {
    Seq::new(
        (4 + 2 * people) as nat,
        |k: int|
            if k == 0 {
                merge(0, 0, 0, dates + 2)
            } else if k == 1 {
                merge(1, 0, 2, 0)
            } else if k == 2 {
                merge(1, 1, 2, 1)
            } else if k == 3 {
                merge(1, dates + 2, 2, dates + 2)
            } else if (k - 4) % 2 == 0 {
                merge(3 + 2 * ((k - 4) / 2), 0, 4 + 2 * ((k - 4) / 2), 0)
            } else {
                merge(3 + 2 * ((k - 4) / 2), dates + 2, 4 + 2 * ((k - 4) / 2), dates + 2)
            },
    )
}

/// The block lies within a sheet of `rows` rows and `columns` columns and
/// holds more than one cell.
pub open spec fn is_block_of(m: MergeView, rows: int, columns: int) -> bool {
    &&& 0 <= m.first_row <= m.last_row < rows
    &&& 0 <= m.first_col <= m.last_col < columns
    &&& (m.first_row < m.last_row || m.first_col < m.last_col)
}

/// The two blocks have a cell in common.
pub open spec fn blocks_overlap(a: MergeView, b: MergeView) -> bool {
    &&& a.first_row <= b.last_row
    &&& b.first_row <= a.last_row
    &&& a.first_col <= b.last_col
    &&& b.first_col <= a.last_col
}

/// The width of each column: the checkpoint column narrow, the signature
/// column widest.
pub open spec fn sheet_column_widths(dates: int) -> Seq<u16> {
    Seq::new(
        (dates + 3) as nat,
        |c: int|
            if c == 1 {
                SLOT_COLUMN
            } else if c == dates + 2 {
                SIGNATURE_COLUMN
            } else {
                WIDE_COLUMN
            },
    )
}

/// How every sheet is printed: on A4 across, as wide as one page, centred,
/// with small margins.
pub open spec fn standard_page() -> PageSetup {
    PageSetup {
        landscape: true,
        paper_size: PAPER_A4,
        fit_width: 1,
        fit_height: 0,
        center_horizontally: true,
        margins: Margins { left: 1, right: 1, top: 2, bottom: 2, header: 0, footer: 0 },
    }
}

/// The sheet of a department with the given people, for the given dates.
pub open spec fn sheet_for(
    records: Seq<RecordView>,
    department: Seq<char>,
    members: Seq<Seq<char>>,
    dates: Seq<Date>,
) -> SheetView
    recommends
        dates.len() > 0,
{
    SheetView {
        name: department,
        rows: sheet_rows(records, department, members, dates),
        merges: sheet_merges(members.len() as int, dates.len() as int),
        column_widths: sheet_column_widths(dates.len() as int),
        row_height: ROW_HEIGHT,
        page: standard_page(),
    }
}

/// How every sheet is printed.
pub fn page_setup() -> (r: PageSetup)
    ensures
        r == standard_page(),
{
    PageSetup {
        landscape: true,
        paper_size: PAPER_A4,
        fit_width: 1,
        fit_height: 0,
        center_horizontally: true,
        margins: Margins { left: 1, right: 1, top: 2, bottom: 2, header: 0, footer: 0 },
    }
}

/// The title of the sheet of `department` for the month of `first`.
pub fn sheet_title(department: &str, first: &Date) -> (r: String)
    ensures
        r@ == title_text(department@, *first),
{
    let mut r = department.to_owned();
    let year = signed_decimal_string(first.year() as i64);
    r.append(year.as_str());
    r.append("年");
    let month = decimal_string(first.month() as u64);
    r.append(month.as_str());
    r.append("月");
    r.append(TITLE_SUFFIX);
    r
}

fn title_cells(title: String, dates: &Vec<Date>) -> (row: Vec<Cell>)
    ensures
        row_view(row@) == title_row(title@, dates@),
{
    let ghost text = title@;
    let mut row: Vec<Cell> = Vec::new();
    row.push(Cell { text: title, style: Style::Header });
    row.push(Cell { text: String::new(), style: Style::Header });
    let mut k: usize = 0;
    while k < dates.len()
        invariant
            k <= dates.len(),
            row.len() == k + 2,
            forall|c: int| 0 <= c < row.len() ==> row@[c]@ == title_row(text, dates@)[c],
        decreases dates.len() - k,
    {
        row.push(Cell { text: String::new(), style: Style::Header });
        k += 1;
    }
    row.push(Cell { text: String::new(), style: Style::Header });
    row
}

fn heading_cells(dates: &Vec<Date>) -> (row: Vec<Cell>)
    ensures
        row_view(row@) == heading_row(dates@),
{
    let mut row: Vec<Cell> = Vec::new();
    row.push(Cell { text: NAME_HEADING.to_owned(), style: Style::Header });
    row.push(Cell { text: SLOT_HEADING.to_owned(), style: Style::Header });
    let mut k: usize = 0;
    while k < dates.len()
        invariant
            k <= dates.len(),
            row.len() == k + 2,
            forall|c: int| 0 <= c < row.len() ==> row@[c]@ == heading_row(dates@)[c],
        decreases dates.len() - k,
    {
        row.push(Cell { text: date_heading(&dates[k]), style: Style::Header });
        k += 1;
    }
    row.push(Cell { text: SIGNATURE_HEADING.to_owned(), style: Style::Header });
    row
}

fn weekday_cells(dates: &Vec<Date>) -> (row: Vec<Cell>)
    ensures
        row_view(row@) == weekday_row(dates@),
{
    let mut row: Vec<Cell> = Vec::new();
    row.push(Cell { text: String::new(), style: Style::Header });
    row.push(Cell { text: String::new(), style: Style::Header });
    let mut k: usize = 0;
    while k < dates.len()
        invariant
            k <= dates.len(),
            row.len() == k + 2,
            forall|c: int| 0 <= c < row.len() ==> row@[c]@ == weekday_row(dates@)[c],
        decreases dates.len() - k,
    {
        row.push(Cell { text: date_to_weekday(&dates[k]).to_owned(), style: Style::Header });
        k += 1;
    }
    row.push(Cell { text: String::new(), style: Style::Header });
    row
}

fn person_cells(
    records: &Vec<Record>,
    department: &str,
    person: &str,
    dates: &Vec<Date>,
    slot: Slot,
) -> (row: Vec<Cell>)
    ensures
        row_view(row@) == person_row(record_views(records@), department@, person@, dates@, slot),
{
    let ghost wanted = person_row(record_views(records@), department@, person@, dates@, slot);
    let mut row: Vec<Cell> = Vec::new();
    match slot {
        Slot::Morning => {
            row.push(Cell { text: person.to_owned(), style: Style::Plain });
            row.push(Cell { text: MORNING_LABEL.to_owned(), style: Style::Plain });
        },
        Slot::Evening => {
            row.push(Cell { text: String::new(), style: Style::Plain });
            row.push(Cell { text: AFTERNOON_LABEL.to_owned(), style: Style::Plain });
        },
    }
    let mut k: usize = 0;
    while k < dates.len()
        invariant
            k <= dates.len(),
            row.len() == k + 2,
            wanted == person_row(record_views(records@), department@, person@, dates@, slot),
            forall|c: int| 0 <= c < row.len() ==> row@[c]@ == wanted[c],
        decreases dates.len() - k,
    {
        let text = cell_value(records, department, person, &dates[k], slot);
        let style = cell_style(text.as_str());
        row.push(Cell { text, style });
        k += 1;
    }
    row.push(Cell { text: String::new(), style: Style::Signature });
    row
}

fn column_widths(dates: &Vec<Date>) -> (widths: Vec<u16>)
    ensures
        widths@ == sheet_column_widths(dates.len() as int),
{
    let mut widths: Vec<u16> = Vec::new();
    widths.push(WIDE_COLUMN);
    widths.push(SLOT_COLUMN);
    let mut k: usize = 0;
    while k < dates.len()
        invariant
            k <= dates.len(),
            widths.len() == k + 2,
            forall|c: int|
                0 <= c < widths.len() ==> widths@[c] == sheet_column_widths(dates.len() as int)[c],
        decreases dates.len() - k,
    {
        widths.push(WIDE_COLUMN);
        k += 1;
    }
    widths.push(SIGNATURE_COLUMN);
    widths
}

/// Lays out the sheet of one department: the people in the order given,
/// one column for each date, the punches looked up in `records`.
pub fn layout_sheet(
    records: &Vec<Record>,
    department: &str,
    members: &Vec<String>,
    dates: &Vec<Date>,
) -> (sheet: Sheet)
    requires
        dates.len() > 0,
    ensures
        sheet@ == sheet_for(record_views(records@), department@, text_views(members@), dates@),
{
    let ghost all = record_views(records@);
    let ghost names = text_views(members@);
    let ghost rows_wanted = sheet_rows(all, department@, names, dates@);
    let ghost merges_wanted = sheet_merges(members.len() as int, dates.len() as int);

    let widths = column_widths(dates);
    let last_col: usize = widths.len() - 1;

    let mut rows: Vec<Vec<Cell>> = Vec::new();
    let mut merges: Vec<MergeRange> = Vec::new();
    rows.push(title_cells(sheet_title(department, &dates[0]), dates));
    rows.push(heading_cells(dates));
    rows.push(weekday_cells(dates));
    merges.push(MergeRange { first_row: 0, first_col: 0, last_row: 0, last_col });
    merges.push(MergeRange { first_row: 1, first_col: 0, last_row: 2, last_col: 0 });
    merges.push(MergeRange { first_row: 1, first_col: 1, last_row: 2, last_col: 1 });
    merges.push(MergeRange { first_row: 1, first_col: last_col, last_row: 2, last_col });

    let mut i: usize = 0;
    while i < members.len()
        invariant
            i <= members.len(),
            dates.len() > 0,
            last_col == dates.len() + 2,
            all == record_views(records@),
            names == text_views(members@),
            rows_wanted == sheet_rows(all, department@, names, dates@),
            merges_wanted == sheet_merges(members.len() as int, dates.len() as int),
            rows.len() == 3 + 2 * i,
            merges.len() == 4 + 2 * i,
            forall|r: int| 0 <= r < rows.len() ==> row_view(#[trigger] rows@[r]@) == rows_wanted[r],
            forall|k: int| 0 <= k < merges.len() ==> #[trigger] merges@[k]@ == merges_wanted[k],
        decreases members.len() - i,
    {
        let person = members[i].as_str();
        rows.push(person_cells(records, department, person, dates, Slot::Morning));
        rows.push(person_cells(records, department, person, dates, Slot::Evening));
        let last_row: usize = rows.len() - 1;
        let first_row: usize = last_row - 1;
        merges.push(MergeRange { first_row, first_col: 0, last_row, last_col: 0 });
        merges.push(MergeRange { first_row, first_col: last_col, last_row, last_col });
        i += 1;
    }
    let sheet = Sheet {
        name: department.to_owned(),
        rows,
        merges,
        column_widths: widths,
        row_height: ROW_HEIGHT,
        page: page_setup(),
    };
    assert(grid_view(sheet.rows@) =~= rows_wanted);
    assert(merge_views(sheet.merges@) =~= merges_wanted);
    sheet
}

} // verus!
