//! What holds of every report, whatever the export and the roster.

use vstd::prelude::*;

use crate::active::{
    active_dates, count_on, is_active, lemma_active_dates_listed, ACTIVE_DATE_THRESHOLD,
};
use crate::calendar::{date_lt, parsed_date, Date, DATE_FORMAT};
use crate::layout::{
    blocks_overlap, cell, is_block_of, sheet_for, title_text, CellView, SheetView,
};
use crate::matrix::{
    cell_text, is_for, lemma_first_match, lemma_no_match, Slot, Style, MISSING_PUNCH,
    NORMAL_STATUS, TIME_SEPARATOR,
};
use crate::record::{
    decoded_row, decoded_rows, is_usable, usable_records, RawRowView, RecordView,
};
use crate::report::{attendance_report, is_outcome, report_for, Report, ReportError};
use crate::roster::RosterView;
use crate::text::is_blank_text;

verus! {

/// The date cell of the row is missing, blank, or holds text that is no
/// date.
pub open spec fn is_dateless(row: RawRowView) -> bool {
    match row.date {
        Some(text) => is_blank_text(text) || parsed_date(text, DATE_FORMAT@) is None,
        None => true,
    }
}

/// The cell of a sheet that shows the punch of the person at place `person`
/// of the department, on the date at place `date` of the active dates, at
/// the given checkpoint.
pub open spec fn punch_cell(sheet: SheetView, person: int, date: int, slot: Slot) -> CellView {
    sheet.rows[3 + 2 * person + if slot == Slot::Morning {
        0int
    } else {
        1int
    }][2 + date]
}

proof fn lemma_decoded_rows_add(a: Seq<RawRowView>, b: Seq<RawRowView>)
    ensures
        decoded_rows(a + b) == decoded_rows(a) + decoded_rows(b),
    decreases b.len(),
{
    if b.len() > 0 {
        assert((a + b).drop_last() =~= a + b.drop_last());
        lemma_decoded_rows_add(a, b.drop_last());
    }
}

proof fn lemma_dateless_row_leaves_nothing(row: RawRowView)
    requires
        is_dateless(row),
    ensures
        usable_records(decoded_rows(seq![row])) == Seq::<RecordView>::empty(),
{
    // The row gives no record, or one without a date, which is dropped.
    reveal_with_fuel(Seq::filter, 2);
    assert(decoded_rows(seq![row].drop_last()) =~= Seq::<RecordView>::empty());
}

/// A row whose date cell is missing, blank or no date leaves no trace: the
/// records that a report uses, and so the report, are those of the export
/// without that row.
pub proof fn law_dateless_row_is_excluded(rows: Seq<RawRowView>, i: int, roster: RosterView)
    requires
        0 <= i < rows.len(),
        is_dateless(rows[i]),
    ensures
        usable_records(decoded_rows(rows)) == usable_records(decoded_rows(rows.remove(i))),
        attendance_report(rows, roster) == attendance_report(rows.remove(i), roster),
{
    let usable = |r: RecordView| is_usable(r);
    let a = rows.subrange(0, i);
    let one = seq![rows[i]];
    let b = rows.subrange(i + 1, rows.len() as int);
    assert(rows =~= (a + one) + b);
    lemma_decoded_rows_add(a + one, b);
    lemma_decoded_rows_add(a, one);
    lemma_decoded_rows_add(a, b);
    lemma_dateless_row_leaves_nothing(rows[i]);
    Seq::filter_distributes_over_add(decoded_rows(a) + decoded_rows(one), decoded_rows(b), usable);
    Seq::filter_distributes_over_add(decoded_rows(a), decoded_rows(one), usable);
    Seq::filter_distributes_over_add(decoded_rows(a), decoded_rows(b), usable);
    assert(decoded_rows(a).filter(usable) + decoded_rows(one).filter(usable) =~= decoded_rows(
        a,
    ).filter(usable));
}

/// Every record that a report uses comes with a date.
pub proof fn law_usable_records_are_dated(records: Seq<RecordView>, k: int)
    requires
        0 <= k < usable_records(records).len(),
    ensures
        usable_records(records)[k].date is Some,
        is_usable(usable_records(records)[k]),
{
    broadcast use vstd::seq_lib::group_filter_ensures;

}

/// A date is active exactly where more records fall on it than the
/// threshold, and the active dates are listed each once, earliest first: the
/// first of them is the earliest.
pub proof fn law_active_dates(records: Seq<RecordView>, date: Date)
    ensures
        active_dates(records).contains(date) <==> count_on(records, date) > ACTIVE_DATE_THRESHOLD,
        active_dates(records).contains(date) ==> date == active_dates(records)[0] || date_lt(
            active_dates(records)[0],
            date,
        ),
{
    lemma_active_dates_listed(records);
    let dates = active_dates(records);
    if dates.contains(date) {
        let k = choose|k: int| 0 <= k < dates.len() && dates[k] == date;
        assert(k == 0 || date_lt(dates[0], dates[k]));
    }
}

/// The title of every sheet of a report names the department, then the year
/// and month of the earliest active date.
pub proof fn law_title_names_earliest_month(records: Seq<RecordView>, roster: RosterView, k: int)
    requires
        report_for(records, roster) is Ok,
        0 <= k < roster.len(),
    ensures
        report_for(records, roster)->Ok_0[k].rows[0][0] == cell(
            title_text(roster[k].0, active_dates(records)[0]),
            Style::Header,
        ),
        forall|date: Date|
            is_active(records, date) ==> date == active_dates(records)[0] || date_lt(
                active_dates(records)[0],
                date,
            ),
{
    assert forall|date: Date| is_active(records, date) implies date == active_dates(records)[0]
        || date_lt(active_dates(records)[0], date) by {
        law_active_dates(records, date);
    }
}

/// A date with exactly as many records as the threshold is not active.
pub proof fn law_threshold_is_strict(records: Seq<RecordView>, date: Date)
    requires
        count_on(records, date) == ACTIVE_DATE_THRESHOLD,
    ensures
        !active_dates(records).contains(date),
{
    law_active_dates(records, date);
}

/// Where no record belongs to a person, date and checkpoint, the cell shows
/// the missing punch marker, flagged.
pub proof fn law_missing_punch_is_flagged(
    records: Seq<RecordView>,
    department: Seq<char>,
    members: Seq<Seq<char>>,
    dates: Seq<Date>,
    person: int,
    date: int,
    slot: Slot,
)
    requires
        0 <= person < members.len(),
        0 <= date < dates.len(),
        forall|j: int|
            0 <= j < records.len() ==> !is_for(
                records[j],
                department,
                members[person],
                dates[date],
                slot,
            ),
    ensures
        cell_text(records, department, members[person], dates[date], slot) == MISSING_PUNCH@,
        punch_cell(sheet_for(records, department, members, dates), person, date, slot) == cell(
            MISSING_PUNCH@,
            Style::Flagged,
        ),
{
    lemma_no_match(records, department, members[person], dates[date], slot);
    reveal_strlit("缺卡");
}

/// Where the first record that belongs to a person, date and checkpoint has
/// the normal status, the cell shows the punch time of that record as it
/// stands: plain where it holds the time separator, flagged where not.
pub proof fn law_normal_punch_shows_clock_time(
    records: Seq<RecordView>,
    department: Seq<char>,
    members: Seq<Seq<char>>,
    dates: Seq<Date>,
    person: int,
    date: int,
    slot: Slot,
    i: int,
)
    requires
        0 <= person < members.len(),
        0 <= date < dates.len(),
        0 <= i < records.len(),
        is_for(records[i], department, members[person], dates[date], slot),
        forall|j: int|
            0 <= j < i ==> !is_for(records[j], department, members[person], dates[date], slot),
        records[i].clock_status == NORMAL_STATUS@,
    ensures
        cell_text(records, department, members[person], dates[date], slot)
            == records[i].clock_time,
        punch_cell(sheet_for(records, department, members, dates), person, date, slot) == cell(
            records[i].clock_time,
            if records[i].clock_time.contains(TIME_SEPARATOR) {
                Style::Plain
            } else {
                Style::Flagged
            },
        ),
{
    lemma_first_match(records, i, department, members[person], dates[date], slot);
}

/// A sheet is a full grid with a width for each column; its merged blocks
/// lie within it, hold more than one cell each and share no cell.
pub proof fn law_sheet_is_a_grid(
    records: Seq<RecordView>,
    department: Seq<char>,
    members: Seq<Seq<char>>,
    dates: Seq<Date>,
)
    requires
        dates.len() > 0,
    ensures
        ({
            let sheet = sheet_for(records, department, members, dates);
            &&& sheet.rows.len() == 3 + 2 * members.len()
            &&& sheet.column_widths.len() == dates.len() + 3
            &&& forall|r: int|
                0 <= r < sheet.rows.len() ==> (#[trigger] sheet.rows[r]).len() == dates.len() + 3
            &&& forall|k: int|
                0 <= k < sheet.merges.len() ==> is_block_of(
                    #[trigger] sheet.merges[k],
                    sheet.rows.len() as int,
                    dates.len() + 3 as int,
                )
            &&& forall|j: int, k: int|
                0 <= j < k < sheet.merges.len() ==> !blocks_overlap(
                    #[trigger] sheet.merges[j],
                    #[trigger] sheet.merges[k],
                )
        }),
{
}

/// Two runs on the same rows and the same roster end alike: in the same
/// error, or in reports whose sheets are equal cell for cell.
pub proof fn law_same_input_same_report(
    rows: Seq<RawRowView>,
    roster: RosterView,
    first: Result<Report, ReportError>,
    second: Result<Report, ReportError>,
)
    requires
        is_outcome(first, attendance_report(rows, roster)),
        is_outcome(second, attendance_report(rows, roster)),
    ensures
        match (first, second) {
            (Ok(a), Ok(b)) => a@ == b@,
            (Err(a), Err(b)) => a@ == b@,
            _ => false,
        },
{
}

} // verus!
