//! Attendance records: decoding the rows of an export and dropping those
//! that a report cannot use.

use vstd::prelude::*;

use crate::calendar::{parse_date, parsed_date, Date, DATE_FORMAT};
use crate::text::{contains_str, contains_text, is_blank, is_blank_text, text_of};

verus! {

/// The status text that marks a business trip.
pub const BUSINESS_TRIP: &'static str = "出差";

/// One row of an export, its cells still text.
#[derive(Debug, PartialEq, Eq)]
pub struct RawRow {
    pub person: String,
    pub department: String,
    pub date: Option<String>,
    pub attendance_time: String,
    pub clock_time: String,
    pub clock_status: String,
}

/// One punch event.
#[derive(Debug, PartialEq, Eq)]
pub struct Record {
    pub person: String,
    pub department: String,
    pub date: Option<Date>,
    /// The checkpoint that the punch belongs to, as the export writes it.
    pub attendance_time: String,
    /// When the person punched; empty where they did not.
    pub clock_time: String,
    pub clock_status: String,
}

/// A row as contracts see it.
pub struct RawRowView {
    pub person: Seq<char>,
    pub department: Seq<char>,
    pub date: Option<Seq<char>>,
    pub attendance_time: Seq<char>,
    pub clock_time: Seq<char>,
    pub clock_status: Seq<char>,
}

/// A record as contracts see it.
pub struct RecordView {
    pub person: Seq<char>,
    pub department: Seq<char>,
    pub date: Option<Date>,
    pub attendance_time: Seq<char>,
    pub clock_time: Seq<char>,
    pub clock_status: Seq<char>,
}

impl View for RawRow {
    type V = RawRowView;

    open spec fn view(&self) -> RawRowView {
        RawRowView {
            person: self.person@,
            department: self.department@,
            date: text_of(self.date),
            attendance_time: self.attendance_time@,
            clock_time: self.clock_time@,
            clock_status: self.clock_status@,
        }
    }
}

impl View for Record {
    type V = RecordView;

    open spec fn view(&self) -> RecordView {
        RecordView {
            person: self.person@,
            department: self.department@,
            date: self.date,
            attendance_time: self.attendance_time@,
            clock_time: self.clock_time@,
            clock_status: self.clock_status@,
        }
    }
}

/// The rows of a sequence of rows, as contracts see them.
pub open spec fn row_views(rows: Seq<RawRow>) -> Seq<RawRowView> {
    rows.map_values(|r: RawRow| r@)
}

/// The records of a sequence of records, as contracts see them.
pub open spec fn record_views(records: Seq<Record>) -> Seq<RecordView> {
    records.map_values(|r: Record| r@)
}

/// Why a row cannot be decoded.
#[derive(Clone, Copy, Debug, PartialEq, Eq, Structural)]
pub enum RowError {
    /// The date cell holds text that is no date.
    MalformedDate,
}

/// What a date cell means: no date where the cell is missing or blank, the
/// date where it holds one, an error where it holds anything else.
pub open spec fn decoded_date(cell: Option<Seq<char>>) -> Result<Option<Date>, RowError> {
    match cell {
        Some(text) => if is_blank_text(text) {
            Ok(None)
        } else {
            match parsed_date(text, DATE_FORMAT@) {
                Some(date) => Ok(Some(date)),
                None => Err(RowError::MalformedDate),
            }
        },
        None => Ok(None),
    }
}

/// The record that a row stands for.
pub open spec fn decoded_row(row: RawRowView) -> Result<RecordView, RowError> {
    match decoded_date(row.date) {
        Ok(date) => Ok(
            RecordView {
                person: row.person,
                department: row.department,
                date,
                attendance_time: row.attendance_time,
                clock_time: row.clock_time,
                clock_status: row.clock_status,
            },
        ),
        Err(e) => Err(e),
    }
}

/// The records of the rows that can be decoded, in the order of the rows.
pub open spec fn decoded_rows(rows: Seq<RawRowView>) -> Seq<RecordView>
    decreases rows.len(),
{
    if rows.len() == 0 {
        Seq::empty()
    } else {
        let before = decoded_rows(rows.drop_last());
        match decoded_row(rows.last()) {
            Ok(record) => before.push(record),
            Err(_) => before,
        }
    }
}

/// A report can use a record that has a date, a punch time and a status,
/// and whose status does not speak of a business trip.
pub open spec fn is_usable(r: RecordView) -> bool {
    &&& r.date is Some
    &&& r.clock_time.len() > 0
    &&& r.clock_status.len() > 0
    &&& !contains_text(r.clock_status, BUSINESS_TRIP@)
}

/// The records that a report can use, in their order.
pub open spec fn usable_records(records: Seq<RecordView>) -> Seq<RecordView> {
    records.filter(|r: RecordView| is_usable(r))
}

/// Decodes a date cell.
pub fn decode_date(cell: &Option<String>) -> (r: Result<Option<Date>, RowError>)
    ensures
        r == decoded_date(text_of(*cell)),
{
    match cell {
        Some(text) => {
            if is_blank(text.as_str()) {
                Ok(None)
            } else {
                match parse_date(text.as_str()) {
                    Some(date) => Ok(Some(date)),
                    None => Err(RowError::MalformedDate),
                }
            }
        },
        None => Ok(None),
    }
}

/// Decodes one row.
pub fn decode_row(row: &RawRow) -> (r: Result<Record, RowError>)
    ensures
        match r {
            Ok(record) => decoded_row(row@) == Ok::<RecordView, RowError>(record@),
            Err(e) => decoded_row(row@) == Err::<RecordView, RowError>(e),
        },
{
    match decode_date(&row.date) {
        Ok(date) => Ok(
            Record {
                person: row.person.clone(),
                department: row.department.clone(),
                date,
                attendance_time: row.attendance_time.clone(),
                clock_time: row.clock_time.clone(),
                clock_status: row.clock_status.clone(),
            },
        ),
        Err(e) => Err(e),
    }
}

/// Decodes the rows of an export. A row that cannot be decoded is left out;
/// the others keep their order.
pub fn decode_rows(rows: &Vec<RawRow>) -> (records: Vec<Record>)
    ensures
        record_views(records@) == decoded_rows(row_views(rows@)),
{
    let mut records: Vec<Record> = Vec::new();
    let mut i: usize = 0;
    while i < rows.len()
        invariant
            i <= rows.len(),
            record_views(records@) == decoded_rows(row_views(rows@).take(i as int)),
        decreases rows.len() - i,
    {
        assert(row_views(rows@).take(i + 1).drop_last() =~= row_views(rows@).take(i as int));
        match decode_row(&rows[i]) {
            Ok(record) => {
                records.push(record);
            },
            Err(_) => {},
        }
        i += 1;
    }
    assert(row_views(rows@).take(rows.len() as int) =~= row_views(rows@));
    records
}

/// Whether a report can use the record.
pub fn record_is_usable(record: &Record) -> (r: bool)
    ensures
        r == is_usable(record@),
{
    record.date.is_some() && !record.clock_time.as_str().is_empty()
        && !record.clock_status.as_str().is_empty() && !contains_str(
        record.clock_status.as_str(),
        BUSINESS_TRIP,
    )
}

/// Keeps the records that a report can use, in their order.
pub fn retain_usable(records: Vec<Record>) -> (kept: Vec<Record>)
    ensures
        record_views(kept@) == usable_records(record_views(records@)),
{
    broadcast use vstd::std_specs::vec::axiom_spec_into_iter;

    let ghost all = records@;
    let ghost usable = |r: RecordView| is_usable(r);
    let mut kept: Vec<Record> = Vec::new();
    assert(record_views(all).take(0).filter(usable) =~= Seq::empty()) by {
        reveal(Seq::filter);
    }
    for record in it: records
        invariant
            it.seq() == all,
            usable == (|r: RecordView| is_usable(r)),
            record_views(kept@) == record_views(all).take(it.index()).filter(usable),
    {
        let ghost before = record_views(all).take(it.index());
        let ghost upto = record_views(all).take(it.index() + 1);
        assert(upto.drop_last() =~= before);
        assert(upto.filter(usable) == if usable(record@) {
            before.filter(usable).push(record@)
        } else {
            before.filter(usable)
        }) by {
            reveal(Seq::filter);
        }
        if record_is_usable(&record) {
            kept.push(record);
        }
    }
    assert(record_views(all).take(all.len() as int) =~= record_views(all));
    kept
}

} // verus!
