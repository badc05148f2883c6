//! What a report shows for one person on one date at one checkpoint.

use vstd::prelude::*;

use crate::calendar::Date;
use crate::reason::{extract_reason, reason_text};
use crate::record::{record_views, Record, RecordView};
use crate::text::contains_char;

verus! {

/// The checkpoint time under which the export files a morning punch.
pub const MORNING_CHECKPOINT: &'static str = "08:45";

/// The checkpoint time under which the export files an evening punch.
pub const EVENING_CHECKPOINT: &'static str = "17:30";

/// The status of a punch that was in order.
pub const NORMAL_STATUS: &'static str = "正常";

/// What a report shows where nobody punched.
pub const MISSING_PUNCH: &'static str = "缺卡";

/// The character by which a punch time is told from any other text.
pub const TIME_SEPARATOR: char = ':';

/// One of the two checkpoints of a day.
#[derive(Clone, Copy, Debug, PartialEq, Eq, Structural)]
pub enum Slot {
    Morning,
    Evening,
}

/// How a cell is drawn.
#[derive(Clone, Copy, Debug, PartialEq, Eq, Structural)]
pub enum Style {
    /// Titles and column headings.
    Header,
    /// Names, checkpoint labels and punch times.
    Plain,
    /// Whatever stands where a punch time should: it is drawn in red.
    Flagged,
    /// The blank cell kept for a signature.
    Signature,
}

/// What the records say of one person, date and checkpoint.
#[derive(Debug, PartialEq, Eq)]
pub enum Punch {
    /// The punch was in order; the text is the time of the punch.
    OnTime(String),
    /// The record reports an exception; the text is its reason.
    Exception(String),
    /// No record.
    Missing,
}

/// A punch as contracts see it.
pub enum PunchView {
    OnTime(Seq<char>),
    Exception(Seq<char>),
    Missing,
}

impl View for Punch {
    type V = PunchView;

    open spec fn view(&self) -> PunchView {
        match self {
            Punch::OnTime(t) => PunchView::OnTime(t@),
            Punch::Exception(t) => PunchView::Exception(t@),
            Punch::Missing => PunchView::Missing,
        }
    }
}

impl Slot {
    /// The checkpoint time by which the export names the slot.
    pub open spec fn checkpoint_text(self) -> Seq<char> {
        match self {
            Slot::Morning => MORNING_CHECKPOINT@,
            Slot::Evening => EVENING_CHECKPOINT@,
        }
    }

    /// The checkpoint time by which the export names the slot.
    pub fn checkpoint(self) -> (r: &'static str)
        ensures
            r@ == self.checkpoint_text(),
    {
        match self {
            Slot::Morning => MORNING_CHECKPOINT,
            Slot::Evening => EVENING_CHECKPOINT,
        }
    }
}

/// The record belongs to the given person of the given department, date
/// and checkpoint. Every part is compared for equality, the checkpoint as
/// text.
pub open spec fn is_for(
    r: RecordView,
    department: Seq<char>,
    person: Seq<char>,
    date: Date,
    slot: Slot,
) -> bool {
    &&& r.department == department
    &&& r.person == person
    &&& r.date == Some(date)
    &&& r.attendance_time == slot.checkpoint_text()
}

/// The first of the records that belongs to the given person, date and
/// checkpoint.
pub open spec fn matching_record(
    records: Seq<RecordView>,
    department: Seq<char>,
    person: Seq<char>,
    date: Date,
    slot: Slot,
) -> Option<RecordView>
    decreases records.len(),
{
    if records.len() == 0 {
        None
    } else if is_for(records.first(), department, person, date, slot) {
        Some(records.first())
    } else {
        matching_record(records.drop_first(), department, person, date, slot)
    }
}

/// What a found record, or the lack of one, says of a punch.
pub open spec fn classified(found: Option<RecordView>) -> PunchView {
    match found {
        Some(r) => if r.clock_status == NORMAL_STATUS@ {
            PunchView::OnTime(r.clock_time)
        } else {
            PunchView::Exception(reason_text(r.clock_status))
        },
        None => PunchView::Missing,
    }
}

/// The text that a report shows for a punch.
pub open spec fn punch_text(p: PunchView) -> Seq<char> {
    match p {
        PunchView::OnTime(t) => t,
        PunchView::Exception(t) => t,
        PunchView::Missing => MISSING_PUNCH@,
    }
}

/// The text in the cell of the given person, date and checkpoint.
pub open spec fn cell_text(
    records: Seq<RecordView>,
    department: Seq<char>,
    person: Seq<char>,
    date: Date,
    slot: Slot,
) -> Seq<char> {
    punch_text(classified(matching_record(records, department, person, date, slot)))
}

/// How a punch cell is drawn: plain where its text holds the time
/// separator, flagged where it does not. Only the text decides.
pub open spec fn style_of(text: Seq<char>) -> Style {
    if text.contains(TIME_SEPARATOR) {
        Style::Plain
    } else {
        Style::Flagged
    }
}

/// The first record at or after place `i` that belongs to the given person,
/// date and checkpoint is the record at place `i`, if that one does and none
/// before it does.
pub proof fn lemma_first_match(
    records: Seq<RecordView>,
    i: int,
    department: Seq<char>,
    person: Seq<char>,
    date: Date,
    slot: Slot,
)
    requires
        0 <= i < records.len(),
        is_for(records[i], department, person, date, slot),
        forall|j: int| 0 <= j < i ==> !is_for(records[j], department, person, date, slot),
    ensures
        matching_record(records, department, person, date, slot) == Some(records[i]),
    decreases i,
{
    if i > 0 {
        let rest = records.drop_first();
        assert forall|j: int| 0 <= j < i - 1 implies !is_for(
            rest[j],
            department,
            person,
            date,
            slot,
        ) by {
            assert(rest[j] == records[j + 1]);
        }
        lemma_first_match(rest, i - 1, department, person, date, slot);
    }
}

/// Where no record belongs to the given person, date and checkpoint, none
/// is found.
pub proof fn lemma_no_match(
    records: Seq<RecordView>,
    department: Seq<char>,
    person: Seq<char>,
    date: Date,
    slot: Slot,
)
    requires
        forall|j: int| 0 <= j < records.len() ==> !is_for(records[j], department, person, date, slot),
    ensures
        matching_record(records, department, person, date, slot) is None,
    decreases records.len(),
{
    if records.len() > 0 {
        let rest = records.drop_first();
        assert forall|j: int| 0 <= j < rest.len() implies !is_for(
            rest[j],
            department,
            person,
            date,
            slot,
        ) by {
            assert(rest[j] == records[j + 1]);
        }
        lemma_no_match(rest, department, person, date, slot);
    }
}

/// Whether the record belongs to the given person, date and checkpoint
/// time.
fn record_is_for(
    record: &Record,
    department: &String,
    person: &String,
    date: &Date,
    checkpoint: &String,
) -> (r: bool)
    ensures
        r == (record@.department == department@ && record@.person == person@ && record@.date
            == Some(*date) && record@.attendance_time == checkpoint@),
{
    record.department == *department && record.person == *person && record.date == Some(*date)
        && record.attendance_time == *checkpoint
}

/// The first of the records that belongs to the given person, date and
/// checkpoint.
pub fn find_record<'a>(
    records: &'a Vec<Record>,
    department: &str,
    person: &str,
    date: &Date,
    slot: Slot,
) -> (found: Option<&'a Record>)
    ensures
        match found {
            Some(record) => matching_record(
                record_views(records@),
                department@,
                person@,
                *date,
                slot,
            ) == Some(record@),
            None => matching_record(record_views(records@), department@, person@, *date, slot)
                is None,
        },
{
    let wanted_department = department.to_owned();
    let wanted_person = person.to_owned();
    let checkpoint = slot.checkpoint().to_owned();
    let ghost all = record_views(records@);
    let mut i: usize = 0;
    assert(all.skip(0) =~= all);
    while i < records.len()
        invariant
            i <= records.len(),
            all == record_views(records@),
            wanted_department@ == department@,
            wanted_person@ == person@,
            checkpoint@ == slot.checkpoint_text(),
            matching_record(all, department@, person@, *date, slot) == matching_record(
                all.skip(i as int),
                department@,
                person@,
                *date,
                slot,
            ),
        decreases records.len() - i,
    {
        assert(all.skip(i as int).drop_first() =~= all.skip(i + 1));
        if record_is_for(&records[i], &wanted_department, &wanted_person, date, &checkpoint) {
            return Some(&records[i]);
        }
        i += 1;
    }
    None
}

/// What a found record, or the lack of one, says of a punch.
pub fn classify(found: Option<&Record>) -> (p: Punch)
    ensures
        p@ == classified(
            match found {
                Some(r) => Some(r@),
                None => None,
            },
        ),
{
    match found {
        Some(record) => {
            let normal = NORMAL_STATUS.to_owned();
            if record.clock_status == normal {
                Punch::OnTime(record.clock_time.clone())
            } else {
                Punch::Exception(extract_reason(record.clock_status.as_str()))
            }
        },
        None => Punch::Missing,
    }
}

impl Punch {
    /// The text that a report shows for the punch.
    pub fn text(self) -> (r: String)
        ensures
            r@ == punch_text(self@),
    {
        match self {
            Punch::OnTime(t) => t,
            Punch::Exception(t) => t,
            Punch::Missing => MISSING_PUNCH.to_owned(),
        }
    }
}

/// The text in the cell of the given person, date and checkpoint.
pub fn cell_value(
    records: &Vec<Record>,
    department: &str,
    person: &str,
    date: &Date,
    slot: Slot,
) -> (r: String)
    ensures
        r@ == cell_text(record_views(records@), department@, person@, *date, slot),
{
    classify(find_record(records, department, person, date, slot)).text()
}

/// How a punch cell with the given text is drawn.
pub fn cell_style(text: &str) -> (r: Style)
    ensures
        r == style_of(text@),
{
    if contains_char(text, TIME_SEPARATOR) {
        Style::Plain
    } else {
        Style::Flagged
    }
}

} // verus!
