//! The dates that belong to the reporting period: those on which more
//! records fall than the threshold allows for stray entries.

use vstd::prelude::*;

use crate::calendar::{date_lt, strictly_ascending, Date};
use crate::record::{record_views, Record, RecordView};

verus! {

/// A date belongs to the reporting period when more records than this fall
/// on it.
pub const ACTIVE_DATE_THRESHOLD: usize = 30;

/// How many of the records fall on `date`.
pub open spec fn count_on(records: Seq<RecordView>, date: Date) -> nat
    decreases records.len(),
{
    if records.len() == 0 {
        0
    } else {
        count_on(records.drop_last(), date) + if records.last().date == Some(date) {
            1nat
        } else {
            0nat
        }
    }
}

/// More records fall on `date` than the threshold.
pub open spec fn is_active(records: Seq<RecordView>, date: Date) -> bool {
    count_on(records, date) > ACTIVE_DATE_THRESHOLD
}

/// `dates` lists the active dates of `records`, each once, earliest first.
pub open spec fn lists_active_dates(dates: Seq<Date>, records: Seq<RecordView>) -> bool {
    &&& strictly_ascending(dates)
    &&& forall|d: Date| dates.contains(d) <==> is_active(records, d)
}

/// The active dates of `records`, each once, earliest first.
pub open spec fn active_dates(records: Seq<RecordView>) -> Seq<Date> {
    choose|dates: Seq<Date>| lists_active_dates(dates, records)
}

/// Counting over one more record adds one for the date of that record.
pub proof fn lemma_count_push(records: Seq<RecordView>, r: RecordView, date: Date)
    ensures
        count_on(records.push(r), date) == count_on(records, date) + if r.date == Some(date) {
            1nat
        } else {
            0nat
        },
{
    assert(records.push(r).drop_last() =~= records);
}

/// No date has more records than there are.
pub proof fn lemma_count_bounded(records: Seq<RecordView>, date: Date)
    ensures
        count_on(records, date) <= records.len(),
    decreases records.len(),
{
    if records.len() > 0 {
        lemma_count_bounded(records.drop_last(), date);
    }
}

/// Two lists that hold the same dates, each in strictly ascending order, are
/// one list.
pub proof fn lemma_ascending_lists_agree(a: Seq<Date>, b: Seq<Date>)
    requires
        strictly_ascending(a),
        strictly_ascending(b),
        forall|d: Date| a.contains(d) <==> b.contains(d),
    ensures
        a == b,
    decreases a.len(),
{
    if a.len() == 0 {
        if b.len() > 0 {
            assert(b.contains(b[0]));
        }
        assert(a =~= b);
    } else {
        let x = a.last();
        assert(a.contains(x));
        let k = choose|k: int| 0 <= k < b.len() && b[k] == x;
        if k < b.len() - 1 {
            let y = b.last();
            assert(date_lt(x, y));
            assert(b.contains(y));
            let m = choose|m: int| 0 <= m < a.len() && a[m] == y;
            if m < a.len() - 1 {
                assert(date_lt(a[m], a.last()));
            }
            assert(false);
        }
        let a0 = a.drop_last();
        let b0 = b.drop_last();
        assert forall|d: Date| a0.contains(d) <==> b0.contains(d) by {
            if a0.contains(d) {
                let m = choose|m: int| 0 <= m < a0.len() && a0[m] == d;
                assert(date_lt(a[m], a.last()));
                assert(a.contains(d));
                let n = choose|n: int| 0 <= n < b.len() && b[n] == d;
                assert(b0[n] == d);
            }
            if b0.contains(d) {
                let n = choose|n: int| 0 <= n < b0.len() && b0[n] == d;
                assert(date_lt(b[n], b.last()));
                assert(b.contains(d));
                let m = choose|m: int| 0 <= m < a.len() && a[m] == d;
                assert(a0[m] == d);
            }
        }
        lemma_ascending_lists_agree(a0, b0);
        assert(a =~= a0.push(x));
        assert(b =~= b0.push(x));
    }
}

/// `d` is in `s.push(x)` where it is in `s` or is `x`.
proof fn lemma_push_contains(s: Seq<Date>, x: Date, d: Date)
    ensures
        s.push(x).contains(d) <==> s.contains(d) || d == x,
{
    let t = s.push(x);
    if s.contains(d) {
        let k = choose|k: int| 0 <= k < s.len() && s[k] == d;
        assert(t[k] == d);
    }
    if d == x {
        assert(t[s.len() as int] == d);
    }
    if t.contains(d) {
        let k = choose|k: int| 0 <= k < t.len() && t[k] == d;
        if k < s.len() {
            assert(s[k] == d);
        }
    }
}

/// A strictly ascending list takes one more date and stays so.
proof fn lemma_insert_date(s: Seq<Date>, x: Date) -> (r: Seq<Date>)
    requires
        strictly_ascending(s),
        !s.contains(x),
    ensures
        strictly_ascending(r),
        forall|d: Date| r.contains(d) <==> s.contains(d) || d == x,
    decreases s.len(),
{
    if s.len() == 0 {
        let r = s.push(x);
        assert forall|d: Date| r.contains(d) <==> s.contains(d) || d == x by {
            lemma_push_contains(s, x, d);
        }
        r
    } else if date_lt(s.last(), x) {
        let r = s.push(x);
        assert forall|d: Date| r.contains(d) <==> s.contains(d) || d == x by {
            lemma_push_contains(s, x, d);
        }
        assert forall|i: int, j: int| 0 <= i < j < r.len() implies date_lt(r[i], r[j]) by {
            if j == s.len() && i < s.len() - 1 {
                assert(date_lt(s[i], s.last()));
            }
        }
        r
    } else {
        let init = s.drop_last();
        let last = s.last();
        assert(s.contains(last));
        Date::lemma_order_total(x, last);
        assert forall|d: Date| s.contains(d) <==> init.contains(d) || d == last by {
            assert(s =~= init.push(last));
            lemma_push_contains(init, last, d);
        }
        let r0 = lemma_insert_date(init, x);
        let r = r0.push(last);
        assert forall|d: Date| r.contains(d) <==> s.contains(d) || d == x by {
            lemma_push_contains(r0, last, d);
        }
        assert forall|i: int, j: int| 0 <= i < j < r.len() implies date_lt(r[i], r[j]) by {
            if j == r0.len() {
                assert(r0.contains(r0[i]));
                if init.contains(r0[i]) {
                    let k = choose|k: int| 0 <= k < init.len() && init[k] == r0[i];
                    assert(date_lt(s[k], s.last()));
                }
            }
        }
        r
    }
}

/// The dates on which records fall can be listed earliest first.
proof fn lemma_dates_present(records: Seq<RecordView>) -> (seen: Seq<Date>)
    ensures
        strictly_ascending(seen),
        forall|d: Date| seen.contains(d) <==> count_on(records, d) > 0,
    decreases records.len(),
{
    if records.len() == 0 {
        Seq::empty()
    } else {
        let before = lemma_dates_present(records.drop_last());
        match records.last().date {
            Some(x) => {
                if before.contains(x) {
                    before
                } else {
                    lemma_insert_date(before, x)
                }
            },
            None => before,
        }
    }
}

/// Of a list of dates, those that are active can be listed in the same
/// order.
proof fn lemma_keep_active(seen: Seq<Date>, records: Seq<RecordView>) -> (dates: Seq<Date>)
    requires
        strictly_ascending(seen),
    ensures
        strictly_ascending(dates),
        forall|d: Date| dates.contains(d) <==> seen.contains(d) && is_active(records, d),
    decreases seen.len(),
{
    if seen.len() == 0 {
        seen
    } else {
        let init = seen.drop_last();
        let last = seen.last();
        let kept = lemma_keep_active(init, records);
        assert forall|d: Date| seen.contains(d) <==> init.contains(d) || d == last by {
            assert(seen =~= init.push(last));
            lemma_push_contains(init, last, d);
        }
        if is_active(records, last) {
            let dates = kept.push(last);
            assert forall|d: Date|
                dates.contains(d) <==> seen.contains(d) && is_active(records, d) by {
                lemma_push_contains(kept, last, d);
            }
            assert forall|i: int, j: int| 0 <= i < j < dates.len() implies date_lt(
                dates[i],
                dates[j],
            ) by {
                if j == kept.len() {
                    assert(kept.contains(kept[i]));
                    let k = choose|k: int| 0 <= k < init.len() && init[k] == kept[i];
                    assert(date_lt(seen[k], seen.last()));
                }
            }
            dates
        } else {
            kept
        }
    }
}

/// Whatever the records, `active_dates` lists their active dates, each once
/// and earliest first.
pub proof fn lemma_active_dates_listed(records: Seq<RecordView>)
    ensures
        lists_active_dates(active_dates(records), records),
{
    let seen = lemma_dates_present(records);
    let dates = lemma_keep_active(seen, records);
    assert(lists_active_dates(dates, records));
}

/// A list of the active dates of `records` is the list `active_dates`.
pub proof fn lemma_active_dates_unique(dates: Seq<Date>, records: Seq<RecordView>)
    requires
        lists_active_dates(dates, records),
    ensures
        dates == active_dates(records),
{
    lemma_ascending_lists_agree(dates, active_dates(records));
}

/// A strictly ascending list stays so when a date goes in between the
/// earlier dates and the later ones, and then holds that date besides.
proof fn lemma_insert_at(s: Seq<Date>, p: int, x: Date)
    requires
        strictly_ascending(s),
        0 <= p <= s.len(),
        forall|k: int| 0 <= k < p ==> date_lt(s[k], x),
        p < s.len() ==> date_lt(x, s[p]),
    ensures
        strictly_ascending(s.insert(p, x)),
        !s.contains(x),
        forall|d: Date| s.insert(p, x).contains(d) <==> s.contains(d) || d == x,
{
    let t = s.insert(p, x);
    assert forall|k: int| p < k < s.len() implies date_lt(x, s[k]) by {
        assert(date_lt(s[p], s[k]));
    }
    assert forall|d: Date| t.contains(d) <==> s.contains(d) || d == x by {
        if s.contains(d) {
            let k = choose|k: int| 0 <= k < s.len() && s[k] == d;
            assert(t[if k < p {
                k
            } else {
                k + 1
            }] == d);
        }
        if d == x {
            assert(t[p] == d);
        }
        if t.contains(d) && d != x {
            let k = choose|k: int| 0 <= k < t.len() && t[k] == d;
            assert(s[if k < p {
                k
            } else {
                k - 1
            }] == d);
        }
    }
}

/// The first place in `dates` whose date is not before `date`.
fn insertion_point(dates: &Vec<Date>, date: &Date) -> (p: usize)
    ensures
        p <= dates.len(),
        forall|k: int| 0 <= k < p ==> date_lt(dates@[k], *date),
        p < dates.len() ==> !date_lt(dates@[p as int], *date),
{
    let mut p: usize = 0;
    while p < dates.len() && dates[p].is_before(date)
        invariant
            p <= dates.len(),
            forall|k: int| 0 <= k < p ==> date_lt(dates@[k], *date),
        decreases dates.len() - p,
    {
        p += 1;
    }
    p
}

/// The dates on which records fall, each once and earliest first, and beside
/// each the number of records on it.
fn tally_dates(records: &Vec<Record>) -> (r: (Vec<Date>, Vec<usize>))
    ensures
        r.0.len() == r.1.len(),
        strictly_ascending(r.0@),
        forall|k: int|
            0 <= k < r.0.len() ==> r.1@[k] == count_on(record_views(records@), #[trigger] r.0@[k]),
        forall|d: Date| count_on(record_views(records@), d) > 0 ==> r.0@.contains(d),
{
    let ghost all = record_views(records@);
    let mut seen: Vec<Date> = Vec::new();
    let mut counts: Vec<usize> = Vec::new();
    let mut i: usize = 0;
    while i < records.len()
        invariant
            i <= records.len(),
            all == record_views(records@),
            seen.len() == counts.len(),
            strictly_ascending(seen@),
            forall|k: int|
                0 <= k < seen.len() ==> counts@[k] == count_on(
                    all.take(i as int),
                    #[trigger] seen@[k],
                ),
            forall|d: Date| count_on(all.take(i as int), d) > 0 ==> seen@.contains(d),
        decreases records.len() - i,
    {
        let ghost before = all.take(i as int);
        proof {
            assert(all.take(i + 1) =~= before.push(records@[i as int]@));
            assert forall|d: Date|
                count_on(all.take(i + 1), d) == count_on(before, d) + if records@[i as int].date
                    == Some(d) {
                    1nat
                } else {
                    0nat
                } by {
                lemma_count_push(before, records@[i as int]@, d);
            }
        }
        match records[i].date {
            Some(date) => {
                let p: usize = insertion_point(&seen, &date);
                if p < seen.len() && seen[p] == date {
                    proof {
                        lemma_count_bounded(before, date);
                    }
                    let n: usize = counts[p] + 1;
                    counts.set(p, n);
                    assert forall|k: int| 0 <= k < seen.len() implies counts@[k] == count_on(
                        all.take(i + 1),
                        #[trigger] seen@[k],
                    ) by {
                        // No other place holds the date of this record.
                        if k < p {
                            assert(date_lt(seen@[k], seen@[p as int]));
                        } else if k > p {
                            assert(date_lt(seen@[p as int], seen@[k]));
                        }
                    }
                } else {
                    let ghost old_seen = seen@;
                    proof {
                        if p < seen.len() {
                            Date::lemma_order_total(date, seen@[p as int]);
                        }
                        lemma_insert_at(old_seen, p as int, date);
                    }
                    seen.insert(p, date);
                    counts.insert(p, 1);
                    assert forall|k: int| 0 <= k < seen.len() implies counts@[k] == count_on(
                        all.take(i + 1),
                        #[trigger] seen@[k],
                    ) by {
                        // Every earlier date has moved along with its count.
                        if k < p {
                            assert(seen@[k] == old_seen[k]);
                        } else if k > p {
                            assert(seen@[k] == old_seen[k - 1]);
                        }
                    }
                    assert forall|d: Date| count_on(all.take(i + 1), d) > 0 implies seen@.contains(
                        d,
                    ) by {
                        assert(old_seen.contains(d) || d == date);
                    }
                }
            },
            None => {},
        }
        i += 1;
    }
    assert(all.take(records.len() as int) =~= all);
    (seen, counts)
}

/// The active dates of the records, each once and earliest first.
pub fn find_active_dates(records: &Vec<Record>) -> (dates: Vec<Date>)
    ensures
        dates@ == active_dates(record_views(records@)),
        lists_active_dates(dates@, record_views(records@)),
{
    let ghost all = record_views(records@);
    let (seen, counts) = tally_dates(records);
    let mut dates: Vec<Date> = Vec::new();
    // The place in `seen` from which each of `dates` was taken.
    let ghost mut origin: Seq<int> = Seq::empty();
    let mut j: usize = 0;
    while j < seen.len()
        invariant
            j <= seen.len(),
            seen.len() == counts.len(),
            origin.len() == dates.len(),
            forall|m: int| 0 <= m < dates.len() ==> 0 <= #[trigger] origin[m] < j,
            forall|m: int|
                0 <= m < dates.len() ==> dates@[m] == seen@[#[trigger] origin[m]]
                    && counts@[origin[m]] > ACTIVE_DATE_THRESHOLD,
            forall|m: int, n: int| 0 <= m < n < dates.len() ==> origin[m] < origin[n],
            forall|k: int|
                0 <= k < j && #[trigger] counts@[k] > ACTIVE_DATE_THRESHOLD ==> dates@.contains(
                    seen@[k],
                ),
        decreases seen.len() - j,
    {
        if counts[j] > ACTIVE_DATE_THRESHOLD {
            let ghost earlier = dates@;
            dates.push(seen[j]);
            proof {
                origin = origin.push(j as int);
                assert forall|k: int|
                    0 <= k < j + 1 && #[trigger] counts@[k] > ACTIVE_DATE_THRESHOLD implies dates@.contains(
                    seen@[k],
                ) by {
                    lemma_push_contains(earlier, seen@[j as int], seen@[k]);
                }
            }
        }
        j += 1;
    }
    proof {
        assert forall|m: int, n: int| 0 <= m < n < dates@.len() implies date_lt(
            dates@[m],
            dates@[n],
        ) by {
            assert(date_lt(seen@[origin[m]], seen@[origin[n]]));
        }
        assert forall|d: Date| dates@.contains(d) <==> is_active(all, d) by {
            if dates@.contains(d) {
                let m = choose|m: int| 0 <= m < dates@.len() && dates@[m] == d;
                assert(d == seen@[origin[m]]);
            }
            if is_active(all, d) {
                assert(seen@.contains(d));
                let k = choose|k: int| 0 <= k < seen@.len() && seen@[k] == d;
                assert(counts@[k] > ACTIVE_DATE_THRESHOLD);
            }
        }
        lemma_active_dates_unique(dates@, all);
    }
    dates
}

} // verus!
