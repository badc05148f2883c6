//! The roster: which people a report lists, by department, in the order in
//! which the configuration names them.

use indexmap::IndexMap;
use vstd::prelude::*;

use crate::text::text_views;

verus! {

/// `indexmap::IndexMap`, a map that keeps its entries in the order in which
/// their keys first came.
#[verifier::external_type_specification]
#[verifier::external_body]
#[verifier::reject_recursive_types(K)]
#[verifier::reject_recursive_types(V)]
#[verifier::reject_recursive_types(S)]
pub struct ExIndexMap<K, V, S>(IndexMap<K, V, S>);

/// The roster of every department: department name to the people of the
/// department, each with an account.
#[derive(Debug)]
pub struct Departments {
    pub departments: IndexMap<String, IndexMap<String, String>>,
}

/// What a map of people holds: name and account of each, in the order of
/// the map.
pub uninterp spec fn member_entries(m: IndexMap<String, String>) -> Seq<(Seq<char>, Seq<char>)>;

/// What a map of departments holds: the name of each and what its map of
/// people holds, in the order of the map.
pub uninterp spec fn department_entries(m: IndexMap<String, IndexMap<String, String>>) -> Seq<
    (Seq<char>, Seq<(Seq<char>, Seq<char>)>),
>;

/// A roster as contracts see it: the name of each department and the people
/// of the department, each with an account, in the order of the roster.
pub type RosterView = Seq<(Seq<char>, Seq<(Seq<char>, Seq<char>)>)>;

impl View for Departments {
    type V = RosterView;

    open spec fn view(&self) -> RosterView {
        department_entries(self.departments)
    }
}

/// Taken on trust from indexmap: `IndexMap::len` is the number of entries.
#[verifier::external_body]
pub(crate) fn department_count(m: &IndexMap<String, IndexMap<String, String>>) -> (n: usize)
    ensures
        n == department_entries(*m).len(),
{
    m.len()
}

/// Taken on trust from indexmap: `IndexMap::get_index` hands out the entry
/// at place `i` of the map's order, and `None` from the map's length on.
#[verifier::external_body]
pub(crate) fn department_at(m: &IndexMap<String, IndexMap<String, String>>, i: usize) -> (r: Option<
    (&String, &IndexMap<String, String>),
>)
    ensures
        r is Some <==> i < department_entries(*m).len(),
        r matches Some(entry) ==> entry.0@ == department_entries(*m)[i as int].0 && member_entries(
            *entry.1,
        ) == department_entries(*m)[i as int].1,
{
    m.get_index(i)
}

/// Taken on trust from indexmap: `IndexMap::len` is the number of entries.
#[verifier::external_body]
fn member_count(m: &IndexMap<String, String>) -> (n: usize)
    ensures
        n == member_entries(*m).len(),
{
    m.len()
}

/// Taken on trust from indexmap: `IndexMap::get_index` hands out the entry
/// at place `i` of the map's order, and `None` from the map's length on.
#[verifier::external_body]
fn member_at(m: &IndexMap<String, String>, i: usize) -> (r: Option<(&String, &String)>)
    ensures
        r is Some <==> i < member_entries(*m).len(),
        r matches Some(entry) ==> (entry.0@, entry.1@) == member_entries(*m)[i as int],
{
    m.get_index(i)
}

/// The place of the first entry under `key`.
pub open spec fn place_of(entries: Seq<(Seq<char>, Seq<char>)>, key: Seq<char>) -> Option<int>
    decreases entries.len(),
{
    if entries.len() == 0 {
        None
    } else {
        match place_of(entries.drop_last(), key) {
            Some(i) => Some(i),
            None => if entries.last().0 == key {
                Some(entries.len() - 1)
            } else {
                None
            },
        }
    }
}

/// The account entered under `name`.
pub open spec fn account_in(entries: Seq<(Seq<char>, Seq<char>)>, name: Seq<char>) -> Option<
    Seq<char>,
> {
    match place_of(entries, name) {
        Some(i) => Some(entries[i].1),
        None => None,
    }
}

/// The entries after `value` is entered under `key`: in the place of the
/// entry that `key` had, or behind all others where it had none.
pub open spec fn with_entry(
    entries: Seq<(Seq<char>, Seq<char>)>,
    key: Seq<char>,
    value: Seq<char>,
) -> Seq<(Seq<char>, Seq<char>)> {
    match place_of(entries, key) {
        Some(i) => entries.update(i, (key, value)),
        None => entries.push((key, value)),
    }
}

/// The entries after those of `more` are entered one by one, in their
/// order.
pub open spec fn with_entries(
    entries: Seq<(Seq<char>, Seq<char>)>,
    more: Seq<(Seq<char>, Seq<char>)>,
) -> Seq<(Seq<char>, Seq<char>)>
    decreases more.len(),
{
    if more.len() == 0 {
        entries
    } else {
        with_entry(with_entries(entries, more.drop_last()), more.last().0, more.last().1)
    }
}

/// Taken on trust from indexmap: `IndexMap::new` makes a map without
/// entries.
#[verifier::external_body]
pub(crate) fn new_member_map() -> (m: IndexMap<String, String>)
    ensures
        member_entries(m) == Seq::<(Seq<char>, Seq<char>)>::empty(),
{
    IndexMap::new()
}

/// Taken on trust from indexmap: `IndexMap::extend`, here with a copy of
/// `from`, does what `IndexMap::insert` does for each entry in its order. A
/// key that the map has keeps its place and takes the new value; a key that
/// it lacks goes behind all others.
#[verifier::external_body]
pub(crate) fn extend_member_map(into: &mut IndexMap<String, String>, from: &IndexMap<String, String>)
    ensures
        member_entries(*final(into)) == with_entries(
            member_entries(*old(into)),
            member_entries(*from),
        ),
{
    into.extend(from.clone());
}

/// Taken on trust from indexmap: `IndexMap::get` hands out the value
/// entered under `name`, and `None` where the map has no such key.
#[verifier::external_body]
pub(crate) fn member_account<'a>(m: &'a IndexMap<String, String>, name: &str) -> (r: Option<
    &'a String,
>)
    ensures
        r is Some <==> account_in(member_entries(*m), name@) is Some,
        r matches Some(account) ==> account_in(member_entries(*m), name@) == Some(account@),
{
    m.get(name)
}

/// The entries of all departments of a roster entered into one map, the
/// departments in their order.
pub open spec fn merged_entries(roster: RosterView) -> Seq<(Seq<char>, Seq<char>)>
    decreases roster.len(),
{
    if roster.len() == 0 {
        Seq::empty()
    } else {
        with_entries(merged_entries(roster.drop_last()), roster.last().1)
    }
}

/// One map of the people of all departments. Where departments name the
/// same person, the account is that of the last of them.
pub fn merged_members(config: &Departments) -> (m: IndexMap<String, String>)
    ensures
        member_entries(m) == merged_entries(config@),
{
    let n: usize = department_count(&config.departments);
    let mut merged = new_member_map();
    let mut k: usize = 0;
    while k < n
        invariant
            k <= n,
            n == config@.len(),
            member_entries(merged) == merged_entries(config@.take(k as int)),
        decreases n - k,
    {
        assert(config@.take(k + 1).drop_last() =~= config@.take(k as int));
        match department_at(&config.departments, k) {
            Some(entry) => {
                extend_member_map(&mut merged, entry.1);
            },
            None => {},
        }
        k += 1;
    }
    assert(config@.take(n as int) =~= config@);
    merged
}

/// The names in a sequence of entries, in their order.
pub open spec fn names_of<T>(entries: Seq<(Seq<char>, T)>) -> Seq<Seq<char>> {
    entries.map_values(|e: (Seq<char>, T)| e.0)
}

/// The names of the people in a map, in the order of the map.
pub fn member_names(m: &IndexMap<String, String>) -> (names: Vec<String>)
    ensures
        text_views(names@) == names_of(member_entries(*m)),
{
    let n: usize = member_count(m);
    let mut names: Vec<String> = Vec::new();
    let mut i: usize = 0;
    while i < n
        invariant
            i <= n,
            n == member_entries(*m).len(),
            text_views(names@) == names_of(member_entries(*m)).take(i as int),
        decreases n - i,
    {
        match member_at(m, i) {
            Some(entry) => {
                names.push(entry.0.clone());
                assert(names_of(member_entries(*m)).take(i + 1) =~= names_of(
                    member_entries(*m),
                ).take(i as int).push(entry.0@));
            },
            None => {},
        }
        i += 1;
    }
    names
}

} // verus!
