//! The ordered stage list, held in an `IndexMap` from stage name to command.
//! What the map holds is named by `entries_of`: its entries as
//! (name, command) pairs, in insertion order.
use vstd::prelude::*;
use indexmap::IndexMap;

verus! {

#[verifier::external_type_specification]
#[verifier::external_body]
#[verifier::reject_recursive_types(K)]
#[verifier::reject_recursive_types(V)]
#[verifier::reject_recursive_types(S)]
pub struct ExIndexMap<K, V, S>(IndexMap<K, V, S>);

/// The entries of a stage map, in order: (stage name, stage command).
pub uninterp spec fn entries_of(m: IndexMap<String, String>) -> Seq<(Seq<char>, Seq<char>)>;

/// Where `name` stands among the entries, if it does.
pub open spec fn has_name(e: Seq<(Seq<char>, Seq<char>)>, name: Seq<char>) -> bool {
    exists|j: int| 0 <= j < e.len() && (#[trigger] e[j]).0 == name
}

/// The entries after inserting `(name, command)`: an existing name keeps its
/// place and takes the new command; a new name goes last.
pub open spec fn inserted(
    e: Seq<(Seq<char>, Seq<char>)>,
    name: Seq<char>,
    command: Seq<char>,
) -> Seq<(Seq<char>, Seq<char>)> {
    if has_name(e, name) {
        let j = choose|j: int| 0 <= j < e.len() && (#[trigger] e[j]).0 == name;
        e.update(j, (name, command))
    } else {
        e.push((name, command))
    }
}

/// Relies on `IndexMap::new`: a new map has no entries.
#[verifier::external_body]
pub(crate) fn empty_stage_map() -> (r: IndexMap<String, String>)
    ensures
        entries_of(r) == Seq::<(Seq<char>, Seq<char>)>::empty(),
{
    IndexMap::new()
}

/// Relies on `IndexMap::len`: the number of entries.
#[verifier::external_body]
pub(crate) fn stage_count(m: &IndexMap<String, String>) -> (r: usize)
    ensures
        r == entries_of(*m).len(),
{
    m.len()
}

/// Relies on `IndexMap::get_index`: the entry at `i` in insertion order, and
/// `None` past the end.
#[verifier::external_body]
pub(crate) fn stage_at(m: &IndexMap<String, String>, i: usize) -> (r: Option<(&String, &String)>)
    ensures
        i < entries_of(*m).len() ==> r is Some,
        i < entries_of(*m).len() ==> r.unwrap().0@ == entries_of(*m)[i as int].0,
        i < entries_of(*m).len() ==> r.unwrap().1@ == entries_of(*m)[i as int].1,
        i >= entries_of(*m).len() ==> r is None,
{
    m.get_index(i)
}

/// Relies on `IndexMap::insert`: an existing key keeps its place and takes
/// the new value; a new key is inserted last.
#[verifier::external_body]
pub(crate) fn insert_stage(m: &mut IndexMap<String, String>, name: String, command: String)
    ensures
        entries_of(*final(m)) == inserted(entries_of(*old(m)), name@, command@),
{
    m.insert(name, command);
}

} // verus!
