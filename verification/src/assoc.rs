//! Lists of named values in which a name occurs once: the model of a header
//! collection that keeps one value per name.

use vstd::prelude::*;

verus! {

/// Some entry of the list has this name.
pub open spec fn holds_name<V>(entries: Seq<(Seq<char>, V)>, name: Seq<char>) -> bool {
    exists|i: int| 0 <= i < entries.len() && (#[trigger] entries[i]).0 == name
}

/// The place of an entry with this name, where there is one.
pub open spec fn index_of<V>(entries: Seq<(Seq<char>, V)>, name: Seq<char>) -> int {
    choose|i: int| 0 <= i < entries.len() && (#[trigger] entries[i]).0 == name
}

/// The value listed under this name.
pub open spec fn lookup<V>(entries: Seq<(Seq<char>, V)>, name: Seq<char>) -> Option<V> {
    if holds_name(entries, name) {
        Some(entries[index_of(entries, name)].1)
    } else {
        None
    }
}

/// No name occurs twice.
pub open spec fn distinct_names<V>(entries: Seq<(Seq<char>, V)>) -> bool {
    forall|i: int, j: int|
        0 <= i < j < entries.len() ==> (#[trigger] entries[i]).0 != (#[trigger] entries[j]).0
}

/// The list after `value` is stored under `name`: a name already listed keeps
/// its place and gets the new value, a new name goes to the end.
pub open spec fn put<V>(entries: Seq<(Seq<char>, V)>, name: Seq<char>, value: V) -> Seq<
    (Seq<char>, V),
> {
    if holds_name(entries, name) {
        entries.update(index_of(entries, name), (name, value))
    } else {
        entries.push((name, value))
    }
}

/// In a list of distinct names, an entry is found at its own place.
pub proof fn lemma_index_of_entry<V>(entries: Seq<(Seq<char>, V)>, i: int)
    requires
        distinct_names(entries),
        0 <= i < entries.len(),
    ensures
        holds_name(entries, entries[i].0),
        index_of(entries, entries[i].0) == i,
        lookup(entries, entries[i].0) == Some(entries[i].1),
{
}

/// Storing a value keeps the names distinct, and adds at most one entry.
pub proof fn lemma_put_distinct<V>(entries: Seq<(Seq<char>, V)>, name: Seq<char>, value: V)
    requires
        distinct_names(entries),
    ensures
        distinct_names(put(entries, name, value)),
        entries.len() <= put(entries, name, value).len() <= entries.len() + 1,
{
}

/// After a value is stored under a name, that name yields it, and every other
/// name yields what it did before.
pub proof fn lemma_put_lookup<V>(
    entries: Seq<(Seq<char>, V)>,
    name: Seq<char>,
    value: V,
    other: Seq<char>,
)
    requires
        distinct_names(entries),
    ensures
        lookup(put(entries, name, value), name) == Some(value),
        other != name ==> lookup(put(entries, name, value), other) == lookup(entries, other),
        holds_name(put(entries, name, value), other) <==> other == name || holds_name(
            entries,
            other,
        ),
{
    let after = put(entries, name, value);
    lemma_put_distinct(entries, name, value);
    let at = if holds_name(entries, name) {
        index_of(entries, name)
    } else {
        entries.len() as int
    };
    lemma_index_of_entry(after, at);
    if other != name && holds_name(entries, other) {
        let i = index_of(entries, other);
        lemma_index_of_entry(entries, i);
        lemma_index_of_entry(after, i);
    }
}

} // verus!
