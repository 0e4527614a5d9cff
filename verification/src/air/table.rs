//! Declaration tables: rows of declarations, each under its identifier. A
//! table is searched by display name or by identity; the first match wins.

use vstd::prelude::*;
use crate::identifier::{Identifier, IdentifierView};

verus! {

/// The identifiers under which the entries of a table stand.
pub open spec fn entry_keys<T>(entries: Seq<(Identifier, T)>) -> Seq<IdentifierView> {
    Seq::new(entries.len(), |i: int| entries[i].0@)
}

/// The identifiers under which the entries of a table stand.
pub open spec fn table_keys<V>(table: Seq<(IdentifierView, V)>) -> Seq<IdentifierView> {
    Seq::new(table.len(), |i: int| table[i].0)
}

/// The place of the first identifier at or after `from` with the given
/// display name.
pub open spec fn first_with_name(keys: Seq<IdentifierView>, name: Seq<char>, from: int) -> Option<
    int,
>
    decreases keys.len() - from,
{
    if from < 0 || from >= keys.len() {
        None
    } else if keys[from].name == name {
        Some(from)
    } else {
        first_with_name(keys, name, from + 1)
    }
}

/// The place of the first identifier at or after `from` with the given
/// number.
pub open spec fn first_with_id(keys: Seq<IdentifierView>, id: u64, from: int) -> Option<int>
    decreases keys.len() - from,
{
    if from < 0 || from >= keys.len() {
        None
    } else if keys[from].id == id {
        Some(from)
    } else {
        first_with_id(keys, id, from + 1)
    }
}

/// A place that a search found lies in the table and holds what was
/// searched for; nothing before it does.
pub proof fn lemma_first_with_name(keys: Seq<IdentifierView>, name: Seq<char>, from: int)
    requires
        0 <= from,
    ensures
        match first_with_name(keys, name, from) {
            Some(i) => from <= i < keys.len() && keys[i].name == name && forall|j: int|
                from <= j < i ==> keys[j].name != name,
            None => forall|j: int| from <= j < keys.len() ==> keys[j].name != name,
        },
    decreases keys.len() - from,
{
    if from < keys.len() && keys[from].name != name {
        lemma_first_with_name(keys, name, from + 1);
    }
}

/// A place that a search found lies in the table and holds what was
/// searched for; nothing before it does.
pub proof fn lemma_first_with_id(keys: Seq<IdentifierView>, id: u64, from: int)
    requires
        0 <= from,
    ensures
        match first_with_id(keys, id, from) {
            Some(i) => from <= i < keys.len() && keys[i].id == id && forall|j: int|
                from <= j < i ==> keys[j].id != id,
            None => forall|j: int| from <= j < keys.len() ==> keys[j].id != id,
        },
    decreases keys.len() - from,
{
    if from < keys.len() && keys[from].id != id {
        lemma_first_with_id(keys, id, from + 1);
    }
}

/// The first place that holds a number is the place that a search for the
/// number finds.
pub proof fn lemma_first_with_id_is(keys: Seq<IdentifierView>, id: u64, from: int, at: int)
    requires
        0 <= from <= at < keys.len(),
        keys[at].id == id,
        forall|j: int| from <= j < at ==> keys[j].id != id,
    ensures
        first_with_id(keys, id, from) == Some(at),
    decreases at - from,
{
    if from < at {
        lemma_first_with_id_is(keys, id, from + 1, at);
    }
}

/// The first place that holds a display name is the place that a search
/// for the name finds.
pub proof fn lemma_first_with_name_is(
    keys: Seq<IdentifierView>,
    name: Seq<char>,
    from: int,
    at: int,
)
    requires
        0 <= from <= at < keys.len(),
        keys[at].name == name,
        forall|j: int| from <= j < at ==> keys[j].name != name,
    ensures
        first_with_name(keys, name, from) == Some(at),
    decreases at - from,
{
    if from < at {
        lemma_first_with_name_is(keys, name, from + 1, at);
    }
}

/// The table with the entry put in: in the place of the first entry with
/// the same number, where there is one, else at the end.
pub open spec fn spec_put<V>(table: Seq<(IdentifierView, V)>, key: IdentifierView, value: V) -> Seq<
    (IdentifierView, V),
> {
    match first_with_id(table_keys(table), key.id, 0) {
        Some(i) => table.update(i, (key, value)),
        None => table.push((key, value)),
    }
}

/// An entry that was put into a table is found under its number, and it is
/// the first under that number. Every other place holds what it held, and
/// the table has grown by one entry at most.
pub proof fn lemma_put_found<V>(table: Seq<(IdentifierView, V)>, key: IdentifierView, value: V)
    ensures
        match first_with_id(table_keys(spec_put(table, key, value)), key.id, 0) {
            Some(i) => 0 <= i < spec_put(table, key, value).len() && spec_put(table, key, value)[i]
                == (key, value) && (forall|j: int|
                0 <= j < table.len() && j != i ==> spec_put(table, key, value)[j] == table[j])
                && spec_put(table, key, value).len() == (if i < table.len() {
                table.len()
            } else {
                table.len() + 1
            }),
            None => false,
        },
        first_with_id(table_keys(table), key.id, 0) is Some ==> first_with_id(
            table_keys(spec_put(table, key, value)),
            key.id,
            0,
        ) == first_with_id(table_keys(table), key.id, 0),
        table.len() <= spec_put(table, key, value).len() <= table.len() + 1,
{
    let keys = table_keys(table);
    let after = spec_put(table, key, value);
    lemma_first_with_id(keys, key.id, 0);
    match first_with_id(keys, key.id, 0) {
        Some(i) => {
            assert forall|j: int| 0 <= j < i implies table_keys(after)[j].id != key.id by {
                assert(table_keys(after)[j] == keys[j]);
            }
            lemma_first_with_id_is(table_keys(after), key.id, 0, i);
        },
        None => {
            assert forall|j: int| 0 <= j < table.len() implies table_keys(after)[j].id
                != key.id by {
                assert(table_keys(after)[j] == keys[j]);
            }
            lemma_first_with_id_is(table_keys(after), key.id, 0, table.len() as int);
        },
    }
}

/// No number occurs twice among the identifiers: every entry of the table
/// can be found by its number.
pub open spec fn numbered_once(keys: Seq<IdentifierView>) -> bool {
    forall|i: int, j: int| 0 <= i < j < keys.len() ==> keys[i].id != keys[j].id
}

/// In the table without entries no number occurs twice.
pub proof fn lemma_empty_numbered_once<V>()
    ensures
        numbered_once(table_keys(Seq::<(IdentifierView, V)>::empty())),
{
}

/// Putting an entry into a table in which no number occurs twice gives a
/// table in which no number occurs twice.
pub proof fn lemma_put_numbered_once<V>(
    table: Seq<(IdentifierView, V)>,
    key: IdentifierView,
    value: V,
)
    requires
        numbered_once(table_keys(table)),
    ensures
        numbered_once(table_keys(spec_put(table, key, value))),
{
    let keys = table_keys(table);
    let after = table_keys(spec_put(table, key, value));
    lemma_first_with_id(keys, key.id, 0);
    match first_with_id(keys, key.id, 0) {
        Some(at) => {
            assert forall|i: int, j: int| 0 <= i < j < after.len() implies after[i].id
                != after[j].id by {
                assert(after[i].id == keys[i].id);
                assert(after[j].id == keys[j].id);
            }
        },
        None => {
            assert forall|i: int, j: int| 0 <= i < j < after.len() implies after[i].id
                != after[j].id by {
                if j < keys.len() {
                    assert(after[i] == keys[i] && after[j] == keys[j]);
                } else {
                    assert(after[i] == keys[i]);
                    assert(after[j].id == key.id);
                }
            }
        },
    }
}

/// Whether the key would be a redeclaration in the table: the table holds
/// no entry with the key's number, but one with its display name.
pub open spec fn spec_clashes(keys: Seq<IdentifierView>, key: IdentifierView) -> bool {
    first_with_id(keys, key.id, 0) is None && first_with_name(keys, key.name, 0) is Some
}

/// The place of the first entry with the given display name.
pub fn find_name<T>(entries: &Vec<(Identifier, T)>, name: &String) -> (found: Option<usize>)
    ensures
        match found {
            Some(i) => first_with_name(entry_keys(entries@), name@, 0) == Some(i as int) && i
                < entries.len(),
            None => first_with_name(entry_keys(entries@), name@, 0) is None,
        },
{
    let ghost keys = entry_keys(entries@);
    let mut i: usize = 0;
    while i < entries.len()
        invariant
            i <= entries.len(),
            keys == entry_keys(entries@),
            first_with_name(keys, name@, 0) == first_with_name(keys, name@, i as int),
        decreases entries.len() - i,
    {
        if entries[i].0.name == *name {
            return Some(i);
        }
        i += 1;
    }
    None
}

/// The place of the first entry with the given number.
pub fn find_id<T>(entries: &Vec<(Identifier, T)>, id: u64) -> (found: Option<usize>)
    ensures
        match found {
            Some(i) => first_with_id(entry_keys(entries@), id, 0) == Some(i as int) && i
                < entries.len(),
            None => first_with_id(entry_keys(entries@), id, 0) is None,
        },
{
    let ghost keys = entry_keys(entries@);
    let mut i: usize = 0;
    while i < entries.len()
        invariant
            i <= entries.len(),
            keys == entry_keys(entries@),
            first_with_id(keys, id, 0) == first_with_id(keys, id, i as int),
        decreases entries.len() - i,
    {
        if entries[i].0.id == id {
            return Some(i);
        }
        i += 1;
    }
    None
}

/// Put an entry into a table: in the place of the first entry with the same
/// number, where there is one, else at the end.
pub fn put<T>(entries: &mut Vec<(Identifier, T)>, key: Identifier, value: T)
    ensures
        final(entries)@ == (match first_with_id(entry_keys(old(entries)@), key.id, 0) {
            Some(i) => old(entries)@.update(i, (key, value)),
            None => old(entries)@.push((key, value)),
        }),
{
    match find_id(entries, key.id) {
        Some(i) => {
            entries[i] = (key, value);
        },
        None => {
            entries.push((key, value));
        },
    }
}

/// Whether the key would be a redeclaration in the table.
pub fn clashes<T>(entries: &Vec<(Identifier, T)>, key: &Identifier) -> (b: bool)
    ensures
        b == spec_clashes(entry_keys(entries@), key@),
{
    match find_id(entries, key.id) {
        Some(_) => false,
        None => find_name(entries, &key.name).is_some(),
    }
}

/// Putting an entry under one number leaves the entries under every other
/// number where they were.
pub proof fn lemma_put_other<V>(t: Seq<(IdentifierView, V)>, key: IdentifierView, value: V, x: u64)
    requires
        x != key.id,
    ensures
        first_with_id(table_keys(spec_put(t, key, value)), x, 0) == first_with_id(
            table_keys(t),
            x,
            0,
        ),
        first_with_id(table_keys(t), x, 0) matches Some(i) ==> spec_put(t, key, value)[i] == t[i],
{
    let keys = table_keys(t);
    let put = spec_put(t, key, value);
    let after = table_keys(put);
    lemma_first_with_id(keys, x, 0);
    lemma_first_with_id(keys, key.id, 0);
    lemma_first_with_id(after, x, 0);
    assert forall|j: int| 0 <= j < after.len() implies (#[trigger] after[j]).id == key.id || (j
        < keys.len() && after[j] == keys[j]) by {
        if j < t.len() && put[j] == t[j] {
            assert(after[j] == keys[j]);
        }
    }
    match first_with_id(keys, x, 0) {
        Some(i) => {
            assert(keys[i].id == x);
            assert(put[i] == t[i]);
            assert(after[i] == keys[i]);
            assert forall|j: int| 0 <= j < i implies after[j].id != x by {
                assert(after[j].id == key.id || after[j] == keys[j]);
            }
            lemma_first_with_id_is(after, x, 0, i);
        },
        None => {
            if first_with_id(after, x, 0) is Some {
                let i = first_with_id(after, x, 0)->0;
                assert(after[i].id == key.id || after[i] == keys[i]);
            }
        },
    }
}

/// Every entry of a table into which an entry was put is that entry or
/// stood in its place before.
pub proof fn lemma_put_each<V>(t: Seq<(IdentifierView, V)>, key: IdentifierView, value: V)
    ensures
        forall|i: int|
            0 <= i < spec_put(t, key, value).len() ==> (#[trigger] spec_put(t, key, value)[i]) == (
                key,
                value,
            ) || (i < t.len() && spec_put(t, key, value)[i] == t[i]),
{
    lemma_first_with_id(table_keys(t), key.id, 0);
}

} // verus!
