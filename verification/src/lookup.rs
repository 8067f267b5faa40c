//! Finding a key in an ordered list of keys.
//!
//! Users, conversations, messages and the members of a JSON object are all
//! kept as lists in which a key is looked up from the front: the first entry
//! under a key is the entry for that key.
use vstd::prelude::*;
use crate::text::same_text;

verus! {

/// The first position at or after `from` where `flags` holds `true`.
pub open spec fn first_true_from(flags: Seq<bool>, from: int) -> Option<int>
    decreases flags.len() - from,
{
    if from < 0 || from >= flags.len() {
        None
    } else if flags[from] {
        Some(from)
    } else {
        first_true_from(flags, from + 1)
    }
}

/// The first position where `flags` holds `true`.
pub open spec fn first_true(flags: Seq<bool>) -> Option<int> {
    first_true_from(flags, 0)
}

/// For each key of `keys`, whether it is `key`.
pub open spec fn hits(keys: Seq<Seq<char>>, key: Seq<char>) -> Seq<bool> {
    keys.map_values(|k: Seq<char>| k == key)
}

/// The first position where `keys` holds `key`.
pub open spec fn first_match(keys: Seq<Seq<char>>, key: Seq<char>) -> Option<int> {
    first_true(hits(keys, key))
}

/// No key occurs twice.
pub open spec fn distinct(keys: Seq<Seq<char>>) -> bool {
    forall|i: int, j: int| 0 <= i < j < keys.len() ==> keys[i] != keys[j]
}

/// The keys of a list of pairs.
pub open spec fn keys_of<V>(entries: Seq<(String, V)>) -> Seq<Seq<char>> {
    entries.map_values(|e: (String, V)| e.0@)
}

/// What `first_true_from` returns: the least position at or after `from`
/// that holds `true`, or nothing where none does.
pub proof fn lemma_first_true_from(flags: Seq<bool>, from: int)
    requires
        0 <= from,
    ensures
        match first_true_from(flags, from) {
            Some(i) => from <= i < flags.len() && flags[i] && forall|j: int|
                from <= j < i ==> !flags[j],
            None => forall|j: int| from <= j < flags.len() ==> !flags[j],
        },
    decreases flags.len() - from,
{
    if from < flags.len() && !flags[from] {
        lemma_first_true_from(flags, from + 1);
    }
}

/// What `first_true` returns: the least position that holds `true`, or
/// nothing where none does.
pub proof fn lemma_first_true(flags: Seq<bool>)
    ensures
        match first_true(flags) {
            Some(i) => 0 <= i < flags.len() && flags[i] && forall|j: int| 0 <= j < i ==> !flags[j],
            None => forall|j: int| 0 <= j < flags.len() ==> !flags[j],
        },
{
    lemma_first_true_from(flags, 0);
}

/// What `first_match` returns: the least matching position, or nothing where
/// the key does not occur.
pub proof fn lemma_first_match(keys: Seq<Seq<char>>, key: Seq<char>)
    ensures
        match first_match(keys, key) {
            Some(i) => 0 <= i < keys.len() && keys[i] == key && forall|j: int|
                0 <= j < i ==> keys[j] != key,
            None => forall|j: int| 0 <= j < keys.len() ==> keys[j] != key,
        },
{
    let flags = hits(keys, key);
    lemma_first_true(flags);
    assert forall|j: int| 0 <= j < keys.len() implies (#[trigger] keys[j] == key) == flags[j] by {}
}

/// A position that holds the key, with no earlier one that does, is the
/// first match.
pub proof fn lemma_first_match_is(keys: Seq<Seq<char>>, key: Seq<char>, i: int)
    requires
        0 <= i < keys.len(),
        keys[i] == key,
        forall|j: int| 0 <= j < i ==> keys[j] != key,
    ensures
        first_match(keys, key) == Some(i),
{
    lemma_first_match(keys, key);
}

/// Where no position holds the key, there is no first match.
pub proof fn lemma_first_match_none(keys: Seq<Seq<char>>, key: Seq<char>)
    requires
        forall|j: int| 0 <= j < keys.len() ==> keys[j] != key,
    ensures
        first_match(keys, key) is None,
{
    lemma_first_match(keys, key);
}

/// Looks `key` up among the keys of `entries`.
pub fn find_key<V>(entries: &Vec<(String, V)>, key: &str) -> (found: Option<usize>)
    ensures
        match found {
            Some(i) => first_match(keys_of(entries@), key@) == Some(i as int) && i < entries.len(),
            None => first_match(keys_of(entries@), key@) is None,
        },
{
    let mut i: usize = 0;
    while i < entries.len()
        invariant
            0 <= i <= entries.len(),
            first_match(keys_of(entries@), key@) == first_true_from(
                hits(keys_of(entries@), key@),
                i as int,
            ),
        decreases entries.len() - i,
    {
        if same_text(entries[i].0.as_str(), key) {
            return Some(i);
        }
        i += 1;
    }
    None
}

} // verus!
