//! Lists of entries keyed by strings (the members of a JSON object, the
//! values of a submitted form), and lookup by key.

use vstd::prelude::*;

verus! {

/// The value of the first entry from index `i` on whose key is `key`.
pub open spec fn lookup_from<V>(entries: Seq<(String, V)>, key: Seq<char>, i: int) -> Option<V>
    decreases entries.len() - i,
{
    if i < 0 || i >= entries.len() {
        None
    } else if entries[i].0@ == key {
        Some(entries[i].1)
    } else {
        lookup_from(entries, key, i + 1)
    }
}

/// The value of the entry keyed `key`: the first one, should two share it.
pub open spec fn lookup<V>(entries: Seq<(String, V)>, key: Seq<char>) -> Option<V> {
    lookup_from(entries, key, 0)
}

/// The value of the entry keyed `key`, if there is one.
pub fn get<'a, V>(entries: &'a Vec<(String, V)>, key: &str) -> (r: Option<&'a V>)
    ensures
        match lookup(entries@, key@) {
            Some(v) => r == Some(&v),
            None => r is None,
        },
{
    let wanted = key.to_owned();
    let mut i: usize = 0;
    while i < entries.len()
        invariant
            i <= entries.len(),
            wanted@ == key@,
            lookup(entries@, key@) == lookup_from(entries@, key@, i as int),
        decreases entries.len() - i,
    {
        if entries[i].0 == wanted {
            assert(lookup_from(entries@, key@, i as int) == Some(entries@[i as int].1));
            return Some(&entries[i].1);
        }
        i = i + 1;
    }
    None
}

/// Lookup finds the first entry with the key: when it answers a value,
/// that is the value of an entry keyed `key` with no such entry before it;
/// when it answers nothing, no entry is keyed `key`.
pub proof fn lemma_lookup_first<V>(entries: Seq<(String, V)>, key: Seq<char>)
    ensures
        match lookup(entries, key) {
            Some(v) => exists|i: int|
                0 <= i < entries.len() && entries[i].0@ == key && entries[i].1 == v
                    && forall|j: int| 0 <= j < i ==> (#[trigger] entries[j]).0@ != key,
            None => forall|i: int| 0 <= i < entries.len() ==> (#[trigger] entries[i]).0@ != key,
        },
{
    lemma_lookup_from_first(entries, key, 0);
}

proof fn lemma_lookup_from_first<V>(entries: Seq<(String, V)>, key: Seq<char>, k: int)
    requires
        0 <= k,
        forall|j: int| 0 <= j < k && j < entries.len() ==> (#[trigger] entries[j]).0@ != key,
    ensures
        match lookup_from(entries, key, k) {
            Some(v) => exists|i: int|
                0 <= i < entries.len() && entries[i].0@ == key && entries[i].1 == v
                    && forall|j: int| 0 <= j < i ==> (#[trigger] entries[j]).0@ != key,
            None => forall|i: int| 0 <= i < entries.len() ==> (#[trigger] entries[i]).0@ != key,
        },
    decreases entries.len() - k,
{
    if k < entries.len() && entries[k].0@ != key {
        lemma_lookup_from_first(entries, key, k + 1);
    }
}

} // verus!
