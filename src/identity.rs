use vstd::prelude::*;

verus! {

/// A 32-byte account identity, held as two 128-bit halves.
#[derive(PartialEq, Eq, Structural, Clone, Copy, Debug)]
pub struct Identity {
    pub high: u128,
    pub low: u128,
}

impl Identity {
    pub fn new(high: u128, low: u128) -> (r: Identity)
        ensures
            r.high == high,
            r.low == low,
    {
        Identity { high, low }
    }
}

/// Whether `key` occurs in `list`.
pub fn contains_identity(list: &Vec<Identity>, key: Identity) -> (r: bool)
    ensures
        r == list@.contains(key),
{
    let mut i: usize = 0;
    while i < list.len()
        invariant
            i <= list@.len(),
            forall|j: int| 0 <= j < i ==> list@[j] != key,
        decreases list@.len() - i,
    {
        if list[i] == key {
            return true;
        }
        i = i + 1;
    }
    false
}

/// Whether no identity occurs twice in `list`.
pub fn all_distinct(list: &Vec<Identity>) -> (r: bool)
    ensures
        r == list@.no_duplicates(),
{
    let mut i: usize = 0;
    while i < list.len()
        invariant
            i <= list@.len(),
            forall|a: int, b: int| 0 <= a < b < i ==> list@[a] != list@[b],
        decreases list@.len() - i,
    {
        let mut j: usize = 0;
        while j < i
            invariant
                i < list@.len(),
                j <= i,
                forall|a: int| 0 <= a < j ==> list@[a] != list@[i as int],
            decreases i - j,
        {
            if list[j] == list[i] {
                assert(!list@.no_duplicates());
                return false;
            }
            j = j + 1;
        }
        i = i + 1;
    }
    true
}

/// Whether every identity of `list` occurs in `within`.
pub fn all_within(list: &Vec<Identity>, within: &Vec<Identity>) -> (r: bool)
    ensures
        r == forall|i: int| 0 <= i < list@.len() ==> within@.contains(#[trigger] list@[i]),
{
    let mut i: usize = 0;
    while i < list.len()
        invariant
            i <= list@.len(),
            forall|a: int| 0 <= a < i ==> within@.contains(#[trigger] list@[a]),
        decreases list@.len() - i,
    {
        if !contains_identity(within, list[i]) {
            return false;
        }
        i = i + 1;
    }
    true
}

} // verus!
