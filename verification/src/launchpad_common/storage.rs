//! Reading keyed storage the way the contract does: an absent key reads as the
//! default value of its type.

use std::collections::HashMap;
use std::collections::HashSet;
use vstd::prelude::*;

verus! {

broadcast use vstd::std_specs::hash::group_hash_axioms;

/// An account of the chain, named by an integer.
pub type Address = u64;

/// What a keyed entry holds, or `default` where nothing was stored.
pub open spec fn stored_or<K, V>(m: Map<K, V>, k: K, default: V) -> V {
    if m.contains_key(k) {
        m[k]
    } else {
        default
    }
}

/// Reads the entry of `k` in a map keyed by account.
pub fn get_by_address<V: Copy>(m: &HashMap<Address, V>, k: Address, default: V) -> (r: V)
    ensures
        r == stored_or(m@, k, default),
{
    match m.get(&k) {
        Some(v) => *v,
        None => default,
    }
}

/// Reads the entry of `k` in a map keyed by ticket id or position.
pub fn get_by_index<V: Copy>(m: &HashMap<usize, V>, k: usize, default: V) -> (r: V)
    ensures
        r == stored_or(m@, k, default),
{
    match m.get(&k) {
        Some(v) => *v,
        None => default,
    }
}

/// Tells whether an account belongs to a set of accounts.
pub fn set_contains(s: &HashSet<Address>, k: Address) -> (r: bool)
    ensures
        r == s@.contains(k),
{
    s.contains(&k)
}

/// Compares two token identifiers byte by byte.
pub fn same_bytes(a: &Vec<u8>, b: &Vec<u8>) -> (r: bool)
    ensures
        r == (a@ == b@),
{
    if a.len() != b.len() {
        return false;
    }
    let mut i: usize = 0;
    while i < a.len()
        invariant
            a.len() == b.len(),
            i <= a.len(),
            forall|j: int| 0 <= j < i ==> a@[j] == b@[j],
        decreases a.len() - i,
    {
        if a[i] != b[i] {
            return false;
        }
        i = i + 1;
    }
    assert(a@ =~= b@);
    true
}

} // verus!
