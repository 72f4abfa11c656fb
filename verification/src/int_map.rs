//! The identity-hashed map from hotkey identifiers to binding indices, as
//! `nohash_hasher` provides it, with what the registry relies on stated of
//! each operation.

use nohash_hasher::{BuildNoHashHasher, IntMap, NoHashHasher};
use std::hash::BuildHasherDefault;
use vstd::prelude::*;

verus! {

/// `nohash_hasher::NoHashHasher`: the hasher that hands an integer key back
/// as its own hash.
#[verifier::external_type_specification]
#[verifier::external_body]
#[verifier::reject_recursive_types(T)]
pub struct ExNoHashHasher<T>(NoHashHasher<T>);

/// `std::hash::BuildHasherDefault`: builds a hasher by its `Default`.
#[verifier::external_type_specification]
#[verifier::external_body]
#[verifier::reject_recursive_types(H)]
pub struct ExBuildHasherDefault<H>(BuildHasherDefault<H>);

/// The largest capacity that a map is made with. A table of this capacity
/// takes well under a gigabyte, so that its size in bytes can be written down
/// on every machine.
pub const MAX_CAPACITY: usize = 0x0100_0000;

/// `IntMap::with_capacity_and_hasher` with `BuildNoHashHasher::default()`: a
/// map that holds nothing yet. The capacity is only room set aside; it is kept
/// small enough that the table's size cannot overflow.
#[verifier::external_body]
pub(crate) fn with_capacity(capacity: usize) -> (r: IntMap<usize, usize>)
    requires
        capacity <= MAX_CAPACITY,
    ensures
        (r@ == Map::<usize, usize>::empty()),
{
    IntMap::with_capacity_and_hasher(capacity, BuildNoHashHasher::default())
}

/// `IntMap::insert`: afterwards `key` leads to `value`, and every other key
/// to what it led to before.
#[verifier::external_body]
pub(crate) fn insert(m: &mut IntMap<usize, usize>, key: usize, value: usize)
    ensures
        final(m)@ == old(m)@.insert(key, value),
{
    m.insert(key, value);
}

/// `IntMap::get`: what `key` leads to, if it leads anywhere.
#[verifier::external_body]
pub(crate) fn get(m: &IntMap<usize, usize>, key: usize) -> (r: Option<usize>)
    ensures
        r == (if m@.contains_key(key) {
            Some(m@[key])
        } else {
            None
        }),
{
    m.get(&key).copied()
}

/// `IntMap::len`: how many keys lead somewhere.
#[verifier::external_body]
pub(crate) fn len(m: &IntMap<usize, usize>) -> (r: usize)
    ensures
        r == m@.len(),
{
    m.len()
}

} // verus!
