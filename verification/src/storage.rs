//! What storage hands to the decisions. Storage itself, its queries and its
//! writes, stands outside this library.

use vstd::prelude::*;

verus! {

/// What storage answered to a lookup of one record.
#[derive(Debug, Clone, PartialEq, Eq)]
pub enum Lookup<T> {
    /// The record that was asked for.
    Found(T),
    /// There is no such record.
    Absent,
    /// Storage failed.
    Failed,
}

} // verus!
