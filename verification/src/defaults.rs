//! Declared defaults for the optional fields of the worked aggregates.
//!
//! A default is a pure value lookup, substituted by `build()` when an
//! optional slot reads back absent.

use vstd::prelude::*;

verus! {

/// The declared default of an optional `range` field.
pub fn range() -> (r: u32)
    ensures
        r == 10u32,
{
    10
}

} // verus!
