//! Tag types naming the fields of the worked aggregates.
//!
//! A tag is never instantiated: it exists only to key a
//! slot's [`MaybeInit`](crate::MaybeInit) or [`Init`](crate::Init) bound to
//! one field, so that two fields sharing a value type cannot satisfy each
//! other's bounds.

use vstd::prelude::*;

use crate::FieldName;

verus! {

/// Names the required `with_name` field (value type `String`) of a spell.
pub enum with_name {
    /// Unused; the type itself is the label.
    Tag,
}

impl FieldName for with_name {

}

/// Names the required `damage` field (value type `u32`).
pub enum damage {
    /// Unused; the type itself is the label.
    Tag,
}

impl FieldName for damage {

}

/// Names the optional `range` field (value type `u32`, default 10).
pub enum range {
    /// Unused; the type itself is the label.
    Tag,
}

impl FieldName for range {

}

/// Names the optional `effects` field (value type `Vec<E>`, default empty).
pub enum effects {
    /// Unused; the type itself is the label.
    Tag,
}

impl FieldName for effects {

}

} // verus!
