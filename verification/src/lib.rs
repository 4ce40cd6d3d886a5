//! Incremental, type-checked construction of aggregate records.
//!
//! A record under construction holds one *slot* per field. The slot's type —
//! not a runtime flag — records whether a value has been supplied: an
//! [`Uninit`] slot is absent, and any slot satisfying [`Init`] is present.
//! Finalizing a record is only expressible when every required slot's type
//! satisfies [`Init`], so omitting a required field is rejected before the
//! program runs.
//!
//! The capability hierarchy lives here: [`MaybeInit`] (may hold a value),
//! [`Init`] (definitely holds a value, and as a `MaybeInit` always reads back
//! as present), the [`Uninit`] marker, and two canonical rules in
//! [`init_impl`]: a bare value stands for itself, and a bare value stands for
//! a one-element-container field by wrapping itself. Two worked aggregates,
//! [`spell`] and [`attack`], show the builder records these capabilities
//! gate.

#![allow(non_camel_case_types)]

use vstd::prelude::*;

pub mod attack;
pub mod defaults;
pub mod fields;
pub mod init_impl;
pub mod spell;

verus! {

/// An identity function: returns its argument unchanged.
pub fn identity<T>(x: T) -> (r: T)
    ensures
        r == x,
{
    x
}

/// A record type that can start incremental construction. `uninit` returns
/// the builder record with every slot absent; which record that is, and its
/// one value, is fixed by `spec_uninit`.
pub trait PartialInit {
    /// The builder record with every slot set to its `Uninit` specialization.
    type Uninitialized;

    /// The one value `uninit` returns: every slot absent.
    spec fn spec_uninit() -> Self::Uninitialized;

    /// Starts construction with every slot absent.
    fn uninit() -> (r: Self::Uninitialized)
        ensures
            r == Self::spec_uninit(),
    ;
}

/// A value-less type naming one field. Existence alone is the payload: a tag
/// disambiguates capability implementations when two fields share a value
/// type, and must not be reused across fields of one aggregate.
pub trait FieldName {}

/// A value usable as the slot for a field named `F` with value type `T`:
/// reading it out may or may not produce a value. `spec_get` is the slot's
/// whole meaning; `get` is total and consumes the slot.
pub trait MaybeInit<F: FieldName, T>: Sized {
    /// What reading this slot produces: `None` when absent.
    spec fn spec_get(self) -> Option<T>;

    /// Reads the slot out, consuming it; `None` when absent.
    fn get(self) -> (r: Option<T>)
        ensures
            r == self.spec_get(),
    ;
}

/// A slot value guaranteed to produce a `T`. Every implementor is coupled to
/// its `MaybeInit` reading: `lemma_present` obliges each implementation to
/// show that the slot, read as a `MaybeInit`, is present with exactly the
/// value `take` returns.
pub trait Init<F: FieldName, T>: MaybeInit<F, T> {
    /// The value this slot holds.
    spec fn spec_init(self) -> T;

    /// The coupling invariant: an `Init` slot read as a `MaybeInit` is
    /// present, with the same value.
    proof fn lemma_present(x: Self)
        ensures
            x.spec_get() == Some(x.spec_init()),
    ;

    /// Reads the value out, consuming the slot.
    fn take(self) -> (r: T)
        ensures
            r == self.spec_init(),
    ;
}

/// A zero-size slot value meaning "nothing supplied yet" for the field named
/// `U` with value type `T`. It satisfies `MaybeInit` (always absent) and
/// deliberately never `Init`: that absence is what makes omission of a
/// required field a type error rather than a runtime one.
pub struct Uninit<U: FieldName, T>(pub core::marker::PhantomData<(U, T)>);

impl<U: FieldName, T> Uninit<U, T> {
    /// The one value of this type.
    pub open spec fn spec_new() -> Uninit<U, T> {
        Uninit(core::marker::PhantomData)
    }
}

impl<U: FieldName, T> Default for Uninit<U, T> {
    fn default() -> (r: Self)
        ensures
            r == Uninit::<U, T>::spec_new(),
    {
        Uninit(core::marker::PhantomData)
    }
}

impl<U: FieldName, T> Copy for Uninit<U, T> {

}

impl<U: FieldName, T> Clone for Uninit<U, T> {
    fn clone(&self) -> (r: Self)
        ensures
            r == *self,
    {
        *self
    }
}

} // verus!
