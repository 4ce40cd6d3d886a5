//! The canonical capability implementations, and the laws they obey.
//!
//! Three rules make the base protocol:
//!   - an [`Uninit`] slot, read as a [`MaybeInit`], is always absent;
//!   - a bare value stands in for a field of its own type, holding itself;
//!   - a bare value stands in for a one-element-container field, wrapping
//!     itself (the bridging rule).
//! The second and third rules are `Init` implementations, so each also
//! carries the coupling proof that its `MaybeInit` reading is present.

use vstd::prelude::*;

use crate::identity;
use crate::FieldName;
use crate::Init;
use crate::MaybeInit;
use crate::Uninit;

verus! {

impl<U: FieldName, T> MaybeInit<U, T> for Uninit<U, T> {
    open spec fn spec_get(self) -> Option<T> {
        None
    }

    fn get(self) -> (r: Option<T>) {
        None
    }
}

impl<U: FieldName, T> Init<U, T> for T {
    open spec fn spec_init(self) -> T {
        self
    }

    proof fn lemma_present(x: Self) {
    }

    fn take(self) -> (r: T) {
        identity(self)
    }
}

impl<U: FieldName, T> MaybeInit<U, T> for T {
    open spec fn spec_get(self) -> Option<T> {
        Some(self)
    }

    fn get(self) -> (r: Option<T>) {
        Some(Init::<U, T>::take(self))
    }
}

impl<U: FieldName, T> Init<U, (T,)> for T {
    open spec fn spec_init(self) -> (T,) {
        (self,)
    }

    proof fn lemma_present(x: Self) {
    }

    fn take(self) -> (r: (T,)) {
        (self,)
    }
}

impl<U: FieldName, T> MaybeInit<U, (T,)> for T {
    open spec fn spec_get(self) -> Option<(T,)> {
        Some((self,))
    }

    fn get(self) -> (r: Option<(T,)>) {
        Some(Init::<U, (T,)>::take(self))
    }
}

/// Law: an uninitialized slot, read through `MaybeInit`, is absent — for
/// every field tag `U` and value type `T`.
pub proof fn lemma_uninit_absent<U: FieldName, T>(u: Uninit<U, T>)
    ensures
        MaybeInit::<U, T>::spec_get(u) == None::<T>,
{
}

/// Law: a bare value used as a slot for a field of its own type holds
/// exactly itself, and reads back as present — for every tag and value.
pub proof fn lemma_value_stands_for_itself<U: FieldName, T>(x: T)
    ensures
        Init::<U, T>::spec_init(x) == x,
        MaybeInit::<U, T>::spec_get(x) == Some(x),
{
}

/// Law (bridging): a bare value used as a slot for a one-element-container
/// field holds itself wrapped, and reads back as present with that wrapped
/// value — for every tag and value.
pub proof fn lemma_bridge_wraps<U: FieldName, T>(x: T)
    ensures
        Init::<U, (T,)>::spec_init(x) == (x,),
        MaybeInit::<U, (T,)>::spec_get(x) == Some((x,)),
{
}

/// Law (coupling): every `Init` slot, read through `MaybeInit`, is present
/// with exactly the value `Init` yields — for every implementor `S`.
pub proof fn lemma_init_reads_present<U: FieldName, T, S: Init<U, T>>(s: S)
    ensures
        s.spec_get() == Some(s.spec_init()),
{
    S::lemma_present(s);
}

} // verus!
