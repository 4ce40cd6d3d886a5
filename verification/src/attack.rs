//! A worked aggregate with one required and one optional field.
//!
//! `Attack` has a required `damage: u32` (no default) and an optional
//! `range: u32` (default 10). Its builder, [`PartialAttack`], carries one
//! slot per field; `build` is only expressible while the `damage` slot's
//! type satisfies [`Init`], so `Attack::uninit().build()` does not
//! type-check until `damage` has been set.

use vstd::prelude::*;

use crate::defaults;
use crate::fields;
use crate::Init;
use crate::MaybeInit;
use crate::PartialInit;
use crate::Uninit;

verus! {

/// The finished aggregate: a strike with its damage and reach.
pub struct Attack {
    /// How much damage the attack deals. Required.
    pub damage: u32,
    /// How far the attack reaches. Optional; defaults to 10.
    pub range: u32,
}

/// A partially constructed [`Attack`]: one slot per field, each slot's type
/// recording whether its field has been supplied.
pub struct PartialAttack<
    Damage: MaybeInit<fields::damage, u32>,
    Range: MaybeInit<fields::range, u32>,
> {
    /// The slot for the required `damage` field.
    pub damage: Damage,
    /// The slot for the optional `range` field.
    pub range: Range,
    /// Zero-size placeholder tying the record to its field value types.
    pub __phantom_data__partial_init_: core::marker::PhantomData<(u32, u32)>,
}

impl<Damage: MaybeInit<fields::damage, u32>, Range: MaybeInit<fields::range, u32>> PartialAttack<
    Damage,
    Range,
> {
    /// The record with the `damage` slot replaced by `d` and every other
    /// slot carried over unchanged.
    pub open spec fn spec_replace_damage<D2: MaybeInit<fields::damage, u32>>(
        self,
        d: D2,
    ) -> PartialAttack<D2, Range> {
        PartialAttack {
            damage: d,
            range: self.range,
            __phantom_data__partial_init_: core::marker::PhantomData,
        }
    }

    /// The record with the `range` slot replaced by `r` and every other
    /// slot carried over unchanged.
    pub open spec fn spec_replace_range<R2: MaybeInit<fields::range, u32>>(
        self,
        r: R2,
    ) -> PartialAttack<Damage, R2> {
        PartialAttack {
            damage: self.damage,
            range: r,
            __phantom_data__partial_init_: core::marker::PhantomData,
        }
    }
}

impl PartialInit for Attack {
    type Uninitialized = PartialAttack<
        Uninit<fields::damage, u32>,
        Uninit<fields::range, u32>,
    >;

    open spec fn spec_uninit() -> Self::Uninitialized {
        PartialAttack {
            damage: Uninit::spec_new(),
            range: Uninit::spec_new(),
            __phantom_data__partial_init_: core::marker::PhantomData,
        }
    }

    fn uninit() -> (r: Self::Uninitialized) {
        Default::default()
    }
}

impl Default for PartialAttack<Uninit<fields::damage, u32>, Uninit<fields::range, u32>> {
    fn default() -> (r: Self)
        ensures
            r == Attack::spec_uninit(),
    {
        PartialAttack {
            damage: Uninit(core::marker::PhantomData),
            range: Uninit(core::marker::PhantomData),
            __phantom_data__partial_init_: core::marker::PhantomData,
        }
    }
}

impl<Range: MaybeInit<fields::range, u32>> PartialAttack<Uninit<fields::damage, u32>, Range> {
    /// Supplies the required `damage` field: only that slot's type changes,
    /// and only that slot's value.
    pub fn damage<D2: Init<fields::damage, u32>>(self, damage: D2) -> (r: PartialAttack<
        D2,
        Range,
    >)
        ensures
            r == self.spec_replace_damage(damage),
    {
        PartialAttack {
            damage,
            range: self.range,
            __phantom_data__partial_init_: core::marker::PhantomData,
        }
    }
}

impl<Damage: MaybeInit<fields::damage, u32>> PartialAttack<Damage, Uninit<fields::range, u32>> {
    /// Supplies the optional `range` field: only that slot's type changes,
    /// and only that slot's value.
    pub fn range<R2: Init<fields::range, u32>>(self, range: R2) -> (r: PartialAttack<
        Damage,
        R2,
    >)
        ensures
            r == self.spec_replace_range(range),
    {
        PartialAttack {
            damage: self.damage,
            range,
            __phantom_data__partial_init_: core::marker::PhantomData,
        }
    }
}

impl<Damage: MaybeInit<fields::damage, u32>, Range: MaybeInit<fields::range, u32>> PartialAttack<
    Damage,
    Range,
> {
    /// Resets the `damage` slot to absent; every other slot is kept.
    pub fn deinit_damage(self) -> (r: PartialAttack<Uninit<fields::damage, u32>, Range>)
        ensures
            r == self.spec_replace_damage(Uninit::<fields::damage, u32>::spec_new()),
    {
        PartialAttack {
            damage: Uninit(core::marker::PhantomData),
            range: self.range,
            __phantom_data__partial_init_: core::marker::PhantomData,
        }
    }

    /// Resets the `range` slot to absent; every other slot is kept.
    pub fn deinit_range(self) -> (r: PartialAttack<Damage, Uninit<fields::range, u32>>)
        ensures
            r == self.spec_replace_range(Uninit::<fields::range, u32>::spec_new()),
    {
        PartialAttack {
            damage: self.damage,
            range: Uninit(core::marker::PhantomData),
            __phantom_data__partial_init_: core::marker::PhantomData,
        }
    }
}

impl<Damage: Init<fields::damage, u32>, Range: MaybeInit<fields::range, u32>> PartialAttack<
    Damage,
    Range,
> {
    /// Finalizes the record. Only expressible when the required `damage`
    /// slot satisfies `Init`. The result carries the damage slot's value,
    /// and the range slot's value where present — the declared default, 10,
    /// where absent.
    pub fn build(self) -> (r: Attack)
        ensures
            r.damage == self.damage.spec_init(),
            r.range == (match self.range.spec_get() {
                Some(v) => v,
                None => 10u32,
            }),
    {
        let range: u32 = match MaybeInit::<fields::range, u32>::get(self.range) {
            Some(v) => v,
            None => defaults::range(),
        };
        Attack { damage: Init::<fields::damage, u32>::take(self.damage), range }
    }
}

/// Law: resetting the `damage` slot and then supplying `d` yields the same
/// record as supplying `d` directly — for any starting record whose `damage`
/// slot is absent (the only records on which the setter is expressible).
pub proof fn lemma_deinit_then_set_damage<
    Range: MaybeInit<fields::range, u32>,
    D2: Init<fields::damage, u32>,
>(b: PartialAttack<Uninit<fields::damage, u32>, Range>, d: D2)
    ensures
        b.spec_replace_damage(Uninit::<fields::damage, u32>::spec_new()).spec_replace_damage(d)
            == b.spec_replace_damage(d),
{
}

/// Law: resetting the `range` slot and then supplying `r` yields the same
/// record as supplying `r` directly — for any starting record whose `range`
/// slot is absent.
pub proof fn lemma_deinit_then_set_range<
    Damage: MaybeInit<fields::damage, u32>,
    R2: Init<fields::range, u32>,
>(b: PartialAttack<Damage, Uninit<fields::range, u32>>, r: R2)
    ensures
        b.spec_replace_range(Uninit::<fields::range, u32>::spec_new()).spec_replace_range(r)
            == b.spec_replace_range(r),
{
}

} // verus!
