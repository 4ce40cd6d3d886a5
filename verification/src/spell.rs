//! The main worked aggregate: a spell with two required and two optional
//! fields.
//!
//! `Spell<E>` has a required name (set through `with_name: String`), a
//! required `damage: u32`, an optional `range: u32` (default 10) and an
//! optional `effects: Vec<E>` (default empty). Its builder,
//! [`PartialSpell`], carries one slot per field; each setter and deinit
//! consumes the whole record and returns one whose type differs in exactly
//! that slot, and `build` is only expressible while both required slots'
//! types satisfy [`Init`].

use vstd::prelude::*;

use crate::defaults;
use crate::fields;
use crate::Init;
use crate::MaybeInit;
use crate::PartialInit;
use crate::Uninit;

verus! {

/// The finished aggregate.
pub struct Spell<E> {
    /// The spell's name. Required; supplied through `with_name`.
    pub name: String,
    /// How much damage the spell deals. Required.
    pub damage: u32,
    /// How far the spell reaches. Optional; defaults to 10.
    pub range: u32,
    /// The spell's side effects. Optional; defaults to none.
    pub effects: Vec<E>,
}

/// A partially constructed [`Spell`]: one slot per field, each slot's type
/// recording whether its field has been supplied.
pub struct PartialSpell<
    E,
    WithName: MaybeInit<fields::with_name, String>,
    Damage: MaybeInit<fields::damage, u32>,
    Range: MaybeInit<fields::range, u32>,
    Effects: MaybeInit<fields::effects, Vec<E>>,
> {
    /// The slot for the required `with_name` field.
    pub with_name: WithName,
    /// The slot for the required `damage` field.
    pub damage: Damage,
    /// The slot for the optional `range` field.
    pub range: Range,
    /// The slot for the optional `effects` field.
    pub effects: Effects,
    /// Zero-size placeholder tying the record to its field value types.
    pub __phantom_data__partial_init_: core::marker::PhantomData<(String, u32, u32, Vec<E>)>,
}

impl<
    E,
    WithName: MaybeInit<fields::with_name, String>,
    Damage: MaybeInit<fields::damage, u32>,
    Range: MaybeInit<fields::range, u32>,
    Effects: MaybeInit<fields::effects, Vec<E>>,
> PartialSpell<E, WithName, Damage, Range, Effects> {
    /// The record with the `with_name` slot replaced by `w` and every other
    /// slot carried over unchanged.
    pub open spec fn spec_replace_with_name<W2: MaybeInit<fields::with_name, String>>(
        self,
        w: W2,
    ) -> PartialSpell<E, W2, Damage, Range, Effects> {
        PartialSpell {
            with_name: w,
            damage: self.damage,
            range: self.range,
            effects: self.effects,
            __phantom_data__partial_init_: core::marker::PhantomData,
        }
    }

    /// The record with the `damage` slot replaced by `d` and every other
    /// slot carried over unchanged.
    pub open spec fn spec_replace_damage<D2: MaybeInit<fields::damage, u32>>(
        self,
        d: D2,
    ) -> PartialSpell<E, WithName, D2, Range, Effects> {
        PartialSpell {
            with_name: self.with_name,
            damage: d,
            range: self.range,
            effects: self.effects,
            __phantom_data__partial_init_: core::marker::PhantomData,
        }
    }

    /// The record with the `range` slot replaced by `r` and every other
    /// slot carried over unchanged.
    pub open spec fn spec_replace_range<R2: MaybeInit<fields::range, u32>>(
        self,
        r: R2,
    ) -> PartialSpell<E, WithName, Damage, R2, Effects> {
        PartialSpell {
            with_name: self.with_name,
            damage: self.damage,
            range: r,
            effects: self.effects,
            __phantom_data__partial_init_: core::marker::PhantomData,
        }
    }

    /// The record with the `effects` slot replaced by `e` and every other
    /// slot carried over unchanged.
    pub open spec fn spec_replace_effects<Ef2: MaybeInit<fields::effects, Vec<E>>>(
        self,
        e: Ef2,
    ) -> PartialSpell<E, WithName, Damage, Range, Ef2> {
        PartialSpell {
            with_name: self.with_name,
            damage: self.damage,
            range: self.range,
            effects: e,
            __phantom_data__partial_init_: core::marker::PhantomData,
        }
    }
}

impl<E> PartialInit for Spell<E> {
    type Uninitialized = PartialSpell<
        E,
        Uninit<fields::with_name, String>,
        Uninit<fields::damage, u32>,
        Uninit<fields::range, u32>,
        Uninit<fields::effects, Vec<E>>,
    >;

    open spec fn spec_uninit() -> Self::Uninitialized {
        PartialSpell {
            with_name: Uninit::spec_new(),
            damage: Uninit::spec_new(),
            range: Uninit::spec_new(),
            effects: Uninit::spec_new(),
            __phantom_data__partial_init_: core::marker::PhantomData,
        }
    }

    fn uninit() -> (r: Self::Uninitialized) {
        Default::default()
    }
}

impl<E> Default for PartialSpell<
    E,
    Uninit<fields::with_name, String>,
    Uninit<fields::damage, u32>,
    Uninit<fields::range, u32>,
    Uninit<fields::effects, Vec<E>>,
> {
    fn default() -> (r: Self)
        ensures
            r == Spell::<E>::spec_uninit(),
    {
        PartialSpell {
            with_name: Uninit(core::marker::PhantomData),
            damage: Uninit(core::marker::PhantomData),
            range: Uninit(core::marker::PhantomData),
            effects: Uninit(core::marker::PhantomData),
            __phantom_data__partial_init_: core::marker::PhantomData,
        }
    }
}

impl<
    E,
    Damage: MaybeInit<fields::damage, u32>,
    Range: MaybeInit<fields::range, u32>,
    Effects: MaybeInit<fields::effects, Vec<E>>,
> PartialSpell<E, Uninit<fields::with_name, String>, Damage, Range, Effects> {
    /// Supplies the required `with_name` field: only that slot's type
    /// changes, and only that slot's value.
    pub fn with_name<W2: Init<fields::with_name, String>>(self, with_name: W2) -> (r: PartialSpell<
        E,
        W2,
        Damage,
        Range,
        Effects,
    >)
        ensures
            r == self.spec_replace_with_name(with_name),
    {
        PartialSpell {
            with_name,
            damage: self.damage,
            range: self.range,
            effects: self.effects,
            __phantom_data__partial_init_: core::marker::PhantomData,
        }
    }
}

impl<
    E,
    WithName: MaybeInit<fields::with_name, String>,
    Range: MaybeInit<fields::range, u32>,
    Effects: MaybeInit<fields::effects, Vec<E>>,
> PartialSpell<E, WithName, Uninit<fields::damage, u32>, Range, Effects> {
    /// Supplies the required `damage` field: only that slot's type changes,
    /// and only that slot's value.
    pub fn damage<D2: Init<fields::damage, u32>>(self, damage: D2) -> (r: PartialSpell<
        E,
        WithName,
        D2,
        Range,
        Effects,
    >)
        ensures
            r == self.spec_replace_damage(damage),
    {
        PartialSpell {
            with_name: self.with_name,
            damage,
            range: self.range,
            effects: self.effects,
            __phantom_data__partial_init_: core::marker::PhantomData,
        }
    }
}

impl<
    E,
    WithName: MaybeInit<fields::with_name, String>,
    Damage: MaybeInit<fields::damage, u32>,
    Effects: MaybeInit<fields::effects, Vec<E>>,
> PartialSpell<E, WithName, Damage, Uninit<fields::range, u32>, Effects> {
    /// Supplies the optional `range` field: only that slot's type changes,
    /// and only that slot's value.
    pub fn range<R2: Init<fields::range, u32>>(self, range: R2) -> (r: PartialSpell<
        E,
        WithName,
        Damage,
        R2,
        Effects,
    >)
        ensures
            r == self.spec_replace_range(range),
    {
        PartialSpell {
            with_name: self.with_name,
            damage: self.damage,
            range,
            effects: self.effects,
            __phantom_data__partial_init_: core::marker::PhantomData,
        }
    }
}

impl<
    E,
    WithName: MaybeInit<fields::with_name, String>,
    Damage: MaybeInit<fields::damage, u32>,
    Range: MaybeInit<fields::range, u32>,
> PartialSpell<E, WithName, Damage, Range, Uninit<fields::effects, Vec<E>>> {
    /// Supplies the optional `effects` field: only that slot's type changes,
    /// and only that slot's value.
    pub fn effects<Ef2: Init<fields::effects, Vec<E>>>(self, effects: Ef2) -> (r: PartialSpell<
        E,
        WithName,
        Damage,
        Range,
        Ef2,
    >)
        ensures
            r == self.spec_replace_effects(effects),
    {
        PartialSpell {
            with_name: self.with_name,
            damage: self.damage,
            range: self.range,
            effects,
            __phantom_data__partial_init_: core::marker::PhantomData,
        }
    }
}

impl<
    E,
    WithName: MaybeInit<fields::with_name, String>,
    Damage: MaybeInit<fields::damage, u32>,
    Range: MaybeInit<fields::range, u32>,
    Effects: MaybeInit<fields::effects, Vec<E>>,
> PartialSpell<E, WithName, Damage, Range, Effects> {
    /// Resets the `with_name` slot to absent; every other slot is kept.
    pub fn deinit_with_name(self) -> (r: PartialSpell<
        E,
        Uninit<fields::with_name, String>,
        Damage,
        Range,
        Effects,
    >)
        ensures
            r == self.spec_replace_with_name(Uninit::<fields::with_name, String>::spec_new()),
    {
        PartialSpell {
            with_name: Uninit(core::marker::PhantomData),
            damage: self.damage,
            range: self.range,
            effects: self.effects,
            __phantom_data__partial_init_: core::marker::PhantomData,
        }
    }

    /// Resets the `damage` slot to absent; every other slot is kept.
    pub fn deinit_damage(self) -> (r: PartialSpell<
        E,
        WithName,
        Uninit<fields::damage, u32>,
        Range,
        Effects,
    >)
        ensures
            r == self.spec_replace_damage(Uninit::<fields::damage, u32>::spec_new()),
    {
        PartialSpell {
            with_name: self.with_name,
            damage: Uninit(core::marker::PhantomData),
            range: self.range,
            effects: self.effects,
            __phantom_data__partial_init_: core::marker::PhantomData,
        }
    }

    /// Resets the `range` slot to absent; every other slot is kept.
    pub fn deinit_range(self) -> (r: PartialSpell<
        E,
        WithName,
        Damage,
        Uninit<fields::range, u32>,
        Effects,
    >)
        ensures
            r == self.spec_replace_range(Uninit::<fields::range, u32>::spec_new()),
    {
        PartialSpell {
            with_name: self.with_name,
            damage: self.damage,
            range: Uninit(core::marker::PhantomData),
            effects: self.effects,
            __phantom_data__partial_init_: core::marker::PhantomData,
        }
    }

    /// Resets the `effects` slot to absent; every other slot is kept.
    pub fn deinit_effects(self) -> (r: PartialSpell<
        E,
        WithName,
        Damage,
        Range,
        Uninit<fields::effects, Vec<E>>,
    >)
        ensures
            r == self.spec_replace_effects(Uninit::<fields::effects, Vec<E>>::spec_new()),
    {
        PartialSpell {
            with_name: self.with_name,
            damage: self.damage,
            range: self.range,
            effects: Uninit(core::marker::PhantomData),
            __phantom_data__partial_init_: core::marker::PhantomData,
        }
    }
}

impl<
    E,
    WithName: Init<fields::with_name, String>,
    Damage: Init<fields::damage, u32>,
    Range: MaybeInit<fields::range, u32>,
    Effects: MaybeInit<fields::effects, Vec<E>>,
> PartialSpell<E, WithName, Damage, Range, Effects> {
    /// Finalizes the record. Only expressible when both required slots
    /// satisfy `Init`. The result carries the required slots' values, and
    /// each optional slot's value where present — the declared default
    /// (range 10, no effects) where absent.
    pub fn build(self) -> (r: Spell<E>)
        ensures
            r.name == self.with_name.spec_init(),
            r.damage == self.damage.spec_init(),
            r.range == (match self.range.spec_get() {
                Some(v) => v,
                None => 10u32,
            }),
            self.effects.spec_get() matches Some(v) ==> r.effects == v,
            self.effects.spec_get() is None ==> r.effects@ == Seq::<E>::empty(),
    {
        let range: u32 = match MaybeInit::<fields::range, u32>::get(self.range) {
            Some(v) => v,
            None => defaults::range(),
        };
        let effects: Vec<E> = match MaybeInit::<fields::effects, Vec<E>>::get(self.effects) {
            Some(v) => v,
            None => Vec::new(),
        };
        Spell {
            name: Init::<fields::with_name, String>::take(self.with_name),
            damage: Init::<fields::damage, u32>::take(self.damage),
            range,
            effects,
        }
    }
}

/// Law: resetting the `with_name` slot and then supplying `w` yields the
/// same record as supplying `w` directly — for any starting record whose
/// `with_name` slot is absent (the only records on which the setter is
/// expressible).
pub proof fn lemma_deinit_then_set_with_name<
    E,
    Damage: MaybeInit<fields::damage, u32>,
    Range: MaybeInit<fields::range, u32>,
    Effects: MaybeInit<fields::effects, Vec<E>>,
    W2: Init<fields::with_name, String>,
>(b: PartialSpell<E, Uninit<fields::with_name, String>, Damage, Range, Effects>, w: W2)
    ensures
        b.spec_replace_with_name(Uninit::<fields::with_name, String>::spec_new())
            .spec_replace_with_name(w) == b.spec_replace_with_name(w),
{
}

/// Law: resetting the `damage` slot and then supplying `d` yields the same
/// record as supplying `d` directly — for any starting record whose
/// `damage` slot is absent.
pub proof fn lemma_deinit_then_set_damage<
    E,
    WithName: MaybeInit<fields::with_name, String>,
    Range: MaybeInit<fields::range, u32>,
    Effects: MaybeInit<fields::effects, Vec<E>>,
    D2: Init<fields::damage, u32>,
>(b: PartialSpell<E, WithName, Uninit<fields::damage, u32>, Range, Effects>, d: D2)
    ensures
        b.spec_replace_damage(Uninit::<fields::damage, u32>::spec_new()).spec_replace_damage(d)
            == b.spec_replace_damage(d),
{
}

/// Law: resetting the `range` slot and then supplying `r` yields the same
/// record as supplying `r` directly — for any starting record whose `range`
/// slot is absent.
pub proof fn lemma_deinit_then_set_range<
    E,
    WithName: MaybeInit<fields::with_name, String>,
    Damage: MaybeInit<fields::damage, u32>,
    Effects: MaybeInit<fields::effects, Vec<E>>,
    R2: Init<fields::range, u32>,
>(b: PartialSpell<E, WithName, Damage, Uninit<fields::range, u32>, Effects>, r: R2)
    ensures
        b.spec_replace_range(Uninit::<fields::range, u32>::spec_new()).spec_replace_range(r)
            == b.spec_replace_range(r),
{
}

/// Law: resetting the `effects` slot and then supplying `e` yields the same
/// record as supplying `e` directly — for any starting record whose
/// `effects` slot is absent.
pub proof fn lemma_deinit_then_set_effects<
    E,
    WithName: MaybeInit<fields::with_name, String>,
    Damage: MaybeInit<fields::damage, u32>,
    Range: MaybeInit<fields::range, u32>,
    Ef2: Init<fields::effects, Vec<E>>,
>(b: PartialSpell<E, WithName, Damage, Range, Uninit<fields::effects, Vec<E>>>, e: Ef2)
    ensures
        b.spec_replace_effects(Uninit::<fields::effects, Vec<E>>::spec_new()).spec_replace_effects(
            e,
        ) == b.spec_replace_effects(e),
{
}

} // verus!

