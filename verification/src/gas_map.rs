//! Storage with exactly one slot for every gas species.

use crate::gas::{Gas, GAS_AMT};
use vstd::prelude::*;

verus! {

/// A total map from gas species to values of `T`: one slot per species, kept
/// in table order. No species can be missing and none can be added.
#[derive(Copy, Clone, Debug)]
pub struct GasEnumMap<T> {
    /// The slots, the one of a species at its ordinal.
    pub slots: [T; GAS_AMT],
}

impl<T> View for GasEnumMap<T> {
    type V = Map<Gas, T>;

    /// The map as a mathematical one, defined on every species.
    open spec fn view(&self) -> Map<Gas, T> {
        Map::total(|g: Gas| self.slots@[g.ordinal() as int])
    }
}

/// What `entries` say of `gas`: the value of the first entry that names it,
/// if any does.
pub open spec fn first_entry<T>(entries: Seq<(Gas, T)>, gas: Gas) -> Option<T>
    decreases entries.len(),
{
    if entries.len() == 0 {
        None
    } else if entries[0].0 == gas {
        Some(entries[0].1)
    } else {
        first_entry(entries.drop_first(), gas)
    }
}

impl<T: Copy> GasEnumMap<T> {
    /// The map that holds `default` for every species.
    pub fn filled(default: T) -> (m: Self)
        ensures
            forall|g: Gas| #[trigger] m@[g] == default,
    {
        GasEnumMap { slots: [default; GAS_AMT] }
    }

    /// The map given by a list of entries: a species named by an entry has
    /// that entry's value, the first one's where several name it, and every
    /// other species has `default`.
    pub fn from_entries(entries: &[(Gas, T)], default: T) -> (m: Self)
        ensures
            forall|g: Gas|
                #[trigger] m@[g] == match first_entry(entries@, g) {
                    Some(v) => v,
                    None => default,
                },
    {
        let mut m = GasEnumMap::filled(default);
        let mut i: usize = entries.len();
        while i > 0
            invariant
                i <= entries.len(),
                forall|g: Gas|
                    #[trigger] m@[g] == match first_entry(entries@.skip(i as int), g) {
                        Some(v) => v,
                        None => default,
                    },
            decreases i,
        {
            i -= 1;
            let (gas, value) = entries[i];
            let ghost before = m;
            m.slots[gas.index()] = value;
            proof {
                let tail = entries@.skip(i as int);
                assert(tail.drop_first() =~= entries@.skip(i + 1));
                assert(tail[0] == entries@[i as int]);
                assert forall|g: Gas|
                    #[trigger] m@[g] == match first_entry(tail, g) {
                        Some(v) => v,
                        None => default,
                    } by {
                    if g != gas {
                        assert(g.ordinal() != gas.ordinal());
                        assert(m@[g] == before@[g]);
                    }
                }
            }
        }
        assert(entries@.skip(0) =~= entries@);
        m
    }
}

impl<T> GasEnumMap<T> {
    /// The map that holds for each species what `f` returns for it. `f` is
    /// called once per species, in table order.
    pub fn from_fn<F: Fn(Gas) -> T>(f: F) -> (m: Self)
        requires
            forall|g: Gas| f.requires((g,)),
        ensures
            forall|g: Gas| f.ensures((g,), #[trigger] m@[g]),
    {
        let m = GasEnumMap {
            slots: [
                f(Gas::N2),
                f(Gas::O2),
                f(Gas::CO2),
                f(Gas::N2O),
                f(Gas::Pl),
                f(Gas::H2O),
                f(Gas::HNb),
                f(Gas::NO2),
                f(Gas::H2),
                f(Gas::BZ),
                f(Gas::ST),
                f(Gas::PlOx),
            ],
        };
        m
    }

    /// The value held for `gas`.
    pub fn get(&self, gas: Gas) -> (v: &T)
        ensures
            *v == self@[gas],
    {
        &self.slots[gas.index()]
    }

    /// The map that holds for each species what `f` returns for the value
    /// held here for it.
    pub fn map<U, F: Fn(&T) -> U>(&self, f: F) -> (m: GasEnumMap<U>)
        requires
            forall|g: Gas| f.requires((&#[trigger] self@[g],)),
        ensures
            forall|g: Gas| f.ensures((&self@[g],), #[trigger] m@[g]),
    {
        GasEnumMap::from_fn(
            |g: Gas| -> (u: U)
                ensures
                    f.ensures((&self@[g],), u)
                { f(self.get(g)) },
        )
    }

    /// The map that holds for each species what `f` returns for the two
    /// values held for it, the one here and the one in `other`.
    pub fn zip_with<U, F: Fn(&T, &T) -> U>(&self, other: &Self, f: F) -> (m: GasEnumMap<U>)
        requires
            forall|g: Gas| #[trigger] f.requires((&self@[g], &other@[g])),
        ensures
            forall|g: Gas| f.ensures((&self@[g], &other@[g]), #[trigger] m@[g]),
    {
        GasEnumMap::from_fn(
            |g: Gas| -> (u: U)
                ensures
                    f.ensures((&self@[g], &other@[g]), u)
                { f(self.get(g), other.get(g)) },
        )
    }

    /// The map whose values are those of `slots`, read in table order.
    pub fn from_array(slots: [T; GAS_AMT]) -> (m: Self)
        ensures
            m.slots == slots,
            forall|g: Gas| #[trigger] m@[g] == slots@[g.ordinal() as int],
    {
        GasEnumMap { slots }
    }

    /// The values in table order.
    pub fn into_array(self) -> (slots: [T; GAS_AMT])
        ensures
            slots == self.slots,
            forall|i: int| 0 <= i < GAS_AMT ==> #[trigger] slots@[i] == self@[Gas::table()[i]],
    {
        self.slots
    }
}

} // verus!
