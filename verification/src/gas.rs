//! The gas species and their physical constants.

use vstd::prelude::*;

verus! {

/// Number of gas species.
pub const GAS_AMT: usize = 12;

/// A gas species. The declaration order is the species' table order.
#[derive(Copy, Clone, Debug, PartialEq, Eq, Structural)]
pub enum Gas {
    /// Nitrogen, the inert carrier gas.
    N2,
    /// Oxygen, the primary oxidizer.
    O2,
    /// Carbon dioxide.
    CO2,
    /// Nitrous oxide, the decomposable oxidizer.
    N2O,
    /// Plasma.
    Pl,
    /// Water vapor.
    H2O,
    /// Hyper-noblium.
    HNb,
    /// Nitryl.
    NO2,
    /// Hydrogen (tritium), the light fuel.
    H2,
    /// BZ.
    BZ,
    /// Stimulum.
    ST,
    /// Pluoxium.
    PlOx,
}

impl Gas {
    /// Position of the species in table order.
    pub open spec fn ordinal(self) -> nat {
        match self {
            Gas::N2 => 0,
            Gas::O2 => 1,
            Gas::CO2 => 2,
            Gas::N2O => 3,
            Gas::Pl => 4,
            Gas::H2O => 5,
            Gas::HNb => 6,
            Gas::NO2 => 7,
            Gas::H2 => 8,
            Gas::BZ => 9,
            Gas::ST => 10,
            Gas::PlOx => 11,
        }
    }

    /// The species in table order.
    pub open spec fn table() -> Seq<Gas> {
        seq![
            Gas::N2,
            Gas::O2,
            Gas::CO2,
            Gas::N2O,
            Gas::Pl,
            Gas::H2O,
            Gas::HNb,
            Gas::NO2,
            Gas::H2,
            Gas::BZ,
            Gas::ST,
            Gas::PlOx,
        ]
    }

    /// Position of the species in table order, below `GAS_AMT`.
    pub fn index(self) -> (i: usize)
        ensures
            i == self.ordinal(),
            i < GAS_AMT,
            Gas::table()[i as int] == self,
    {
        match self {
            Gas::N2 => 0,
            Gas::O2 => 1,
            Gas::CO2 => 2,
            Gas::N2O => 3,
            Gas::Pl => 4,
            Gas::H2O => 5,
            Gas::HNb => 6,
            Gas::NO2 => 7,
            Gas::H2 => 8,
            Gas::BZ => 9,
            Gas::ST => 10,
            Gas::PlOx => 11,
        }
    }

    /// The species at position `i` of the table, if there is one.
    pub fn from_index(i: usize) -> (g: Option<Gas>)
        ensures
            i < GAS_AMT ==> g == Some(Gas::table()[i as int]),
            i >= GAS_AMT ==> g is None,
    {
        match i {
            0 => Some(Gas::N2),
            1 => Some(Gas::O2),
            2 => Some(Gas::CO2),
            3 => Some(Gas::N2O),
            4 => Some(Gas::Pl),
            5 => Some(Gas::H2O),
            6 => Some(Gas::HNb),
            7 => Some(Gas::NO2),
            8 => Some(Gas::H2),
            9 => Some(Gas::BZ),
            10 => Some(Gas::ST),
            11 => Some(Gas::PlOx),
            _ => None,
        }
    }

    /// Every species once, in table order.
    pub fn all() -> (gases: [Gas; GAS_AMT])
        ensures
            gases@ == Gas::table(),
    {
        let gases = [
            Gas::N2,
            Gas::O2,
            Gas::CO2,
            Gas::N2O,
            Gas::Pl,
            Gas::H2O,
            Gas::HNb,
            Gas::NO2,
            Gas::H2,
            Gas::BZ,
            Gas::ST,
            Gas::PlOx,
        ];
        assert(gases@ =~= Gas::table());
        gases
    }

    /// Molar heat capacity of the species.
    pub open spec fn heat_cap(self) -> nat {
        match self {
            Gas::N2 => 20,
            Gas::O2 => 20,
            Gas::CO2 => 30,
            Gas::N2O => 40,
            Gas::Pl => 200,
            Gas::H2O => 40,
            Gas::HNb => 2000,
            Gas::NO2 => 20,
            Gas::H2 => 10,
            Gas::BZ => 0,
            Gas::ST => 5,
            Gas::PlOx => 80,
        }
    }

    /// Fusion power coefficient of the species; only these seven have one.
    pub open spec fn fusion_power(self) -> int {
        match self {
            Gas::N2O => 10,
            Gas::H2O => 8,
            Gas::NO2 => 16,
            Gas::H2 => 1,
            Gas::BZ => 8,
            Gas::ST => 7,
            Gas::PlOx => -10,
            _ => 0,
        }
    }

    /// Molar heat capacity of the species, a whole number for each of them.
    pub fn heat_cap_of(self) -> (c: u32)
        ensures
            c == self.heat_cap(),
    {
        match self {
            Gas::N2 => 20,
            Gas::O2 => 20,
            Gas::CO2 => 30,
            Gas::N2O => 40,
            Gas::Pl => 200,
            Gas::H2O => 40,
            Gas::HNb => 2000,
            Gas::NO2 => 20,
            Gas::H2 => 10,
            Gas::BZ => 0,
            Gas::ST => 5,
            Gas::PlOx => 80,
        }
    }

    /// Fusion power coefficient of the species, a whole number for each of
    /// them, negative for pluoxium.
    pub fn fusion_power_of(self) -> (p: i32)
        ensures
            p == self.fusion_power(),
    {
        match self {
            Gas::N2O => 10,
            Gas::H2O => 8,
            Gas::NO2 => 16,
            Gas::H2 => 1,
            Gas::BZ => 8,
            Gas::ST => 7,
            Gas::PlOx => -10,
            _ => 0,
        }
    }
}

/// The table order numbers the species: a species stands at its own ordinal,
/// and the species found at a position has that position as its ordinal.
pub proof fn lemma_table_order(g: Gas, i: int)
    ensures
        Gas::table().len() == GAS_AMT,
        g.ordinal() < GAS_AMT,
        Gas::table()[g.ordinal() as int] == g,
        0 <= i < GAS_AMT ==> Gas::table()[i].ordinal() == i,
{
}

} // verus!
