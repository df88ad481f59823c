use tg_atmos_sim::gas::{Gas, GAS_AMT};
use tg_atmos_sim::gas_map::GasEnumMap;

#[test]
fn table_holds_twelve_species_in_order() {
    let all = Gas::all();
    assert_eq!(all.len(), GAS_AMT);
    assert_eq!(GAS_AMT, 12);
    assert_eq!(
        all,
        [
            Gas::N2,
            Gas::O2,
            Gas::CO2,
            Gas::N2O,
            Gas::Pl,
            Gas::H2O,
            Gas::HNb,
            Gas::NO2,
            Gas::H2,
            Gas::BZ,
            Gas::ST,
            Gas::PlOx
        ]
    );
}

#[test]
fn index_and_from_index_are_inverse() {
    let all = Gas::all();
    for i in 0..GAS_AMT {
        assert_eq!(all[i].index(), i);
        assert_eq!(Gas::from_index(i), Some(all[i]));
    }
}

#[test]
fn from_index_beyond_the_table_is_none() {
    assert_eq!(Gas::from_index(12), None);
    assert_eq!(Gas::from_index(13), None);
    assert_eq!(Gas::from_index(usize::MAX), None);
}

#[test]
fn index_of_named_species() {
    assert_eq!(Gas::N2.index(), 0);
    assert_eq!(Gas::Pl.index(), 4);
    assert_eq!(Gas::H2.index(), 8);
    assert_eq!(Gas::PlOx.index(), 11);
}

#[test]
fn heat_capacities() {
    let expected: [u32; 12] = [20, 20, 30, 40, 200, 40, 2000, 20, 10, 0, 5, 80];
    let all = Gas::all();
    for i in 0..GAS_AMT {
        assert_eq!(all[i].heat_cap_of(), expected[i]);
    }
}

#[test]
fn only_bz_has_no_heat_capacity() {
    for g in Gas::all() {
        assert_eq!(g.heat_cap_of() == 0, g == Gas::BZ);
    }
}

#[test]
fn fusion_powers() {
    let expected: [i32; 12] = [0, 0, 0, 10, 0, 8, 0, 16, 1, 8, 7, -10];
    let all = Gas::all();
    for i in 0..GAS_AMT {
        assert_eq!(all[i].fusion_power_of(), expected[i]);
    }
}

#[test]
fn map_from_fn_calls_once_per_species() {
    let calls = std::cell::RefCell::new(Vec::new());
    let m = GasEnumMap::from_fn(|g: Gas| {
        calls.borrow_mut().push(g);
        g.index() * 10
    });
    assert_eq!(calls.borrow().as_slice(), Gas::all().as_slice());
    for g in Gas::all() {
        assert_eq!(*m.get(g), g.index() * 10);
    }
}

#[test]
fn map_filled_holds_the_default_everywhere() {
    let m = GasEnumMap::filled(0.0f64);
    for g in Gas::all() {
        assert_eq!(*m.get(g), 0.0);
    }
}

#[test]
fn map_from_entries_sets_named_species_only() {
    let m = GasEnumMap::from_entries(&[(Gas::N2O, -3.6f64), (Gas::O2, 1.8), (Gas::N2, 3.6)], 0.0);
    assert_eq!(*m.get(Gas::N2O), -3.6);
    assert_eq!(*m.get(Gas::O2), 1.8);
    assert_eq!(*m.get(Gas::N2), 3.6);
    for g in Gas::all() {
        if g != Gas::N2O && g != Gas::O2 && g != Gas::N2 {
            assert_eq!(*m.get(g), 0.0);
        }
    }
}

#[test]
fn map_from_entries_first_entry_wins() {
    let m = GasEnumMap::from_entries(&[(Gas::H2, 1u8), (Gas::Pl, 2), (Gas::H2, 3)], 9);
    assert_eq!(*m.get(Gas::H2), 1);
    assert_eq!(*m.get(Gas::Pl), 2);
    assert_eq!(*m.get(Gas::BZ), 9);
}

#[test]
fn map_from_no_entries_is_the_default() {
    let none: [(Gas, i32); 0] = [];
    let m = GasEnumMap::from_entries(&none, -1);
    for g in Gas::all() {
        assert_eq!(*m.get(g), -1);
    }
}

#[test]
fn map_array_round_trip_keeps_table_order() {
    let a: [u32; 12] = [0, 1, 2, 3, 4, 5, 6, 7, 8, 9, 10, 11];
    let m = GasEnumMap::from_array(a);
    for g in Gas::all() {
        assert_eq!(*m.get(g) as usize, g.index());
    }
    assert_eq!(m.into_array(), a);
}

#[test]
fn map_applies_to_every_species() {
    let m = GasEnumMap::from_fn(|g: Gas| g.index() as i64);
    let doubled = m.map(|v: &i64| v * 2);
    for g in Gas::all() {
        assert_eq!(*doubled.get(g), 2 * g.index() as i64);
    }
}

#[test]
fn zip_with_pairs_the_values_of_one_species() {
    let a = GasEnumMap::from_fn(|g: Gas| g.heat_cap_of());
    let b = GasEnumMap::from_entries(&[(Gas::Pl, 3u32), (Gas::BZ, 7)], 1);
    let sum = a.zip_with(&b, |x: &u32, y: &u32| x + y);
    assert_eq!(*sum.get(Gas::Pl), 203);
    assert_eq!(*sum.get(Gas::BZ), 7);
    assert_eq!(*sum.get(Gas::HNb), 2001);
    let apart = a.zip_with(&b, |x: &u32, y: &u32| (*x, *y));
    for g in Gas::all() {
        assert_eq!(*apart.get(g), (*a.get(g), *b.get(g)));
    }
}
