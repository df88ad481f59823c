use std::cell::RefCell;
use tg_atmos_sim::batch::{
    merge_all, react_each_once, react_each_several, react_each_until_done, react_several,
    react_until_done,
};
use tg_atmos_sim::layout::ManifoldShape;
use tg_atmos_sim::reactions::{apply_reaction, react, Reaction, REACTION_AMT};

#[test]
fn order_is_the_fixed_eight() {
    assert_eq!(REACTION_AMT, 8);
    assert_eq!(
        Reaction::order(),
        [
            Reaction::N2oDecomp,
            Reaction::TritFire,
            Reaction::PlasmaFire,
            Reaction::Fusion,
            Reaction::NitrylFormation,
            Reaction::BzSynth,
            Reaction::StimulumSynth,
            Reaction::HnobSynth
        ]
    );
}

#[test]
fn failed_guard_returns_the_input() {
    let out = apply_reaction(Reaction::Fusion, 41u32, |_r, _x: &u32| false, |_r, x: u32| x + 1);
    assert_eq!(out, 41);
}

#[test]
fn failed_guard_never_calls_the_transform() {
    let called = RefCell::new(false);
    let out = apply_reaction(
        Reaction::BzSynth,
        7i64,
        |_r, _x: &i64| false,
        |_r, x: i64| {
            *called.borrow_mut() = true;
            x * 2
        },
    );
    assert_eq!(out, 7);
    assert!(!*called.borrow());
}

#[test]
fn held_guard_returns_the_transform() {
    let out = apply_reaction(
        Reaction::TritFire,
        41u32,
        |r, x: &u32| r == Reaction::TritFire && *x > 40,
        |_r, x: u32| x + 1,
    );
    assert_eq!(out, 42);
}

#[test]
fn react_applies_every_stage_once_in_order() {
    let seen = RefCell::new(Vec::new());
    let out = react(
        0u32,
        |_x: &u32| true,
        |_r, _x: &u32| true,
        |r, x: u32| {
            seen.borrow_mut().push((r, x));
            x + 1
        },
    );
    assert_eq!(out, 8);
    let expected: Vec<(Reaction, u32)> =
        Reaction::order().iter().enumerate().map(|(i, r)| (*r, i as u32)).collect();
    assert_eq!(*seen.borrow(), expected);
}

#[test]
fn react_skips_stages_whose_guard_fails() {
    let out = react(
        String::new(),
        |_x: &String| true,
        |r, _x: &String| r != Reaction::Fusion && r != Reaction::BzSynth,
        |r, x: String| format!("{}{:?};", x, r),
    );
    assert_eq!(out, "N2oDecomp;TritFire;PlasmaFire;NitrylFormation;StimulumSynth;HnobSynth;");
}

#[test]
fn react_behind_a_closed_gate_is_the_identity() {
    let asked = RefCell::new(0u32);
    let out = react(
        5u32,
        |_x: &u32| false,
        |_r, _x: &u32| {
            *asked.borrow_mut() += 1;
            true
        },
        |_r, x: u32| x + 1,
    );
    assert_eq!(out, 5);
    assert_eq!(*asked.borrow(), 0);
}

#[test]
fn react_at_rest_is_the_identity() {
    let out = react(5u32, |_x: &u32| true, |_r, _x: &u32| false, |_r, x: u32| x + 1);
    assert_eq!(out, 5);
}

#[test]
fn each_stage_sees_the_state_left_by_the_one_before() {
    let out = react(
        1u64,
        |_x: &u64| true,
        |_r, x: &u64| *x < 20,
        |r, x: u64| if r == Reaction::PlasmaFire { x * 10 } else { x + 1 },
    );
    assert_eq!(out, 30);
}

#[test]
fn several_returns_each_successive_state() {
    let states = react_several(1u32, 4, &|x: u32| x * 3);
    assert_eq!(states, vec![3, 9, 27, 81]);
}

#[test]
fn several_of_none_is_empty() {
    let states = react_several(1u32, 0, &|x: u32| x * 3);
    assert!(states.is_empty());
}

#[test]
fn until_done_stops_when_settled() {
    let passes = RefCell::new(0u32);
    let out = react_until_done(
        0u32,
        100,
        &|x: u32| {
            *passes.borrow_mut() += 1;
            if x < 5 {
                x + 1
            } else {
                x
            }
        },
        &|a: &u32, b: &u32| a == b,
    );
    assert_eq!(out, 5);
    assert_eq!(*passes.borrow(), 6);
}

#[test]
fn until_done_stops_at_the_cap() {
    let out = react_until_done(0u32, 3, &|x: u32| x + 1, &|a: &u32, b: &u32| a == b);
    assert_eq!(out, 3);
}

#[test]
fn until_done_with_no_pass_allowed_returns_the_input() {
    let out = react_until_done(9u32, 0, &|x: u32| x + 1, &|_a: &u32, _b: &u32| true);
    assert_eq!(out, 9);
}

#[test]
fn until_done_returns_the_state_after_the_settling_pass() {
    let out = react_until_done(
        1000.0f64,
        50,
        &|x: f64| x / 2.0,
        &|a: &f64, b: &f64| (a - b).abs() < 100.0,
    );
    assert_eq!(out, 62.5);
}

#[test]
fn each_once_keeps_positions() {
    let outs = react_each_once(&vec![1u32, 5, 9], &|x: u32| x + 10);
    assert_eq!(outs, vec![11, 15, 19]);
    let none: Vec<u32> = Vec::new();
    assert!(react_each_once(&none, &|x: u32| x + 10).is_empty());
}

#[test]
fn each_until_done_settles_every_state_by_itself() {
    let outs = react_each_until_done(
        &vec![0u32, 4, 8],
        3,
        &|x: u32| if x < 5 { x + 1 } else { x },
        &|a: &u32, b: &u32| a == b,
    );
    assert_eq!(outs, vec![3, 5, 8]);
}

#[test]
fn each_several_gives_one_timeline_per_state() {
    let timelines = react_each_several(&vec![1u32, 2], 3, &|x: u32| x * 2);
    assert_eq!(timelines, vec![vec![2, 4, 8], vec![4, 8, 16]]);
}

#[test]
fn merge_all_folds_from_the_left() {
    let out = merge_all(&vec![1usize, 20, 300], 0usize, &|sum: usize, x: usize| sum * 10 + x);
    assert_eq!(out, 600);
}

#[test]
fn merge_all_of_nothing_is_the_seed() {
    let none: Vec<i32> = Vec::new();
    assert_eq!(merge_all(&none, -4, &|a: i32, b: i32| a + b), -4);
}

#[test]
fn manifold_total_is_the_product() {
    assert_eq!(ManifoldShape { timelines: 3, len: 4 }.total(), Some(12));
    assert_eq!(ManifoldShape { timelines: 0, len: 4 }.total(), Some(0));
    assert_eq!(ManifoldShape { timelines: 7, len: 0 }.total(), Some(0));
}

#[test]
fn manifold_total_beyond_the_machine_is_none() {
    assert_eq!(ManifoldShape { timelines: usize::MAX, len: 2 }.total(), None);
    assert_eq!(ManifoldShape { timelines: usize::MAX, len: 1 }.total(), Some(usize::MAX));
}

#[test]
fn manifold_chunks_tile_the_buffer() {
    let blocks = ManifoldShape { timelines: 3, len: 4 }.as_chunks();
    assert_eq!(blocks, vec![(0, 4), (4, 8), (8, 12)]);
    assert!(ManifoldShape { timelines: 0, len: 4 }.as_chunks().is_empty());
}
