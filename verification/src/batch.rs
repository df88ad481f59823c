//! Drivers that repeat one pass: a fixed number of times, until the state
//! settles, over many independent states, and the fold that merges many
//! states into one.
//!
//! A pass is the caller's `step`, for instance one run of the reaction
//! pipeline. The drivers decide how often and on what it is called.

use vstd::prelude::*;

verus! {

/// `step` accepts every state that it returns.
pub open spec fn accepts_own_results<T, F: Fn(T) -> T>(step: F) -> bool {
    forall|a: T, b: T| step.requires((a,)) && #[trigger] step.ensures((a,), b) ==> step.requires((b,))
}

/// `states` are `n` successive results of `step` from `gm`: the first is the
/// result of the first pass on `gm`, each later one the result of a pass on
/// the one before it.
pub open spec fn several_outcome<T, F: Fn(T) -> T>(step: F, gm: T, n: nat, states: Seq<T>) -> bool {
    &&& states.len() == n
    &&& n > 0 ==> step.ensures((gm,), states[0])
    &&& forall|i: int, j: int|
        0 <= i && j == i + 1 && j < n ==> step.ensures(
            (#[trigger] states[i],),
            #[trigger] states[j],
        )
}

/// `out` is where repeated passes from `gm` come to a stop: either `settled`
/// said yes to the last pass, and no to every pass before it, or `cap` passes
/// were made without it saying yes before the last. With a `cap` of zero no
/// pass is made.
pub open spec fn until_done_outcome<T, F, E>(step: F, settled: E, cap: nat, gm: T, out: T) -> bool
    where F: Fn(T) -> T, E: Fn(&T, &T) -> bool {
    exists|trace: Seq<T>|
        {
            &&& #[trigger] settling_run(step, settled, trace)
            &&& trace[0] == gm
            &&& trace.last() == out
            &&& trace.len() <= cap + 1
            &&& trace.len() == cap + 1 || (trace.len() >= 2 && settled.ensures(
                (&trace[trace.len() - 2], &trace[trace.len() - 1]),
                true,
            ))
        }
}

/// `trace` starts with a state and goes on with the result of one pass after
/// another, none of which but possibly the last was found settled.
pub open spec fn settling_run<T, F, E>(step: F, settled: E, trace: Seq<T>) -> bool where
    F: Fn(T) -> T,
    E: Fn(&T, &T) -> bool,
 {
    &&& trace.len() >= 1
    &&& forall|i: int, j: int|
        #![trigger trace[i], trace[j]]
        0 <= i && j == i + 1 && j < trace.len() ==> {
            &&& step.ensures((trace[i],), trace[j])
            &&& j < trace.len() - 1 ==> settled.ensures((&trace[i], &trace[j]), false)
        }
}

/// `out` is the left fold of `merge` over `gms`, seeded with `zero`.
pub open spec fn merge_all_outcome<T, F: Fn(T, T) -> T>(merge: F, zero: T, gms: Seq<T>, out: T) -> bool {
    exists|sums: Seq<T>|
        {
            &&& #[trigger] running_merge(merge, gms, sums)
            &&& sums[0] == zero
            &&& sums[gms.len() as int] == out
        }
}

/// `sums` holds the seed and then, for each of `gms` in turn, what `merge`
/// returns for the sum so far and that state.
pub open spec fn running_merge<T, F: Fn(T, T) -> T>(merge: F, gms: Seq<T>, sums: Seq<T>) -> bool {
    &&& sums.len() == gms.len() + 1
    &&& forall|i: int|
        0 <= i < gms.len() ==> merge.ensures((sums[i], #[trigger] gms[i]), sums[i + 1])
}

/// Makes `n` passes from `gm` and returns the state after each of them, the
/// result of the first pass first.
pub fn react_several<T: Copy, F: Fn(T) -> T>(gm: T, n: usize, step: &F) -> (states: Vec<T>)
    requires
        step.requires((gm,)),
        accepts_own_results(*step),
    ensures
        several_outcome(*step, gm, n as nat, states@),
{
    let mut states: Vec<T> = Vec::new();
    let mut state = gm;
    let mut i: usize = 0;
    while i < n
        invariant
            i <= n,
            accepts_own_results(*step),
            step.requires((state,)),
            several_outcome(*step, gm, i as nat, states@),
            i > 0 ==> states@[i - 1] == state,
            i == 0 ==> state == gm,
        decreases n - i,
    {
        let next = step(state);
        states.push(next);
        state = next;
        i += 1;
    }
    states
}

/// Makes passes from `gm` until `settled`, asked about the state before a
/// pass and the state after it, says yes, or until `cap` passes were made.
/// Returns the state after the last pass, `gm` itself if none was made.
pub fn react_until_done<T: Copy, F, E>(gm: T, cap: usize, step: &F, settled: &E) -> (out: T) where
    F: Fn(T) -> T,
    E: Fn(&T, &T) -> bool,

    requires
        step.requires((gm,)),
        accepts_own_results(*step),
        forall|a: T, b: T| settled.requires((&a, &b)),
    ensures
        until_done_outcome(*step, *settled, cap as nat, gm, out),
{
    let ghost mut trace: Seq<T> = seq![gm];
    let mut state = gm;
    let mut passes: usize = 0;
    let mut done = false;
    while passes < cap && !done
        invariant
            passes <= cap,
            accepts_own_results(*step),
            forall|a: T, b: T| settled.requires((&a, &b)),
            step.requires((state,)),
            settling_run(*step, *settled, trace),
            trace.len() == passes + 1,
            trace[0] == gm,
            trace.last() == state,
            done ==> passes > 0 && settled.ensures(
                (&trace[trace.len() - 2], &trace[trace.len() - 1]),
                true,
            ),
            !done && passes > 0 ==> settled.ensures(
                (&trace[trace.len() - 2], &trace[trace.len() - 1]),
                false,
            ),
        decreases cap - passes,
    {
        let next = step(state);
        done = settled(&state, &next);
        proof {
            trace = trace.push(next);
        }
        state = next;
        passes += 1;
    }
    state
}

/// One pass on each of `gms`, independently: the result for a state stands
/// at that state's position.
pub fn react_each_once<T: Copy, F: Fn(T) -> T>(gms: &Vec<T>, step: &F) -> (outs: Vec<T>)
    requires
        forall|i: int| 0 <= i < gms.len() ==> step.requires((#[trigger] gms[i],)),
    ensures
        outs.len() == gms.len(),
        forall|i: int| 0 <= i < gms.len() ==> step.ensures((gms[i],), #[trigger] outs[i]),
{
    let mut outs: Vec<T> = Vec::new();
    let mut i: usize = 0;
    while i < gms.len()
        invariant
            i <= gms.len(),
            outs.len() == i,
            forall|j: int| 0 <= j < gms.len() ==> step.requires((#[trigger] gms[j],)),
            forall|j: int| 0 <= j < i ==> step.ensures((gms[j],), #[trigger] outs[j]),
        decreases gms.len() - i,
    {
        outs.push(step(gms[i]));
        i += 1;
    }
    outs
}

/// Passes until done on each of `gms`, independently, each with the same
/// `cap`.
pub fn react_each_until_done<T: Copy, F, E>(gms: &Vec<T>, cap: usize, step: &F, settled: &E) -> (outs:
    Vec<T>) where F: Fn(T) -> T, E: Fn(&T, &T) -> bool
    requires
        forall|i: int| 0 <= i < gms.len() ==> step.requires((#[trigger] gms[i],)),
        accepts_own_results(*step),
        forall|a: T, b: T| settled.requires((&a, &b)),
    ensures
        outs.len() == gms.len(),
        forall|i: int|
            0 <= i < gms.len() ==> until_done_outcome(
                *step,
                *settled,
                cap as nat,
                gms[i],
                #[trigger] outs[i],
            ),
{
    let mut outs: Vec<T> = Vec::new();
    let mut i: usize = 0;
    while i < gms.len()
        invariant
            i <= gms.len(),
            outs.len() == i,
            forall|j: int| 0 <= j < gms.len() ==> step.requires((#[trigger] gms[j],)),
            accepts_own_results(*step),
            forall|a: T, b: T| settled.requires((&a, &b)),
            forall|j: int|
                0 <= j < i ==> until_done_outcome(
                    *step,
                    *settled,
                    cap as nat,
                    gms[j],
                    #[trigger] outs[j],
                ),
        decreases gms.len() - i,
    {
        outs.push(react_until_done(gms[i], cap, step, settled));
        i += 1;
    }
    outs
}

/// `n` passes on each of `gms`, independently: one timeline of `n` states
/// per state of `gms`, at that state's position.
pub fn react_each_several<T: Copy, F: Fn(T) -> T>(gms: &Vec<T>, n: usize, step: &F) -> (timelines:
    Vec<Vec<T>>)
    requires
        forall|i: int| 0 <= i < gms.len() ==> step.requires((#[trigger] gms[i],)),
        accepts_own_results(*step),
    ensures
        timelines.len() == gms.len(),
        forall|i: int|
            0 <= i < gms.len() ==> several_outcome(
                *step,
                gms[i],
                n as nat,
                (#[trigger] timelines[i])@,
            ),
{
    let mut timelines: Vec<Vec<T>> = Vec::new();
    let mut i: usize = 0;
    while i < gms.len()
        invariant
            i <= gms.len(),
            timelines.len() == i,
            forall|j: int| 0 <= j < gms.len() ==> step.requires((#[trigger] gms[j],)),
            accepts_own_results(*step),
            forall|j: int|
                0 <= j < i ==> several_outcome(
                    *step,
                    gms[j],
                    n as nat,
                    (#[trigger] timelines[j])@,
                ),
        decreases gms.len() - i,
    {
        timelines.push(react_several(gms[i], n, step));
        i += 1;
    }
    timelines
}

/// Merges all of `gms` into one state: the left fold of `merge` over them,
/// seeded with `zero`, which is returned as it is where `gms` is empty.
pub fn merge_all<T: Copy, F: Fn(T, T) -> T>(gms: &Vec<T>, zero: T, merge: &F) -> (out: T)
    requires
        forall|sum: T, i: int| 0 <= i < gms.len() ==> #[trigger] merge.requires((sum, gms[i])),
    ensures
        merge_all_outcome(*merge, zero, gms@, out),
{
    let ghost mut sums: Seq<T> = seq![zero];
    let mut sum = zero;
    let mut i: usize = 0;
    while i < gms.len()
        invariant
            i <= gms.len(),
            forall|sum: T, j: int| 0 <= j < gms.len() ==> #[trigger] merge.requires((sum, gms[j])),
            sums.len() == i + 1,
            sums[0] == zero,
            sums[i as int] == sum,
            forall|j: int| 0 <= j < i ==> merge.ensures((sums[j], #[trigger] gms[j]), sums[j + 1]),
        decreases gms.len() - i,
    {
        sum = merge(sum, gms[i]);
        proof {
            sums = sums.push(sum);
        }
        i += 1;
    }
    proof {
        assert(running_merge(*merge, gms@, sums));
    }
    sum
}

/// A state that a pass can only leave as it is stays as it is through any
/// number of passes.
pub proof fn lemma_several_at_rest<T, F: Fn(T) -> T>(step: F, gm: T, n: nat, states: Seq<T>, i: int)
    requires
        several_outcome(step, gm, n, states),
        forall|out: T| step.ensures((gm,), out) ==> out == gm,
        0 <= i < n,
    ensures
        states[i] == gm,
    decreases i,
{
    if i > 0 {
        lemma_several_at_rest(step, gm, n, states, i - 1);
        assert(step.ensures((states[i - 1],), states[i]));
    }
}

/// A state that a pass can only leave as it is comes back from passes until
/// done as it is, settled or not and whatever the cap.
pub proof fn lemma_until_done_at_rest<T, F, E>(step: F, settled: E, cap: nat, gm: T, out: T) where
    F: Fn(T) -> T,
    E: Fn(&T, &T) -> bool,

    requires
        until_done_outcome(step, settled, cap, gm, out),
        forall|next: T| step.ensures((gm,), next) ==> next == gm,
    ensures
        out == gm,
{
    let trace = choose|trace: Seq<T>|
        {
            &&& #[trigger] settling_run(step, settled, trace)
            &&& trace[0] == gm
            &&& trace.last() == out
        };
    lemma_run_at_rest(step, settled, trace, trace.len() - 1);
}

/// Along a run from a state that a pass can only leave as it is, every state
/// is that state.
proof fn lemma_run_at_rest<T, F, E>(step: F, settled: E, trace: Seq<T>, i: int) where
    F: Fn(T) -> T,
    E: Fn(&T, &T) -> bool,

    requires
        settling_run(step, settled, trace),
        forall|next: T| step.ensures((trace[0],), next) ==> next == trace[0],
        0 <= i < trace.len(),
    ensures
        trace[i] == trace[0],
    decreases i,
{
    if i > 0 {
        lemma_run_at_rest(step, settled, trace, i - 1);
        assert(step.ensures((trace[i - 1],), trace[i]));
    }
}

} // verus!
