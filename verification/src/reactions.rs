//! The guarded reactions and the fixed pipeline that chains them.
//!
//! A reaction is a guard and a transform over the caller's state `T`. The
//! guard says whether the reaction fires on a state; the transform says what
//! a firing reaction makes of it. Both are the caller's functions, selected
//! by the reaction's name, so the contracts below relate results to what
//! those functions return.

use vstd::prelude::*;

verus! {

/// Number of reactions in the pipeline.
pub const REACTION_AMT: usize = 8;

/// The reactions, declared in pipeline order.
#[derive(Copy, Clone, Debug, PartialEq, Eq, Structural)]
pub enum Reaction {
    /// Decomposition of nitrous oxide into nitrogen and oxygen.
    N2oDecomp,
    /// Combustion of the light fuel.
    TritFire,
    /// Combustion of plasma.
    PlasmaFire,
    /// Fusion of plasma and carbon dioxide.
    Fusion,
    /// Catalytic formation of nitryl.
    NitrylFormation,
    /// Synthesis of BZ.
    BzSynth,
    /// Synthesis of stimulum.
    StimulumSynth,
    /// Synthesis of hyper-noblium.
    HnobSynth,
}

impl Reaction {
    /// The pipeline: every reaction once, in the order in which one pass
    /// applies them.
    pub open spec fn pipeline() -> Seq<Reaction> {
        seq![
            Reaction::N2oDecomp,
            Reaction::TritFire,
            Reaction::PlasmaFire,
            Reaction::Fusion,
            Reaction::NitrylFormation,
            Reaction::BzSynth,
            Reaction::StimulumSynth,
            Reaction::HnobSynth,
        ]
    }

    /// The reactions in pipeline order.
    pub fn order() -> (stages: [Reaction; REACTION_AMT])
        ensures
            stages@ == Reaction::pipeline(),
    {
        let stages = [
            Reaction::N2oDecomp,
            Reaction::TritFire,
            Reaction::PlasmaFire,
            Reaction::Fusion,
            Reaction::NitrylFormation,
            Reaction::BzSynth,
            Reaction::StimulumSynth,
            Reaction::HnobSynth,
        ];
        assert(stages@ =~= Reaction::pipeline());
        stages
    }
}

/// `out` is what `reaction` may make of `gm`: `gm` itself where the guard
/// says no, and what the transform returns for `gm` where the guard says yes.
pub open spec fn reaction_outcome<T, G, A>(
    guard: G,
    transform: A,
    reaction: Reaction,
    gm: T,
    out: T,
) -> bool where G: FnOnce(Reaction, &T) -> bool, A: FnOnce(Reaction, T) -> T {
    ||| guard.ensures((reaction, &gm), false) && out == gm
    ||| guard.ensures((reaction, &gm), true) && transform.ensures((reaction, gm), out)
}

/// `trace` holds the states of one run through `stages`: the state before
/// the first stage, then the outcome of each stage applied to the state
/// before it.
pub open spec fn chain_outcome<T, G, A>(
    guard: G,
    transform: A,
    stages: Seq<Reaction>,
    trace: Seq<T>,
) -> bool where G: Fn(Reaction, &T) -> bool, A: Fn(Reaction, T) -> T {
    &&& trace.len() == stages.len() + 1
    &&& forall|i: int|
        0 <= i < stages.len() ==> reaction_outcome(
            guard,
            transform,
            #[trigger] stages[i],
            trace[i],
            trace[i + 1],
        )
}

/// `out` is what one pass may make of `gm`: `gm` itself behind a closed
/// gate, and behind an open one the last state of a run through every stage
/// in order, begun at `gm`.
pub open spec fn pipeline_outcome<T, P, G, A>(
    gate: P,
    guard: G,
    transform: A,
    gm: T,
    out: T,
) -> bool where P: FnOnce(&T) -> bool, G: Fn(Reaction, &T) -> bool, A: Fn(Reaction, T) -> T {
    ||| gate.ensures((&gm,), false) && out == gm
    ||| gate.ensures((&gm,), true) && exists|trace: Seq<T>|
        {
            &&& #[trigger] chain_outcome(guard, transform, Reaction::pipeline(), trace)
            &&& trace[0] == gm
            &&& trace[REACTION_AMT as int] == out
        }
}

/// Applies one reaction: where its guard fails the state comes back as it
/// was, which is no error, and where it holds the transform's result is
/// returned.
pub fn apply_reaction<T, G, A>(reaction: Reaction, gm: T, guard: G, transform: A) -> (out: T) where
    G: FnOnce(Reaction, &T) -> bool,
    A: FnOnce(Reaction, T) -> T,

    requires
        guard.requires((reaction, &gm)),
        guard.ensures((reaction, &gm), true) ==> transform.requires((reaction, gm)),
    ensures
        reaction_outcome(guard, transform, reaction, gm, out),
        (forall|fires: bool| guard.ensures((reaction, &gm), fires) ==> !fires) ==> out == gm,
{
    if guard(reaction, &gm) {
        transform(reaction, gm)
    } else {
        gm
    }
}

/// One pass of the pipeline. A closed gate skips the pass and returns `gm`
/// unchanged. Behind an open gate every reaction is applied once, in
/// pipeline order, each to the state that the one before it left.
pub fn react<T, P, G, A>(gm: T, gate: P, guard: G, transform: A) -> (out: T) where
    P: FnOnce(&T) -> bool,
    G: Fn(Reaction, &T) -> bool,
    A: Fn(Reaction, T) -> T,

    requires
        gate.requires((&gm,)),
        forall|r: Reaction, x: T| guard.requires((r, &x)),
        forall|r: Reaction, x: T| guard.ensures((r, &x), true) ==> transform.requires((r, x)),
    ensures
        pipeline_outcome(gate, guard, transform, gm, out),
{
    if !gate(&gm) {
        return gm;
    }
    let stages = Reaction::order();
    let ghost mut trace: Seq<T> = seq![gm];
    let mut state = gm;
    let mut i: usize = 0;
    while i < REACTION_AMT
        invariant
            i <= REACTION_AMT,
            stages@ == Reaction::pipeline(),
            trace.len() == i + 1,
            trace[0] == gm,
            trace[i as int] == state,
            forall|r: Reaction, x: T| guard.requires((r, &x)),
            forall|r: Reaction, x: T| guard.ensures((r, &x), true) ==> transform.requires((r, x)),
            forall|j: int|
                0 <= j < i ==> reaction_outcome(
                    guard,
                    transform,
                    #[trigger] Reaction::pipeline()[j],
                    trace[j],
                    trace[j + 1],
                ),
        decreases REACTION_AMT - i,
    {
        let reaction = stages[i];
        let ghost before = state;
        if guard(reaction, &state) {
            state = transform(reaction, state);
        }
        proof {
            assert(reaction_outcome(guard, transform, reaction, before, state));
            trace = trace.push(state);
        }
        i += 1;
    }
    proof {
        assert(chain_outcome(guard, transform, Reaction::pipeline(), trace));
    }
    state
}

/// A state on which no reaction's guard can hold comes out of a pass as it
/// went in, behind an open gate as behind a closed one.
pub proof fn lemma_rest_is_unchanged<T, P, G, A>(
    gate: P,
    guard: G,
    transform: A,
    gm: T,
    out: T,
) where P: FnOnce(&T) -> bool, G: Fn(Reaction, &T) -> bool, A: Fn(Reaction, T) -> T
    requires
        pipeline_outcome(gate, guard, transform, gm, out),
        forall|r: Reaction, fires: bool| guard.ensures((r, &gm), fires) ==> !fires,
    ensures
        out == gm,
{
    if out != gm {
        let trace = choose|trace: Seq<T>|
            {
                &&& #[trigger] chain_outcome(guard, transform, Reaction::pipeline(), trace)
                &&& trace[0] == gm
                &&& trace[REACTION_AMT as int] == out
            };
        lemma_chain_at_rest(guard, transform, Reaction::pipeline(), trace, REACTION_AMT as int);
    }
}

/// Along a run whose first state lets no guard hold, every state is the
/// first one.
proof fn lemma_chain_at_rest<T, G, A>(
    guard: G,
    transform: A,
    stages: Seq<Reaction>,
    trace: Seq<T>,
    k: int,
) where G: Fn(Reaction, &T) -> bool, A: Fn(Reaction, T) -> T
    requires
        chain_outcome(guard, transform, stages, trace),
        forall|r: Reaction, fires: bool| guard.ensures((r, &trace[0]), fires) ==> !fires,
        0 <= k <= stages.len(),
    ensures
        trace[k] == trace[0],
    decreases k,
{
    if k > 0 {
        lemma_chain_at_rest(guard, transform, stages, trace, k - 1);
        assert(reaction_outcome(guard, transform, stages[k - 1], trace[k - 1], trace[k]));
    }
}

} // verus!
