//! Scripted pointer interaction: the pointer actions that a script of steps
//! stands for.
//!
//! A step carries a pointer input of type `P` (a position in the caller's
//! coordinates) and, for presses, a button of type `B`. Running a script
//! performs its actions in order; each move, press and release produces one
//! trace, pauses produce none.

use vstd::prelude::*;

verus! {

/// One step of an interaction script.
#[derive(Debug, Clone, Copy, PartialEq, Eq, Structural)]
pub enum InteractionStep<P, B> {
    /// Move the pointer.
    Move(P),
    /// Press a button.
    Press { input: P, button: B },
    /// Release a button.
    Release { input: P, button: B },
    /// Move the pointer, then wait.
    Hover { input: P, duration_ms: u64 },
    /// Press and release a button.
    Click { input: P, button: B },
    /// Wait.
    Wait { duration_ms: u64 },
}

/// One thing that running a script does.
#[derive(Debug, Clone, Copy, PartialEq, Eq, Structural)]
pub enum PointerAction<P, B> {
    /// Dispatch a pointer move, which is traced.
    Move(P),
    /// Dispatch a button press, which is traced.
    Press(P, B),
    /// Dispatch a button release, which is traced.
    Release(P, B),
    /// Pause for a number of milliseconds.
    Sleep(u64),
}

/// The actions one step stands for.
pub open spec fn step_actions<P, B>(step: InteractionStep<P, B>) -> Seq<PointerAction<P, B>> {
    match step {
        InteractionStep::Move(input) => seq![PointerAction::Move(input)],
        InteractionStep::Press { input, button } => seq![PointerAction::Press(input, button)],
        InteractionStep::Release { input, button } => seq![PointerAction::Release(input, button)],
        InteractionStep::Hover { input, duration_ms } => seq![
            PointerAction::Move(input),
            PointerAction::Sleep(duration_ms),
        ],
        InteractionStep::Click { input, button } => seq![
            PointerAction::Press(input, button),
            PointerAction::Release(input, button),
        ],
        InteractionStep::Wait { duration_ms } => seq![PointerAction::Sleep(duration_ms)],
    }
}

/// The actions a script stands for: those of its steps, in order.
pub open spec fn script_actions<P, B>(steps: Seq<InteractionStep<P, B>>) -> Seq<PointerAction<P, B>>
    decreases steps.len(),
{
    if steps.len() == 0 {
        Seq::empty()
    } else {
        script_actions(steps.drop_last()) + step_actions(steps.last())
    }
}

/// Whether an action produces a trace.
pub open spec fn is_traced<P, B>(a: PointerAction<P, B>) -> bool {
    !(a is Sleep)
}

/// How many traces the actions produce.
pub open spec fn trace_count<P, B>(actions: Seq<PointerAction<P, B>>) -> nat
    decreases actions.len(),
{
    if actions.len() == 0 {
        0
    } else {
        trace_count(actions.drop_last()) + if is_traced(actions.last()) {
            1nat
        } else {
            0nat
        }
    }
}

/// How many traces a step produces.
pub open spec fn step_traces<P, B>(step: InteractionStep<P, B>) -> nat {
    match step {
        InteractionStep::Click { .. } => 2,
        InteractionStep::Wait { .. } => 0,
        _ => 1,
    }
}

/// The actions of one step.
pub fn actions_of_step<P: Copy, B: Copy>(step: &InteractionStep<P, B>) -> (v: Vec<PointerAction<P, B>>)
    ensures
        v@ == step_actions(*step),
{
    let mut v = Vec::new();
    match *step {
        InteractionStep::Move(input) => {
            v.push(PointerAction::Move(input));
        },
        InteractionStep::Press { input, button } => {
            v.push(PointerAction::Press(input, button));
        },
        InteractionStep::Release { input, button } => {
            v.push(PointerAction::Release(input, button));
        },
        InteractionStep::Hover { input, duration_ms } => {
            v.push(PointerAction::Move(input));
            v.push(PointerAction::Sleep(duration_ms));
        },
        InteractionStep::Click { input, button } => {
            v.push(PointerAction::Press(input, button));
            v.push(PointerAction::Release(input, button));
        },
        InteractionStep::Wait { duration_ms } => {
            v.push(PointerAction::Sleep(duration_ms));
        },
    }
    v
}

/// The actions of a whole script, in order.
pub fn plan_interaction<P: Copy, B: Copy>(steps: &[InteractionStep<P, B>]) -> (v: Vec<PointerAction<P, B>>)
    ensures
        v@ == script_actions(steps@),
{
    let mut v: Vec<PointerAction<P, B>> = Vec::new();
    let n = steps.len();
    let mut i: usize = 0;
    while i < n
        invariant
            n == steps@.len(),
            i <= n,
            v@ == script_actions(steps@.subrange(0, i as int)),
        decreases n - i,
    {
        let mut more = actions_of_step(&steps[i]);
        proof {
            assert(steps@.subrange(0, i + 1).drop_last() =~= steps@.subrange(0, i as int));
            assert(steps@.subrange(0, i + 1).last() == steps@[i as int]);
        }
        v.append(&mut more);
        i = i + 1;
    }
    proof {
        assert(steps@.subrange(0, n as int) =~= steps@);
    }
    v
}

proof fn lemma_trace_count_append<P, B>(a: Seq<PointerAction<P, B>>, b: Seq<PointerAction<P, B>>)
    ensures
        trace_count(a + b) == trace_count(a) + trace_count(b),
    decreases b.len(),
{
    if b.len() == 0 {
        assert(a + b =~= a);
    } else {
        lemma_trace_count_append(a, b.drop_last());
        assert((a + b).drop_last() =~= a + b.drop_last());
        assert((a + b).last() == b.last());
    }
}

/// Every step produces its own traces and nothing else: a click two, a
/// wait none, any other step one; so a script produces the sum over its
/// steps.
pub proof fn law_traces_per_step<P, B>(steps: Seq<InteractionStep<P, B>>)
    ensures
        steps.len() > 0 ==> trace_count(script_actions(steps)) == trace_count(
            script_actions(steps.drop_last()),
        ) + step_traces(steps.last()),
        steps.len() == 0 ==> trace_count(script_actions(steps)) == 0,
{
    if steps.len() > 0 {
        let last = steps.last();
        lemma_trace_count_append(script_actions(steps.drop_last()), step_actions(last));
        let s = step_actions(last);
        reveal_with_fuel(trace_count, 3);
        assert(s.drop_last().drop_last().len() == 0 || s.len() == 1);
        if s.len() == 2 {
            assert(s.drop_last().drop_last() =~= Seq::<PointerAction<P, B>>::empty());
        } else {
            assert(s.drop_last() =~= Seq::<PointerAction<P, B>>::empty());
        }
    }
}

} // verus!
