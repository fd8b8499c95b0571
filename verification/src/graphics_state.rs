//! The save/restore discipline of a graphics context's state.
//!
//! A context has a current state and a stack of saved ones. `push_state`
//! saves a copy of the current state; `restore_state` goes back to the most
//! recently saved state and keeps it saved; `pop_state` goes back to it and
//! removes it from the stack. With nothing saved, restoring and popping
//! leave the state as it is.

use vstd::prelude::*;

verus! {

/// The state after `push_state`: unchanged, with a copy saved.
pub open spec fn pushed<S>(state: S, saved: Seq<S>) -> (S, Seq<S>) {
    (state, saved.push(state))
}

/// The state after `restore_state`: the last saved one, which stays saved.
pub open spec fn restored<S>(state: S, saved: Seq<S>) -> (S, Seq<S>) {
    if saved.len() > 0 {
        (saved.last(), saved)
    } else {
        (state, saved)
    }
}

/// The state after `pop_state`: the last saved one, which is unsaved.
pub open spec fn popped<S>(state: S, saved: Seq<S>) -> (S, Seq<S>) {
    if saved.len() > 0 {
        (saved.last(), saved.drop_last())
    } else {
        (state, saved)
    }
}

/// A current state and the stack of saved states.
#[derive(Debug)]
pub struct GraphicsStateStack<S> {
    state: S,
    saved: Vec<S>,
}

impl<S: Copy> GraphicsStateStack<S> {
    /// The current state.
    pub closed spec fn current_spec(&self) -> S {
        self.state
    }

    /// The saved states, the most recent last.
    pub closed spec fn saved_spec(&self) -> Seq<S> {
        self.saved@
    }

    /// Starts from `initial` with nothing saved.
    pub fn new(initial: S) -> (g: Self)
        ensures
            g.current_spec() == initial,
            g.saved_spec() == Seq::<S>::empty(),
    {
        GraphicsStateStack { state: initial, saved: Vec::new() }
    }

    /// The current state.
    pub fn current(&self) -> (s: &S)
        ensures
            *s == self.current_spec(),
    {
        &self.state
    }

    /// Replaces the current state; the saved ones stay.
    pub fn set_current(&mut self, s: S)
        ensures
            final(self).current_spec() == s,
            final(self).saved_spec() == old(self).saved_spec(),
    {
        self.state = s;
    }

    /// How many states are saved.
    pub fn depth(&self) -> (n: usize)
        ensures
            n == self.saved_spec().len(),
    {
        self.saved.len()
    }

    /// The most recently saved state, if any.
    pub fn last_saved(&self) -> (s: Option<S>)
        ensures
            s == if self.saved_spec().len() > 0 {
                Some(self.saved_spec().last())
            } else {
                None
            },
    {
        if self.saved.len() > 0 {
            Some(self.saved[self.saved.len() - 1])
        } else {
            None
        }
    }

    /// Saves a copy of the current state.
    pub fn push_state(&mut self)
        ensures
            (final(self).current_spec(), final(self).saved_spec()) == pushed(
                old(self).current_spec(),
                old(self).saved_spec(),
            ),
    {
        self.saved.push(self.state);
    }

    /// Goes back to the most recently saved state, keeping it saved.
    pub fn restore_state(&mut self)
        ensures
            (final(self).current_spec(), final(self).saved_spec()) == restored(
                old(self).current_spec(),
                old(self).saved_spec(),
            ),
    {
        let n = self.saved.len();
        if n > 0 {
            self.state = self.saved[n - 1];
        }
    }

    /// Goes back to the most recently saved state and removes it.
    pub fn pop_state(&mut self)
        ensures
            (final(self).current_spec(), final(self).saved_spec()) == popped(
                old(self).current_spec(),
                old(self).saved_spec(),
            ),
    {
        match self.saved.pop() {
            Some(s) => {
                self.state = s;
            },
            None => {},
        }
    }
}

/// Restoring and popping go back to the most recently saved state: with
/// states saved, the current state becomes the last one saved; a state
/// pushed and then changed is what a restore or a pop brings back, however
/// many states were saved before it; with nothing saved, nothing changes.
pub proof fn law_restore_takes_latest<S>(state: S, saved: Seq<S>, changed: S)
    ensures
        saved.len() > 0 ==> restored(changed, saved).0 == saved.last(),
        saved.len() > 0 ==> popped(changed, saved).0 == saved.last(),
        restored(changed, pushed(state, saved).1).0 == state,
        popped(changed, pushed(state, saved).1).0 == state,
        saved.len() == 0 ==> restored(changed, saved) == (changed, saved),
        saved.len() == 0 ==> popped(changed, saved) == (changed, saved),
{
}

/// Whatever is done to the current state between a push and the matching
/// pop, the pop brings back the state and the stack from before the push.
pub proof fn law_push_then_pop_restores<S>(state: S, saved: Seq<S>, changed: S)
    ensures
        ({
            let (s1, v1) = pushed(state, saved);
            popped(changed, v1)
        }) == (state, saved),
{
    let (s1, v1) = pushed(state, saved);
    assert(v1.drop_last() =~= saved);
}

/// Restoring keeps the stack, so with a state saved, restoring again after
/// any change gives the same state; and a pop after a restore ends where a
/// pop alone would.
pub proof fn law_restore_keeps_stack<S>(state: S, saved: Seq<S>, changed: S)
    ensures
        restored(state, saved).1 == saved,
        saved.len() > 0 ==> restored(changed, restored(state, saved).1) == restored(state, saved),
        saved.len() > 0 ==> popped(restored(state, saved).0, restored(state, saved).1) == popped(
            state,
            saved,
        ),
{
}

} // verus!
