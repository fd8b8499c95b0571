//! A shared handle to a platform window.

use std::sync::Arc;
use vstd::prelude::*;

verus! {

/// `std::sync::Arc::clone`: a new handle to the same window, so the value
/// behind it is the same.
#[verifier::external_body]
fn arc_clone<W>(a: &Arc<W>) -> (r: Arc<W>)
    ensures
        r == *a,
{
    Arc::clone(a)
}

/// Holds a shared handle to a window of type `W`.
pub struct WinitWindowProxy<W> {
    window: Arc<W>,
}

impl<W> WinitWindowProxy<W> {
    /// The window handle held.
    pub closed spec fn window_spec(&self) -> Arc<W> {
        self.window
    }

    pub fn new(window: Arc<W>) -> (p: Self)
        ensures
            p.window_spec() == window,
    {
        Self { window }
    }

    /// The window handle held.
    pub fn window(&self) -> (w: &Arc<W>)
        ensures
            *w == self.window_spec(),
    {
        &self.window
    }

    /// Another handle to the same window.
    pub fn clone_window(&self) -> (w: Arc<W>)
        ensures
            w == self.window_spec(),
    {
        arc_clone(&self.window)
    }
}

} // verus!
