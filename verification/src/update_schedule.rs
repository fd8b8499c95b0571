//! When a scene host asks the platform for a redraw.
//!
//! Update requests are merged: the first request after an update asks the
//! platform for one redraw, and later requests only note that an update is
//! pending. The redraw runs the update when one is pending on the host or
//! in the update manager, and asks for another redraw when the update
//! manager still has work afterwards.

use vstd::prelude::*;

verus! {

/// A request was made: afterwards an update is pending, and the platform
/// was asked for a redraw exactly when none was pending before.
pub open spec fn requested(queued0: bool, ask_redraw: bool, queued1: bool) -> bool {
    queued1 && ask_redraw == !queued0
}

/// Whether an update is pending on a scene host.
#[derive(Debug)]
pub struct UpdateSchedule {
    update_queued: bool,
}

impl UpdateSchedule {
    pub closed spec fn queued_spec(&self) -> bool {
        self.update_queued
    }

    /// Nothing is pending.
    pub fn new() -> (s: Self)
        ensures
            !s.queued_spec(),
    {
        UpdateSchedule { update_queued: false }
    }

    /// Notes that an update is wanted; returns whether the platform must be
    /// asked for a redraw, which is only when none was pending.
    pub fn request_update(&mut self) -> (ask_redraw: bool)
        ensures
            requested(old(self).queued_spec(), ask_redraw, final(self).queued_spec()),
    {
        let was_queued = self.update_queued;
        self.update_queued = true;
        !was_queued
    }

    /// Whether an update is pending.
    pub fn is_update_queued(&self) -> (b: bool)
        ensures
            b == self.queued_spec(),
    {
        self.update_queued
    }

    /// Whether a redraw has an update to perform, given whether the update
    /// manager has one queued.
    pub fn should_run_update(&self, manager_queued: bool) -> (run: bool)
        ensures
            run == (self.queued_spec() || manager_queued),
    {
        self.update_queued || manager_queued
    }

    /// Records the end of an update, given whether the update manager still
    /// has one queued; returns whether to ask for another redraw.
    pub fn finish_update(&mut self, still_queued: bool) -> (ask_redraw: bool)
        ensures
            final(self).queued_spec() == still_queued,
            ask_redraw == still_queued,
    {
        self.update_queued = still_queued;
        still_queued
    }
}

/// After dispatching input, an update is scheduled only when the update
/// manager went from idle to queued.
pub fn should_schedule_update(was_queued: bool, now_queued: bool) -> (schedule: bool)
    ensures
        schedule == (!was_queued && now_queued),
{
    !was_queued && now_queued
}

/// Any number of requests between two updates ask the platform for exactly
/// one redraw: once a request is pending, further requests ask for none.
pub proof fn law_requests_are_merged(queued0: bool, ask1: bool, queued1: bool, ask2: bool, queued2: bool)
    requires
        requested(queued0, ask1, queued1),
        requested(queued1, ask2, queued2),
    ensures
        !ask2,
        queued2,
{
}

} // verus!
