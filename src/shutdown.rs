use vstd::prelude::*;

use crate::store::{HandleSlot, take_result};

verus! {

/// Exit code the application terminates with after a close request,
/// whatever became of the kill.
pub const EXIT_SUCCESS: i32 = 0;

/// Where the shutdown coordinator stands.
#[derive(Clone, Copy, Debug, PartialEq, Eq, Structural)]
pub enum CoordinatorState {
    Running,
    /// Entered on the first close request; terminal.
    Terminating,
}

/// What the host does on a close request, in order: suppress the default
/// close, kill the child if one is handed over (a failure is only logged),
/// then exit with `exit_code`.
pub struct ClosePlan<T> {
    pub prevent_close: bool,
    pub kill: Option<T>,
    pub exit_code: i32,
}

/// The plan for a close request while the handle slot holds `slot`.
pub open spec fn close_plan<T>(slot: Option<T>) -> ClosePlan<T> {
    ClosePlan { prevent_close: true, kill: slot, exit_code: EXIT_SUCCESS }
}

/// How many kill requests a plan issues.
pub open spec fn kills<T>(p: ClosePlan<T>) -> nat {
    if p.kill is Some {
        1
    } else {
        0
    }
}

/// Turns the host's close request into a plan that cleans up the child
/// before the application exits.
pub struct ShutdownCoordinator {
    state: CoordinatorState,
}

impl ShutdownCoordinator {
    /// The current state.
    pub closed spec fn state_spec(&self) -> CoordinatorState {
        self.state
    }

    /// A coordinator for an application that is running.
    pub fn new() -> (r: Self)
        ensures
            r.state_spec() == CoordinatorState::Running,
    {
        ShutdownCoordinator { state: CoordinatorState::Running }
    }

    /// The current state.
    pub fn state(&self) -> (r: CoordinatorState)
        ensures
            r == self.state_spec(),
    {
        self.state
    }

    /// Handles a close request: takes the handle out of `slot` (the slot is
    /// left empty) and hands it over for killing, with the default close
    /// suppressed and a successful exit to follow.
    pub fn on_close_requested<T>(&mut self, slot: &mut HandleSlot<T>) -> (plan: ClosePlan<T>)
        ensures
            plan == close_plan(old(slot)@),
            final(slot)@ == take_result(old(slot)@).0,
            final(self).state_spec() == CoordinatorState::Terminating,
    {
        self.state = CoordinatorState::Terminating;
        let kill = slot.take();
        ClosePlan { prevent_close: true, kill, exit_code: EXIT_SUCCESS }
    }
}

/// A close request before any handle was stored kills nothing, and still
/// suppresses the default close and exits successfully.
pub proof fn lemma_close_before_put<T>()
    ensures
        close_plan::<T>(None).kill is None,
        kills(close_plan::<T>(None)) == 0,
        close_plan::<T>(None).prevent_close,
        close_plan::<T>(None).exit_code == EXIT_SUCCESS,
{
}

/// A close request after `h` was stored issues exactly one kill, against `h`,
/// and the exit that follows is successful whatever the kill's outcome: the
/// plan is fixed before the kill is attempted.
pub proof fn lemma_close_after_put<T>(h: T)
    ensures
        close_plan(Some(h)).kill == Some(h),
        kills(close_plan(Some(h))) == 1,
        close_plan(Some(h)).prevent_close,
        close_plan(Some(h)).exit_code == EXIT_SUCCESS,
{
}

/// Two close requests in a row: the second kills nothing and leaves the slot
/// empty, so at most one kill is issued in all; both exit successfully.
pub proof fn lemma_close_twice<T>(slot: Option<T>)
    ensures
        ({
            let first = close_plan(slot);
            let after_first = take_result(slot).0;
            let second = close_plan(after_first);
            let after_second = take_result(after_first).0;
            &&& first.kill == slot
            &&& second.kill is None
            &&& after_second is None
            &&& kills(first) + kills(second) == if slot is Some { 1nat } else { 0nat }
            &&& first.exit_code == EXIT_SUCCESS
            &&& second.exit_code == EXIT_SUCCESS
        }),
{
}

} // verus!
