//! The one-shot setup phase of the channel handle.
//!
//! A handle becomes usable only by opening the socket, binding it to the
//! process-local endpoint, and joining the notification group, in that
//! order; each step can fail independently and must be checked.  The driver
//! around the library asks `next_action` what to do, performs the OS call,
//! and reports the outcome through `apply_event`; any failure aborts setup.

use vstd::prelude::*;

verus! {

/// Where the handle stands in its setup.
#[derive(Clone, Copy, Debug, PartialEq, Eq, Structural)]
pub enum SetupState {
    Uninitialized,
    Opened,
    Bound,
    Joined,
}

/// A setup step that succeeded.
#[derive(Clone, Copy, Debug, PartialEq, Eq, Structural)]
pub enum SetupEvent {
    OpenOk,
    BindOk,
    JoinOk,
}

/// The OS call the driver must perform next.
#[derive(Clone, Copy, Debug, PartialEq, Eq, Structural)]
pub enum SetupAction {
    Open,
    Bind,
    Join,
}

/// The action owed in each state; none once the handle is fully joined.
pub open spec fn action_for(s: SetupState) -> Option<SetupAction> {
    match s {
        SetupState::Uninitialized => Some(SetupAction::Open),
        SetupState::Opened => Some(SetupAction::Bind),
        SetupState::Bound => Some(SetupAction::Join),
        SetupState::Joined => None,
    }
}

/// The transition taken when a step succeeds; `None` is an event that the
/// current state does not admit.
pub open spec fn setup_step(s: SetupState, e: SetupEvent) -> Option<SetupState> {
    match (s, e) {
        (SetupState::Uninitialized, SetupEvent::OpenOk) => Some(SetupState::Opened),
        (SetupState::Opened, SetupEvent::BindOk) => Some(SetupState::Bound),
        (SetupState::Bound, SetupEvent::JoinOk) => Some(SetupState::Joined),
        _ => None,
    }
}

/// What to do next in state `s`.
pub fn next_action(s: &SetupState) -> (a: Option<SetupAction>)
    ensures
        a == action_for(*s),
{
    match s {
        SetupState::Uninitialized => Some(SetupAction::Open),
        SetupState::Opened => Some(SetupAction::Bind),
        SetupState::Bound => Some(SetupAction::Join),
        SetupState::Joined => None,
    }
}

/// Records a successful step; `None` means the event is out of order and
/// setup must abort.
pub fn apply_event(s: &SetupState, e: &SetupEvent) -> (n: Option<SetupState>)
    ensures
        n == setup_step(*s, *e),
{
    match (s, e) {
        (SetupState::Uninitialized, SetupEvent::OpenOk) => Some(SetupState::Opened),
        (SetupState::Opened, SetupEvent::BindOk) => Some(SetupState::Bound),
        (SetupState::Bound, SetupEvent::JoinOk) => Some(SetupState::Joined),
        _ => None,
    }
}

/// The state reached by a whole trace of successful steps, starting from an
/// uninitialized handle; `None` as soon as one event was out of order.
pub open spec fn run_setup(trace: Seq<SetupEvent>) -> Option<SetupState>
    decreases trace.len(),
{
    if trace.len() == 0 {
        Some(SetupState::Uninitialized)
    } else {
        match run_setup(trace.drop_last()) {
            Some(s) => setup_step(s, trace.last()),
            None => None,
        }
    }
}

/// The only order in which the three setup steps can succeed.
pub open spec fn setup_order() -> Seq<SetupEvent> {
    seq![SetupEvent::OpenOk, SetupEvent::BindOk, SetupEvent::JoinOk]
}

/// The state reached after `n` in-order steps.
pub open spec fn state_after(n: int) -> SetupState {
    if n <= 0 {
        SetupState::Uninitialized
    } else if n == 1 {
        SetupState::Opened
    } else if n == 2 {
        SetupState::Bound
    } else {
        SetupState::Joined
    }
}

/// Setup ordering: every trace of steps that the state machine admits is a
/// prefix of open, then bind, then join.  In particular the group is never
/// joined before the bind succeeded, and the socket is never bound before
/// the open succeeded.
pub proof fn lemma_setup_ordering(trace: Seq<SetupEvent>)
    requires
        run_setup(trace) is Some,
    ensures
        trace.len() <= 3,
        trace =~= setup_order().take(trace.len() as int),
        run_setup(trace) == Some(state_after(trace.len() as int)),
    decreases trace.len(),
{
    if trace.len() == 0 {
        assert(trace =~= setup_order().take(0));
    } else {
        let prefix = trace.drop_last();
        lemma_setup_ordering(prefix);
        assert(trace =~= setup_order().take(trace.len() as int));
    }
}

} // verus!
