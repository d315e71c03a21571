//! The event router: a two-state machine that decides, once per incoming
//! event notification, whether the frame loop keeps running or terminates.
//!
//! `Running -> Terminating` fires on a window close request or on the Escape
//! key going down; every other event leaves the state as it is, and
//! `Terminating` is terminal. The decision handed back to the host loop is
//! `Terminate` exactly in the `Terminating` state.

use vstd::prelude::*;

verus! {

/// The virtual key codes the scene cares to distinguish. Only `Escape` is
/// acted upon; the rest stand for any other key the window system reports.
#[derive(Clone, Copy, PartialEq, Eq, Structural, Debug)]
pub enum VirtualKey {
    Escape,
    Space,
    Return,
    Tab,
    Left,
    Right,
    Up,
    Down,
}

/// A window event, already decoded by the windowing layer into the few
/// shapes the router inspects.
#[derive(Clone, Copy, PartialEq, Eq, Structural, Debug)]
pub enum WindowEvent {
    /// The user asked the window to close.
    CloseRequested,
    /// A key went down.
    KeyDown(VirtualKey),
    /// A key went up.
    KeyUp(VirtualKey),
    /// Any other window event (resize, focus change, ...).
    Other,
}

/// An event notification as the host state machine receives it: window
/// events carry a payload; UI and input-device notifications are opaque
/// here, since the router never inspects them.
#[derive(Clone, Copy, PartialEq, Eq, Structural, Debug)]
pub enum StateEvent {
    Window(WindowEvent),
    Ui,
    Input,
}

/// The router's state: `Terminating` is terminal.
#[derive(Clone, Copy, PartialEq, Eq, Structural, Debug)]
pub enum RouterState {
    Running,
    Terminating,
}

/// What the host loop is told to do after an event: keep going, or stop the
/// loop and shut down.
#[derive(Clone, Copy, PartialEq, Eq, Structural, Debug)]
pub enum Decision {
    Continue,
    Terminate,
}

/// An event asks for termination exactly when it is a window close request
/// or the Escape key going down.
pub open spec fn quit_event(event: StateEvent) -> bool {
    ||| event == StateEvent::Window(WindowEvent::CloseRequested)
    ||| event == StateEvent::Window(WindowEvent::KeyDown(VirtualKey::Escape))
}

/// The state after one event: `Terminating` absorbs everything, and from
/// `Running` only a quit event moves the machine.
pub open spec fn next_state(state: RouterState, event: StateEvent) -> RouterState {
    if state is Terminating || quit_event(event) {
        RouterState::Terminating
    } else {
        RouterState::Running
    }
}

/// The decision owed to the host loop in a given state.
pub open spec fn decision_of(state: RouterState) -> Decision {
    if state is Terminating {
        Decision::Terminate
    } else {
        Decision::Continue
    }
}

/// Route one event notification: the new state, and the decision for the
/// host loop. Close requests and Escape key-downs terminate; every other
/// event continues, unless the machine already terminated.
pub fn route(state: RouterState, event: &StateEvent) -> (r: (RouterState, Decision))
    ensures
        r.0 == next_state(state, *event),
        r.1 == decision_of(r.0),
        r.1 is Terminate <==> (state is Terminating || quit_event(*event)),
{
    let next = match (state, event) {
        (RouterState::Terminating, _) => RouterState::Terminating,
        (_, StateEvent::Window(WindowEvent::CloseRequested)) => RouterState::Terminating,
        (_, StateEvent::Window(WindowEvent::KeyDown(VirtualKey::Escape))) => RouterState::Terminating,
        _ => RouterState::Running,
    };
    let decision = match next {
        RouterState::Terminating => Decision::Terminate,
        RouterState::Running => Decision::Continue,
    };
    (next, decision)
}

/// `Terminating` is a terminal state: whatever event arrives next, the
/// router stays in `Terminating`, so the terminate decision is idempotent.
pub proof fn lemma_terminating_is_terminal(event: StateEvent)
    ensures
        next_state(RouterState::Terminating, event) is Terminating,
        decision_of(next_state(RouterState::Terminating, event)) is Terminate,
{
}

} // verus!
