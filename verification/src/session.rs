//! Decisions of the bridge session's control activity and of the session
//! supervisor. The surrounding event loop performs the I/O these decisions
//! call for: sending the mute-toggle frame, sleeping one tick, reconnecting.

use vstd::prelude::*;

verus! {

/// The outbound frame that asks the collaboration client to toggle mute.
pub const TOGGLE_MUTE_MESSAGE: &'static str = r#"{"requestId":1,"apiVersion":"2.0.0","service":"toggle-mute","action":"toggle-mute"}"#;

/// What the control activity does on one tick.
#[derive(Clone, Copy, PartialEq, Eq, Structural, Debug)]
pub enum ControlAction {
    /// Shutdown was requested: end the activity, and with it the session.
    Exit,
    /// Send the fixed mute-toggle command frame.
    SendToggleMute,
    /// Nothing to do this tick.
    Idle,
}

/// The action of one control tick, and the value the mute-toggle request
/// flag holds afterwards: the flag is a one-shot latch, cleared as soon as
/// the send is decided.
pub open spec fn control_tick_spec(is_running: bool, toggle_mute_requested: bool) -> (
    ControlAction,
    bool,
) {
    if !is_running {
        (ControlAction::Exit, toggle_mute_requested)
    } else if toggle_mute_requested {
        (ControlAction::SendToggleMute, false)
    } else {
        (ControlAction::Idle, false)
    }
}

/// One tick of the control activity: exit when shutdown was requested,
/// otherwise send one mute-toggle command if one is pending.
pub fn control_tick(is_running: bool, toggle_mute_requested: bool) -> (r: (ControlAction, bool))
    ensures
        r == control_tick_spec(is_running, toggle_mute_requested),
{
    if !is_running {
        (ControlAction::Exit, toggle_mute_requested)
    } else if toggle_mute_requested {
        (ControlAction::SendToggleMute, false)
    } else {
        (ControlAction::Idle, false)
    }
}

/// Law: the mute-toggle request is a one-shot latch. A tick that decides to
/// send clears the flag, and the next tick without a new request sends
/// nothing.
pub proof fn lemma_toggle_request_is_one_shot()
    ensures
        control_tick_spec(true, true) == (ControlAction::SendToggleMute, false),
        control_tick_spec(true, false).0 == ControlAction::Idle,
{
}

/// The fixed mute-toggle command frame sent over the socket.
pub fn toggle_mute_command() -> (r: String)
    ensures
        r@ == TOGGLE_MUTE_MESSAGE@,
{
    String::from_str(TOGGLE_MUTE_MESSAGE)
}

/// What the supervisor does once a session has ended (or before the first
/// one): run another session, or stop the process.
#[derive(Clone, Copy, PartialEq, Eq, Structural, Debug)]
pub enum SupervisorStep {
    /// Load configuration afresh, build a new session with a fresh snapshot,
    /// and run it to completion.
    RunSession,
    /// Shutdown was requested: start no further session.
    Stop,
}

/// The supervisor's decision: it restarts a session exactly while the
/// process is still marked running; every session end, clean or not, is
/// treated identically.
pub fn supervisor_step(is_running: bool) -> (r: SupervisorStep)
    ensures
        (r == SupervisorStep::RunSession) <==> is_running,
{
    if is_running {
        SupervisorStep::RunSession
    } else {
        SupervisorStep::Stop
    }
}

} // verus!
