//! The run-state machine that governs the capture loop.
//!
//! A single process-wide `Status` value, guarded by the caller, moves
//! through Init, Running, Pause and Stop.  The capture loop blocks while
//! the state asks for no work and no shutdown; `Stop` is terminal.  The
//! transitions themselves are pure and live here; the guard and the
//! wait/notify primitive around them belong to the embedding process.

use vstd::prelude::*;

verus! {

/// The sniffing process's control state.
#[derive(Clone, Copy, Debug, PartialEq, Eq, Structural)]
pub enum Status {
    /// The process has just been launched or restarted.
    Init,
    /// The capture loop parses packets and the report is periodically updated.
    Running,
    /// The capture loop is paused by the user, waiting to be resumed.
    Pause,
    /// The capture loop is killed, permanently.
    Stop,
}

/// The state after the user starts or resumes the capture: Init and Pause
/// move to Running; Running stays Running; Stop is terminal and unmoved.
pub open spec fn start_transition_spec(status: Status) -> Status {
    match status {
        Status::Init => Status::Running,
        Status::Pause => Status::Running,
        Status::Running => Status::Running,
        Status::Stop => Status::Stop,
    }
}

/// The state after the user pauses the capture: only Running moves to
/// Pause; every other state is unmoved.
pub open spec fn pause_transition_spec(status: Status) -> Status {
    match status {
        Status::Running => Status::Pause,
        _ => status,
    }
}

/// The state after a shutdown: Stop, from every state.
pub open spec fn stop_transition_spec(status: Status) -> Status {
    Status::Stop
}

/// Whether the capture loop may work in this state.  Its one blocking
/// point waits until this holds or the state is Stop.
pub open spec fn is_runnable_spec(status: Status) -> bool {
    status == Status::Running
}

/// Whether the capture loop's wait is over: there is work, or there never
/// again will be.
pub open spec fn wait_is_over_spec(status: Status) -> bool {
    status == Status::Running || status == Status::Stop
}

pub fn start_transition(status: Status) -> (next: Status)
    ensures
        next == start_transition_spec(status),
{
    match status {
        Status::Init => Status::Running,
        Status::Pause => Status::Running,
        Status::Running => Status::Running,
        Status::Stop => Status::Stop,
    }
}

pub fn pause_transition(status: Status) -> (next: Status)
    ensures
        next == pause_transition_spec(status),
{
    match status {
        Status::Running => Status::Pause,
        Status::Init => Status::Init,
        Status::Pause => Status::Pause,
        Status::Stop => Status::Stop,
    }
}

pub fn stop_transition(status: Status) -> (next: Status)
    ensures
        next == stop_transition_spec(status),
        next == Status::Stop,
{
    Status::Stop
}

pub fn is_runnable(status: Status) -> (r: bool)
    ensures
        r == is_runnable_spec(status),
{
    status == Status::Running
}

pub fn wait_is_over(status: Status) -> (r: bool)
    ensures
        r == wait_is_over_spec(status),
{
    status == Status::Running || status == Status::Stop
}

/// Stopping is unconditional and irreversible: from every state, a stop
/// lands in Stop, and no later transition of the machine leaves Stop.
/// In particular the capture loop's wait predicate holds of Stop forever,
/// so a stopped loop's blocking wait never blocks again.
pub proof fn lemma_stop_is_terminal(status: Status)
    ensures
        stop_transition_spec(status) == Status::Stop,
        start_transition_spec(Status::Stop) == Status::Stop,
        pause_transition_spec(Status::Stop) == Status::Stop,
        stop_transition_spec(Status::Stop) == Status::Stop,
        wait_is_over_spec(Status::Stop),
{
}

/// Starting an already running capture is a no-op: the state is unchanged.
pub proof fn lemma_start_while_running_is_noop()
    ensures
        start_transition_spec(Status::Running) == Status::Running,
{
}

} // verus!
