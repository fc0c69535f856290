//! The single-instance guard: a second launch signals the first one.

use vstd::prelude::*;

use std::sync::mpsc::Receiver;

verus! {

/// `std::sync::mpsc::Receiver`, carried through as an opaque value.
#[verifier::external_type_specification]
#[verifier::external_body]
#[verifier::reject_recursive_types(T)]
pub struct ExReceiver<T>(Receiver<T>);

/// The running instance's side of the guard: a signal arrives on
/// `signal_rx` each time another launch connects to the socket at
/// `socket_path`.
pub struct SingletonState {
    pub signal_rx: Receiver<()>,
    pub socket_path: Vec<u8>,
}

/// What a launch does with the guard's socket.
#[derive(Clone, Copy, Debug, PartialEq, Eq, Structural)]
pub enum SingletonStep {
    /// Another instance answered: signal it and leave.
    DeferToRunning,
    /// Remove the stale socket file, then listen on the socket.
    ReplaceStaleSocket,
    /// Listen on the socket.
    Listen,
}

/// The step a launch takes: when connecting to the socket succeeded another
/// instance runs; otherwise a socket file left behind is removed first.
pub fn singleton_step(connected: bool, socket_file_exists: bool) -> (r: SingletonStep)
    ensures
        connected ==> r == SingletonStep::DeferToRunning,
        !connected && socket_file_exists ==> r == SingletonStep::ReplaceStaleSocket,
        !connected && !socket_file_exists ==> r == SingletonStep::Listen,
{
    if connected {
        SingletonStep::DeferToRunning
    } else if socket_file_exists {
        SingletonStep::ReplaceStaleSocket
    } else {
        SingletonStep::Listen
    }
}

} // verus!
