use vstd::prelude::*;

verus! {

/// What the supervisor tells its subscribers on a user signal.
pub const USER_SIGNAL_MESSAGE: &'static str = "Florp\n";

/// A signal that the supervisor listens for.
#[derive(Debug, Clone, Copy)]
pub enum Signal {
    /// The first user-defined signal.
    User,
    /// A child process has changed its state.
    Child,
    /// The supervisor is asked to end.
    Terminate,
}

/// What a signal leads to.
#[derive(Debug, Clone, Copy)]
pub enum SignalAction {
    /// Broadcast a message to the subscribers.
    Broadcast { message: &'static str },
    /// Reap the children that have died.
    Reap,
    /// End.
    Shutdown,
}

/// What a signal leads to.
pub open spec fn signal_action(signal: Signal) -> SignalAction {
    match signal {
        Signal::User => SignalAction::Broadcast { message: USER_SIGNAL_MESSAGE },
        Signal::Child => SignalAction::Reap,
        Signal::Terminate => SignalAction::Shutdown,
    }
}

/// Decides what a signal leads to.
pub fn handle_signal(signal: Signal) -> (action: SignalAction)
    ensures
        action == signal_action(signal),
{
    match signal {
        Signal::User => SignalAction::Broadcast { message: USER_SIGNAL_MESSAGE },
        Signal::Child => SignalAction::Reap,
        Signal::Terminate => SignalAction::Shutdown,
    }
}

} // verus!
