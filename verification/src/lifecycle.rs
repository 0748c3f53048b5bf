use crate::daemon::{ChildProcess, LaunchPlan, LaunchPlanView, PollResult};
use crate::protocol::RequestError;
use vstd::prelude::*;

verus! {

/// What has happened in the course of starting a daemon.
#[derive(Debug)]
pub enum StartEvent<P> {
    /// A client asked for the start.
    Requested,
    /// The daemon's previous process was polled.
    Polled(PollResult),
    /// The daemon's command was spawned, or could not be, for the reason given.
    Spawned(Result<ChildProcess<P>, String>),
}

/// What is to be done next in the course of starting a daemon.
#[derive(Debug)]
pub enum StartAction {
    /// Poll the process that the daemon has.
    Poll,
    /// Spawn a process.
    Spawn(LaunchPlan),
    /// Nothing: this is how the start ended.
    Finish(Result<(), RequestError>),
}

/// A start action with its plan as a view.
#[verifier::ext_equal]
pub enum StartActionView {
    Poll,
    Spawn(LaunchPlanView),
    Finish(Result<(), RequestError>),
}

impl View for StartAction {
    type V = StartActionView;

    open spec fn view(&self) -> StartActionView {
        match self {
            StartAction::Poll => StartActionView::Poll,
            StartAction::Spawn(plan) => StartActionView::Spawn(plan@),
            StartAction::Finish(result) => StartActionView::Finish(*result),
        }
    }
}

/// What has happened in the course of stopping a daemon.
#[derive(Debug)]
pub enum StopEvent {
    /// A client asked for the stop.
    Requested,
    /// The daemon's process was polled.
    Polled(PollResult),
    /// The daemon's process was sent its kill signal.
    Killed,
}

/// What is to be done next in the course of stopping a daemon.
#[derive(Debug)]
pub enum StopAction {
    /// Poll the process that the daemon has.
    Poll,
    /// Send the process that the daemon has its kill signal.
    Kill,
    /// Nothing: this is how the stop ended.
    Finish(Result<(), RequestError>),
}

/// A round in which one message goes out to every subscriber.
#[derive(Debug)]
pub struct Broadcast<M> {
    /// The message.
    pub message: M,
    /// The position of the subscriber whose turn it is.
    pub index: usize,
    /// The positions of the subscribers that the message did not reach.
    pub closed: Vec<usize>,
}

/// What is to be done next in the course of a broadcast.
#[derive(Debug)]
pub enum BroadcastAction<M> {
    /// Send the round's message to the subscriber whose turn it is.
    Send(Broadcast<M>),
    /// Nothing: the round is over.
    Finish,
}

/// A broadcast round with its list as a sequence.
#[verifier::ext_equal]
pub struct BroadcastView<M> {
    pub message: M,
    pub index: int,
    pub closed: Seq<usize>,
}

impl<M> View for Broadcast<M> {
    type V = BroadcastView<M>;

    open spec fn view(&self) -> BroadcastView<M> {
        BroadcastView { message: self.message, index: self.index as int, closed: self.closed@ }
    }
}

/// A broadcast action with its round as a view.
#[verifier::ext_equal]
pub enum BroadcastActionView<M> {
    Send(BroadcastView<M>),
    Finish,
}

impl<M> View for BroadcastAction<M> {
    type V = BroadcastActionView<M>;

    open spec fn view(&self) -> BroadcastActionView<M> {
        match self {
            BroadcastAction::Send(round) => BroadcastActionView::Send(round@),
            BroadcastAction::Finish => BroadcastActionView::Finish,
        }
    }
}

impl<M> BroadcastView<M> {
    /// The round after the subscriber whose turn it was has been served.
    pub open spec fn served(self, delivered: bool) -> Self {
        BroadcastView {
            message: self.message,
            index: self.index + 1,
            closed: if delivered {
                self.closed
            } else {
                self.closed.push(self.index as usize)
            },
        }
    }
}

} // verus!
