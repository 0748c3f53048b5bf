use crate::config::{Config, DaemonConfig, GlobalConfig};
use crate::daemon::{death, plan_for, status_at, ChildProcess, Daemon, DaemonState, PollResult};
use crate::lifecycle::{
    BroadcastActionView, BroadcastView, StartActionView, StartEvent, StopAction, StopEvent,
};
use crate::protocol::{DaemonDeathInfo, DaemonStatus, EventView, RequestError};
use vstd::prelude::*;

verus! {

/// The supervisor's state: the global configuration, the daemons under their
/// names, the order in which they are listed, and the subscribers of the event
/// stream in the order in which they came.
#[verifier::ext_equal]
pub struct ContextModel<P, S> {
    pub global_config: GlobalConfig,
    pub names: Seq<Seq<char>>,
    pub daemons: Map<Seq<char>, Daemon<P>>,
    pub subscribers: Seq<S>,
}

/// Whether two daemons differ in nothing but the handle to a process.
pub open spec fn same_daemon<P>(one: Daemon<P>, other: Daemon<P>) -> bool {
    &&& one.config == other.config
    &&& match (one.state, other.state) {
        (DaemonState::Running { child: first }, DaemonState::Running { child: second }) => {
            first.pid == second.pid && first.start_time == second.start_time
        },
        (first, second) => first == second,
    }
}

/// The subscribers that are left when those at the positions in `closed` go.
pub open spec fn without_closed<S>(subscribers: Seq<S>, closed: Seq<usize>) -> Seq<S>
    decreases subscribers.len(),
{
    if subscribers.len() == 0 {
        Seq::empty()
    } else {
        let rest = without_closed(subscribers.drop_last(), closed);
        if closed.contains((subscribers.len() - 1) as usize) {
            rest
        } else {
            rest.push(subscribers.last())
        }
    }
}

impl<P, S> ContextModel<P, S> {
    /// Every daemon is listed, exactly once.
    pub open spec fn valid(self) -> bool {
        &&& self.names.no_duplicates()
        &&& self.names.to_set() == self.daemons.dom()
    }

    /// The supervisor before anything has happened.
    pub open spec fn initial(config: Config) -> Self {
        ContextModel {
            global_config: config.global,
            names: config.programs.names(),
            daemons: config.programs@.map_values(
                |program: DaemonConfig| Daemon { config: program, state: DaemonState::NotStarted },
            ),
            subscribers: Seq::empty(),
        }
    }

    /// The daemon `name` in another state, everything else as it is.
    pub open spec fn with_daemon_state(self, name: Seq<char>, state: DaemonState<P>) -> Self {
        ContextModel {
            daemons: self.daemons.insert(name, self.daemons[name].with_state(state)),
            ..self
        }
    }

    /// Whether `name` is a daemon that is running.
    pub open spec fn is_running(self, name: Seq<char>) -> bool {
        self.daemons.contains_key(name) && self.daemons[name].state is Running
    }

    /// The process of the daemon `name`, which is running.
    pub open spec fn child(self, name: Seq<char>) -> ChildProcess<P>
        recommends
            self.is_running(name),
    {
        self.daemons[name].state->child
    }

    /// The daemon `name`, which is running, with another handle to its process.
    pub open spec fn with_process(self, name: Seq<char>, process: P) -> Self {
        self.with_daemon_state(
            name,
            DaemonState::Running { child: ChildProcess { process, ..self.child(name) } },
        )
    }

    /// The state after the handle to the process of `name`, if it has one, was
    /// used and is now `process`.
    pub open spec fn after_use(self, name: Seq<char>, process: P) -> Self {
        if self.is_running(name) {
            self.with_process(name, process)
        } else {
            self
        }
    }

    /// Whether two states differ in nothing but the handles to processes.
    pub open spec fn same_but_handles(self, other: Self) -> bool {
        &&& self.global_config == other.global_config
        &&& self.names == other.names
        &&& self.subscribers == other.subscribers
        &&& self.daemons.dom() == other.daemons.dom()
        &&& forall|name: Seq<char>| #[trigger]
            self.daemons.contains_key(name) ==> same_daemon(self.daemons[name], other.daemons[name])
    }

    /// The subscriber at position `index` with another channel.
    pub open spec fn with_channel(self, index: int, sender: S) -> Self {
        ContextModel { subscribers: self.subscribers.update(index, sender), ..self }
    }

    /// What is to be done after `event` in the course of starting `name`.
    pub open spec fn start_action(self, name: Seq<char>, event: StartEvent<P>) -> StartActionView {
        if !self.daemons.contains_key(name) {
            StartActionView::Finish(Err(RequestError::UnknownDaemonName))
        } else {
            match event {
                StartEvent::Requested => if self.is_running(name) {
                    StartActionView::Poll
                } else {
                    StartActionView::Spawn(plan_for(self.daemons[name].config))
                },
                StartEvent::Polled(PollResult::StillRunning) => StartActionView::Finish(
                    Err(RequestError::DaemonAlreadyStarted),
                ),
                StartEvent::Polled(_) => StartActionView::Spawn(
                    plan_for(self.daemons[name].config),
                ),
                StartEvent::Spawned(Ok(_)) => StartActionView::Finish(Ok(())),
                StartEvent::Spawned(Err(reason)) => StartActionView::Finish(
                    Err(RequestError::FailedToStartDaemon(reason)),
                ),
            }
        }
    }

    /// The state after `event` in the course of starting `name`: only a process
    /// that was spawned for a known daemon changes anything.
    pub open spec fn after_start(self, name: Seq<char>, event: StartEvent<P>) -> Self {
        match event {
            StartEvent::Spawned(Ok(child)) => if self.daemons.contains_key(name) {
                self.with_daemon_state(name, DaemonState::Running { child })
            } else {
                self
            },
            _ => self,
        }
    }

    /// What is to be done after `event` in the course of stopping `name`.
    pub open spec fn stop_action(self, name: Seq<char>, event: StopEvent) -> StopAction {
        match event {
            StopEvent::Requested => if !self.daemons.contains_key(name) {
                StopAction::Finish(Err(RequestError::UnknownDaemonName))
            } else if !self.is_running(name) {
                StopAction::Finish(Err(RequestError::DaemonAlreadyStopped))
            } else {
                StopAction::Poll
            },
            StopEvent::Polled(PollResult::Exited { .. }) => StopAction::Finish(
                Err(RequestError::DaemonAlreadyStopped),
            ),
            StopEvent::Polled(_) => StopAction::Kill,
            StopEvent::Killed => StopAction::Finish(Ok(())),
        }
    }

    /// The status report at time `now`.
    pub open spec fn status(self, now: u64) -> Map<Seq<char>, DaemonStatus> {
        self.daemons.map_values(|daemon: Daemon<P>| status_at(daemon.state, now))
    }

    /// The names of the running daemons, in the order of the list.
    pub open spec fn running(self) -> Seq<Seq<char>> {
        self.names.filter(|name: Seq<char>| self.is_running(name))
    }

    /// The death that the answers of the polled processes tell of `name`.
    pub open spec fn death_of(
        self,
        polls: Map<Seq<char>, PollResult>,
        name: Seq<char>,
    ) -> Option<DaemonDeathInfo> {
        if self.daemons.contains_key(name) && polls.contains_key(name) {
            death(self.daemons[name], polls[name])
        } else {
            None
        }
    }

    /// The state in which every daemon that died has exited.
    pub open spec fn after_reap(self, polls: Map<Seq<char>, PollResult>) -> Self {
        ContextModel {
            daemons: Map::new(
                |name: Seq<char>| self.daemons.contains_key(name),
                |name: Seq<char>|
                    match self.death_of(polls, name) {
                        Some(info) => self.daemons[name].with_state(DaemonState::Exited { info }),
                        None => self.daemons[name],
                    },
            ),
            ..self
        }
    }

    /// The events that tell of the deaths, in the order of the list.
    pub open spec fn reap_events(self, polls: Map<Seq<char>, PollResult>) -> Seq<EventView> {
        self.names.filter(|name: Seq<char>| self.death_of(polls, name) is Some).map_values(
            |name: Seq<char>|
                EventView::DaemonStopped { name, info: self.death_of(polls, name)->0 },
        )
    }

    /// The state with one subscriber more.
    pub open spec fn with_subscriber(self, sender: S) -> Self {
        ContextModel { subscribers: self.subscribers.push(sender), ..self }
    }

    /// What is to be done in a broadcast that stands at `round`.
    pub open spec fn broadcast_action<M>(self, round: BroadcastView<M>) -> BroadcastActionView<M> {
        if round.index < self.subscribers.len() {
            BroadcastActionView::Send(round)
        } else {
            BroadcastActionView::Finish
        }
    }

    /// The state in a broadcast that stands at `round`: when all have been served,
    /// the subscribers that the message did not reach go.
    pub open spec fn after_broadcast<M>(self, round: BroadcastView<M>) -> Self {
        if round.index < self.subscribers.len() {
            self
        } else {
            ContextModel { subscribers: without_closed(self.subscribers, round.closed), ..self }
        }
    }
}

} // verus!
