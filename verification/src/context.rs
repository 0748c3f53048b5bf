use crate::config::{Config, GlobalConfig};
use crate::daemon::{status_at, Daemon, DaemonState, PollResult};
use crate::lifecycle::{
    Broadcast, BroadcastAction, BroadcastView, StartAction, StartEvent, StopAction, StopEvent,
};
use crate::model::{without_closed, ContextModel};
use crate::name_table::NameTable;
use crate::protocol::{DaemonStatus, Event, EventView, RequestError, UbervisorStatus};
use vstd::prelude::*;

verus! {

/// The supervisor: the daemons, and those who subscribed to the event stream.
/// `P` is the handle to a process and `S` the channel to a subscriber.
#[derive(Debug)]
pub struct UberContext<P, S> {
    global_config: GlobalConfig,
    event_subscribers: Vec<S>,
    daemons: NameTable<Daemon<P>>,
}

impl<P, S> View for UberContext<P, S> {
    type V = ContextModel<P, S>;

    closed spec fn view(&self) -> ContextModel<P, S> {
        ContextModel {
            global_config: self.global_config,
            names: self.daemons.names(),
            daemons: self.daemons@,
            subscribers: self.event_subscribers@,
        }
    }
}

impl<P, S> UberContext<P, S> {
    /// Every daemon is listed, exactly once.
    pub open spec fn well_formed(&self) -> bool {
        self@.valid()
    }

    proof fn lemma_table(&self)
        ensures
            self.well_formed() <==> self.daemons.well_formed(),
            forall|name: Seq<char>|
                #![trigger self@.names.contains(name)]
                #![trigger self@.daemons.contains_key(name)]
                self@.names.contains(name) <==> self@.daemons.contains_key(name),
    {
        self.daemons.lemma_names();
    }

    /// The supervisor of the daemons that `config` names, none of them started
    /// and nobody subscribed.
    pub fn new(config: Config) -> (context: Self)
        requires
            config.well_formed(),
        ensures
            context.well_formed(),
            context@ == ContextModel::<P, S>::initial(config),
    {
        let Config { global, programs } = config;
        let ghost all = programs;
        let mut daemons: NameTable<Daemon<P>> = NameTable::new();
        let entries = programs.into_entries();
        for entry in iter: entries.into_iter()
            invariant
                all.well_formed(),
                entries@.len() == all.names().len(),
                forall|i: int|
                    #![trigger entries@[i]]
                    0 <= i < entries@.len() ==> entries@[i].0@ == all.names()[i]
                        && all@.contains_key(entries@[i].0@) && entries@[i].1
                        == all@[entries@[i].0@],
                iter.seq() == entries@,
                daemons.well_formed(),
                daemons.names() == all.names().take(iter.index()),
                forall|name: Seq<char>|
                    #[trigger] daemons@.contains_key(name) ==> daemons@[name] == (Daemon::<P> {
                        config: all@[name],
                        state: DaemonState::NotStarted,
                    }),
        {
            let (name, program) = entry;
            proof {
                daemons.lemma_names();
                assert(all.names().take(iter.index() + 1) =~= all.names().take(
                    iter.index(),
                ).push(name@));
                assert(!daemons.names().contains(name@));
            }
            daemons.insert(name, Daemon::from(program));
        }
        let context = UberContext { global_config: global, event_subscribers: Vec::new(), daemons };
        proof {
            assert(all.names().take(all.names().len() as int) =~= all.names());
            all.lemma_names();
            daemons.lemma_names();
            assert(context@.daemons =~= ContextModel::<P, S>::initial(config).daemons);
            assert(context@.subscribers =~= Seq::<S>::empty());
        }
        context
    }

    /// A reference through which the daemon `daemon_name` can be changed.
    fn get_daemon_mut(&mut self, daemon_name: &str) -> (daemon: Result<
        &mut Daemon<P>,
        RequestError,
    >)
        requires
            old(self).well_formed(),
        ensures
            final(self).well_formed(),
            match daemon {
                Ok(slot) => {
                    &&& old(self)@.daemons.contains_key(daemon_name@)
                    &&& *slot == old(self)@.daemons[daemon_name@]
                    &&& final(self)@ == (ContextModel {
                        daemons: old(self)@.daemons.insert(daemon_name@, *final(slot)),
                        ..old(self)@
                    })
                },
                Err(error) => {
                    &&& error == RequestError::UnknownDaemonName
                    &&& !old(self)@.daemons.contains_key(daemon_name@)
                    &&& final(self)@ == old(self)@
                },
            },
    {
        proof {
            self.lemma_table();
        }
        let slot = self.daemons.get_mut(daemon_name);
        proof {
            let after = *after_borrow(self);
            after.lemma_table();
        }
        match slot {
            Some(daemon) => Ok(daemon),
            None => Err(RequestError::UnknownDaemonName),
        }
    }

    /// The handle to the process of the daemon `daemon_name`, if that daemon is
    /// known and running.
    pub fn child_process_mut(&mut self, daemon_name: &str) -> (process: Option<&mut P>)
        requires
            old(self).well_formed(),
        ensures
            final(self).well_formed(),
            match process {
                Some(handle) => {
                    &&& old(self)@.is_running(daemon_name@)
                    &&& *handle == old(self)@.child(daemon_name@).process
                    &&& final(self)@ == old(self)@.with_process(daemon_name@, *final(handle))
                },
                None => !old(self)@.is_running(daemon_name@) && final(self)@ == old(self)@,
            },
    {
        match self.get_daemon_mut(daemon_name) {
            Ok(daemon) => daemon.get_child_process_mut(),
            Err(_) => None,
        }
    }

    /// Adds a subscriber to the event stream.
    pub fn add_sender(&mut self, sender: S)
        ensures
            final(self)@ == old(self)@.with_subscriber(sender),
    {
        self.event_subscribers.push(sender);
    }

    /// The channel to the subscriber at position `index`.
    pub fn subscriber_mut(&mut self, index: usize) -> (sender: Option<&mut S>)
        ensures
            match sender {
                Some(slot) => {
                    &&& index < old(self)@.subscribers.len()
                    &&& *slot == old(self)@.subscribers[index as int]
                    &&& final(self)@ == old(self)@.with_channel(index as int, *final(slot))
                },
                None => index >= old(self)@.subscribers.len() && final(self)@ == old(self)@,
            },
    {
        if index < self.event_subscribers.len() {
            Some(&mut self.event_subscribers[index])
        } else {
            None
        }
    }

    /// Decides, after `event`, what is to be done next in the course of starting
    /// the daemon `process_name`, and takes note of a process that was spawned.
    pub fn start_process(&mut self, process_name: &str, event: StartEvent<P>) -> (action:
        StartAction)
        requires
            old(self).well_formed(),
        ensures
            final(self).well_formed(),
            final(self)@ == old(self)@.after_start(process_name@, event),
            action@ == old(self)@.start_action(process_name@, event),
            event matches StartEvent::Polled(answer) ==> {
                &&& !(action is Poll)
                &&& old(self)@.daemons.contains_key(process_name@) ==> (action is Spawn <==> !(
                answer is StillRunning))
            },
            action matches StartAction::Spawn(plan) ==> {
                &&& old(self)@.daemons.contains_key(process_name@)
                &&& plan.args@.last()@ == old(self)@.daemons[process_name@].config.command@
            },
    {
        let program = match self.get_daemon_mut(process_name) {
            Ok(program) => program,
            Err(error) => {
                return StartAction::Finish(Err(error));
            },
        };
        match event {
            StartEvent::Requested => {
                if let DaemonState::Running { .. } = &program.state {
                    StartAction::Poll
                } else {
                    StartAction::Spawn(program.config.launch_plan())
                }
            },
            StartEvent::Polled(PollResult::StillRunning) => StartAction::Finish(
                Err(RequestError::DaemonAlreadyStarted),
            ),
            StartEvent::Polled(_) => StartAction::Spawn(program.config.launch_plan()),
            StartEvent::Spawned(Ok(child)) => {
                program.state = DaemonState::Running { child };
                StartAction::Finish(Ok(()))
            },
            StartEvent::Spawned(Err(reason)) => StartAction::Finish(
                Err(RequestError::FailedToStartDaemon(reason)),
            ),
        }
    }

    /// Decides, after `event`, what is to be done next in the course of stopping
    /// the daemon `process_name`. A daemon that was sent its kill signal counts as
    /// running until it is reaped.
    pub fn stop_process(&self, process_name: &str, event: StopEvent) -> (action: StopAction)
        requires
            self.well_formed(),
        ensures
            action == self@.stop_action(process_name@, event),
            event matches StopEvent::Polled(answer) ==> {
                &&& !(action is Poll)
                &&& action is Kill <==> !(answer is Exited)
            },
    {
        proof {
            self.lemma_table();
        }
        match event {
            StopEvent::Requested => match self.daemons.get(process_name) {
                None => StopAction::Finish(Err(RequestError::UnknownDaemonName)),
                Some(program) => match &program.state {
                    DaemonState::Running { .. } => StopAction::Poll,
                    _ => StopAction::Finish(Err(RequestError::DaemonAlreadyStopped)),
                },
            },
            StopEvent::Polled(PollResult::Exited { .. }) => StopAction::Finish(
                Err(RequestError::DaemonAlreadyStopped),
            ),
            StopEvent::Polled(_) => StopAction::Kill,
            StopEvent::Killed => StopAction::Finish(Ok(())),
        }
    }

    /// The status of every daemon at time `now`.
    pub fn get_status(&self, now: u64) -> (status: UbervisorStatus)
        requires
            self.well_formed(),
        ensures
            status.daemons.well_formed(),
            status.daemons.names() == self@.names,
            status@ == self@.status(now),
    {
        proof {
            self.lemma_table();
        }
        let mut daemons: NameTable<DaemonStatus> = NameTable::new();
        let mut i: usize = 0;
        while i < self.daemons.len()
            invariant
                self.well_formed(),
                self.daemons.well_formed(),
                i <= self@.names.len(),
                daemons.well_formed(),
                daemons.names() == self@.names.take(i as int),
                forall|name: Seq<char>| #[trigger]
                    daemons@.contains_key(name) ==> daemons@[name] == status_at(
                        self@.daemons[name].state,
                        now,
                    ),
            decreases self@.names.len() - i,
        {
            let (name, program) = self.daemons.entry(i);
            proof {
                daemons.lemma_names();
                assert(self@.names.take(i + 1) =~= self@.names.take(i as int).push(name@));
                assert(!daemons.names().contains(name@));
            }
            daemons.insert(name.clone(), program.state.status(now));
            i += 1;
        }
        proof {
            assert(self@.names.take(self@.names.len() as int) =~= self@.names);
            daemons.lemma_names();
            self.lemma_table();
            assert(daemons@ =~= self@.status(now));
        }
        UbervisorStatus { daemons }
    }

    /// The names of the running daemons: those whose processes are to be polled
    /// before a reap.
    pub fn running_daemons(&self) -> (running: Vec<String>)
        requires
            self.well_formed(),
        ensures
            running@.map_values(|name: String| name@) == self@.running(),
    {
        let ghost is_running = |name: Seq<char>| self@.is_running(name);
        proof {
            self.lemma_table();
        }
        let mut running: Vec<String> = Vec::new();
        let mut i: usize = 0;
        assert(running@.map_values(|name: String| name@) =~= self@.names.take(0).filter(
            is_running,
        )) by {
            reveal(Seq::filter);
        }
        while i < self.daemons.len()
            invariant
                self.daemons.well_formed(),
                i <= self@.names.len(),
                is_running == |name: Seq<char>| self@.is_running(name),
                running@.map_values(|name: String| name@) == self@.names.take(i as int).filter(
                    is_running,
                ),
            decreases self@.names.len() - i,
        {
            let (name, program) = self.daemons.entry(i);
            let ghost before = running@;
            proof {
                lemma_filter_next(self@.names, is_running, i as int);
            }
            if let DaemonState::Running { .. } = &program.state {
                running.push(name.clone());
                assert(running@.map_values(|name: String| name@) =~= before.map_values(
                    |name: String| name@,
                ).push(name@));
            }
            i += 1;
        }
        assert(self@.names.take(self@.names.len() as int) =~= self@.names);
        running
    }

    /// Takes note of the daemons whose processes have died, from what the polled
    /// processes answered, and returns the events that tell of the deaths.
    pub fn reap_children(&mut self, polls: &NameTable<PollResult>) -> (events: Vec<Event>)
        requires
            old(self).well_formed(),
            polls.well_formed(),
        ensures
            final(self).well_formed(),
            final(self)@ == old(self)@.after_reap(polls@),
            events@.map_values(|event: Event| event@) == old(self)@.reap_events(polls@),
    {
        let ghost before = self@;
        let ghost after = before.after_reap(polls@);
        let ghost dies = |name: Seq<char>| before.death_of(polls@, name) is Some;
        let ghost told = |name: Seq<char>|
            EventView::DaemonStopped { name, info: before.death_of(polls@, name)->0 };
        let mut events: Vec<Event> = Vec::new();
        let mut i: usize = 0;
        assert(events@.map_values(|event: Event| event@) =~= before.names.take(0).filter(
            dies,
        ).map_values(told)) by {
            reveal(Seq::filter);
        }
        while i < self.daemons.len()
            invariant
                self.well_formed(),
                polls.well_formed(),
                before.valid(),
                self@.global_config == before.global_config,
                self@.names == before.names,
                self@.subscribers == before.subscribers,
                self@.daemons.dom() == before.daemons.dom(),
                after == before.after_reap(polls@),
                dies == |name: Seq<char>| before.death_of(polls@, name) is Some,
                told == (|name: Seq<char>|
                    EventView::DaemonStopped { name, info: before.death_of(polls@, name)->0 }),
                i <= before.names.len(),
                forall|j: int|
                    #![trigger before.names[j]]
                    0 <= j < i ==> self@.daemons[before.names[j]] == after.daemons[before.names[j]],
                forall|j: int|
                    #![trigger before.names[j]]
                    i <= j < before.names.len() ==> self@.daemons[before.names[j]]
                        == before.daemons[before.names[j]],
                events@.map_values(|event: Event| event@) == before.names.take(i as int).filter(
                    dies,
                ).map_values(told),
            decreases before.names.len() - i,
        {
            proof {
                self.lemma_table();
                lemma_filter_next(before.names, dies, i as int);
            }
            let ghost listed = events@;
            let name: String = self.daemons.entry(i).0.clone();
            assert(before.daemons.contains_key(name@)) by {
                assert(before.names.to_set().contains(name@)) by {
                    assert(before.names[i as int] == name@);
                }
            }
            if let Some(poll) = polls.get(name.as_str()) {
                if let Ok(program) = self.get_daemon_mut(name.as_str()) {
                    if let Some(info) = program.reap_single_child(poll) {
                        events.push(Event::DaemonStopped { name: name.clone(), info });
                        program.state = DaemonState::from(info);
                        assert(events@.map_values(|event: Event| event@) =~= listed.map_values(
                            |event: Event| event@,
                        ).push(told(name@)));
                    }
                }
            }
            assert(events@.map_values(|event: Event| event@) =~= before.names.take(i + 1).filter(
                dies,
            ).map_values(told));
            i += 1;
        }
        proof {
            assert(before.names.take(before.names.len() as int) =~= before.names);
            assert forall|name: Seq<char>| before.daemons.contains_key(name) implies self@.daemons[name]
                == after.daemons[name] by {
                assert(before.names.to_set().contains(name));
                let j = before.names.index_of(name);
                assert(before.names[j] == name);
            }
            assert(self@.daemons =~= after.daemons);
        }
        events
    }

    /// Begins to send `message` to every subscriber.
    pub fn broadcast<M>(&mut self, message: M) -> (action: BroadcastAction<M>)
        ensures
            ({
                let round = BroadcastView { message, index: 0, closed: Seq::empty() };
                &&& final(self)@ == old(self)@.after_broadcast(round)
                &&& action@ == old(self)@.broadcast_action(round)
            }),
            action matches BroadcastAction::Send(round) ==> round.index < usize::MAX,
    {
        let round = Broadcast { message, index: 0, closed: Vec::new() };
        assert(round@.closed =~= Seq::empty());
        self.continue_broadcast(round)
    }

    /// Goes on with a broadcast when the subscriber whose turn it was has been
    /// served: `delivered` says whether the message reached it.
    pub fn broadcast_served<M>(&mut self, round: Broadcast<M>, delivered: bool) -> (action:
        BroadcastAction<M>)
        requires
            round.index < usize::MAX,
        ensures
            final(self)@ == old(self)@.after_broadcast(round@.served(delivered)),
            action@ == old(self)@.broadcast_action(round@.served(delivered)),
            action matches BroadcastAction::Send(round) ==> round.index < usize::MAX,
    {
        let ghost served = round@.served(delivered);
        let Broadcast { message, index, mut closed } = round;
        if !delivered {
            closed.push(index);
        }
        let round = Broadcast { message, index: index + 1, closed };
        assert(round@ =~= served);
        self.continue_broadcast(round)
    }

    fn continue_broadcast<M>(&mut self, round: Broadcast<M>) -> (action: BroadcastAction<M>)
        ensures
            final(self)@ == old(self)@.after_broadcast(round@),
            action@ == old(self)@.broadcast_action(round@),
            action matches BroadcastAction::Send(round) ==> round.index < usize::MAX,
    {
        if round.index < self.event_subscribers.len() {
            BroadcastAction::Send(round)
        } else {
            self.drop_closed(&round.closed);
            BroadcastAction::Finish
        }
    }

    /// Drops the subscribers at the positions in `closed_channels`.
    fn drop_closed(&mut self, closed_channels: &Vec<usize>)
        ensures
            final(self)@ == (ContextModel {
                subscribers: without_closed(old(self)@.subscribers, closed_channels@),
                ..old(self)@
            }),
    {
        let mut senders: Vec<S> = Vec::new();
        std::mem::swap(&mut senders, &mut self.event_subscribers);
        let ghost all = senders@;
        let mut kept: Vec<S> = Vec::new();
        let mut i: usize = 0;
        let count: usize = senders.len();
        for sender in iter: senders.into_iter()
            invariant
                iter.seq() == all,
                i == iter.index(),
                count == all.len(),
                kept@ == without_closed(all.take(iter.index()), closed_channels@),
        {
            let ghost part = all.take(iter.index() + 1);
            assert(part.drop_last() =~= all.take(iter.index()));
            if !contains(closed_channels, i) {
                kept.push(sender);
            }
            i += 1;
        }
        assert(all.take(all.len() as int) =~= all);
        self.event_subscribers = kept;
    }
}

/// Whether `wanted` is one of `items`.
fn contains(items: &Vec<usize>, wanted: usize) -> (found: bool)
    ensures
        found == items@.contains(wanted),
{
    let mut i: usize = 0;
    while i < items.len()
        invariant
            i <= items@.len(),
            forall|j: int| 0 <= j < i ==> items@[j] != wanted,
        decreases items@.len() - i,
    {
        if items[i] == wanted {
            return true;
        }
        i += 1;
    }
    false
}

/// Filtering one element more appends it if it passes.
proof fn lemma_filter_next<A>(items: Seq<A>, keep: spec_fn(A) -> bool, i: int)
    requires
        0 <= i < items.len(),
    ensures
        items.take(i + 1).filter(keep) == (if keep(items[i]) {
            items.take(i).filter(keep).push(items[i])
        } else {
            items.take(i).filter(keep)
        }),
{
    reveal(Seq::filter);
    assert(items.take(i + 1).drop_last() =~= items.take(i));
}

} // verus!
