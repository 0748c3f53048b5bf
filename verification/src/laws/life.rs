//! What holds of a supervisor and of its daemons for as long as it lives.

use crate::config::Config;
use crate::daemon::{whole_secs_between, ChildProcess, DaemonState, PollResult};
use crate::laws::commands::{
    law_handles_decide_nothing, law_same_but_handles_carries_over,
    law_use_changes_only_the_handle, Stopped,
};
use crate::laws::reaping::law_reap_tells_every_death;
use crate::lifecycle::{BroadcastView, StartEvent, StopEvent};
use crate::model::{without_closed, ContextModel};
use crate::protocol::{DaemonDeathInfo, DaemonStatus, EventView};
use vstd::prelude::*;

verus! {

/// Whatever can happen to the supervisor's state.
pub enum Operation<P, S, M> {
    /// A step in the start of a daemon.
    Start { name: Seq<char>, event: StartEvent<P> },
    /// The use of the handle to a running daemon's process.
    UseProcess { name: Seq<char>, process: P },
    /// A reap.
    Reap { polls: Map<Seq<char>, PollResult> },
    /// A new subscriber.
    Subscribe { sender: S },
    /// The use of the channel to a subscriber.
    UseChannel { index: int, sender: S },
    /// A step in a broadcast.
    Broadcast { round: BroadcastView<M> },
}

impl<P, S> ContextModel<P, S> {
    /// The state after an operation.
    pub open spec fn after<M>(self, operation: Operation<P, S, M>) -> Self {
        match operation {
            Operation::Start { name, event } => self.after_start(name, event),
            Operation::UseProcess { name, process } => self.after_use(name, process),
            Operation::Reap { polls } => self.after_reap(polls),
            Operation::Subscribe { sender } => self.with_subscriber(sender),
            Operation::UseChannel { index, sender } => if 0 <= index < self.subscribers.len() {
                self.with_channel(index, sender)
            } else {
                self
            },
            Operation::Broadcast { round } => self.after_broadcast(round),
        }
    }

    /// The state after some operations, one after the other.
    pub open spec fn after_all<M>(self, operations: Seq<Operation<P, S, M>>) -> Self
        decreases operations.len(),
    {
        if operations.len() == 0 {
            self
        } else {
            self.after_all(operations.drop_last()).after(operations.last())
        }
    }
}

/// No operation adds, removes or renames a daemon, or changes how one is run, or
/// the global configuration.
pub proof fn law_operation_keeps<P, S, M>(
    context: ContextModel<P, S>,
    operation: Operation<P, S, M>,
)
    requires
        context.valid(),
    ensures
        ({
            let after = context.after(operation);
            &&& after.valid()
            &&& after.names == context.names
            &&& after.daemons.dom() == context.daemons.dom()
            &&& after.global_config == context.global_config
            &&& forall|name: Seq<char>| #[trigger]
                context.daemons.contains_key(name) ==> after.daemons[name].config
                    == context.daemons[name].config
        }),
{
    let after = context.after(operation);
    assert(after.daemons.dom() =~= context.daemons.dom());
}

/// To use handles, however many and however often, changes nothing but handles.
/// So a reap tells the same, and leaves the same but for handles, whether it is
/// held against the state before its polls or after them.
pub proof fn law_uses_change_only_handles<P, S, M>(
    context: ContextModel<P, S>,
    uses: Seq<Operation<P, S, M>>,
    polls: Map<Seq<char>, PollResult>,
)
    requires
        forall|i: int| 0 <= i < uses.len() ==> (#[trigger] uses[i]) is UseProcess,
    ensures
        context.same_but_handles(context.after_all(uses)),
        context.after_all(uses).reap_events(polls) == context.reap_events(polls),
        context.after_reap(polls).same_but_handles(context.after_all(uses).after_reap(polls)),
    decreases uses.len(),
{
    if uses.len() > 0 {
        let before = context.after_all(uses.drop_last());
        law_uses_change_only_handles(context, uses.drop_last(), polls);
        assert(uses[uses.len() - 1] is UseProcess);
        if let Operation::UseProcess { name, process } = uses.last() {
            if before.is_running(name) {
                law_use_changes_only_the_handle(before, name, process);
            }
        }
        law_same_but_handles_carries_over(context, before, context.after_all(uses));
    }
    law_handles_decide_nothing(
        context,
        context.after_all(uses),
        Seq::empty(),
        StartEvent::Requested,
        StopEvent::Requested,
        polls,
        0,
    );
}

/// The only ways in which a daemon's state changes: a start that has spawned a
/// process makes the daemon run it; the use of its handle changes the handle, and
/// neither process id nor start time; and a reap that has found it dead makes a
/// running daemon exited, with the info that the reap's event tells.
pub proof fn law_state_changes<P, S, M>(
    context: ContextModel<P, S>,
    operation: Operation<P, S, M>,
    name: Seq<char>,
)
    requires
        context.valid(),
        context.daemons.contains_key(name),
        context.after(operation).daemons[name].state != context.daemons[name].state,
    ensures
        ({
            let before = context.daemons[name].state;
            let after = context.after(operation).daemons[name].state;
            match operation {
                Operation::Start { name: started, event } => {
                    &&& started == name
                    &&& event matches StartEvent::Spawned(Ok(child))
                    &&& after == (DaemonState::Running { child })
                },
                Operation::UseProcess { name: used, process } => {
                    &&& used == name
                    &&& before matches DaemonState::Running { child }
                    &&& after == (DaemonState::Running {
                        child: ChildProcess {
                            process,
                            pid: child.pid,
                            start_time: child.start_time,
                        },
                    })
                },
                Operation::Reap { polls } => {
                    &&& before is Running
                    &&& context.death_of(polls, name) matches Some(info)
                    &&& after == (DaemonState::<P>::Exited { info })
                    &&& context.reap_events(polls).contains(EventView::DaemonStopped { name, info })
                },
                _ => false,
            }
        }),
{
    if let Operation::Reap { polls } = operation {
        if let Some(info) = context.death_of(polls, name) {
            law_reap_tells_every_death(context, polls, EventView::DaemonStopped { name, info });
        }
    }
}

/// A running daemon keeps its process id and start time until it is started anew
/// with a process that was spawned, and it runs until a reap has found it dead:
/// then it has exited, with the info that the reap's event tells.
pub proof fn law_running_daemon<P, S, M>(
    context: ContextModel<P, S>,
    operation: Operation<P, S, M>,
    name: Seq<char>,
)
    requires
        context.valid(),
        context.is_running(name),
    ensures
        ({
            let after = context.after(operation);
            if after.is_running(name) {
                ||| after.child(name).pid == context.child(name).pid && after.child(name).start_time
                    == context.child(name).start_time
                ||| operation == (Operation::<P, S, M>::Start {
                    name,
                    event: StartEvent::Spawned(Ok(after.child(name))),
                })
            } else {
                &&& operation matches Operation::Reap { polls }
                &&& context.death_of(polls, name) matches Some(info)
                &&& after.daemons[name].state == (DaemonState::<P>::Exited { info })
                &&& context.reap_events(polls).contains(EventView::DaemonStopped { name, info })
            }
        }),
{
    if context.after(operation).daemons[name].state != context.daemons[name].state {
        law_state_changes(context, operation, name);
    }
    law_operation_keeps(context, operation);
}

/// A daemon comes to run only by a start of it that has spawned a process, and it
/// then runs that process.
pub proof fn law_only_a_start_makes_run<P, S, M>(
    context: ContextModel<P, S>,
    operation: Operation<P, S, M>,
    name: Seq<char>,
)
    requires
        context.valid(),
        !context.is_running(name),
        context.after(operation).is_running(name),
    ensures
        operation == (Operation::<P, S, M>::Start {
            name,
            event: StartEvent::Spawned(Ok(context.after(operation).child(name))),
        }),
{
    law_operation_keeps(context, operation);
    assert(context.daemons.dom().contains(name));
    law_state_changes(context, operation, name);
}

/// Whether an operation is the start of `name` that has spawned a process.
pub open spec fn spawns<P, S, M>(operation: Operation<P, S, M>, name: Seq<char>) -> bool {
    operation matches Operation::Start { name: started, event } && started == name
        && event matches StartEvent::Spawned(Ok(_))
}

/// How an operation in the state `context` has found `name` dead, if it is a reap
/// and has.
pub open spec fn found_dead<P, S, M>(
    context: ContextModel<P, S>,
    operation: Operation<P, S, M>,
    name: Seq<char>,
) -> Option<DaemonDeathInfo> {
    match operation {
        Operation::Reap { polls } => context.death_of(polls, name),
        _ => None,
    }
}

/// No operation adds or removes a daemon, however many there are.
proof fn lemma_after_all_keeps<P, S, M>(
    context: ContextModel<P, S>,
    operations: Seq<Operation<P, S, M>>,
)
    requires
        context.valid(),
    ensures
        context.after_all(operations).valid(),
        context.after_all(operations).daemons.dom() == context.daemons.dom(),
    decreases operations.len(),
{
    if operations.len() > 0 {
        lemma_after_all_keeps(context, operations.drop_last());
        law_operation_keeps(context.after_all(operations.drop_last()), operations.last());
    }
}

/// A daemon that runs is reported as running, since its start, through all that
/// happens, as long as no reap has found it dead and no process was spawned for it
/// anew.
pub proof fn law_running_until_found_dead<P, S, M>(
    context: ContextModel<P, S>,
    operations: Seq<Operation<P, S, M>>,
    name: Seq<char>,
    now: u64,
)
    requires
        context.valid(),
        context.is_running(name),
        forall|i: int| 0 <= i < operations.len() ==> !spawns(#[trigger] operations[i], name),
        forall|i: int|
            #![trigger operations[i]]
            0 <= i < operations.len() ==> found_dead(
                context.after_all(operations.take(i)),
                operations[i],
                name,
            ) is None,
    ensures
        ({
            let after = context.after_all(operations);
            &&& after.is_running(name)
            &&& after.child(name).pid == context.child(name).pid
            &&& after.child(name).start_time == context.child(name).start_time
            &&& after.status(now)[name] == (DaemonStatus::Running {
                uptime: whole_secs_between(context.child(name).start_time, now) as u64,
            })
        }),
    decreases operations.len(),
{
    if operations.len() > 0 {
        let rest = operations.drop_last();
        let last = operations.len() - 1;
        assert forall|i: int| #![trigger rest[i]] 0 <= i < rest.len() implies found_dead(
            context.after_all(rest.take(i)),
            rest[i],
            name,
        ) is None && !spawns(rest[i], name) by {
            assert(rest.take(i) =~= operations.take(i));
            assert(rest[i] == operations[i]);
        }
        law_running_until_found_dead(context, rest, name, now);
        lemma_after_all_keeps(context, rest);
        assert(operations.take(last) =~= rest);
        assert(operations[last] == operations.last());
        assert(found_dead(context.after_all(operations.take(last)), operations[last], name)
            is None);
        law_running_daemon(context.after_all(rest), operations.last(), name);
        assert(!spawns(operations[last], name));
    }
}

/// A daemon that has exited is reported as exited, with the same info, through
/// all that happens, and no reap tells of its death again, until a process is
/// spawned for it anew.
pub proof fn law_exited_until_spawned<P, S, M>(
    context: ContextModel<P, S>,
    operations: Seq<Operation<P, S, M>>,
    name: Seq<char>,
    info: DaemonDeathInfo,
    now: u64,
)
    requires
        context.valid(),
        context.daemons.contains_key(name),
        context.daemons[name].state == (DaemonState::<P>::Exited { info }),
        forall|i: int| 0 <= i < operations.len() ==> !spawns(#[trigger] operations[i], name),
    ensures
        ({
            let after = context.after_all(operations);
            &&& after.daemons[name].state == (DaemonState::<P>::Exited { info })
            &&& after.status(now)[name] == (DaemonStatus::Exited { info })
        }),
        forall|i: int|
            #![trigger operations[i]]
            0 <= i < operations.len() ==> found_dead(
                context.after_all(operations.take(i)),
                operations[i],
                name,
            ) is None,
    decreases operations.len(),
{
    lemma_after_all_keeps(context, operations);
    assert(context.daemons.dom().contains(name));
    assert(context.after_all(operations).daemons.contains_key(name));
    if operations.len() > 0 {
        let rest = operations.drop_last();
        let last = operations.len() - 1;
        assert forall|i: int| 0 <= i < rest.len() implies !spawns(#[trigger] rest[i], name) by {
            assert(rest[i] == operations[i]);
        }
        law_exited_until_spawned(context, rest, name, info, now);
        lemma_after_all_keeps(context, rest);
        assert(context.after_all(rest).daemons.contains_key(name));
        assert(!spawns(operations[last], name));
        if context.after_all(operations).daemons[name].state != context.after_all(
            rest,
        ).daemons[name].state {
            law_state_changes(context.after_all(rest), operations.last(), name);
        }
        assert forall|i: int| #![trigger operations[i]] 0 <= i < operations.len() implies found_dead(
            context.after_all(operations.take(i)),
            operations[i],
            name,
        ) is None by {
            if i < last {
                assert(rest.take(i) =~= operations.take(i));
                assert(rest[i] == operations[i]);
            } else {
                assert(operations.take(i) =~= rest);
            }
        }
    }
}

/// A daemon that was never started is reported as stopped, and no reap tells of
/// it, until a process is spawned for it.
pub proof fn law_stopped_until_spawned<P, S, M>(
    context: ContextModel<P, S>,
    operations: Seq<Operation<P, S, M>>,
    name: Seq<char>,
    now: u64,
)
    requires
        context.valid(),
        context.daemons.contains_key(name),
        context.daemons[name].state is NotStarted,
        forall|i: int| 0 <= i < operations.len() ==> !spawns(#[trigger] operations[i], name),
    ensures
        context.after_all(operations).daemons[name].state is NotStarted,
        context.after_all(operations).status(now)[name] is Stopped,
        forall|i: int|
            #![trigger operations[i]]
            0 <= i < operations.len() ==> found_dead(
                context.after_all(operations.take(i)),
                operations[i],
                name,
            ) is None,
    decreases operations.len(),
{
    lemma_after_all_keeps(context, operations);
    assert(context.daemons.dom().contains(name));
    assert(context.after_all(operations).daemons.contains_key(name));
    if operations.len() > 0 {
        let rest = operations.drop_last();
        let last = operations.len() - 1;
        assert forall|i: int| 0 <= i < rest.len() implies !spawns(#[trigger] rest[i], name) by {
            assert(rest[i] == operations[i]);
        }
        law_stopped_until_spawned(context, rest, name, now);
        lemma_after_all_keeps(context, rest);
        assert(context.after_all(rest).daemons.contains_key(name));
        assert(!spawns(operations[last], name));
        if context.after_all(operations).daemons[name].state != context.after_all(
            rest,
        ).daemons[name].state {
            law_state_changes(context.after_all(rest), operations.last(), name);
        }
        assert forall|i: int| #![trigger operations[i]] 0 <= i < operations.len() implies found_dead(
            context.after_all(operations.take(i)),
            operations[i],
            name,
        ) is None by {
            if i < last {
                assert(rest.take(i) =~= operations.take(i));
                assert(rest[i] == operations[i]);
            } else {
                assert(operations.take(i) =~= rest);
            }
        }
    }
}

/// The life of a daemon from a spawn to the next. It is reported as running,
/// since the spawn, until the first reap that finds it dead; that reap tells of
/// it, under the process id that the spawn gave; and from then on it is reported
/// as exited, with the info that was told.
pub proof fn law_life_of_a_daemon<P, S, M>(
    context: ContextModel<P, S>,
    name: Seq<char>,
    child: ChildProcess<P>,
    quiet: Seq<Operation<P, S, M>>,
    polls: Map<Seq<char>, PollResult>,
    later: Seq<Operation<P, S, M>>,
    now: u64,
)
    requires
        context.valid(),
        context.daemons.contains_key(name),
        ({
            let started = context.after_start(name, StartEvent::Spawned(Ok(child)));
            &&& forall|i: int| 0 <= i < quiet.len() ==> !spawns(#[trigger] quiet[i], name)
            &&& forall|i: int|
                #![trigger quiet[i]]
                0 <= i < quiet.len() ==> found_dead(
                    started.after_all(quiet.take(i)),
                    quiet[i],
                    name,
                ) is None
            &&& started.after_all(quiet).death_of(polls, name) is Some
            &&& forall|i: int| 0 <= i < later.len() ==> !spawns(#[trigger] later[i], name)
        }),
    ensures
        ({
            let started = context.after_start(name, StartEvent::Spawned(Ok(child)));
            let living = started.after_all(quiet);
            let info = living.death_of(polls, name)->0;
            let dead = living.after_reap(polls).after_all(later);
            &&& living.status(now)[name] == (DaemonStatus::Running {
                uptime: whole_secs_between(child.start_time, now) as u64,
            })
            &&& info.pid == child.pid
            &&& living.reap_events(polls).contains(EventView::DaemonStopped { name, info })
            &&& dead.status(now)[name] == (DaemonStatus::Exited { info })
        }),
{
    let event = StartEvent::Spawned(Ok(child));
    let started = context.after_start(name, event);
    law_operation_keeps(context, Operation::<P, S, M>::Start { name, event });
    assert(context.after(Operation::<P, S, M>::Start { name, event }) == started);
    law_running_until_found_dead(started, quiet, name, now);
    lemma_after_all_keeps(started, quiet);
    let living = started.after_all(quiet);
    let info = living.death_of(polls, name)->0;
    law_reap_tells_every_death(living, polls, EventView::DaemonStopped { name, info });
    law_operation_keeps(living, Operation::<P, S, M>::Reap { polls });
    assert(living.after(Operation::<P, S, M>::Reap { polls }) == living.after_reap(polls));
    law_exited_until_spawned(living.after_reap(polls), later, name, info, now);
}

/// A supervisor, however long it has lived, watches exactly the daemons of the
/// config that it was made from, and runs them as that config says; and every
/// status report has one status for each of them and no others.
pub proof fn law_life<P, S, M>(config: Config, operations: Seq<Operation<P, S, M>>, now: u64)
    requires
        config.well_formed(),
    ensures
        ({
            let context = ContextModel::<P, S>::initial(config).after_all(operations);
            &&& context.valid()
            &&& context.global_config == config.global
            &&& context.names == config.programs.names()
            &&& context.daemons.dom() == config.programs@.dom()
            &&& context.status(now).dom() == config.programs@.dom()
            &&& forall|name: Seq<char>| #[trigger]
                config.programs@.contains_key(name) ==> context.daemons[name].config
                    == config.programs@[name]
        }),
    decreases operations.len(),
{
    let initial = ContextModel::<P, S>::initial(config);
    let context = initial.after_all(operations);
    if operations.len() == 0 {
        config.programs.lemma_names();
        assert(initial.daemons.dom() =~= config.programs@.dom());
    } else {
        law_life(config, operations.drop_last(), now);
        law_operation_keeps(initial.after_all(operations.drop_last()), operations.last());
    }
    assert(context.status(now).dom() =~= context.daemons.dom());
}

proof fn lemma_without_closed_adds_none<S>(subscribers: Seq<S>, closed: Seq<usize>)
    ensures
        without_closed(subscribers, closed).len() <= subscribers.len(),
        forall|sender: S| #[trigger]
            without_closed(subscribers, closed).contains(sender) ==> subscribers.contains(sender),
    decreases subscribers.len(),
{
    if subscribers.len() > 0 {
        let rest = subscribers.drop_last();
        lemma_without_closed_adds_none(rest, closed);
        assert forall|sender: S| #[trigger]
            without_closed(subscribers, closed).contains(sender) implies subscribers.contains(
            sender,
        ) by {
            let kept = without_closed(rest, closed);
            if kept.contains(sender) {
                assert(rest.contains(sender));
                assert(subscribers[rest.index_of(sender)] == sender);
            } else {
                assert(sender == subscribers.last());
            }
        }
    }
}

/// Only who subscribes is added to the subscribers, and only a broadcast makes
/// them fewer.
pub proof fn law_subscribers<P, S, M>(
    context: ContextModel<P, S>,
    operation: Operation<P, S, M>,
)
    ensures
        ({
            let before = context.subscribers;
            let after = context.after(operation).subscribers;
            match operation {
                Operation::Subscribe { sender } => after == before.push(sender),
                Operation::UseChannel { index, sender } => after.len() == before.len(),
                Operation::Broadcast { round } => {
                    &&& after.len() <= before.len()
                    &&& forall|sender: S| #[trigger]
                        after.contains(sender) ==> before.contains(sender)
                },
                _ => after == before,
            }
        }),
{
    if let Operation::Broadcast { round } = operation {
        lemma_without_closed_adds_none(context.subscribers, round.closed);
    }
}

/// Before anything has happened every daemon is reported as stopped, and nobody
/// has subscribed.
pub proof fn law_initial<P, S>(config: Config, name: Seq<char>, now: u64)
    requires
        config.programs@.contains_key(name),
    ensures
        ContextModel::<P, S>::initial(config).status(now)[name] is Stopped,
        ContextModel::<P, S>::initial(config).subscribers == Seq::<S>::empty(),
{
}

} // verus!
