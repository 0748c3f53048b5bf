//! What holds of each step of a start, of a stop, of a reap and of a broadcast,
//! in terms of what the supervisor's state holds.

use crate::config::Config;
use crate::daemon::{ChildProcess, DaemonState, PollResult, Sink};
use crate::lifecycle::{
    BroadcastActionView, BroadcastView, StartActionView, StartEvent, StopAction, StopEvent,
};
use crate::model::{same_daemon, without_closed, ContextModel};
use crate::protocol::{DaemonDeathInfo, DaemonStatus, EventView, RequestError};
use vstd::prelude::*;

verus! {

// ---------------------------------------------------------------------------
// The state
// ---------------------------------------------------------------------------

/// In a valid state every daemon is in the list, once, and nothing else is.
pub proof fn law_valid<P, S>(context: ContextModel<P, S>)
    ensures
        context.valid() <==> {
            &&& forall|i: int, j: int|
                0 <= i < context.names.len() && 0 <= j < context.names.len() && i != j
                    ==> context.names[i] != context.names[j]
            &&& forall|name: Seq<char>|
                context.names.contains(name) <==> #[trigger] context.daemons.contains_key(name)
        },
{
    if context.valid() {
        assert forall|name: Seq<char>|
            context.names.contains(name) <==> #[trigger] context.daemons.contains_key(name) by {
            assert(context.names.to_set().contains(name) <==> context.daemons.dom().contains(name));
        }
    }
    if forall|name: Seq<char>|
        context.names.contains(name) <==> #[trigger] context.daemons.contains_key(name) {
        assert forall|name: Seq<char>|
            context.names.to_set().contains(name) <==> context.daemons.dom().contains(name) by {
            assert(context.names.contains(name) <==> context.daemons.contains_key(name));
        }
        assert(context.names.to_set() =~= context.daemons.dom());
    }
}

/// A new supervisor has each program of its config as a daemon that was not
/// started, no other daemon, and no subscriber.
pub proof fn law_initial_state<P, S>(config: Config, name: Seq<char>)
    ensures
        ({
            let initial = ContextModel::<P, S>::initial(config);
            &&& initial.global_config == config.global
            &&& initial.names == config.programs.names()
            &&& initial.subscribers.len() == 0
            &&& initial.daemons.contains_key(name) <==> config.programs@.contains_key(name)
            &&& config.programs@.contains_key(name) ==> {
                &&& initial.daemons[name].config == config.programs@[name]
                &&& initial.daemons[name].state is NotStarted
            }
        }),
{
}

/// A daemon runs if and only if it is known and its state says so, and then its
/// process is the one that its state holds.
pub proof fn law_is_running<P, S>(context: ContextModel<P, S>, name: Seq<char>)
    ensures
        context.is_running(name) <==> context.daemons.contains_key(name)
            && context.daemons[name].state is Running,
        context.is_running(name) ==> context.daemons[name].state == (DaemonState::Running {
            child: context.child(name),
        }),
{
}

/// To set a daemon's state sets that state and nothing else.
pub proof fn law_with_daemon_state<P, S>(
    context: ContextModel<P, S>,
    name: Seq<char>,
    state: DaemonState<P>,
    other: Seq<char>,
)
    requires
        context.daemons.contains_key(name),
    ensures
        ({
            let after = context.with_daemon_state(name, state);
            &&& after.global_config == context.global_config
            &&& after.names == context.names
            &&& after.subscribers == context.subscribers
            &&& after.daemons.contains_key(other) <==> context.daemons.contains_key(other)
            &&& after.daemons[name].state == state
            &&& after.daemons[name].config == context.daemons[name].config
            &&& other != name ==> after.daemons[other] == context.daemons[other]
        }),
{
}

/// To use the handle of a running daemon puts the handle after the use in its
/// place and changes nothing else; where there is no process nothing changes.
pub proof fn law_use_of_a_handle<P, S>(
    context: ContextModel<P, S>,
    name: Seq<char>,
    process: P,
    other: Seq<char>,
)
    ensures
        ({
            let after = context.after_use(name, process);
            &&& after.global_config == context.global_config
            &&& after.names == context.names
            &&& after.subscribers == context.subscribers
            &&& after.daemons.contains_key(other) <==> context.daemons.contains_key(other)
            &&& other != name ==> after.daemons[other] == context.daemons[other]
            &&& (context.daemons.contains_key(name) && context.daemons[name].state is Running)
                ==> {
                &&& after == context.with_process(name, process)
                &&& after.daemons[name].config == context.daemons[name].config
                &&& after.daemons[name].state matches DaemonState::Running { child }
                &&& child.process == process
                &&& child.pid == context.daemons[name].state->child.pid
                &&& child.start_time == context.daemons[name].state->child.start_time
            }
            &&& !(context.daemons.contains_key(name) && context.daemons[name].state is Running)
                ==> after == context
        }),
{
}

/// States that differ in nothing but handles have the same configuration, list,
/// subscribers and daemons, and of each daemon the same config and state, but for
/// the handle.
pub proof fn law_same_but_handles<P, S>(
    one: ContextModel<P, S>,
    other: ContextModel<P, S>,
    name: Seq<char>,
)
    requires
        one.same_but_handles(other),
    ensures
        one.global_config == other.global_config,
        one.names == other.names,
        one.subscribers == other.subscribers,
        one.daemons.contains_key(name) <==> other.daemons.contains_key(name),
        one.daemons.contains_key(name) ==> {
            let (here, there) = (one.daemons[name], other.daemons[name]);
            &&& here.config == there.config
            &&& here.state is NotStarted <==> there.state is NotStarted
            &&& here.state matches DaemonState::Running { child: first } ==> {
                &&& there.state matches DaemonState::Running { child: second }
                &&& first.pid == second.pid
                &&& first.start_time == second.start_time
            }
            &&& here.state matches DaemonState::Exited { info } ==> there.state == (
            DaemonState::<P>::Exited { info })
        },
{
    assert(one.daemons.dom().contains(name) <==> other.daemons.dom().contains(name));
    if one.daemons.contains_key(name) {
        assert(same_daemon(one.daemons[name], other.daemons[name]));
    }
}

/// A new subscriber comes last, and a channel that was used is where it was;
/// nothing else changes.
pub proof fn law_channels<P, S>(context: ContextModel<P, S>, sender: S, index: int, i: int)
    requires
        0 <= index < context.subscribers.len(),
        0 <= i < context.subscribers.len(),
    ensures
        ({
            let added = context.with_subscriber(sender);
            let used = context.with_channel(index, sender);
            &&& added == (ContextModel { subscribers: added.subscribers, ..context })
            &&& added.subscribers.len() == context.subscribers.len() + 1
            &&& added.subscribers.last() == sender
            &&& added.subscribers[i] == context.subscribers[i]
            &&& used == (ContextModel { subscribers: used.subscribers, ..context })
            &&& used.subscribers.len() == context.subscribers.len()
            &&& used.subscribers[index] == sender
            &&& i != index ==> used.subscribers[i] == context.subscribers[i]
        }),
{
}

/// The first subscriber is the only one.
pub proof fn law_first_subscriber<P, S>(context: ContextModel<P, S>, sender: S)
    requires
        context.subscribers.len() == 0,
    ensures
        context.with_subscriber(sender) == (ContextModel {
            subscribers: context.with_subscriber(sender).subscribers,
            ..context
        }),
        context.with_subscriber(sender).subscribers.len() == 1,
        context.with_subscriber(sender).subscribers[0] == sender,
{
}

// ---------------------------------------------------------------------------
// Steps of a start
// ---------------------------------------------------------------------------

/// A name that is not known is refused, whatever has happened, and is never
/// started.
pub proof fn law_start_step_unknown<P, S>(
    context: ContextModel<P, S>,
    name: Seq<char>,
    event: StartEvent<P>,
)
    requires
        !context.daemons.contains_key(name),
    ensures
        context.start_action(name, event) == StartActionView::Finish(
            Err(RequestError::UnknownDaemonName),
        ),
        context.after_start(name, event) == context,
{
}

/// A known daemon is never refused as unknown.
pub proof fn law_start_step_known<P, S>(
    context: ContextModel<P, S>,
    name: Seq<char>,
    event: StartEvent<P>,
)
    requires
        context.daemons.contains_key(name),
    ensures
        context.start_action(name, event) != StartActionView::Finish(
            Err(RequestError::UnknownDaemonName),
        ),
{
}

/// A start begins with a poll if and only if the daemon runs, and otherwise with
/// a spawn; it never ends before either.
pub proof fn law_start_step_requested<P, S>(context: ContextModel<P, S>, name: Seq<char>)
    requires
        context.daemons.contains_key(name),
    ensures
        context.start_action(name, StartEvent::Requested) is Poll <==> context.daemons[name].state
            is Running,
        context.start_action(name, StartEvent::Requested) is Spawn <==> !(
        context.daemons[name].state is Running),
        context.after_start(name, StartEvent::Requested) == context,
{
}

/// A known daemon is spawned anew after every answer but that its process is
/// still there, which alone refuses the start. No answer leads to another poll:
/// a start polls at most once, and what goes on past the poll is a spawn.
pub proof fn law_start_step_polled<P, S>(
    context: ContextModel<P, S>,
    name: Seq<char>,
    answer: PollResult,
)
    requires
        context.daemons.contains_key(name),
    ensures
        !(context.start_action(name, StartEvent::Polled(answer)) is Poll),
        context.start_action(name, StartEvent::Polled(answer)) is Spawn <==> !(
        answer is StillRunning),
        answer is StillRunning ==> context.start_action(name, StartEvent::Polled(answer))
            == StartActionView::Finish(Err(RequestError::DaemonAlreadyStarted)),
        context.after_start(name, StartEvent::Polled(answer)) == context,
{
}

/// All answers after which a daemon is spawned lead to the very same spawn, and
/// that is the spawn that the daemon would have had if it had never run.
pub proof fn law_start_steps_spawn_the_same<P, S>(
    context: ContextModel<P, S>,
    name: Seq<char>,
    answer: PollResult,
    fresh: ContextModel<P, S>,
)
    requires
        context.daemons.contains_key(name),
        !(answer is StillRunning),
        fresh.daemons.contains_key(name),
        fresh.daemons[name].config == context.daemons[name].config,
        fresh.daemons[name].state is NotStarted,
    ensures
        context.start_action(name, StartEvent::Polled(answer)) == fresh.start_action(
            name,
            StartEvent::Requested,
        ),
{
}

/// Whatever a start spawns is the command of the daemon that it starts, handed
/// to the shell, each of its streams appended to the file that its config names
/// for that stream, and discarded where it names none.
pub proof fn law_start_step_spawns<P, S>(
    context: ContextModel<P, S>,
    name: Seq<char>,
    event: StartEvent<P>,
)
    requires
        context.start_action(name, event) is Spawn,
    ensures
        ({
            let plan = context.start_action(name, event)->Spawn_0;
            let config = context.daemons[name].config;
            &&& context.daemons.contains_key(name)
            &&& plan.program == "sh"@
            &&& plan.args.len() == 2
            &&& plan.args[0] == "-c"@
            &&& plan.args[1] == config.command@
            &&& plan.stdout == (match config.stdout {
                Some(path) => Sink::Append { path },
                None => Sink::Discard,
            })
            &&& plan.stderr == (match config.stderr {
                Some(path) => Sink::Append { path },
                None => Sink::Discard,
            })
        }),
{
}

/// A process that was spawned ends the start well, whatever the daemon did
/// before, and from then on the daemon runs that process; nothing else changes.
pub proof fn law_start_step_spawned<P, S>(
    context: ContextModel<P, S>,
    name: Seq<char>,
    child: ChildProcess<P>,
    other: Seq<char>,
)
    requires
        context.daemons.contains_key(name),
    ensures
        ({
            let event = StartEvent::Spawned(Ok(child));
            let after = context.after_start(name, event);
            &&& context.start_action(name, event) == StartActionView::Finish(Ok(()))
            &&& after.daemons[name].state == (DaemonState::Running { child })
            &&& after.daemons[name].config == context.daemons[name].config
            &&& after.daemons.contains_key(other) <==> context.daemons.contains_key(other)
            &&& other != name ==> after.daemons[other] == context.daemons[other]
            &&& after.global_config == context.global_config
            &&& after.names == context.names
            &&& after.subscribers == context.subscribers
        }),
{
}

/// A spawn that failed ends the start with its own reason and changes nothing.
pub proof fn law_start_step_not_spawned<P, S>(
    context: ContextModel<P, S>,
    name: Seq<char>,
    reason: String,
)
    requires
        context.daemons.contains_key(name),
    ensures
        context.start_action(name, StartEvent::Spawned(Err(reason))) == StartActionView::Finish(
            Err(RequestError::FailedToStartDaemon(reason)),
        ),
        context.after_start(name, StartEvent::Spawned(Err(reason))) == context,
{
}

/// What becomes of a start rests on the daemon that it names and on no other.
pub proof fn law_start_step_looks_at_one_daemon<P, S>(
    context: ContextModel<P, S>,
    other: ContextModel<P, S>,
    name: Seq<char>,
    event: StartEvent<P>,
)
    requires
        context.daemons.contains_key(name) <==> other.daemons.contains_key(name),
        context.daemons[name] == other.daemons[name],
    ensures
        context.start_action(name, event) == other.start_action(name, event),
{
}

// ---------------------------------------------------------------------------
// Steps of a stop
// ---------------------------------------------------------------------------

/// A stop begins with a poll if and only if the daemon is known and runs. A name
/// that is not known and a daemon that does not run are refused, each in its way.
pub proof fn law_stop_step_requested<P, S>(context: ContextModel<P, S>, name: Seq<char>)
    ensures
        context.stop_action(name, StopEvent::Requested) is Poll <==> context.daemons.contains_key(
            name,
        ) && context.daemons[name].state is Running,
        !(context.stop_action(name, StopEvent::Requested) is Kill),
        !context.daemons.contains_key(name) ==> context.stop_action(name, StopEvent::Requested)
            == StopAction::Finish(Err(RequestError::UnknownDaemonName)),
        context.daemons.contains_key(name) && !(context.daemons[name].state is Running)
            ==> context.stop_action(name, StopEvent::Requested) == StopAction::Finish(
            Err(RequestError::DaemonAlreadyStopped),
        ),
{
}

/// The process is killed after every answer but that it has exited, which alone
/// refuses the stop. No answer leads to another poll: a stop polls at most once.
pub proof fn law_stop_step_polled<P, S>(
    context: ContextModel<P, S>,
    name: Seq<char>,
    answer: PollResult,
)
    ensures
        !(context.stop_action(name, StopEvent::Polled(answer)) is Poll),
        context.stop_action(name, StopEvent::Polled(answer)) is Kill <==> !(answer is Exited),
        answer is Exited ==> context.stop_action(name, StopEvent::Polled(answer))
            == StopAction::Finish(Err(RequestError::DaemonAlreadyStopped)),
{
}

/// A kill that was sent ends the stop well.
pub proof fn law_stop_step_killed<P, S>(context: ContextModel<P, S>, name: Seq<char>)
    ensures
        context.stop_action(name, StopEvent::Killed) == StopAction::Finish(Ok(())),
{
}

/// What becomes of a stop rests on the daemon that it names and on no other,
/// nor on where in the list the daemon is.
pub proof fn law_stop_step_looks_at_one_daemon<P, S>(
    context: ContextModel<P, S>,
    other: ContextModel<P, S>,
    name: Seq<char>,
    event: StopEvent,
)
    requires
        context.daemons.contains_key(name) <==> other.daemons.contains_key(name),
        context.daemons[name] == other.daemons[name],
    ensures
        context.stop_action(name, event) == other.stop_action(name, event),
{
}

// ---------------------------------------------------------------------------
// Status and reap
// ---------------------------------------------------------------------------

/// A report has a status for every daemon and for nothing else. A daemon is
/// reported as stopped if it was never started, as exited with what is known of
/// its death if it has exited, and else as running for the whole seconds since
/// its start.
pub proof fn law_report<P, S>(context: ContextModel<P, S>, now: u64, name: Seq<char>)
    ensures
        context.status(now).contains_key(name) <==> context.daemons.contains_key(name),
        context.daemons.contains_key(name) ==> match context.daemons[name].state {
            DaemonState::NotStarted => context.status(now)[name] is Stopped,
            DaemonState::Running { child } => {
                &&& context.status(now)[name] matches DaemonStatus::Running { uptime }
                &&& if child.start_time <= now {
                    uptime * 1_000_000_000 <= now - child.start_time < (uptime + 1) * 1_000_000_000
                } else {
                    uptime == 0
                }
            },
            DaemonState::Exited { info } => context.status(now)[name] == (DaemonStatus::Exited {
                info,
            }),
        },
{
}

/// A death is found if and only if the daemon runs, was polled, and its process
/// has exited; it is told with the process's id, code and signal.
pub proof fn law_death_of<P, S>(
    context: ContextModel<P, S>,
    polls: Map<Seq<char>, PollResult>,
    name: Seq<char>,
)
    ensures
        context.death_of(polls, name) is Some <==> {
            &&& context.daemons.contains_key(name)
            &&& context.daemons[name].state is Running
            &&& polls.contains_key(name)
            &&& polls[name] is Exited
        },
        context.death_of(polls, name) matches Some(info) ==> info == (DaemonDeathInfo {
            pid: context.daemons[name].state->child.pid,
            timestamp: 0,
            exit_status: polls[name]->code,
            signal: polls[name]->signal,
        }),
{
}

/// A reap makes exactly the daemons exited that ran and whose polled process has
/// exited, and touches nothing else.
pub proof fn law_reap_step<P, S>(
    context: ContextModel<P, S>,
    polls: Map<Seq<char>, PollResult>,
    name: Seq<char>,
)
    ensures
        ({
            let after = context.after_reap(polls);
            &&& after.global_config == context.global_config
            &&& after.names == context.names
            &&& after.subscribers == context.subscribers
            &&& after.daemons.contains_key(name) <==> context.daemons.contains_key(name)
            &&& context.daemons.contains_key(name) ==> {
                let daemon = context.daemons[name];
                &&& after.daemons[name].config == daemon.config
                &&& if daemon.state is Running && polls.contains_key(name) && polls[name] is Exited {
                    after.daemons[name].state == (DaemonState::<P>::Exited {
                        info: DaemonDeathInfo {
                            pid: daemon.state->child.pid,
                            timestamp: 0,
                            exit_status: polls[name]->code,
                            signal: polls[name]->signal,
                        },
                    })
                } else {
                    after.daemons[name] == daemon
                }
            }
        }),
{
}

/// To take one more name into account appends it, or what is made of it, if it
/// passes.
proof fn lemma_filter_push<A, B>(
    items: Seq<A>,
    item: A,
    keep: spec_fn(A) -> bool,
    make: spec_fn(A) -> B,
)
    ensures
        items.push(item).filter(keep) == (if keep(item) {
            items.filter(keep).push(item)
        } else {
            items.filter(keep)
        }),
        items.push(item).filter(keep).map_values(make) == (if keep(item) {
            items.filter(keep).map_values(make).push(make(item))
        } else {
            items.filter(keep).map_values(make)
        }),
{
    reveal(Seq::filter);
    assert(items.push(item).drop_last() =~= items);
    if keep(item) {
        assert(items.filter(keep).push(item).map_values(make) =~= items.filter(keep).map_values(
            make,
        ).push(make(item)));
    }
}

/// The running daemons and the events of a reap follow the list: a name more at
/// its end brings one entry more, at the end, if and only if that daemon runs, or
/// died; and of an empty list there are none.
pub proof fn law_lists_follow_the_names<P, S>(
    context: ContextModel<P, S>,
    name: Seq<char>,
    polls: Map<Seq<char>, PollResult>,
)
    ensures
        ({
            let longer = ContextModel { names: context.names.push(name), ..context };
            let runs = context.daemons.contains_key(name) && context.daemons[name].state is Running;
            let died = runs && polls.contains_key(name) && polls[name] is Exited;
            &&& longer.running() == (if runs {
                context.running().push(name)
            } else {
                context.running()
            })
            &&& longer.reap_events(polls) == (if died {
                context.reap_events(polls).push(
                    EventView::DaemonStopped {
                        name,
                        info: DaemonDeathInfo {
                            pid: context.daemons[name].state->child.pid,
                            timestamp: 0,
                            exit_status: polls[name]->code,
                            signal: polls[name]->signal,
                        },
                    },
                )
            } else {
                context.reap_events(polls)
            })
        }),
        context.names.len() == 0 ==> context.running().len() == 0 && context.reap_events(
            polls,
        ).len() == 0,
{
    let longer = ContextModel { names: context.names.push(name), ..context };
    let runs = |n: Seq<char>| context.is_running(n);
    let dies = |n: Seq<char>| context.death_of(polls, n) is Some;
    let told = |n: Seq<char>|
        EventView::DaemonStopped { name: n, info: context.death_of(polls, n)->0 };
    assert forall|n: Seq<char>| #[trigger] longer.death_of(polls, n) == context.death_of(polls, n) by {
    }
    assert forall|n: Seq<char>| #[trigger] longer.is_running(n) == context.is_running(n) by {
    }
    assert((|n: Seq<char>| longer.is_running(n)) =~= runs);
    assert((|n: Seq<char>| longer.death_of(polls, n) is Some) =~= dies);
    assert((|n: Seq<char>|
        (EventView::DaemonStopped { name: n, info: longer.death_of(polls, n)->0 })) =~= told);
    lemma_filter_push(context.names, name, runs, told);
    lemma_filter_push(context.names, name, dies, told);
    reveal(Seq::filter);
}

// ---------------------------------------------------------------------------
// Steps of a broadcast
// ---------------------------------------------------------------------------

/// A round goes on with the subscriber whose turn it is, as long as there is one,
/// and is else over; only then does the state change, and only in its
/// subscribers.
pub proof fn law_broadcast_step<P, S, M>(context: ContextModel<P, S>, round: BroadcastView<M>)
    ensures
        round.index < context.subscribers.len() ==> {
            &&& context.broadcast_action(round) == BroadcastActionView::Send(round)
            &&& context.after_broadcast(round) == context
        },
        round.index >= context.subscribers.len() ==> {
            &&& context.broadcast_action(round) is Finish
            &&& context.after_broadcast(round) == (ContextModel {
                subscribers: without_closed(context.subscribers, round.closed),
                ..context
            })
        },
{
}

/// After a send it is the next one's turn, with the same message. A position is
/// on the list of those to be dropped if and only if it was before, or it was its
/// turn and the message did not reach it.
pub proof fn law_served_step<M>(round: BroadcastView<M>, delivered: bool, position: usize)
    requires
        0 <= round.index <= usize::MAX,
    ensures
        round.served(delivered).message == round.message,
        round.served(delivered).index == round.index + 1,
        round.served(delivered).closed.contains(position) <==> round.closed.contains(position) || (
        !delivered && position == round.index),
{
    let before = round.closed;
    let after = round.served(delivered).closed;
    if !delivered {
        assert(after[before.len() as int] == round.index as usize);
        if before.contains(position) {
            assert(after[before.index_of(position)] == position);
        }
    }
}

/// To drop subscribers drops exactly those at the given positions: a subscriber
/// more, at the end, stays at the end if and only if its position is not given.
pub proof fn law_without_closed<S>(subscribers: Seq<S>, sender: S, closed: Seq<usize>)
    requires
        subscribers.len() <= usize::MAX,
    ensures
        without_closed(Seq::<S>::empty(), closed).len() == 0,
        closed.contains(subscribers.len() as usize) ==> without_closed(
            subscribers.push(sender),
            closed,
        ) == without_closed(subscribers, closed),
        !closed.contains(subscribers.len() as usize) ==> without_closed(
            subscribers.push(sender),
            closed,
        ) == without_closed(subscribers, closed).push(sender),
{
    assert(subscribers.push(sender).drop_last() =~= subscribers);
}

} // verus!
