//! What holds of starting and stopping daemons, and of the handles to their
//! processes.

use crate::daemon::{plan_for, ChildProcess, DaemonState, LaunchPlanView, PollResult, Sink};
use crate::lifecycle::{StartActionView, StartEvent, StopAction, StopEvent};
use crate::model::{same_daemon, ContextModel};
use crate::protocol::{DaemonStatus, EventView, RequestError};
use vstd::prelude::*;

verus! {

// ---------------------------------------------------------------------------
// The handles to processes
// ---------------------------------------------------------------------------

/// The use of a running daemon's handle, for a poll or a kill, changes that
/// handle and nothing else: the daemon runs on, with its config, process id and
/// start time, and every other daemon is as it was.
pub proof fn law_use_changes_only_the_handle<P, S>(
    context: ContextModel<P, S>,
    name: Seq<char>,
    process: P,
)
    requires
        context.is_running(name),
    ensures
        ({
            let after = context.with_process(name, process);
            &&& after == context.after_use(name, process)
            &&& context.same_but_handles(after)
            &&& after.is_running(name)
            &&& after.daemons[name].config == context.daemons[name].config
            &&& after.child(name) == (ChildProcess {
                process,
                pid: context.child(name).pid,
                start_time: context.child(name).start_time,
            })
            &&& forall|other: Seq<char>|
                other != name && #[trigger] context.daemons.contains_key(other)
                    ==> after.daemons[other] == context.daemons[other]
        }),
{
    let after = context.with_process(name, process);
    assert(after.daemons.dom() =~= context.daemons.dom());
}

/// States that differ in nothing but handles are not told apart: the same is
/// decided, reported and told in both, and what an event or a reap makes of them
/// again differs in nothing but handles.
pub proof fn law_handles_decide_nothing<P, S>(
    one: ContextModel<P, S>,
    other: ContextModel<P, S>,
    name: Seq<char>,
    start: StartEvent<P>,
    stop: StopEvent,
    polls: Map<Seq<char>, PollResult>,
    now: u64,
)
    requires
        one.same_but_handles(other),
    ensures
        one.start_action(name, start) == other.start_action(name, start),
        one.after_start(name, start).same_but_handles(other.after_start(name, start)),
        one.stop_action(name, stop) == other.stop_action(name, stop),
        one.status(now) == other.status(now),
        one.running() == other.running(),
        one.reap_events(polls) == other.reap_events(polls),
        one.after_reap(polls).same_but_handles(other.after_reap(polls)),
{
    assert forall|n: Seq<char>| #[trigger] one.daemons.contains_key(n) == other.daemons.contains_key(
        n,
    ) by {
        assert(one.daemons.dom().contains(n) == other.daemons.dom().contains(n));
    }
    assert forall|n: Seq<char>| #[trigger] one.is_running(n) == other.is_running(n) by {
        assert(one.daemons.contains_key(n) == other.daemons.contains_key(n));
    }
    assert forall|n: Seq<char>| #[trigger] one.death_of(polls, n) == other.death_of(polls, n) by {
        assert(one.daemons.contains_key(n) == other.daemons.contains_key(n));
    }
    assert(one.daemons.contains_key(name) == other.daemons.contains_key(name));
    assert(one.status(now) =~= other.status(now));
    let runs = |n: Seq<char>| one.is_running(n);
    let dies = |n: Seq<char>| one.death_of(polls, n) is Some;
    let told = |n: Seq<char>|
        EventView::DaemonStopped { name: n, info: one.death_of(polls, n)->0 };
    assert(runs =~= |n: Seq<char>| other.is_running(n));
    assert(dies =~= |n: Seq<char>| other.death_of(polls, n) is Some);
    assert(told =~= |n: Seq<char>|
        (EventView::DaemonStopped { name: n, info: other.death_of(polls, n)->0 }));
    assert(one.after_reap(polls).daemons.dom() =~= other.after_reap(polls).daemons.dom());
    assert(one.after_start(name, start).daemons.dom() =~= other.after_start(
        name,
        start,
    ).daemons.dom());
}

/// To differ in nothing but handles carries over from step to step.
pub proof fn law_same_but_handles_carries_over<P, S>(
    one: ContextModel<P, S>,
    two: ContextModel<P, S>,
    three: ContextModel<P, S>,
)
    requires
        one.same_but_handles(two),
        two.same_but_handles(three),
    ensures
        one.same_but_handles(three),
        two.same_but_handles(one),
{
    assert forall|name: Seq<char>| #[trigger] two.daemons.contains_key(name) implies same_daemon(
        two.daemons[name],
        one.daemons[name],
    ) && same_daemon(one.daemons[name], three.daemons[name]) by {
        assert(one.daemons.dom().contains(name));
        assert(one.daemons.contains_key(name));
    }
    assert forall|name: Seq<char>| #[trigger] one.daemons.contains_key(name) implies same_daemon(
        one.daemons[name],
        three.daemons[name],
    ) by {
        assert(two.daemons.dom().contains(name));
        assert(two.daemons.contains_key(name));
    }
}

// ---------------------------------------------------------------------------
// Starting a daemon
// ---------------------------------------------------------------------------

/// What a poll of a process comes to: its answer, and the handle after it.
pub struct Polled<P> {
    pub answer: PollResult,
    pub process: P,
}

/// How a start of `name` goes on once its command was spawned.
pub open spec fn start_spawned<P, S>(
    context: ContextModel<P, S>,
    name: Seq<char>,
    spawned: Result<ChildProcess<P>, String>,
) -> (ContextModel<P, S>, Result<(), RequestError>) {
    let event = StartEvent::Spawned(spawned);
    (context.after_start(name, event), context.start_action(name, event)->Finish_0)
}

/// A whole start of `name`: every action is carried out and what came of it
/// handed back. A poll, which uses the daemon's handle, comes to `polled`, and a
/// spawn to `spawned`. Nothing is known of a start that polls again.
pub open spec fn whole_start<P, S>(
    context: ContextModel<P, S>,
    name: Seq<char>,
    polled: Polled<P>,
    spawned: Result<ChildProcess<P>, String>,
) -> (ContextModel<P, S>, Result<(), RequestError>) {
    let requested = StartEvent::Requested;
    let begun = context.after_start(name, requested);
    match context.start_action(name, requested) {
        StartActionView::Finish(result) => (begun, result),
        StartActionView::Spawn(_) => start_spawned(begun, name, spawned),
        StartActionView::Poll => {
            let used = begun.after_use(name, polled.process);
            let event = StartEvent::Polled(polled.answer);
            match used.start_action(name, event) {
                StartActionView::Finish(result) => (used.after_start(name, event), result),
                StartActionView::Spawn(_) => start_spawned(
                    used.after_start(name, event),
                    name,
                    spawned,
                ),
                StartActionView::Poll => arbitrary(),
            }
        },
    }
}

/// A start is refused for a name that is not known, and for a daemon whose
/// process is still there. Otherwise it ends as the spawn did: the daemon then
/// runs the new process, or the client is told why it could not be had. A start
/// that does not succeed leaves everything as it was, but for the handle that a
/// poll has used.
pub proof fn law_start<P, S>(
    context: ContextModel<P, S>,
    name: Seq<char>,
    polled: Polled<P>,
    spawned: Result<ChildProcess<P>, String>,
)
    ensures
        whole_start(context, name, polled, spawned) == (if !context.daemons.contains_key(name) {
            (context, Err(RequestError::UnknownDaemonName))
        } else if context.is_running(name) && polled.answer is StillRunning {
            (
                context.with_process(name, polled.process),
                Err(RequestError::DaemonAlreadyStarted),
            )
        } else {
            match spawned {
                Ok(child) => (
                    context.with_daemon_state(name, DaemonState::Running { child }),
                    Ok(()),
                ),
                Err(reason) => (
                    context.after_use(name, polled.process),
                    Err(RequestError::FailedToStartDaemon(reason)),
                ),
            }
        }),
{
    if context.is_running(name) {
        if let Ok(child) = spawned {
            let state = DaemonState::Running { child };
            assert(context.with_process(name, polled.process).with_daemon_state(name, state).daemons
                =~= context.with_daemon_state(name, state).daemons);
        }
    }
}

/// The actions of a start of `name` from `event` on, at most `steps` of them.
/// Each poll comes to `polled` and each spawn to `spawned`.
pub open spec fn start_actions<P, S>(
    context: ContextModel<P, S>,
    name: Seq<char>,
    event: StartEvent<P>,
    polled: Polled<P>,
    spawned: Result<ChildProcess<P>, String>,
    steps: nat,
) -> Seq<StartActionView>
    decreases steps,
{
    if steps == 0 {
        Seq::empty()
    } else {
        let action = context.start_action(name, event);
        let after = context.after_start(name, event);
        let left = (steps - 1) as nat;
        match action {
            StartActionView::Finish(_) => seq![action],
            StartActionView::Spawn(_) => seq![action] + start_actions(
                after,
                name,
                StartEvent::Spawned(spawned),
                polled,
                spawned,
                left,
            ),
            StartActionView::Poll => seq![action] + start_actions(
                after.after_use(name, polled.process),
                name,
                StartEvent::Polled(polled.answer),
                polled,
                spawned,
                left,
            ),
        }
    }
}

/// A start takes at most three actions: it polls at most once, and only a daemon
/// that runs; it spawns at most once, the daemon's own command; whenever it goes
/// on past the poll, it does so by that spawn; and it ends.
pub proof fn law_start_in_full<P, S>(
    context: ContextModel<P, S>,
    name: Seq<char>,
    polled: Polled<P>,
    spawned: Result<ChildProcess<P>, String>,
    steps: nat,
)
    requires
        steps >= 3,
    ensures
        ({
            let config = context.daemons[name].config;
            let to = |path: Option<String>|
                match path {
                    Some(path) => Sink::Append { path },
                    None => Sink::Discard,
                };
            let spawn = StartActionView::Spawn(
                LaunchPlanView {
                    program: "sh"@,
                    args: seq!["-c"@, config.command@],
                    stdout: to(config.stdout),
                    stderr: to(config.stderr),
                },
            );
            let end = |result: Result<(), RequestError>| StartActionView::Finish(result);
            let ended = end(
                match spawned {
                    Ok(_) => Ok(()),
                    Err(reason) => Err(RequestError::FailedToStartDaemon(reason)),
                },
            );
            let runs = context.daemons[name].state is Running;
            start_actions(context, name, StartEvent::Requested, polled, spawned, steps) == (
            if !context.daemons.contains_key(name) {
                seq![end(Err(RequestError::UnknownDaemonName))]
            } else if !runs {
                seq![spawn, ended]
            } else if polled.answer is StillRunning {
                seq![StartActionView::Poll, end(Err(RequestError::DaemonAlreadyStarted))]
            } else {
                seq![StartActionView::Poll, spawn, ended]
            })
        }),
{
    reveal_with_fuel(start_actions, 4);
    let actions = start_actions(context, name, StartEvent::Requested, polled, spawned, steps);
    let used = context.after_use(name, polled.process);
    let config = context.daemons[name].config;
    assert(plan_for(config).args =~= seq!["-c"@, config.command@]);
    assert(used.daemons[name].config == config);
    assert(actions.len() <= 3);
}

/// A start that fails, for whatever reason, changes nothing but the handle that
/// a poll has used.
pub proof fn law_failed_start_changes_nothing<P, S>(
    context: ContextModel<P, S>,
    name: Seq<char>,
    polled: Polled<P>,
    spawned: Result<ChildProcess<P>, String>,
)
    requires
        whole_start(context, name, polled, spawned).1 is Err,
    ensures
        whole_start(context, name, polled, spawned).0 == context.after_use(name, polled.process),
        context.same_but_handles(whole_start(context, name, polled, spawned).0),
{
    law_start(context, name, polled, spawned);
    if context.is_running(name) {
        law_use_changes_only_the_handle(context, name, polled.process);
    }
}

/// A start touches no other daemon, no configuration and no subscriber.
pub proof fn law_start_is_local<P, S>(
    context: ContextModel<P, S>,
    name: Seq<char>,
    polled: Polled<P>,
    spawned: Result<ChildProcess<P>, String>,
    other: Seq<char>,
)
    requires
        context.daemons.contains_key(other),
    ensures
        ({
            let after = whole_start(context, name, polled, spawned).0;
            &&& after.daemons.contains_key(other)
            &&& after.daemons[other].config == context.daemons[other].config
            &&& other != name ==> after.daemons[other] == context.daemons[other]
            &&& after.daemons.dom() == context.daemons.dom()
            &&& after.names == context.names
            &&& after.global_config == context.global_config
            &&& after.subscribers == context.subscribers
        }),
{
    let after = whole_start(context, name, polled, spawned).0;
    assert(after.daemons.dom() =~= context.daemons.dom());
}

/// Whatever a start spawns is the command of the daemon that it starts, run by
/// the shell, with its output where that daemon's config puts it.
pub proof fn law_start_spawns_the_configured_command<P, S>(
    context: ContextModel<P, S>,
    name: Seq<char>,
    event: StartEvent<P>,
)
    ensures
        context.start_action(name, event) matches StartActionView::Spawn(plan)
            ==> context.daemons.contains_key(name) && plan == plan_for(
            context.daemons[name].config,
        ) && plan.args.last() == context.daemons[name].config.command@,
{
}

/// A daemon that was started cannot be started again while its process is there:
/// it goes on with the process that it has.
pub proof fn law_no_second_start<P, S>(
    context: ContextModel<P, S>,
    name: Seq<char>,
    polled: Polled<P>,
    child: ChildProcess<P>,
    later: P,
    again: Result<ChildProcess<P>, String>,
)
    requires
        whole_start(context, name, polled, Ok(child)).1 is Ok,
    ensures
        ({
            let started = whole_start(context, name, polled, Ok(child)).0;
            let there = Polled { answer: PollResult::StillRunning, process: later };
            let (after, result) = whole_start(started, name, there, again);
            &&& result == Err::<(), RequestError>(RequestError::DaemonAlreadyStarted)
            &&& after == started.with_process(name, later)
            &&& after.child(name).pid == child.pid
            &&& after.child(name).start_time == child.start_time
        }),
{
}

/// A daemon that is not running is started without a look at any process.
pub proof fn law_start_polls_only_the_running<P, S>(
    context: ContextModel<P, S>,
    name: Seq<char>,
)
    ensures
        context.start_action(name, StartEvent::Requested) is Poll <==> context.is_running(name),
{
}

// ---------------------------------------------------------------------------
// Stopping a daemon
// ---------------------------------------------------------------------------

/// How a whole stop ends: the state that is then had, whether the process was
/// sent its kill signal, and what the client is told.
pub struct Stopped<P, S> {
    pub context: ContextModel<P, S>,
    pub killed: bool,
    pub result: Result<(), RequestError>,
}

/// How a stop of `name` goes on with a kill, after which the handle is
/// `process`.
pub open spec fn stop_killed<P, S>(
    context: ContextModel<P, S>,
    name: Seq<char>,
    process: P,
) -> Stopped<P, S> {
    let used = context.after_use(name, process);
    Stopped {
        context: used,
        killed: true,
        result: used.stop_action(name, StopEvent::Killed)->Finish_0,
    }
}

/// A whole stop of `name`: every action is carried out and what came of it
/// handed back. A poll comes to `polled`, and after a kill the handle is
/// `process`. Nothing is known of a stop that polls again.
pub open spec fn whole_stop<P, S>(
    context: ContextModel<P, S>,
    name: Seq<char>,
    polled: Polled<P>,
    process: P,
) -> Stopped<P, S> {
    match context.stop_action(name, StopEvent::Requested) {
        StopAction::Finish(result) => Stopped { context, killed: false, result },
        StopAction::Kill => stop_killed(context, name, process),
        StopAction::Poll => {
            let used = context.after_use(name, polled.process);
            match used.stop_action(name, StopEvent::Polled(polled.answer)) {
                StopAction::Finish(result) => Stopped { context: used, killed: false, result },
                StopAction::Kill => stop_killed(used, name, process),
                StopAction::Poll => arbitrary(),
            }
        },
    }
}

/// A stop is refused for a name that is not known, for a daemon that is not
/// running, and for one whose process turns out to have exited. Otherwise the
/// process is killed. Either way nothing changes but the handle that was used.
pub proof fn law_stop<P, S>(
    context: ContextModel<P, S>,
    name: Seq<char>,
    polled: Polled<P>,
    process: P,
)
    ensures
        whole_stop(context, name, polled, process) == (if !context.daemons.contains_key(name) {
            Stopped {
                context,
                killed: false,
                result: Err::<(), RequestError>(RequestError::UnknownDaemonName),
            }
        } else if !context.is_running(name) || polled.answer is Exited {
            Stopped {
                context: context.after_use(name, polled.process),
                killed: false,
                result: Err(RequestError::DaemonAlreadyStopped),
            }
        } else {
            Stopped { context: context.with_process(name, process), killed: true, result: Ok(()) }
        }),
        context.same_but_handles(whole_stop(context, name, polled, process).context),
{
    if context.is_running(name) {
        law_use_changes_only_the_handle(context, name, polled.process);
        law_use_changes_only_the_handle(context, name, process);
        assert(context.with_process(name, polled.process).with_process(name, process).daemons
            =~= context.with_process(name, process).daemons);
    }
}

/// The actions of a stop of `name` from `event` on, at most `steps` of them. Each
/// poll comes to `polled`, and after a kill the handle is `process`.
pub open spec fn stop_actions<P, S>(
    context: ContextModel<P, S>,
    name: Seq<char>,
    event: StopEvent,
    polled: Polled<P>,
    process: P,
    steps: nat,
) -> Seq<StopAction>
    decreases steps,
{
    if steps == 0 {
        Seq::empty()
    } else {
        let action = context.stop_action(name, event);
        let left = (steps - 1) as nat;
        match action {
            StopAction::Finish(_) => seq![action],
            StopAction::Kill => seq![action] + stop_actions(
                context.after_use(name, process),
                name,
                StopEvent::Killed,
                polled,
                process,
                left,
            ),
            StopAction::Poll => seq![action] + stop_actions(
                context.after_use(name, polled.process),
                name,
                StopEvent::Polled(polled.answer),
                polled,
                process,
                left,
            ),
        }
    }
}

/// A stop takes at most three actions: it polls at most once, and only a daemon
/// that runs; it kills at most once, after that poll, unless the process has
/// exited; and it ends, well if and only if it has killed.
pub proof fn law_stop_in_full<P, S>(
    context: ContextModel<P, S>,
    name: Seq<char>,
    polled: Polled<P>,
    process: P,
    steps: nat,
)
    requires
        steps >= 3,
    ensures
        ({
            let end = |result: Result<(), RequestError>| StopAction::Finish(result);
            let runs = context.daemons[name].state is Running;
            stop_actions(context, name, StopEvent::Requested, polled, process, steps) == (
            if !context.daemons.contains_key(name) {
                seq![end(Err(RequestError::UnknownDaemonName))]
            } else if !runs {
                seq![end(Err(RequestError::DaemonAlreadyStopped))]
            } else if polled.answer is Exited {
                seq![StopAction::Poll, end(Err(RequestError::DaemonAlreadyStopped))]
            } else {
                seq![StopAction::Poll, StopAction::Kill, end(Ok(()))]
            })
        }),
{
    reveal_with_fuel(stop_actions, 4);
    let actions = stop_actions(context, name, StopEvent::Requested, polled, process, steps);
    assert(actions.len() <= 3);
}

/// A whole stop ends as its last action says, and counts a kill if and only if
/// one of its actions asked for it.
pub proof fn law_stop_counts_its_kill<P, S>(
    context: ContextModel<P, S>,
    name: Seq<char>,
    polled: Polled<P>,
    process: P,
    steps: nat,
)
    requires
        steps >= 3,
    ensures
        ({
            let actions = stop_actions(
                context,
                name,
                StopEvent::Requested,
                polled,
                process,
                steps,
            );
            let stopped = whole_stop(context, name, polled, process);
            &&& stopped.killed <==> actions.contains(StopAction::Kill)
            &&& actions.last() == StopAction::Finish(stopped.result)
        }),
{
    law_stop_in_full(context, name, polled, process, steps);
    law_stop(context, name, polled, process);
    let actions = stop_actions(context, name, StopEvent::Requested, polled, process, steps);
    if context.daemons.contains_key(name) && context.daemons[name].state is Running && !(
    polled.answer is Exited) {
        assert(actions[1] == StopAction::Kill);
    }
}

/// A kill signal is sent exactly when the client is told that the stop worked.
pub proof fn law_stop_kills_iff_ok<P, S>(
    context: ContextModel<P, S>,
    name: Seq<char>,
    polled: Polled<P>,
    process: P,
)
    ensures
        whole_stop(context, name, polled, process).killed <==> whole_stop(
            context,
            name,
            polled,
            process,
        ).result is Ok,
{
}

/// Of a daemon whose process is there, exactly one of a start and a stop is
/// refused: the start. Of one that is not running it is the stop.
pub proof fn law_start_and_stop_exclude_each_other<P, S>(
    context: ContextModel<P, S>,
    name: Seq<char>,
    child: ChildProcess<P>,
    polled: Polled<P>,
    process: P,
)
    requires
        context.daemons.contains_key(name),
        polled.answer is StillRunning,
    ensures
        whole_start(context, name, polled, Ok(child)).1 is Ok <==> !(whole_stop(
            context,
            name,
            polled,
            process,
        ).result is Ok),
        whole_start(context, name, polled, Ok(child)).1 is Ok <==> !context.is_running(name),
{
}

// ---------------------------------------------------------------------------
// Status reports
// ---------------------------------------------------------------------------

/// A daemon that was started at one time is reported at another as running since
/// then, in whole seconds.
pub proof fn law_uptime<P, S>(
    context: ContextModel<P, S>,
    name: Seq<char>,
    polled: Polled<P>,
    child: ChildProcess<P>,
    now: u64,
)
    requires
        whole_start(context, name, polled, Ok(child)).1 is Ok,
        child.start_time <= now,
    ensures
        whole_start(context, name, polled, Ok(child)).0.status(now)[name] matches DaemonStatus::Running {
            uptime,
        } && uptime * 1_000_000_000 <= now - child.start_time < (uptime + 1) * 1_000_000_000,
{
}

/// The uptime of a daemon never goes back.
pub proof fn law_uptime_grows<P, S>(
    context: ContextModel<P, S>,
    name: Seq<char>,
    now: u64,
    later: u64,
)
    requires
        context.is_running(name),
        now <= later,
    ensures
        context.status(now)[name] matches DaemonStatus::Running { uptime: first } && (
        context.status(later)[name] matches DaemonStatus::Running { uptime: second } && first
            <= second),
{
}

} // verus!
