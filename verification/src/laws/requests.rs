//! What holds of requests, replies and signals.

use crate::daemon::{ChildProcess, DaemonState};
use crate::laws::commands::{
    law_failed_start_changes_nothing, law_start, law_stop, law_use_changes_only_the_handle,
    whole_start, whole_stop, Polled,
};
use crate::model::ContextModel;
use crate::protocol::{Request, RequestError};
use crate::request::{
    refusal, reply_for_command, request_action, ReplyBodyView, ReplyView, RequestActionView,
    STATUS_BAD_REQUEST, STATUS_OK,
};
use crate::signals::{signal_action, Signal};
use vstd::prelude::*;

verus! {

/// A client is told 200 and nothing more if its command did what was asked, and
/// otherwise 400 with the error.
pub proof fn law_reply(result: Result<(), RequestError>)
    ensures
        reply_for_command(result).status == STATUS_OK <==> result is Ok,
        reply_for_command(result).status == STATUS_BAD_REQUEST <==> result is Err,
        result is Ok ==> reply_for_command(result).body == ReplyBodyView::Text(Seq::empty()),
        result matches Err(error) ==> reply_for_command(result).body == ReplyBodyView::Error(error),
{
}

/// What the system and the client's channel come to in the course of a request,
/// as far as they are called on: a poll, a kill, after which the handle is
/// `killed`, a spawn, and the channel to a client that monitors.
pub struct Surroundings<P, S> {
    pub polled: Polled<P>,
    pub killed: P,
    pub spawned: Result<ChildProcess<P>, String>,
    pub sender: S,
}

/// A whole request, where `None` is one that was not understood: what it leads to
/// is carried out. The state that is then had, and the reply, where there is one:
/// a client that monitors reads the event stream instead.
pub open spec fn whole_request<P, S>(
    context: ContextModel<P, S>,
    parsed: Option<Request>,
    now: u64,
    around: Surroundings<P, S>,
) -> (ContextModel<P, S>, Option<ReplyView>) {
    match parsed {
        None => (context, Some(refusal("parse"@))),
        Some(request) => match request_action(context, request, now) {
            RequestActionView::Monitor => (context.with_subscriber(around.sender), None),
            RequestActionView::Start { daemon } => {
                let (after, result) = whole_start(context, daemon, around.polled, around.spawned);
                (after, Some(reply_for_command(result)))
            },
            RequestActionView::Stop { daemon } => {
                let stopped = whole_stop(context, daemon, around.polled, around.killed);
                (stopped.context, Some(reply_for_command(stopped.result)))
            },
            RequestActionView::Reply(reply) => (context, Some(reply)),
        },
    }
}

/// Every reply says 200 or 400, and a request that is answered with 400 has
/// changed nothing but the handle that a poll has used.
pub proof fn law_refused_request_changes_nothing<P, S>(
    context: ContextModel<P, S>,
    parsed: Option<Request>,
    now: u64,
    around: Surroundings<P, S>,
)
    ensures
        ({
            let (after, answer) = whole_request(context, parsed, now, around);
            answer matches Some(reply) ==> {
                &&& reply.status == STATUS_OK || reply.status == STATUS_BAD_REQUEST
                &&& reply.status == STATUS_BAD_REQUEST ==> context.same_but_handles(after)
            }
        }),
{
    match parsed {
        Some(Request::StartDaemon { daemon }) => {
            if whole_start(context, daemon@, around.polled, around.spawned).1 is Err {
                law_failed_start_changes_nothing(
                    context,
                    daemon@,
                    around.polled,
                    around.spawned,
                );
            }
        },
        Some(Request::StopDaemon { daemon }) => {
            law_stop(context, daemon@, around.polled, around.killed);
        },
        _ => {},
    }
}

/// Only a start that worked and a new subscriber change the supervisor's state,
/// beyond the handles: a start to what it started, a subscription to one
/// subscriber more.
pub proof fn law_what_a_request_changes<P, S>(
    context: ContextModel<P, S>,
    request: Request,
    now: u64,
    around: Surroundings<P, S>,
)
    ensures
        ({
            let (after, answer) = whole_request(context, Some(request), now, around);
            match request {
                Request::Monitor => after == context.with_subscriber(around.sender),
                Request::StartDaemon { daemon } => match around.spawned {
                    Ok(child) => (answer matches Some(reply) && reply.status == STATUS_OK)
                        ==> after == context.with_daemon_state(
                        daemon@,
                        DaemonState::Running { child },
                    ),
                    Err(_) => context.same_but_handles(after),
                },
                Request::StopDaemon { daemon } => context.same_but_handles(after),
                _ => after == context,
            }
        }),
{
    match request {
        Request::StartDaemon { daemon } => {
            law_start(context, daemon@, around.polled, around.spawned);
            if context.is_running(daemon@) {
                law_use_changes_only_the_handle(context, daemon@, around.polled.process);
            }
        },
        Request::StopDaemon { daemon } => {
            law_stop(context, daemon@, around.polled, around.killed);
        },
        _ => {},
    }
}

/// What every request is answered that is not carried out: one that was not
/// understood, one that is not provided for, one for a daemon that is not known,
/// a start of a daemon that is there, a start that the system refused, and a stop
/// of a daemon that is not there.
pub proof fn law_refusals<P, S>(
    context: ContextModel<P, S>,
    daemon: String,
    now: u64,
    around: Surroundings<P, S>,
)
    ensures
        ({
            let answer = |parsed: Option<Request>| whole_request(context, parsed, now, around).1;
            let refused = |error: RequestError|
                Some(
                    ReplyView { status: STATUS_BAD_REQUEST, body: ReplyBodyView::Error(error) },
                );
            let start = Some(Request::StartDaemon { daemon });
            let stop = Some(Request::StopDaemon { daemon });
            let poll = around.polled.answer;
            let known = context.daemons.contains_key(daemon@);
            &&& answer(None) == Some(refusal("parse"@))
            &&& answer(Some(Request::RestartDaemon { daemon })) == Some(refusal("unimplemented"@))
            &&& !known ==> answer(start) == refused(RequestError::UnknownDaemonName)
            &&& !known ==> answer(stop) == refused(RequestError::UnknownDaemonName)
            &&& context.is_running(daemon@) && poll is StillRunning ==> answer(start) == refused(
                RequestError::DaemonAlreadyStarted,
            )
            &&& known && !(context.is_running(daemon@) && poll is StillRunning) ==> (
            around.spawned matches Err(reason) ==> answer(start) == refused(
                RequestError::FailedToStartDaemon(reason),
            ))
            &&& known && (!context.is_running(daemon@) || poll is Exited) ==> answer(stop)
                == refused(RequestError::DaemonAlreadyStopped)
        }),
{
    law_start(context, daemon@, around.polled, around.spawned);
    law_stop(context, daemon@, around.polled, around.killed);
}

/// What every request is answered that is carried out: an empty text to a start
/// and to a stop, and to a status request the status of every daemon.
pub proof fn law_answers<P, S>(
    context: ContextModel<P, S>,
    daemon: String,
    now: u64,
    around: Surroundings<P, S>,
)
    ensures
        ({
            let answer = |request: Request| whole_request(context, Some(request), now, around).1;
            let carried_out = |body: ReplyBodyView| Some(ReplyView { status: STATUS_OK, body });
            let done = carried_out(ReplyBodyView::Text(Seq::empty()));
            let poll = around.polled.answer;
            let known = context.daemons.contains_key(daemon@);
            &&& known && !(context.is_running(daemon@) && poll is StillRunning)
                && around.spawned is Ok ==> answer(Request::StartDaemon { daemon }) == done
            &&& context.is_running(daemon@) && !(poll is Exited) ==> answer(
                Request::StopDaemon { daemon },
            ) == done
            &&& answer(Request::Status) == carried_out(ReplyBodyView::Status(context.status(now)))
            &&& answer(Request::Monitor) == None::<ReplyView>
        }),
{
    law_start(context, daemon@, around.polled, around.spawned);
    law_stop(context, daemon@, around.polled, around.killed);
}

/// A whole start request is a whole start of the very daemon that it names, and
/// the reply tells how that start ended.
pub proof fn law_start_request<P, S>(
    context: ContextModel<P, S>,
    daemon: String,
    now: u64,
    around: Surroundings<P, S>,
)
    ensures
        ({
            let (after, answer) = whole_request(
                context,
                Some(Request::StartDaemon { daemon }),
                now,
                around,
            );
            let started = whole_start(context, daemon@, around.polled, around.spawned);
            &&& after == started.0
            &&& answer == Some(
                match started.1 {
                    Ok(_) => ReplyView { status: 200, body: ReplyBodyView::Text(Seq::empty()) },
                    Err(error) => ReplyView { status: 400, body: ReplyBodyView::Error(error) },
                },
            )
        }),
{
}

/// A whole stop request is a whole stop of the very daemon that it names, and the
/// reply tells how that stop ended.
pub proof fn law_stop_request<P, S>(
    context: ContextModel<P, S>,
    daemon: String,
    now: u64,
    around: Surroundings<P, S>,
)
    ensures
        ({
            let (after, answer) = whole_request(
                context,
                Some(Request::StopDaemon { daemon }),
                now,
                around,
            );
            let stopped = whole_stop(context, daemon@, around.polled, around.killed);
            &&& after == stopped.context
            &&& answer == Some(
                match stopped.result {
                    Ok(_) => ReplyView { status: 200, body: ReplyBodyView::Text(Seq::empty()) },
                    Err(error) => ReplyView { status: 400, body: ReplyBodyView::Error(error) },
                },
            )
        }),
{
}

/// A command touches the daemon that it names and no other: every other daemon
/// has after it the config, the state and the handle that it had before.
pub proof fn law_commands_leave_the_others_alone<P, S>(
    context: ContextModel<P, S>,
    daemon: String,
    other: Seq<char>,
    now: u64,
    around: Surroundings<P, S>,
)
    requires
        other != daemon@,
    ensures
        ({
            let start = Some(Request::StartDaemon { daemon });
            let stop = Some(Request::StopDaemon { daemon });
            let started = whole_request(context, start, now, around).0;
            let stopped = whole_request(context, stop, now, around).0;
            &&& started.daemons.contains_key(other) <==> context.daemons.contains_key(other)
            &&& started.daemons[other] == context.daemons[other]
            &&& stopped.daemons.contains_key(other) <==> context.daemons.contains_key(other)
            &&& stopped.daemons[other] == context.daemons[other]
        }),
{
}

/// A stop that worked has used the handle of the daemon that it names: that
/// handle is then the one after the kill, and the daemon still runs, with its
/// process id and start time.
pub proof fn law_stop_uses_the_named_handle<P, S>(
    context: ContextModel<P, S>,
    daemon: String,
    now: u64,
    around: Surroundings<P, S>,
)
    requires
        context.daemons.contains_key(daemon@),
        context.daemons[daemon@].state is Running,
        !(around.polled.answer is Exited),
    ensures
        ({
            let stop = Some(Request::StopDaemon { daemon });
            let (after, answer) = whole_request(context, stop, now, around);
            let child = context.daemons[daemon@].state->child;
            &&& after.daemons[daemon@].config == context.daemons[daemon@].config
            &&& after.daemons[daemon@].state == (DaemonState::Running {
                child: ChildProcess {
                    process: around.killed,
                    pid: child.pid,
                    start_time: child.start_time,
                },
            })
            &&& answer == Some(
                ReplyView { status: 200, body: ReplyBodyView::Text(Seq::empty()) },
            )
        }),
{
    law_stop(context, daemon@, around.polled, around.killed);
}

/// A request that was not understood is refused as such and changes nothing.
pub proof fn law_request_not_understood<P, S>(
    context: ContextModel<P, S>,
    now: u64,
    around: Surroundings<P, S>,
)
    ensures
        whole_request(context, None, now, around) == (
            context,
            Some(ReplyView { status: 400, body: ReplyBodyView::Text("parse"@) }),
        ),
{
}

/// Only a request to terminate ends the supervisor.
pub proof fn law_only_terminate_ends(signal: Signal)
    ensures
        signal_action(signal) is Shutdown <==> signal is Terminate,
{
}

} // verus!
