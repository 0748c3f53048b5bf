//! What holds of the messages between the supervisor and its surroundings.

use crate::config::GlobalConfig;
use crate::lifecycle::{
    Broadcast, BroadcastAction, BroadcastActionView, StartAction, StartActionView,
};
use crate::model::ContextModel;
use crate::protocol::{announced, Event, EventView, Request, RequestError, UbervisorStatus};
use crate::request::{
    refusal, reply_for, reply_for_command, request_action, Reply, ReplyBody, ReplyBodyView,
    ReplyView, RequestAction, RequestActionView, STATUS_BAD_REQUEST, STATUS_OK,
};
use crate::signals::{signal_action, Signal, SignalAction, USER_SIGNAL_MESSAGE};
use crate::startup::{startup_action, StartupAction, StartupEvent};
use vstd::prelude::*;

verus! {

// ---------------------------------------------------------------------------
// Requests
// ---------------------------------------------------------------------------

/// A start request leads to the start of the very daemon that it names, and a
/// stop request to the stop of it, whatever the state and the time.
pub proof fn law_commands_name_their_daemon<P, S>(
    context: ContextModel<P, S>,
    daemon: String,
    now: u64,
)
    ensures
        request_action(context, Request::StartDaemon { daemon }, now)
            == (RequestActionView::Start { daemon: daemon@ }),
        request_action(context, Request::StopDaemon { daemon }, now)
            == (RequestActionView::Stop { daemon: daemon@ }),
{
}

/// Only a start request leads to a start, only a stop request to a stop, and only
/// a request to monitor to the event stream: every other is replied to at once.
pub proof fn law_what_requests_lead_to<P, S>(
    context: ContextModel<P, S>,
    request: Request,
    now: u64,
)
    ensures
        request_action(context, request, now) is Start <==> request is StartDaemon,
        request_action(context, request, now) is Stop <==> request is StopDaemon,
        request_action(context, request, now) is Monitor <==> request is Monitor,
        request_action(context, request, now) is Reply <==> request is Status
            || request is RestartDaemon,
{
}

/// A request to restart is refused, whichever daemon it names and whatever the
/// state.
pub proof fn law_restart_is_refused<P, S>(
    context: ContextModel<P, S>,
    daemon: String,
    now: u64,
)
    ensures
        request_action(context, Request::RestartDaemon { daemon }, now)
            == RequestActionView::Reply(
            ReplyView { status: 400, body: ReplyBodyView::Text("unimplemented"@) },
        ),
{
}

/// A status request is replied to with the status of all daemons at the time of
/// the request.
pub proof fn law_status_request<P, S>(context: ContextModel<P, S>, now: u64)
    ensures
        request_action(context, Request::Status, now) == RequestActionView::Reply(
            ReplyView { status: 200, body: ReplyBodyView::Status(context.status(now)) },
        ),
{
}

// ---------------------------------------------------------------------------
// Replies
// ---------------------------------------------------------------------------

/// A refusal is a bad request with the text that is given.
pub proof fn law_refusal(message: Seq<char>)
    ensures
        refusal(message).status == 400,
        refusal(message).body == ReplyBodyView::Text(message),
{
}

/// What was carried out is answered with what there is to say, and what was not
/// with the very error.
pub proof fn law_reply_for(body: ReplyBodyView, error: RequestError)
    ensures
        reply_for(Ok(body)).status == 200,
        reply_for(Ok(body)).body == body,
        reply_for(Err(error)).status == 400,
        reply_for(Err(error)).body == ReplyBodyView::Error(error),
        STATUS_OK == 200,
        STATUS_BAD_REQUEST == 400,
{
}

/// A command that was carried out is answered with an empty text, and one that
/// was not with its error.
pub proof fn law_reply_for_command(error: RequestError)
    ensures
        reply_for_command(Ok(())).status == 200,
        reply_for_command(Ok(())).body matches ReplyBodyView::Text(text) && text.len() == 0,
        reply_for_command(Err(error)).status == 400,
        reply_for_command(Err(error)).body == ReplyBodyView::Error(error),
{
}

// ---------------------------------------------------------------------------
// Announcements
// ---------------------------------------------------------------------------

/// Every text goes out, as often as there is one and in its place; an event
/// without a text takes none.
pub proof fn law_announced_in_order(texts: Seq<Option<String>>, text: String)
    ensures
        announced(Seq::empty()).len() == 0,
        announced(texts.push(Some(text))) == announced(texts).push(text),
        announced(texts.push(None)) == announced(texts),
{
    assert(texts.push(Some(text)).drop_last() =~= texts);
    assert(texts.push(None).drop_last() =~= texts);
    assert(announced(texts) + seq![text] =~= announced(texts).push(text));
}

// ---------------------------------------------------------------------------
// Signals and startup
// ---------------------------------------------------------------------------

/// The user signal, and no other, tells the subscribers one fixed line; a signal
/// from a child reaps; and the signal to terminate ends the supervisor.
pub proof fn law_signals(signal: Signal)
    ensures
        signal is User ==> (signal_action(signal) matches SignalAction::Broadcast { message }
            && message@ == "Florp\n"@),
        signal_action(signal) is Broadcast <==> signal is User,
        signal_action(signal) is Reap <==> signal is Child,
        signal_action(signal) is Shutdown <==> signal is Terminate,
        USER_SIGNAL_MESSAGE@ == "Florp\n"@,
{
}

/// Each step of a startup: the signals come first, then a look at the control
/// socket's path, then a removal if and only if something is there, then the bind,
/// and then the serving. What fails aborts, and nothing else does. No path is
/// touched but the control socket's.
pub proof fn law_startup_steps(global: GlobalConfig, event: StartupEvent)
    ensures
        startup_action(global, event) is RegisterSignals <==> event is Launched,
        startup_action(global, event) is Look <==> event is SignalsRegistered,
        startup_action(global, event) is Remove <==> event == (StartupEvent::Looked {
            present: true,
        }),
        startup_action(global, event) is Bind <==> event is Removed || event == (
        StartupEvent::Looked { present: false }),
        startup_action(global, event) is Serve <==> event is Bound,
        startup_action(global, event) is Abort <==> event is Failed,
        startup_action(global, event) matches StartupAction::Look { path } ==> path
            == global.control_socket_path,
        startup_action(global, event) matches StartupAction::Remove { path } ==> path
            == global.control_socket_path,
        startup_action(global, event) matches StartupAction::Bind { path } ==> path
            == global.control_socket_path,
{
}

// ---------------------------------------------------------------------------
// Views
// ---------------------------------------------------------------------------

/// An event is seen as what it holds.
pub proof fn law_view_of_an_event(event: Event)
    ensures
        event matches Event::DaemonStarted { name, pid } ==> event@ == (EventView::DaemonStarted {
            name: name@,
            pid,
        }),
        event matches Event::DaemonStopped { name, info } ==> event@ == (EventView::DaemonStopped {
            name: name@,
            info,
        }),
{
}

/// A report is seen as what it holds.
pub proof fn law_view_of_a_report(report: UbervisorStatus)
    ensures
        report@ == report.daemons@,
{
}

/// A start's action is seen as what it is.
pub proof fn law_view_of_a_start_action(action: StartAction)
    ensures
        action@ is Poll <==> action is Poll,
        action matches StartAction::Spawn(plan) ==> action@ == StartActionView::Spawn(plan@),
        action matches StartAction::Finish(result) ==> action@ == StartActionView::Finish(result),
{
}

/// A broadcast and its action are seen as what they are.
pub proof fn law_view_of_a_broadcast<M>(round: Broadcast<M>, action: BroadcastAction<M>)
    ensures
        round@.message == round.message,
        round@.index == round.index,
        round@.closed == round.closed@,
        action matches BroadcastAction::Send(next) ==> action@ == BroadcastActionView::Send(next@),
        action@ is Finish <==> action is Finish,
{
}

/// A reply is seen as what it holds.
pub proof fn law_view_of_a_reply(reply: Reply)
    ensures
        reply@.status == reply.status,
        reply.body matches ReplyBody::Text(text) ==> reply@.body == ReplyBodyView::Text(text@),
        reply.body matches ReplyBody::Status(report) ==> reply@.body == ReplyBodyView::Status(
            report.daemons@,
        ),
        reply.body matches ReplyBody::Error(error) ==> reply@.body == ReplyBodyView::Error(error),
{
}

/// A request's action is seen as what it is.
pub proof fn law_view_of_a_request_action(action: RequestAction)
    ensures
        action@ is Monitor <==> action is Monitor,
        action matches RequestAction::Start { daemon } ==> action@ == (RequestActionView::Start {
            daemon: daemon@,
        }),
        action matches RequestAction::Stop { daemon } ==> action@ == (RequestActionView::Stop {
            daemon: daemon@,
        }),
        action matches RequestAction::Reply(reply) ==> action@ == RequestActionView::Reply(reply@),
{
}

} // verus!
