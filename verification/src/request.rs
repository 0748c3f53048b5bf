use crate::context::UberContext;
use crate::model::ContextModel;
use crate::protocol::{DaemonStatus, Request, RequestError, UbervisorStatus};
use vstd::prelude::*;

verus! {

/// The status code of a reply to a request that was carried out.
pub const STATUS_OK: u16 = 200;

/// The status code of a reply to a request that was refused.
pub const STATUS_BAD_REQUEST: u16 = 400;

/// What a reply carries. The text goes out as it is, the rest as JSON.
#[derive(Debug)]
pub enum ReplyBody {
    Text(String),
    Status(UbervisorStatus),
    Error(RequestError),
}

/// A reply to a client: its status code and what it carries.
#[derive(Debug)]
pub struct Reply {
    pub status: u16,
    pub body: ReplyBody,
}

/// A reply's body with its contents as views.
#[verifier::ext_equal]
pub enum ReplyBodyView {
    Text(Seq<char>),
    Status(Map<Seq<char>, DaemonStatus>),
    Error(RequestError),
}

/// A reply with its body as a view.
#[verifier::ext_equal]
pub struct ReplyView {
    pub status: u16,
    pub body: ReplyBodyView,
}

impl View for ReplyBody {
    type V = ReplyBodyView;

    open spec fn view(&self) -> ReplyBodyView {
        match self {
            ReplyBody::Text(text) => ReplyBodyView::Text(text@),
            ReplyBody::Status(status) => ReplyBodyView::Status(status@),
            ReplyBody::Error(error) => ReplyBodyView::Error(*error),
        }
    }
}

impl View for Reply {
    type V = ReplyView;

    open spec fn view(&self) -> ReplyView {
        ReplyView { status: self.status, body: self.body@ }
    }
}

/// What a request leads to.
#[derive(Debug)]
pub enum RequestAction {
    /// Open a channel, subscribe its sending end, and let the client read from the
    /// other.
    Monitor,
    /// Start a daemon, and reply with how that ended.
    Start { daemon: String },
    /// Stop a daemon, and reply with how that ended.
    Stop { daemon: String },
    /// Reply at once.
    Reply(Reply),
}

/// A request's action with its reply as a view.
#[verifier::ext_equal]
pub enum RequestActionView {
    Monitor,
    Start { daemon: Seq<char> },
    Stop { daemon: Seq<char> },
    Reply(ReplyView),
}

impl View for RequestAction {
    type V = RequestActionView;

    open spec fn view(&self) -> RequestActionView {
        match self {
            RequestAction::Monitor => RequestActionView::Monitor,
            RequestAction::Start { daemon } => RequestActionView::Start { daemon: daemon@ },
            RequestAction::Stop { daemon } => RequestActionView::Stop { daemon: daemon@ },
            RequestAction::Reply(reply) => RequestActionView::Reply(reply@),
        }
    }
}

/// A refusal that says `message`.
pub open spec fn refusal(message: Seq<char>) -> ReplyView {
    ReplyView { status: STATUS_BAD_REQUEST, body: ReplyBodyView::Text(message) }
}

/// The reply that tells how a request ended.
pub open spec fn reply_for(outcome: Result<ReplyBodyView, RequestError>) -> ReplyView {
    match outcome {
        Ok(body) => ReplyView { status: STATUS_OK, body },
        Err(error) => ReplyView { status: STATUS_BAD_REQUEST, body: ReplyBodyView::Error(error) },
    }
}

/// The reply that tells how a start or a stop ended: an empty text if it did
/// what was asked.
pub open spec fn reply_for_command(result: Result<(), RequestError>) -> ReplyView {
    match result {
        Ok(()) => reply_for(Ok(ReplyBodyView::Text(Seq::empty()))),
        Err(error) => reply_for(Err(error)),
    }
}

/// What `request` leads to at time `now`.
pub open spec fn request_action<P, S>(
    context: ContextModel<P, S>,
    request: Request,
    now: u64,
) -> RequestActionView {
    match request {
        Request::Monitor => RequestActionView::Monitor,
        Request::StartDaemon { daemon } => RequestActionView::Start { daemon: daemon@ },
        Request::StopDaemon { daemon } => RequestActionView::Stop { daemon: daemon@ },
        Request::Status => RequestActionView::Reply(
            reply_for(Ok(ReplyBodyView::Status(context.status(now)))),
        ),
        Request::RestartDaemon { .. } => RequestActionView::Reply(refusal("unimplemented"@)),
    }
}

/// A refusal that says `message`.
pub fn make_err_response(message: &str) -> (reply: Reply)
    ensures
        reply@ == refusal(message@),
        reply.status == 400,
        reply.body matches ReplyBody::Text(text) && text@ == message@,
{
    Reply { status: STATUS_BAD_REQUEST, body: ReplyBody::Text(message.to_owned()) }
}

/// The reply that tells how a request ended.
fn respond(outcome: Result<ReplyBody, RequestError>) -> (reply: Reply)
    ensures
        reply@ == reply_for(
            match outcome {
                Ok(body) => Ok(body@),
                Err(error) => Err(error),
            },
        ),
        outcome matches Ok(body) ==> reply.body == body,
{
    match outcome {
        Ok(body) => Reply { status: STATUS_OK, body },
        Err(error) => Reply { status: STATUS_BAD_REQUEST, body: ReplyBody::Error(error) },
    }
}

/// The reply that tells how a start or a stop ended.
pub fn respond_to_command(result: Result<(), RequestError>) -> (reply: Reply)
    ensures
        reply@ == reply_for_command(result),
        match result {
            Ok(_) => reply.status == 200 && (reply.body matches ReplyBody::Text(text) && text@.len()
                == 0),
            Err(error) => reply.status == 400 && reply.body == ReplyBody::Error(error),
        },
{
    match result {
        Ok(()) => respond(Ok(ReplyBody::Text(String::new()))),
        Err(error) => respond(Err(error)),
    }
}

/// Takes in what a client sent: a request that was understood is to be
/// processed, and one that was not, `None`, is refused without a look at any
/// daemon.
pub fn accept_request(parsed: Option<Request>) -> (accepted: Result<Request, Reply>)
    ensures
        match parsed {
            Some(request) => accepted == Ok::<Request, Reply>(request),
            None => accepted matches Err(reply) && reply@ == refusal("parse"@),
        },
{
    match parsed {
        Some(request) => Ok(request),
        None => Err(make_err_response("parse")),
    }
}

/// Decides what a client's request leads to at time `now`.
pub fn process_request<P, S>(
    context: &UberContext<P, S>,
    request: Request,
    now: u64,
) -> (action: RequestAction)
    requires
        context.well_formed(),
    ensures
        action@ == request_action(context@, request, now),
        request matches Request::StartDaemon { daemon } ==> action == (RequestAction::Start {
            daemon,
        }),
        request matches Request::StopDaemon { daemon } ==> action == (RequestAction::Stop {
            daemon,
        }),
        action matches RequestAction::Reply(Reply { body: ReplyBody::Status(report), .. })
            ==> report.daemons.well_formed() && report.daemons.names() == context@.names,
{
    match request {
        Request::Monitor => RequestAction::Monitor,
        Request::StartDaemon { daemon } => RequestAction::Start { daemon },
        Request::StopDaemon { daemon } => RequestAction::Stop { daemon },
        Request::Status => RequestAction::Reply(
            respond(Ok(ReplyBody::Status(context.get_status(now)))),
        ),
        Request::RestartDaemon { .. } => RequestAction::Reply(make_err_response("unimplemented")),
    }
}

} // verus!
