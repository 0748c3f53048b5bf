use ubervisor::config::{Config, DaemonConfig};
use ubervisor::context::UberContext;
use ubervisor::daemon::{ChildProcess, PollResult};
use ubervisor::lifecycle::{BroadcastAction, StartAction, StartEvent, StopAction, StopEvent};
use ubervisor::protocol::{announcements, DaemonStatus, Request, RequestError};
use ubervisor::request::{
    accept_request, make_err_response, process_request, respond_to_command, Reply, ReplyBody, RequestAction,
};
use ubervisor::signals::{handle_signal, Signal, SignalAction};

type Context = UberContext<u32, char>;

fn context() -> Context {
    let mut config = Config::new();
    config.programs.insert(
        "web".to_string(),
        DaemonConfig {
            command: "serve".to_string(),
            stdout: None,
            stderr: None,
        },
    );
    UberContext::new(config)
}

/// Broadcasts to all but those in `closed`, and lists who was sent what.
fn broadcast(context: &mut Context, message: &'static str, closed: &[char]) -> Vec<(char, &'static str)> {
    let mut sent = Vec::new();
    let mut action = context.broadcast(message);
    while let BroadcastAction::Send(round) = action {
        let sender = *context.subscriber_mut(round.index).unwrap();
        sent.push((sender, round.message));
        action = context.broadcast_served(round, !closed.contains(&sender));
    }
    sent
}

fn text(reply: Reply) -> (u16, String) {
    match reply.body {
        ReplyBody::Text(text) => (reply.status, text),
        other => panic!("unexpected body {:?}", other),
    }
}

#[test]
fn broadcast_without_subscribers_is_over_at_once() {
    let mut context = context();
    assert!(matches!(context.broadcast("m"), BroadcastAction::Finish));
    assert!(context.subscriber_mut(0).is_none());
}

#[test]
fn broadcast_reaches_all_in_order() {
    let mut context = context();
    for sender in ['a', 'b', 'c'] {
        context.add_sender(sender);
    }
    let all = vec![('a', "m"), ('b', "m"), ('c', "m")];
    assert_eq!(broadcast(&mut context, "m", &[]), all);
    assert_eq!(broadcast(&mut context, "m", &[]), all);
}

#[test]
fn closed_subscribers_are_dropped_and_the_rest_keep_their_order() {
    let mut context = context();
    for sender in ['a', 'b', 'c', 'd'] {
        context.add_sender(sender);
    }
    assert_eq!(
        broadcast(&mut context, "one", &['a', 'c']),
        vec![('a', "one"), ('b', "one"), ('c', "one"), ('d', "one")]
    );
    context.add_sender('e');
    assert_eq!(
        broadcast(&mut context, "two", &[]),
        vec![('b', "two"), ('d', "two"), ('e', "two")]
    );
    broadcast(&mut context, "three", &['b', 'd', 'e']);
    assert!(broadcast(&mut context, "four", &[]).is_empty());
}

#[test]
fn events_without_a_text_are_passed_over() {
    let texts = vec![Some("a".to_string()), None, Some("b".to_string()), None];
    assert_eq!(announcements(texts), vec!["a", "b"]);
    assert!(announcements(vec![None]).is_empty());
    assert!(announcements(Vec::new()).is_empty());
}

#[test]
fn unintelligible_request_is_refused() {
    match accept_request(None) {
        Err(reply) => assert_eq!(text(reply), (400, "parse".to_string())),
        other => panic!("unexpected outcome {:?}", other),
    }
    assert!(matches!(
        accept_request(Some(Request::Status)),
        Ok(Request::Status)
    ));
}

#[test]
fn restart_is_not_provided_for() {
    let request = Request::RestartDaemon {
        daemon: "web".to_string(),
    };
    match process_request(&context(), request, 0) {
        RequestAction::Reply(reply) => {
            assert_eq!(text(reply), (400, "unimplemented".to_string()))
        }
        other => panic!("unexpected action {:?}", other),
    }
}

#[test]
fn status_request_is_answered_with_a_report() {
    match process_request(&context(), Request::Status, 0) {
        RequestAction::Reply(Reply {
            status: 200,
            body: ReplyBody::Status(report),
        }) => {
            assert_eq!(report.daemons.len(), 1);
            assert!(matches!(
                report.daemons.get("web"),
                Some(DaemonStatus::Stopped)
            ));
        }
        other => panic!("unexpected action {:?}", other),
    }
}

#[test]
fn commands_are_passed_on() {
    let context = context();
    let daemon = "web".to_string();
    let start = Request::StartDaemon {
        daemon: daemon.clone(),
    };
    assert!(matches!(
        process_request(&context, start, 0),
        RequestAction::Start { daemon } if daemon == "web"
    ));
    let stop = Request::StopDaemon { daemon };
    assert!(matches!(
        process_request(&context, stop, 0),
        RequestAction::Stop { daemon } if daemon == "web"
    ));
    assert!(matches!(
        process_request(&context, Request::Monitor, 0),
        RequestAction::Monitor
    ));
}

#[test]
fn replies_carry_their_status() {
    assert_eq!(text(respond_to_command(Ok(()))), (200, String::new()));
    assert_eq!(
        text(make_err_response("no")),
        (400, "no".to_string())
    );
    let reply = respond_to_command(Err(RequestError::DaemonAlreadyStopped));
    assert_eq!(reply.status, 400);
    assert!(matches!(
        reply.body,
        ReplyBody::Error(RequestError::DaemonAlreadyStopped)
    ));
}

#[test]
fn signals_lead_to_their_actions() {
    match handle_signal(Signal::User) {
        SignalAction::Broadcast { message } => assert_eq!(message.as_bytes(), b"Florp\n"),
        other => panic!("unexpected action {:?}", other),
    }
    assert!(matches!(handle_signal(Signal::Child), SignalAction::Reap));
    assert!(matches!(
        handle_signal(Signal::Terminate),
        SignalAction::Shutdown
    ));
}

/// Carries a request out. Every poll answers `poll`, every spawn comes to
/// `spawned`, and `None` stands for a client that reads the event stream.
fn answer(
    context: &mut Context,
    request: Request,
    now: u64,
    poll: PollResult,
    spawned: Result<u32, &str>,
) -> Option<Reply> {
    let result = match process_request(context, request, now) {
        RequestAction::Monitor => {
            context.add_sender('m');
            return None;
        }
        RequestAction::Reply(reply) => return Some(reply),
        RequestAction::Start { daemon } => {
            let mut event = StartEvent::Requested;
            loop {
                event = match context.start_process(&daemon, event) {
                    StartAction::Poll => StartEvent::Polled(poll),
                    StartAction::Spawn(_) => StartEvent::Spawned(match spawned {
                        Ok(pid) => Ok(ChildProcess {
                            process: pid,
                            pid,
                            start_time: now,
                        }),
                        Err(reason) => Err(reason.to_string()),
                    }),
                    StartAction::Finish(result) => break result,
                };
            }
        }
        RequestAction::Stop { daemon } => {
            let mut event = StopEvent::Requested;
            loop {
                event = match context.stop_process(&daemon, event) {
                    StopAction::Poll => StopEvent::Polled(poll),
                    StopAction::Kill => StopEvent::Killed,
                    StopAction::Finish(result) => break result,
                };
            }
        }
    };
    Some(respond_to_command(result))
}

fn start_of(daemon: &str) -> Request {
    Request::StartDaemon {
        daemon: daemon.to_string(),
    }
}

fn stop_of(daemon: &str) -> Request {
    Request::StopDaemon {
        daemon: daemon.to_string(),
    }
}

fn error(reply: Option<Reply>) -> RequestError {
    match reply {
        Some(Reply {
            status: 400,
            body: ReplyBody::Error(error),
        }) => error,
        other => panic!("unexpected answer {:?}", other),
    }
}

#[test]
fn refused_commands_are_answered_with_their_error() {
    let mut context = context();
    let there = PollResult::StillRunning;
    let gone = PollResult::Exited {
        code: Some(0),
        signal: None,
    };
    assert!(matches!(
        error(answer(&mut context, start_of("db"), 0, there, Ok(1))),
        RequestError::UnknownDaemonName
    ));
    assert!(matches!(
        error(answer(&mut context, stop_of("db"), 0, there, Ok(1))),
        RequestError::UnknownDaemonName
    ));
    assert!(matches!(
        error(answer(&mut context, stop_of("web"), 0, there, Ok(1))),
        RequestError::DaemonAlreadyStopped
    ));
    match error(answer(&mut context, start_of("web"), 0, there, Err("no shell"))) {
        RequestError::FailedToStartDaemon(reason) => assert_eq!(reason, "no shell"),
        other => panic!("unexpected error {:?}", other),
    }
    assert!(context.running_daemons().is_empty());

    let started = answer(&mut context, start_of("web"), 0, there, Ok(1)).unwrap();
    assert_eq!(text(started), (200, String::new()));
    assert!(matches!(
        error(answer(&mut context, start_of("web"), 0, there, Ok(2))),
        RequestError::DaemonAlreadyStarted
    ));
    assert!(matches!(
        error(answer(&mut context, stop_of("web"), 0, gone, Ok(2))),
        RequestError::DaemonAlreadyStopped
    ));
    assert_eq!(context.child_process_mut("web"), Some(&mut 1));
    let stopped = answer(&mut context, stop_of("web"), 0, there, Ok(2)).unwrap();
    assert_eq!(text(stopped), (200, String::new()));
}

#[test]
fn uptime_grows_from_one_report_to_the_next() {
    let mut context = context();
    answer(&mut context, start_of("web"), 500_000_000, PollResult::Failed, Ok(1));
    let mut uptimes = Vec::new();
    for now in [500_000_000, 1_499_999_999, 1_500_000_000, 9_000_000_000] {
        match answer(&mut context, Request::Status, now, PollResult::Failed, Ok(1)) {
            Some(Reply {
                status: 200,
                body: ReplyBody::Status(report),
            }) => match report.daemons.get("web") {
                Some(DaemonStatus::Running { uptime }) => uptimes.push(*uptime),
                other => panic!("unexpected status {:?}", other),
            },
            other => panic!("unexpected answer {:?}", other),
        }
    }
    assert_eq!(uptimes, vec![0, 0, 1, 8]);
}

#[test]
fn only_who_monitors_is_subscribed() {
    let mut context = context();
    answer(&mut context, start_of("web"), 0, PollResult::Failed, Ok(1));
    answer(&mut context, Request::Status, 0, PollResult::Failed, Ok(1));
    assert!(context.subscriber_mut(0).is_none());
    assert!(answer(&mut context, Request::Monitor, 0, PollResult::Failed, Ok(1)).is_none());
    assert_eq!(context.subscriber_mut(0), Some(&mut 'm'));
    assert!(context.subscriber_mut(1).is_none());
    *context.subscriber_mut(0).unwrap() = 'n';
    assert_eq!(broadcast(&mut context, "m", &[]), vec![('n', "m")]);
}
