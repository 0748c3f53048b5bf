use ubervisor::config::{Config, DaemonConfig};
use ubervisor::context::UberContext;
use ubervisor::daemon::{ChildProcess, Daemon, DaemonState, PollResult, Sink};
use ubervisor::lifecycle::{BroadcastAction, StartAction, StartEvent, StopAction, StopEvent};
use ubervisor::name_table::NameTable;
use ubervisor::protocol::{announcements, DaemonDeathInfo, DaemonStatus, Event, RequestError};

const SECOND: u64 = 1_000_000_000;

type Context = UberContext<char, u8>;

fn context(names: &[&str]) -> Context {
    let mut config = Config::new();
    for name in names {
        config.programs.insert(
            name.to_string(),
            DaemonConfig {
                command: format!("run {}", name),
                stdout: Some(format!("{}.log", name)),
                stderr: None,
            },
        );
    }
    UberContext::new(config)
}

fn child(process: char, pid: u32, start_time: u64) -> ChildProcess<char> {
    ChildProcess {
        process,
        pid,
        start_time,
    }
}

fn exited(code: i32) -> PollResult {
    PollResult::Exited {
        code: Some(code),
        signal: None,
    }
}

/// Carries a whole start out.
fn start(
    context: &mut Context,
    name: &str,
    poll: PollResult,
    spawned: Result<ChildProcess<char>, String>,
) -> Result<(), RequestError> {
    let mut spawned = Some(spawned);
    let mut event = StartEvent::Requested;
    loop {
        event = match context.start_process(name, event) {
            StartAction::Poll => StartEvent::Polled(poll),
            StartAction::Spawn(_) => StartEvent::Spawned(spawned.take().unwrap()),
            StartAction::Finish(result) => return result,
        };
    }
}

/// Carries a whole stop out: whether there was a kill, and how it ended.
fn stop(context: &Context, name: &str, poll: PollResult) -> (bool, Result<(), RequestError>) {
    let mut killed = false;
    let mut event = StopEvent::Requested;
    loop {
        event = match context.stop_process(name, event) {
            StopAction::Poll => StopEvent::Polled(poll),
            StopAction::Kill => {
                killed = true;
                StopEvent::Killed
            }
            StopAction::Finish(result) => return (killed, result),
        };
    }
}

fn status(context: &Context, name: &str, now: u64) -> DaemonStatus {
    let report = context.get_status(now);
    for (listed, status) in report.daemons.into_entries() {
        if listed == name {
            return status;
        }
    }
    panic!("{} is not in the report", name)
}

fn polls(answers: &[(&str, PollResult)]) -> NameTable<PollResult> {
    let mut table = NameTable::new();
    for (name, answer) in answers {
        table.insert(name.to_string(), *answer);
    }
    table
}

#[test]
fn fresh_daemons_are_stopped() {
    let context = context(&["web", "db"]);
    let report = context.get_status(7);
    assert_eq!(report.daemons.len(), 2);
    assert!(matches!(report.daemons.get("web"), Some(DaemonStatus::Stopped)));
    assert!(matches!(report.daemons.get("db"), Some(DaemonStatus::Stopped)));
    assert!(context.running_daemons().is_empty());
}

#[test]
fn fresh_daemon_is_spawned_without_a_poll() {
    let mut context = context(&["web"]);
    match context.start_process("web", StartEvent::Requested) {
        StartAction::Spawn(plan) => {
            assert_eq!(plan.program, "sh");
            assert_eq!(plan.args, vec!["-c", "run web"]);
            assert!(matches!(plan.stdout, Sink::Append { path } if path == "web.log"));
            assert!(matches!(plan.stderr, Sink::Discard));
        }
        other => panic!("unexpected action {:?}", other),
    }
    assert!(matches!(status(&context, "web", 0), DaemonStatus::Stopped));
}

#[test]
fn start_of_an_unknown_daemon_is_refused() {
    let mut context = context(&["web"]);
    let result = start(&mut context, "db", PollResult::Failed, Ok(child('p', 1, 0)));
    assert!(matches!(result, Err(RequestError::UnknownDaemonName)));
    assert!(matches!(status(&context, "web", 0), DaemonStatus::Stopped));
    assert!(context.running_daemons().is_empty());
}

#[test]
fn started_daemon_runs_and_counts_whole_seconds() {
    let mut context = context(&["web", "db"]);
    let result = start(
        &mut context,
        "web",
        PollResult::Failed,
        Ok(child('p', 41, 5)),
    );
    assert!(result.is_ok());
    assert_eq!(context.running_daemons(), vec!["web"]);
    assert_eq!(context.child_process_mut("web"), Some(&mut 'p'));
    assert_eq!(context.child_process_mut("db"), None);
    assert_eq!(context.child_process_mut("mail"), None);
    assert!(matches!(
        status(&context, "web", 5),
        DaemonStatus::Running { uptime: 0 }
    ));
    assert!(matches!(
        status(&context, "web", 3 * SECOND + 4),
        DaemonStatus::Running { uptime: 2 }
    ));
    assert!(matches!(
        status(&context, "web", 3 * SECOND + 5),
        DaemonStatus::Running { uptime: 3 }
    ));
    assert!(matches!(
        status(&context, "web", 4),
        DaemonStatus::Running { uptime: 0 }
    ));
    assert!(matches!(status(&context, "db", 5), DaemonStatus::Stopped));
}

#[test]
fn running_daemon_cannot_be_started_again() {
    let mut context = context(&["web"]);
    start(&mut context, "web", PollResult::Failed, Ok(child('p', 1, 0))).unwrap();
    let result = start(
        &mut context,
        "web",
        PollResult::StillRunning,
        Ok(child('q', 2, 0)),
    );
    assert!(matches!(result, Err(RequestError::DaemonAlreadyStarted)));
    assert_eq!(context.child_process_mut("web"), Some(&mut 'p'));
}

#[test]
fn process_that_has_exited_is_replaced() {
    let mut context = context(&["web"]);
    start(&mut context, "web", PollResult::Failed, Ok(child('p', 1, 0))).unwrap();
    start(&mut context, "web", exited(0), Ok(child('q', 2, SECOND))).unwrap();
    assert_eq!(context.child_process_mut("web"), Some(&mut 'q'));
    start(
        &mut context,
        "web",
        PollResult::Failed,
        Ok(child('r', 3, SECOND)),
    )
    .unwrap();
    assert_eq!(context.child_process_mut("web"), Some(&mut 'r'));
}

#[test]
fn failed_spawn_changes_nothing() {
    let mut context = context(&["web"]);
    let result = start(
        &mut context,
        "web",
        PollResult::Failed,
        Err("out of processes".to_string()),
    );
    match result {
        Err(RequestError::FailedToStartDaemon(reason)) => assert_eq!(reason, "out of processes"),
        other => panic!("unexpected result {:?}", other),
    }
    assert!(matches!(status(&context, "web", 0), DaemonStatus::Stopped));

    start(&mut context, "web", PollResult::Failed, Ok(child('p', 1, 0))).unwrap();
    let result = start(&mut context, "web", exited(1), Err("no".to_string()));
    assert!(matches!(result, Err(RequestError::FailedToStartDaemon(_))));
    assert_eq!(context.child_process_mut("web"), Some(&mut 'p'));
}

#[test]
fn stop_is_refused_where_there_is_nothing_to_stop() {
    let mut context = context(&["web"]);
    let (killed, result) = stop(&context, "db", PollResult::StillRunning);
    assert!(!killed);
    assert!(matches!(result, Err(RequestError::UnknownDaemonName)));
    let (killed, result) = stop(&context, "web", PollResult::StillRunning);
    assert!(!killed);
    assert!(matches!(result, Err(RequestError::DaemonAlreadyStopped)));
    start(&mut context, "web", PollResult::Failed, Ok(child('p', 1, 0))).unwrap();
    let (killed, result) = stop(&context, "web", exited(0));
    assert!(!killed);
    assert!(matches!(result, Err(RequestError::DaemonAlreadyStopped)));
}

#[test]
fn stop_kills_and_leaves_the_daemon_to_be_reaped() {
    let mut context = context(&["web"]);
    start(&mut context, "web", PollResult::Failed, Ok(child('p', 1, 0))).unwrap();
    let (killed, result) = stop(&context, "web", PollResult::StillRunning);
    assert!(killed && result.is_ok());
    let (killed, result) = stop(&context, "web", PollResult::Failed);
    assert!(killed && result.is_ok());
    assert_eq!(context.running_daemons(), vec!["web"]);
}

#[test]
fn reap_tells_of_the_dead_and_of_no_others() {
    let mut context = context(&["web", "db", "mail", "cron"]);
    for (name, pid) in [("web", 10), ("db", 20), ("mail", 30)] {
        start(&mut context, name, PollResult::Failed, Ok(child('p', pid, 0))).unwrap();
    }
    assert_eq!(context.running_daemons(), vec!["web", "db", "mail"]);
    let answers = polls(&[
        (
            "web",
            PollResult::Exited {
                code: None,
                signal: Some(9),
            },
        ),
        ("db", PollResult::StillRunning),
        ("mail", exited(3)),
        ("cron", exited(4)),
    ]);
    let events = context.reap_children(&answers);
    assert_eq!(events.len(), 2);
    match &events[0] {
        Event::DaemonStopped { name, info } => {
            assert_eq!(name, "web");
            assert_eq!(info.pid, 10);
            assert_eq!(info.timestamp, 0);
            assert_eq!(info.exit_status, None);
            assert_eq!(info.signal, Some(9));
        }
        other => panic!("unexpected event {:?}", other),
    }
    match &events[1] {
        Event::DaemonStopped { name, info } => {
            assert_eq!(name, "mail");
            assert_eq!(info.pid, 30);
            assert_eq!(info.exit_status, Some(3));
            assert_eq!(info.signal, None);
        }
        other => panic!("unexpected event {:?}", other),
    }
    assert_eq!(context.running_daemons(), vec!["db"]);
    assert!(matches!(
        status(&context, "web", 0),
        DaemonStatus::Exited { info } if info.pid == 10
    ));
    assert!(matches!(status(&context, "cron", 0), DaemonStatus::Stopped));
    assert!(context.reap_children(&answers).is_empty());
}

#[test]
fn failed_poll_reaps_nothing() {
    let mut context = context(&["web"]);
    start(&mut context, "web", PollResult::Failed, Ok(child('p', 1, 0))).unwrap();
    assert!(context
        .reap_children(&polls(&[("web", PollResult::Failed)]))
        .is_empty());
    assert!(context.reap_children(&polls(&[])).is_empty());
    assert_eq!(context.running_daemons(), vec!["web"]);
}

#[test]
fn dead_daemon_can_be_started_again() {
    let mut context = context(&["web"]);
    start(&mut context, "web", PollResult::Failed, Ok(child('p', 1, 0))).unwrap();
    context.reap_children(&polls(&[("web", exited(0))]));
    assert_eq!(context.child_process_mut("web"), None);
    assert!(matches!(
        context.start_process("web", StartEvent::Requested),
        StartAction::Spawn(_)
    ));
    start(
        &mut context,
        "web",
        PollResult::StillRunning,
        Ok(child('q', 2, 0)),
    )
    .unwrap();
    assert_eq!(context.running_daemons(), vec!["web"]);
}

#[test]
fn configs_outlive_everything() {
    let mut context = context(&["web"]);
    start(&mut context, "web", PollResult::Failed, Ok(child('p', 1, 0))).unwrap();
    context.reap_children(&polls(&[("web", exited(0))]));
    match context.start_process("web", StartEvent::Requested) {
        StartAction::Spawn(plan) => assert_eq!(plan.args, vec!["-c", "run web"]),
        other => panic!("unexpected action {:?}", other),
    }
    assert_eq!(context.get_status(0).daemons.len(), 1);
}

#[test]
fn daemon_made_from_a_config_is_not_started() {
    let mut daemon: Daemon<char> = Daemon::from(DaemonConfig {
        command: "true".to_string(),
        stdout: None,
        stderr: None,
    });
    assert!(matches!(daemon.state, DaemonState::NotStarted));
    assert_eq!(daemon.config.command, "true");
    assert!(daemon.get_child_process_mut().is_none());
    assert!(daemon.reap_single_child(&exited(0)).is_none());
    daemon.state = DaemonState::Running {
        child: child('p', 8, 0),
    };
    *daemon.get_child_process_mut().unwrap() = 'q';
    assert_eq!(daemon.get_child_process_mut(), Some(&mut 'q'));
    assert!(daemon.reap_single_child(&PollResult::Failed).is_none());
    assert!(daemon.reap_single_child(&PollResult::StillRunning).is_none());
    let info = daemon.reap_single_child(&exited(5)).unwrap();
    assert_eq!((info.pid, info.exit_status), (8, Some(5)));
    daemon.state = DaemonState::from(info);
    assert!(matches!(
        daemon.state.status(9),
        DaemonStatus::Exited {
            info: DaemonDeathInfo { pid: 8, .. }
        }
    ));
}

#[test]
fn second_reap_with_new_answers_tells_only_of_new_deaths() {
    let mut context = context(&["web", "db"]);
    for (name, pid) in [("web", 10), ("db", 20)] {
        start(&mut context, name, PollResult::Failed, Ok(child('p', pid, 0))).unwrap();
    }
    let first = polls(&[("web", exited(1)), ("db", PollResult::StillRunning)]);
    assert_eq!(context.reap_children(&first).len(), 1);
    assert_eq!(context.running_daemons(), vec!["db"]);
    let quiet = polls(&[("web", exited(7)), ("db", PollResult::StillRunning)]);
    assert!(context.reap_children(&quiet).is_empty());
    assert!(matches!(
        status(&context, "web", 0),
        DaemonStatus::Exited { info } if info.exit_status == Some(1)
    ));
    let events = context.reap_children(&polls(&[("db", exited(2))]));
    assert!(matches!(
        &events[..],
        [Event::DaemonStopped { name, info }] if name == "db" && info.pid == 20
    ));
}

#[test]
fn used_handle_changes_nothing_else() {
    let mut context = context(&["web", "db"]);
    start(&mut context, "web", PollResult::Failed, Ok(child('p', 10, 3))).unwrap();
    start(&mut context, "db", PollResult::Failed, Ok(child('d', 20, 3))).unwrap();
    *context.child_process_mut("web").unwrap() = 'u';
    let result = start(
        &mut context,
        "web",
        PollResult::StillRunning,
        Ok(child('q', 11, 9)),
    );
    assert!(matches!(result, Err(RequestError::DaemonAlreadyStarted)));
    assert_eq!(context.child_process_mut("web"), Some(&mut 'u'));
    assert_eq!(context.child_process_mut("db"), Some(&mut 'd'));
    assert!(matches!(
        status(&context, "web", SECOND + 3),
        DaemonStatus::Running { uptime: 1 }
    ));
    let (killed, result) = stop(&context, "web", PollResult::StillRunning);
    assert!(killed && result.is_ok());
    let events = context.reap_children(&polls(&[("web", exited(0))]));
    assert!(matches!(
        &events[..],
        [Event::DaemonStopped { name, info }] if name == "web" && info.pid == 10
    ));
}

#[test]
fn every_message_of_a_reap_goes_to_those_whom_the_earlier_ones_reached() {
    let mut context = context(&["web", "db", "mail"]);
    for (name, pid) in [("web", 10), ("db", 20), ("mail", 30)] {
        start(&mut context, name, PollResult::Failed, Ok(child('p', pid, 0))).unwrap();
    }
    for sender in [1, 2, 3] {
        context.add_sender(sender);
    }
    let events = context.reap_children(&polls(&[
        ("web", exited(0)),
        ("db", exited(0)),
        ("mail", exited(0)),
    ]));
    let texts = events
        .into_iter()
        .map(|event| match event {
            Event::DaemonStopped { name, .. } if name != "db" => Some(name),
            _ => None,
        })
        .collect();
    let mut sent = Vec::new();
    for message in announcements(texts) {
        let mut action = context.broadcast(message);
        while let BroadcastAction::Send(round) = action {
            let sender = *context.subscriber_mut(round.index).unwrap();
            sent.push(format!("{} to {}", round.message, sender));
            action = context.broadcast_served(round, sender != 2);
        }
    }
    assert_eq!(
        sent,
        vec!["web to 1", "web to 2", "web to 3", "mail to 1", "mail to 3"]
    );
    assert!(context.running_daemons().is_empty());
}

#[test]
fn life_of_a_daemon_from_spawn_to_spawn() {
    let mut context = context(&["web", "db"]);
    assert!(matches!(status(&context, "web", 9), DaemonStatus::Stopped));
    start(&mut context, "web", PollResult::Failed, Ok(child('p', 10, 0))).unwrap();
    start(&mut context, "db", PollResult::Failed, Ok(child('d', 20, 0))).unwrap();
    context.reap_children(&polls(&[("web", PollResult::StillRunning), ("db", exited(1))]));
    stop(&context, "web", PollResult::StillRunning);
    assert!(matches!(
        status(&context, "web", 4 * SECOND),
        DaemonStatus::Running { uptime: 4 }
    ));
    context.reap_children(&polls(&[("web", exited(6))]));
    start(&mut context, "db", PollResult::Failed, Ok(child('e', 21, 0))).unwrap();
    context.reap_children(&polls(&[("web", exited(7))]));
    let result = start(&mut context, "web", PollResult::Failed, Err("no".to_string()));
    assert!(result.is_err());
    assert!(matches!(
        status(&context, "web", 5 * SECOND),
        DaemonStatus::Exited { info } if info.pid == 10 && info.exit_status == Some(6)
    ));
    start(&mut context, "web", PollResult::Failed, Ok(child('q', 11, 0))).unwrap();
    assert!(matches!(
        status(&context, "web", SECOND),
        DaemonStatus::Running { uptime: 1 }
    ));
}
