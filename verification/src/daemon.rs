use crate::config::DaemonConfig;
use crate::protocol::{DaemonDeathInfo, DaemonStatus};
use vstd::prelude::*;

verus! {

/// Nanoseconds in one second.
pub const NANOS_PER_SEC: u64 = 1_000_000_000;

/// A process that was just spawned: the handle to it, its id, and the time of
/// its start, in nanoseconds since some fixed moment.
#[derive(Debug)]
pub struct ChildProcess<P> {
    pub process: P,
    pub pid: u32,
    pub start_time: u64,
}

/// What looking at a process, without waiting for it, tells of it.
#[derive(Debug, Clone, Copy)]
pub enum PollResult {
    StillRunning,
    Exited { code: Option<i32>, signal: Option<i32> },
    Failed,
}

/// Where a daemon stands. `P` is the handle through which the process is
/// watched and killed.
#[derive(Debug)]
pub enum DaemonState<P> {
    NotStarted,
    Running { child: ChildProcess<P> },
    Exited { info: DaemonDeathInfo },
}

impl<P> From<DaemonDeathInfo> for DaemonState<P> {
    fn from(info: DaemonDeathInfo) -> (state: Self) {
        DaemonState::Exited { info }
    }
}

impl<P> vstd::std_specs::convert::FromSpecImpl<DaemonDeathInfo> for DaemonState<P> {
    open spec fn obeys_from_spec() -> bool {
        true
    }

    open spec fn from_spec(info: DaemonDeathInfo) -> Self {
        DaemonState::Exited { info }
    }
}

/// The whole seconds that lie between two times, or 0 if `now` is the earlier.
pub open spec fn whole_secs_between(start: u64, now: u64) -> int {
    if start <= now {
        (now - start) / NANOS_PER_SEC as int
    } else {
        0
    }
}

/// What a status report at time `now` says of a daemon in state `state`.
pub open spec fn status_at<P>(state: DaemonState<P>, now: u64) -> DaemonStatus {
    match state {
        DaemonState::NotStarted => DaemonStatus::Stopped,
        DaemonState::Running { child } => DaemonStatus::Running {
            uptime: whole_secs_between(child.start_time, now) as u64,
        },
        DaemonState::Exited { info } => DaemonStatus::Exited { info },
    }
}

impl<P> DaemonState<P> {
    /// The daemon's status at time `now`.
    pub fn status(&self, now: u64) -> (status: DaemonStatus)
        ensures
            status == status_at(*self, now),
    {
        match self {
            DaemonState::NotStarted => DaemonStatus::Stopped,
            DaemonState::Running { child } => {
                let elapsed: u64 = if child.start_time <= now {
                    now - child.start_time
                } else {
                    0
                };
                DaemonStatus::Running { uptime: elapsed / NANOS_PER_SEC }
            },
            DaemonState::Exited { info } => DaemonStatus::Exited { info: *info },
        }
    }
}

/// A daemon: how it is run, and where it stands.
#[derive(Debug)]
pub struct Daemon<P> {
    pub config: DaemonConfig,
    pub state: DaemonState<P>,
}

impl<P> From<DaemonConfig> for Daemon<P> {
    fn from(config: DaemonConfig) -> (daemon: Self) {
        Daemon { config: config, state: DaemonState::NotStarted }
    }
}

impl<P> vstd::std_specs::convert::FromSpecImpl<DaemonConfig> for Daemon<P> {
    open spec fn obeys_from_spec() -> bool {
        true
    }

    open spec fn from_spec(config: DaemonConfig) -> Self {
        Daemon { config, state: DaemonState::NotStarted }
    }
}

/// The death that a poll of its process tells of a daemon: one is told only of
/// a running daemon, and only by a process that has exited.
pub open spec fn death<P>(daemon: Daemon<P>, poll: PollResult) -> Option<DaemonDeathInfo> {
    match (daemon.state, poll) {
        (DaemonState::Running { child }, PollResult::Exited { code, signal }) => Some(
            DaemonDeathInfo { pid: child.pid, timestamp: 0, exit_status: code, signal },
        ),
        _ => None,
    }
}

impl<P> Daemon<P> {
    /// The same daemon in another state.
    pub open spec fn with_state(self, state: DaemonState<P>) -> Self {
        Daemon { config: self.config, state }
    }

    /// The handle to the daemon's process, if it is running.
    pub fn get_child_process_mut(&mut self) -> (process: Option<&mut P>)
        ensures
            match process {
                Some(handle) => {
                    &&& old(self).state matches DaemonState::Running { child }
                    &&& *handle == child.process
                    &&& *final(self) == old(self).with_state(
                        DaemonState::Running {
                            child: ChildProcess {
                                process: *final(handle),
                                pid: child.pid,
                                start_time: child.start_time,
                            },
                        },
                    )
                },
                None => !(old(self).state is Running) && *final(self) == *old(self),
            },
    {
        match &mut self.state {
            DaemonState::Running { child } => Some(&mut child.process),
            _ => None,
        }
    }

    /// How the daemon's process died, if the daemon is running and `poll`, the
    /// answer of its process, says that it has exited.
    pub fn reap_single_child(&self, poll: &PollResult) -> (info: Option<DaemonDeathInfo>)
        ensures
            info == death(*self, *poll),
    {
        match &self.state {
            DaemonState::Running { child } => match poll {
                PollResult::Failed => None,
                PollResult::StillRunning => None,
                PollResult::Exited { code, signal } => Some(
                    DaemonDeathInfo {
                        pid: child.pid,
                        timestamp: 0,
                        exit_status: *code,
                        signal: *signal,
                    },
                ),
            },
            _ => None,
        }
    }
}

/// Where one of a process's output streams goes.
#[derive(Debug)]
pub enum Sink {
    /// To the null device.
    Discard,
    /// To the end of a file, which is created if it is not there.
    Append { path: String },
}

/// The sink of a stream for which the config names the file `path`, or none.
pub open spec fn sink_for(path: Option<String>) -> Sink {
    match path {
        Some(path) => Sink::Append { path },
        None => Sink::Discard,
    }
}

impl Sink {
    fn for_path(path: &Option<String>) -> (sink: Sink)
        ensures
            sink == sink_for(*path),
    {
        match path {
            Some(path) => Sink::Append { path: path.clone() },
            None => Sink::Discard,
        }
    }
}

/// A command to spawn: a program, its arguments, and where its output goes.
#[derive(Debug)]
pub struct LaunchPlan {
    pub program: String,
    pub args: Vec<String>,
    pub stdout: Sink,
    pub stderr: Sink,
}

/// A launch plan with its words as sequences of characters.
#[verifier::ext_equal]
pub struct LaunchPlanView {
    pub program: Seq<char>,
    pub args: Seq<Seq<char>>,
    pub stdout: Sink,
    pub stderr: Sink,
}

impl View for LaunchPlan {
    type V = LaunchPlanView;

    open spec fn view(&self) -> LaunchPlanView {
        LaunchPlanView {
            program: self.program@,
            args: self.args@.map_values(|arg: String| arg@),
            stdout: self.stdout,
            stderr: self.stderr,
        }
    }
}

/// A daemon's command is handed to the shell.
pub open spec fn plan_for(config: DaemonConfig) -> LaunchPlanView {
    LaunchPlanView {
        program: "sh"@,
        args: seq!["-c"@, config.command@],
        stdout: sink_for(config.stdout),
        stderr: sink_for(config.stderr),
    }
}

impl DaemonConfig {
    /// How to launch the daemon.
    pub fn launch_plan(&self) -> (plan: LaunchPlan)
        ensures
            plan@ == plan_for(*self),
            plan.program@ == "sh"@,
            plan.args@.len() == 2,
            plan.args@[0]@ == "-c"@,
            plan.args@[1]@ == self.command@,
            match self.stdout {
                Some(path) => plan.stdout == (Sink::Append { path }),
                None => plan.stdout is Discard,
            },
            match self.stderr {
                Some(path) => plan.stderr == (Sink::Append { path }),
                None => plan.stderr is Discard,
            },
    {
        let mut args: Vec<String> = Vec::new();
        args.push("-c".to_owned());
        args.push(self.command.clone());
        let plan = LaunchPlan {
            program: "sh".to_owned(),
            args,
            stdout: Sink::for_path(&self.stdout),
            stderr: Sink::for_path(&self.stderr),
        };
        assert(plan@.args =~= plan_for(*self).args);
        plan
    }
}

} // verus!
