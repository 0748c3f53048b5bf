//! What holds of one daemon, of its status and of its death.

use crate::config::DaemonConfig;
use crate::daemon::{death, status_at, ChildProcess, Daemon, DaemonState, PollResult};
use crate::protocol::{DaemonDeathInfo, DaemonStatus};
use vstd::prelude::*;
use vstd::std_specs::convert::FromSpec;

verus! {

/// A daemon that was never started is reported as stopped, and no other is.
pub proof fn law_status_stopped<P>(state: DaemonState<P>, now: u64)
    ensures
        status_at(state, now) is Stopped <==> state is NotStarted,
{
}

/// A daemon is reported as running if and only if it runs. Its uptime is the
/// number of whole seconds since its start, and 0 at a time before that.
pub proof fn law_status_running<P>(state: DaemonState<P>, now: u64)
    ensures
        status_at(state, now) is Running <==> state is Running,
        state matches DaemonState::Running { child } ==> (status_at(
            state,
            now,
        ) matches DaemonStatus::Running { uptime } && if child.start_time <= now {
            uptime * 1_000_000_000 <= now - child.start_time < (uptime + 1) * 1_000_000_000
        } else {
            uptime == 0
        }),
{
}

/// A daemon is reported as exited if and only if it has, with the whole of what
/// is known of its death.
pub proof fn law_status_exited<P>(state: DaemonState<P>, now: u64)
    ensures
        status_at(state, now) is Exited <==> state is Exited,
        state matches DaemonState::Exited { info } ==> status_at(state, now) == (
        DaemonStatus::Exited { info }),
{
}

/// Neither the process id nor the handle to the process enters a status, and
/// without a running process not even the time does.
pub proof fn law_status_rests_on_the_start_alone<P>(
    one: ChildProcess<P>,
    other: ChildProcess<P>,
    state: DaemonState<P>,
    now: u64,
    later: u64,
)
    ensures
        one.start_time == other.start_time ==> status_at(
            DaemonState::Running { child: one },
            now,
        ) == status_at(DaemonState::Running { child: other }, now),
        !(state is Running) ==> status_at(state, now) == status_at(state, later),
{
}

/// A death is told if and only if the daemon runs and its process has exited,
/// whatever code or signal it exited with.
pub proof fn law_death_is_found<P>(daemon: Daemon<P>, poll: PollResult)
    ensures
        death(daemon, poll) is Some <==> daemon.state is Running && poll is Exited,
{
}

/// What is told of a death is the id that the process had, and the code and the
/// signal that it exited with. No time is told.
pub proof fn law_death_says_how<P>(
    config: DaemonConfig,
    child: ChildProcess<P>,
    code: Option<i32>,
    signal: Option<i32>,
)
    ensures
        death(
            Daemon { config, state: DaemonState::Running { child } },
            PollResult::Exited { code, signal },
        ) == Some(
            DaemonDeathInfo { pid: child.pid, timestamp: 0, exit_status: code, signal },
        ),
{
}

/// A death that is noted makes a daemon exited with what is told of it, and a
/// daemon that a config makes has that config and was not started.
pub proof fn law_conversions<P>(info: DaemonDeathInfo, config: DaemonConfig)
    ensures
        <DaemonState<P> as FromSpec<DaemonDeathInfo>>::obeys_from_spec(),
        <DaemonState<P> as FromSpec<DaemonDeathInfo>>::from_spec(info) == (
        DaemonState::<P>::Exited { info }),
        <Daemon<P> as FromSpec<DaemonConfig>>::obeys_from_spec(),
        <Daemon<P> as FromSpec<DaemonConfig>>::from_spec(config).config == config,
        <Daemon<P> as FromSpec<DaemonConfig>>::from_spec(config).state is NotStarted,
{
}

/// A daemon in another state is run as before.
pub proof fn law_with_state<P>(daemon: Daemon<P>, state: DaemonState<P>)
    ensures
        daemon.with_state(state).config == daemon.config,
        daemon.with_state(state).state == state,
{
}

} // verus!
