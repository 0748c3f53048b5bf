use crate::config::GlobalConfig;
use vstd::prelude::*;

verus! {

/// What has happened while the supervisor comes up.
#[derive(Debug, Clone, Copy)]
pub enum StartupEvent {
    /// The supervisor was launched.
    Launched,
    /// The signals that it listens for are registered.
    SignalsRegistered,
    /// The control socket's path was looked at: whether something is there.
    Looked { present: bool },
    /// What was there is removed.
    Removed,
    /// The control socket is bound.
    Bound,
    /// What was to be done could not be done.
    Failed,
}

/// What is to be done next while the supervisor comes up.
#[derive(Debug)]
pub enum StartupAction {
    /// Register the signals.
    RegisterSignals,
    /// Look whether something is at `path`.
    Look { path: String },
    /// Remove what is at `path`.
    Remove { path: String },
    /// Bind the control socket to `path`.
    Bind { path: String },
    /// Serve clients and listen for signals.
    Serve,
    /// End, with the failure that there was.
    Abort,
}

/// What is to be done after `event`. The only path that is touched is that of
/// the control socket.
pub open spec fn startup_action(global: GlobalConfig, event: StartupEvent) -> StartupAction {
    let path = global.control_socket_path;
    match event {
        StartupEvent::Launched => StartupAction::RegisterSignals,
        StartupEvent::SignalsRegistered => StartupAction::Look { path },
        StartupEvent::Looked { present } => if present {
            StartupAction::Remove { path }
        } else {
            StartupAction::Bind { path }
        },
        StartupEvent::Removed => StartupAction::Bind { path },
        StartupEvent::Bound => StartupAction::Serve,
        StartupEvent::Failed => StartupAction::Abort,
    }
}

/// Decides, after `event`, what is to be done next while the supervisor comes
/// up.
pub fn startup(global: &GlobalConfig, event: StartupEvent) -> (action: StartupAction)
    ensures
        action == startup_action(*global, event),
{
    match event {
        StartupEvent::Launched => StartupAction::RegisterSignals,
        StartupEvent::SignalsRegistered => StartupAction::Look {
            path: global.control_socket_path.clone(),
        },
        StartupEvent::Looked { present } => {
            let path = global.control_socket_path.clone();
            if present {
                StartupAction::Remove { path }
            } else {
                StartupAction::Bind { path }
            }
        },
        StartupEvent::Removed => StartupAction::Bind { path: global.control_socket_path.clone() },
        StartupEvent::Bound => StartupAction::Serve,
        StartupEvent::Failed => StartupAction::Abort,
    }
}

} // verus!
