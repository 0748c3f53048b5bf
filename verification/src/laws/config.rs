//! What holds of the configuration and of the commands that it stands for.

use crate::config::{socket_path, DaemonConfig, GlobalSection, DEFAULT_SOCKET_PATH};
use crate::daemon::{plan_for, LaunchPlan, Sink};
use vstd::prelude::*;

verus! {

/// A path that the global section names is taken as it is, whatever it is.
pub proof fn law_named_socket_path(path: String)
    ensures
        socket_path(Some(GlobalSection { control_socket_path: Some(path) })) == path@,
{
}

/// Where the global section, or its path, is missing the socket is at its one
/// default place.
pub proof fn law_missing_socket_path(section: Option<GlobalSection>)
    requires
        section is None || section->0.control_socket_path is None,
    ensures
        socket_path(section) == "/tmp/ubervisor.sock"@,
        DEFAULT_SOCKET_PATH@ == "/tmp/ubervisor.sock"@,
{
}

/// Two sections that name different paths stand for different sockets.
pub proof fn law_socket_paths_are_told_apart(one: String, other: String)
    requires
        one@ != other@,
    ensures
        socket_path(Some(GlobalSection { control_socket_path: Some(one) })) != socket_path(
            Some(GlobalSection { control_socket_path: Some(other) }),
        ),
{
}

/// A daemon's command, whatever it is, reaches the shell as one word, and the
/// shell is told that it is a command.
pub proof fn law_command_goes_to_the_shell(config: DaemonConfig)
    ensures
        plan_for(config).program == "sh"@,
        plan_for(config).args.len() == 2,
        plan_for(config).args[0] == "-c"@,
        plan_for(config).args[1] == config.command@,
{
}

/// The standard output is appended to the file that the config names for it, if
/// it names one, and is discarded if and only if it names none.
pub proof fn law_stdout_goes_where_the_config_says(config: DaemonConfig)
    ensures
        plan_for(config).stdout matches Sink::Append { path } <==> config.stdout is Some,
        plan_for(config).stdout is Discard <==> config.stdout is None,
        config.stdout matches Some(path) ==> plan_for(config).stdout == (Sink::Append { path }),
{
}

/// The standard error is appended to the file that the config names for it, if
/// it names one, and is discarded if and only if it names none.
pub proof fn law_stderr_goes_where_the_config_says(config: DaemonConfig)
    ensures
        plan_for(config).stderr matches Sink::Append { path } <==> config.stderr is Some,
        plan_for(config).stderr is Discard <==> config.stderr is None,
        config.stderr matches Some(path) ==> plan_for(config).stderr == (Sink::Append { path }),
{
}

/// Each part of a plan rests on its own part of the config and on no other.
pub proof fn law_parts_of_a_plan_are_independent(one: DaemonConfig, other: DaemonConfig)
    ensures
        one.command@ == other.command@ ==> plan_for(one).program == plan_for(other).program
            && plan_for(one).args == plan_for(other).args,
        one.stdout == other.stdout ==> plan_for(one).stdout == plan_for(other).stdout,
        one.stderr == other.stderr ==> plan_for(one).stderr == plan_for(other).stderr,
        one.stdout == other.stderr ==> plan_for(one).stdout == plan_for(other).stderr,
{
}

/// A plan is seen as what it holds.
pub proof fn law_view_of_a_plan(plan: LaunchPlan)
    ensures
        plan@.program == plan.program@,
        plan@.args.len() == plan.args@.len(),
        forall|i: int| 0 <= i < plan.args@.len() ==> #[trigger] plan@.args[i] == plan.args@[i]@,
        plan@.stdout == plan.stdout,
        plan@.stderr == plan.stderr,
{
}

} // verus!
