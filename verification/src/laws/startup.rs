//! What holds of coming up.

use crate::config::GlobalConfig;
use crate::startup::{startup_action, StartupAction, StartupEvent};
use vstd::prelude::*;

verus! {

/// What the system comes to while the supervisor comes up, as far as it is called
/// on: whether the signals can be registered, whether something is at the
/// socket's path, and whether it can be removed and the socket bound.
pub struct StartupSurroundings {
    pub registers: bool,
    pub present: bool,
    pub removes: bool,
    pub binds: bool,
}

/// What an action comes to in such surroundings, and `None` for one that ends the
/// startup.
pub open spec fn startup_outcome(
    action: StartupAction,
    around: StartupSurroundings,
) -> Option<StartupEvent> {
    let or_failed = |works: bool, event: StartupEvent|
        Some(
            if works {
                event
            } else {
                StartupEvent::Failed
            },
        );
    match action {
        StartupAction::RegisterSignals => or_failed(
            around.registers,
            StartupEvent::SignalsRegistered,
        ),
        StartupAction::Look { .. } => Some(StartupEvent::Looked { present: around.present }),
        StartupAction::Remove { .. } => or_failed(around.removes, StartupEvent::Removed),
        StartupAction::Bind { .. } => or_failed(around.binds, StartupEvent::Bound),
        StartupAction::Serve => None,
        StartupAction::Abort => None,
    }
}

/// The actions of a startup from `event` on, at most `steps` of them.
pub open spec fn startup_actions(
    global: GlobalConfig,
    event: StartupEvent,
    around: StartupSurroundings,
    steps: nat,
) -> Seq<StartupAction>
    decreases steps,
{
    if steps == 0 {
        Seq::empty()
    } else {
        let action = startup_action(global, event);
        match startup_outcome(action, around) {
            None => seq![action],
            Some(next) => seq![action] + startup_actions(global, next, around, (steps - 1) as nat),
        }
    }
}

/// A startup registers the signals, looks at the control socket's path, removes
/// what is there, if something is, and binds; then it serves. It ends at the
/// first of these that fails, and does none that would come later.
pub proof fn law_startup(global: GlobalConfig, around: StartupSurroundings, steps: nat)
    requires
        steps >= 5,
    ensures
        ({
            let path = global.control_socket_path;
            let looked = seq![StartupAction::RegisterSignals, StartupAction::Look { path }];
            let removed = looked.push(StartupAction::Remove { path });
            let cleared = if around.present {
                removed
            } else {
                looked
            };
            startup_actions(global, StartupEvent::Launched, around, steps) == (
            if !around.registers {
                seq![StartupAction::RegisterSignals, StartupAction::Abort]
            } else if around.present && !around.removes {
                removed.push(StartupAction::Abort)
            } else if !around.binds {
                cleared.push(StartupAction::Bind { path }).push(StartupAction::Abort)
            } else {
                cleared.push(StartupAction::Bind { path }).push(StartupAction::Serve)
            })
        }),
{
    let path = global.control_socket_path;
    let looked = seq![StartupAction::RegisterSignals, StartupAction::Look { path }];
    let removed = looked.push(StartupAction::Remove { path });
    let cleared = if around.present {
        removed
    } else {
        looked
    };
    reveal_with_fuel(startup_actions, 6);
    let actions = startup_actions(global, StartupEvent::Launched, around, steps);
    if !around.registers {
        assert(actions =~= seq![StartupAction::RegisterSignals, StartupAction::Abort]);
    } else if around.present && !around.removes {
        assert(actions =~= removed.push(StartupAction::Abort));
    } else if !around.binds {
        assert(actions =~= cleared.push(StartupAction::Bind { path }).push(StartupAction::Abort));
    } else {
        assert(actions =~= cleared.push(StartupAction::Bind { path }).push(StartupAction::Serve));
    }
}

} // verus!
