use ubervisor::config::GlobalConfig;
use ubervisor::startup::{startup, StartupAction, StartupEvent};

/// Carries a whole startup out and lists what was done. Every action that can
/// fail works, unless it is the one that `failing` names.
fn come_up(present: bool, failing: &str) -> Vec<String> {
    let global = GlobalConfig {
        control_socket_path: "/run/uber.sock".to_string(),
    };
    let mut done = Vec::new();
    let mut event = StartupEvent::Launched;
    loop {
        let (what, next) = match startup(&global, event) {
            StartupAction::RegisterSignals => {
                ("register".to_string(), StartupEvent::SignalsRegistered)
            }
            StartupAction::Look { path } => {
                (format!("look {}", path), StartupEvent::Looked { present })
            }
            StartupAction::Remove { path } => (format!("remove {}", path), StartupEvent::Removed),
            StartupAction::Bind { path } => (format!("bind {}", path), StartupEvent::Bound),
            StartupAction::Serve => {
                done.push("serve".to_string());
                return done;
            }
            StartupAction::Abort => {
                done.push("abort".to_string());
                return done;
            }
        };
        event = if !failing.is_empty() && what.starts_with(failing) {
            StartupEvent::Failed
        } else {
            next
        };
        done.push(what);
    }
}

#[test]
fn free_path_is_bound_as_it_is() {
    assert_eq!(
        come_up(false, ""),
        vec!["register", "look /run/uber.sock", "bind /run/uber.sock", "serve"]
    );
}

#[test]
fn old_socket_is_removed_before_the_bind() {
    assert_eq!(
        come_up(true, ""),
        vec![
            "register",
            "look /run/uber.sock",
            "remove /run/uber.sock",
            "bind /run/uber.sock",
            "serve"
        ]
    );
}

#[test]
fn first_failure_ends_the_startup() {
    assert_eq!(come_up(true, "register"), vec!["register", "abort"]);
    assert_eq!(
        come_up(true, "remove"),
        vec![
            "register",
            "look /run/uber.sock",
            "remove /run/uber.sock",
            "abort"
        ]
    );
    assert_eq!(
        come_up(false, "bind"),
        vec!["register", "look /run/uber.sock", "bind /run/uber.sock", "abort"]
    );
}
