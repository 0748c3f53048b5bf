use ubervisor::config::{
    default_socket_path, Config, DaemonConfig, GlobalConfig, GlobalSection, DEFAULT_SOCKET_PATH,
};
use ubervisor::daemon::Sink;
use ubervisor::name_table::NameTable;

fn daemon(command: &str) -> DaemonConfig {
    DaemonConfig {
        command: command.to_string(),
        stdout: None,
        stderr: None,
    }
}

#[test]
fn default_path_is_in_tmp() {
    assert_eq!(DEFAULT_SOCKET_PATH, "/tmp/ubervisor.sock");
    assert_eq!(default_socket_path(), "/tmp/ubervisor.sock");
    assert_eq!(
        GlobalConfig::default().control_socket_path,
        "/tmp/ubervisor.sock"
    );
}

#[test]
fn new_config_is_empty() {
    let config = Config::new();
    assert_eq!(config.global.control_socket_path, "/tmp/ubervisor.sock");
    assert_eq!(config.programs.len(), 0);
}

#[test]
fn missing_global_section_takes_the_default() {
    let mut programs = NameTable::new();
    programs.insert("web".to_string(), daemon("serve"));
    let config = Config::from_sections(None, programs);
    assert_eq!(config.global.control_socket_path, "/tmp/ubervisor.sock");
    assert_eq!(config.programs.len(), 1);
    assert_eq!(config.programs.get("web").unwrap().command, "serve");
}

#[test]
fn global_section_without_path_takes_the_default() {
    let section = GlobalSection {
        control_socket_path: None,
    };
    let config = Config::from_sections(Some(section), NameTable::new());
    assert_eq!(config.global.control_socket_path, "/tmp/ubervisor.sock");
}

#[test]
fn global_section_with_path_keeps_it() {
    let section = GlobalSection {
        control_socket_path: Some("/run/uber.sock".to_string()),
    };
    let config = Config::from_sections(Some(section), NameTable::new());
    assert_eq!(config.global.control_socket_path, "/run/uber.sock");
}

#[test]
fn launch_plan_runs_the_command_in_a_shell() {
    let plan = daemon("sleep 5 && echo done").launch_plan();
    assert_eq!(plan.program, "sh");
    assert_eq!(plan.args, vec!["-c", "sleep 5 && echo done"]);
    assert!(matches!(plan.stdout, Sink::Discard));
    assert!(matches!(plan.stderr, Sink::Discard));
}

#[test]
fn launch_plan_appends_to_the_configured_files() {
    let mut config = daemon("true");
    config.stdout = Some("/var/log/out".to_string());
    config.stderr = Some("/var/log/err".to_string());
    let plan = config.launch_plan();
    match (plan.stdout, plan.stderr) {
        (Sink::Append { path: out }, Sink::Append { path: err }) => {
            assert_eq!(out, "/var/log/out");
            assert_eq!(err, "/var/log/err");
        }
        other => panic!("unexpected sinks {:?}", other),
    }
}

#[test]
fn table_keeps_one_value_under_each_name() {
    let mut table = NameTable::new();
    table.insert("a".to_string(), 1);
    table.insert("b".to_string(), 2);
    table.insert("a".to_string(), 3);
    assert_eq!(table.len(), 2);
    assert_eq!(table.get("a"), Some(&3));
    assert_eq!(table.get("b"), Some(&2));
    assert_eq!(table.get("c"), None);
    assert_eq!(table.entry(0), (&"a".to_string(), &3));
    *table.get_mut("b").unwrap() += 10;
    assert!(table.get_mut("c").is_none());
    assert_eq!(
        table.into_entries(),
        vec![("a".to_string(), 3), ("b".to_string(), 12)]
    );
}
