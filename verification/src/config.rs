use crate::name_table::NameTable;
use vstd::prelude::*;

verus! {

/// Default path for control socket
pub const DEFAULT_SOCKET_PATH: &'static str = "/tmp/ubervisor.sock";

/// The control socket's path where a config file names none.
pub fn default_socket_path() -> (path: String)
    ensures
        path@ == DEFAULT_SOCKET_PATH@,
        path@ == "/tmp/ubervisor.sock"@,
{
    DEFAULT_SOCKET_PATH.to_owned()
}

/// Contains general top-level configuration for the ubervisor daemon
#[derive(Debug, Clone)]
pub struct GlobalConfig {
    pub control_socket_path: String,
}

impl Default for GlobalConfig {
    fn default() -> (config: Self)
        ensures
            config.control_socket_path@ == DEFAULT_SOCKET_PATH@,
            config.control_socket_path@ == "/tmp/ubervisor.sock"@,
    {
        Self { control_socket_path: default_socket_path() }
    }
}

/// How one daemon is run: its shell command, and the files that its output
/// goes to.
#[derive(Debug, Clone)]
pub struct DaemonConfig {
    pub command: String,
    pub stdout: Option<String>,
    pub stderr: Option<String>,
}

/// A whole configuration: the global part, and one entry for each daemon.
#[derive(Debug, Clone)]
pub struct Config {
    pub global: GlobalConfig,
    pub programs: NameTable<DaemonConfig>,
}

/// The global section of a config file, as far as the file spells it out.
#[derive(Debug, Clone)]
pub struct GlobalSection {
    pub control_socket_path: Option<String>,
}

/// The socket path that a global section stands for: the one that it names, or
/// the default one if it names none or is itself missing.
pub open spec fn socket_path(section: Option<GlobalSection>) -> Seq<char> {
    match section {
        Some(GlobalSection { control_socket_path: Some(path) }) => path@,
        _ => DEFAULT_SOCKET_PATH@,
    }
}

impl Config {
    /// No program occurs twice.
    pub open spec fn well_formed(&self) -> bool {
        self.programs.well_formed()
    }

    /// The configuration without any program.
    pub fn new() -> (config: Self)
        ensures
            config.well_formed(),
            config.global.control_socket_path@ == DEFAULT_SOCKET_PATH@,
            config.programs.names() == Seq::<Seq<char>>::empty(),
            config.programs@ == Map::<Seq<char>, DaemonConfig>::empty(),
    {
        Self { global: GlobalConfig::default(), programs: NameTable::new() }
    }

    /// The configuration that a file stands for, from its two sections. What the
    /// file leaves out of the global section takes its default.
    pub fn from_sections(
        global: Option<GlobalSection>,
        programs: NameTable<DaemonConfig>,
    ) -> (config: Self)
        ensures
            config.global.control_socket_path@ == socket_path(global),
            match global {
                Some(GlobalSection { control_socket_path: Some(path) }) => {
                    config.global.control_socket_path == path
                },
                _ => config.global.control_socket_path@ == "/tmp/ubervisor.sock"@,
            },
            config.programs == programs,
    {
        let global = match global {
            Some(section) => GlobalConfig {
                control_socket_path: match section.control_socket_path {
                    Some(path) => path,
                    None => default_socket_path(),
                },
            },
            None => GlobalConfig::default(),
        };
        Self { global, programs }
    }
}

} // verus!
