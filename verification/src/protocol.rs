use crate::name_table::NameTable;
use vstd::prelude::*;

verus! {

/// What a client asks of the supervisor.
#[derive(Debug)]
pub enum Request {
    StartDaemon { daemon: String },
    StopDaemon { daemon: String },
    RestartDaemon { daemon: String },
    Status,
    Monitor,
}

/// Why a request was refused.
#[derive(Debug)]
pub enum RequestError {
    UnknownDaemonName,
    DaemonAlreadyStarted,
    DaemonAlreadyStopped,
    FailedToStartDaemon(String),
}

/// What the subscribers of the event stream are told.
#[derive(Debug)]
pub enum Event {
    DaemonStarted { name: String, pid: i32 },
    DaemonStopped { name: String, info: DaemonDeathInfo },
}

/// How a daemon's process came to its end.
#[derive(Debug, Clone, Copy)]
pub struct DaemonDeathInfo {
    pub pid: u32,
    pub timestamp: u64,
    pub exit_status: Option<i32>,
    pub signal: Option<i32>,
}

/// What a status report says of one daemon.
#[derive(Debug)]
pub enum DaemonStatus {
    Stopped,
    Running { uptime: u64 },
    Exited { info: DaemonDeathInfo },
}

/// A status report: one status for each daemon.
#[derive(Debug)]
pub struct UbervisorStatus {
    pub daemons: NameTable<DaemonStatus>,
}

/// An event with its name as a sequence of characters.
pub enum EventView {
    DaemonStarted { name: Seq<char>, pid: i32 },
    DaemonStopped { name: Seq<char>, info: DaemonDeathInfo },
}

impl View for Event {
    type V = EventView;

    open spec fn view(&self) -> EventView {
        match self {
            Event::DaemonStarted { name, pid } => EventView::DaemonStarted { name: name@, pid: *pid },
            Event::DaemonStopped { name, info } => EventView::DaemonStopped {
                name: name@,
                info: *info,
            },
        }
    }
}

impl View for UbervisorStatus {
    type V = Map<Seq<char>, DaemonStatus>;

    open spec fn view(&self) -> Map<Seq<char>, DaemonStatus> {
        self.daemons@
    }
}

/// The texts that there are, in their order.
pub open spec fn announced(texts: Seq<Option<String>>) -> Seq<String> {
    texts.filter_map(|text: Option<String>| text)
}

/// The messages that go out to the subscribers, one after the other, from the
/// texts into which the events of a reap were put: an event for which there is
/// no text is passed over.
pub fn announcements(texts: Vec<Option<String>>) -> (messages: Vec<String>)
    ensures
        messages@ == announced(texts@),
{
    let ghost all = texts@;
    let mut messages: Vec<String> = Vec::new();
    assert(announced(all.take(0)) =~= Seq::empty());
    for text in iter: texts.into_iter()
        invariant
            iter.seq() == all,
            messages@ == announced(all.take(iter.index())),
    {
        assert(all.take(iter.index() + 1).drop_last() =~= all.take(iter.index()));
        if let Some(message) = text {
            messages.push(message);
        }
    }
    assert(all.take(all.len() as int) =~= all);
    messages
}

} // verus!
