use vstd::prelude::*;

verus! {

/// How serious a log line is, from least to most.
#[derive(Debug, Clone, Copy, PartialEq, Eq, Structural)]
pub enum Severity {
    Debug,
    Info,
    Warning,
    Error,
}

pub open spec fn severity_rank(s: Severity) -> u8 {
    match s {
        Severity::Debug => 0,
        Severity::Info => 1,
        Severity::Warning => 2,
        Severity::Error => 3,
    }
}

impl Severity {
    /// Position of the severity in the order Debug < Info < Warning < Error.
    pub fn rank(&self) -> (r: u8)
        ensures
            r == severity_rank(*self),
    {
        match self {
            Severity::Debug => 0,
            Severity::Info => 1,
            Severity::Warning => 2,
            Severity::Error => 3,
        }
    }
}

/// One log line published by the server.
#[derive(Debug, PartialEq, Eq)]
pub struct LogEntry {
    pub severity: Severity,
    pub content: String,
}

/// One sample of the latency graph.
#[derive(Debug, Clone, Copy, PartialEq, Eq, Structural)]
pub struct GraphStatistics {
    pub total_latency_us: u64,
    pub server_fps: u32,
}

/// Running totals of the stream.
#[derive(Debug, Clone, Copy, PartialEq, Eq, Structural)]
pub struct StatisticsSummary {
    pub video_packets_total: u64,
    pub video_packets_per_sec: u64,
    pub packets_lost_total: u64,
}

/// The part of the server's configuration that the panel reads.
#[derive(Debug, PartialEq, Eq)]
pub struct SessionSnapshot {
    /// Open the setup wizard when the panel starts.
    pub open_setup_wizard: bool,
    /// Shut the streaming service down when the panel closes.
    pub open_close_steamvr_with_dashboard: bool,
    /// Least severity that raises a notification.
    pub notification_level: Severity,
    /// Host names of the known client devices.
    pub clients: Vec<String>,
}

/// One event published by the server.
#[derive(Debug, PartialEq, Eq)]
pub enum Event {
    Log(LogEntry),
    GraphStatistics(GraphStatistics),
    StatisticsSummary(StatisticsSummary),
    Session(SessionSnapshot),
    ServerRequestsSelfRestart,
    DriversList(Vec<String>),
    /// Download progress of the device bridge tools, in thousandths.
    Adb(u16),
    NewVersionFound { version: String, message: String },
    DebugGroup { group: String, message: String },
    Tracking,
    Buttons,
    Haptics,
}

/// Events that no part of the panel observes.
pub open spec fn is_noop(e: Event) -> bool {
    e is DebugGroup || e is Tracking || e is Buttons || e is Haptics
}

/// The inbound events not yet applied, oldest first.
pub struct EventQueue {
    events: Vec<Event>,
}

impl View for EventQueue {
    type V = Seq<Event>;

    closed spec fn view(&self) -> Seq<Event> {
        self.events@
    }
}

impl EventQueue {
    pub fn new() -> (r: EventQueue)
        ensures
            r@ == Seq::<Event>::empty(),
    {
        EventQueue { events: Vec::new() }
    }

    pub fn len(&self) -> (r: usize)
        ensures
            r == self@.len(),
    {
        self.events.len()
    }

    /// An event arrives behind those already waiting.
    pub fn push(&mut self, e: Event)
        ensures
            final(self)@ == old(self)@.push(e),
    {
        self.events.push(e);
    }

    /// The oldest waiting event, or `None` without any change when there is
    /// none; never blocks.
    pub fn poll_event(&mut self) -> (r: Option<Event>)
        ensures
            old(self)@.len() == 0 ==> r is None && final(self)@ == old(self)@,
            old(self)@.len() > 0 ==> r == Some(old(self)@[0]) && final(self)@
                == old(self)@.drop_first(),
    {
        if self.events.len() == 0 {
            None
        } else {
            Some(self.events.remove(0))
        }
    }
}

} // verus!
