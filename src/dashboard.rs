use vstd::prelude::*;
use crate::events::{
    Event, EventQueue, GraphStatistics, LogEntry, SessionSnapshot, Severity, StatisticsSummary,
    is_noop, severity_rank,
};
use crate::outbound::{OutboundQueue, OutboundRequest, clear_wizard_flag_request, is_clear_wizard_request};

verus! {

/// How many latency samples the statistics graph keeps.
pub const GRAPH_HISTORY_SIZE: usize = 1000;

/// The largest download progress, in thousandths (stands for 1.0).
pub const ADB_PROGRESS_FULL: u16 = 1000;

/// A newer release was announced; shown until the operator dismisses it.
#[derive(Debug, PartialEq, Eq)]
pub struct NewVersionNotice {
    pub version: String,
    pub message: String,
}

/// What the host does after an event was applied.
#[derive(Debug, Clone, Copy, PartialEq, Eq, Structural)]
pub enum Reaction {
    Nothing,
    /// The server asked to be restarted: the host goes through the restart guard.
    RestartRequested,
}

/// The panel's state, as the contracts see it.
pub struct DashboardModel {
    /// No session event has been applied yet.
    pub just_opened: bool,
    pub setup_wizard_open: bool,
    pub session: Option<SessionSnapshot>,
    /// Notification filter, taken from the session.
    pub notification_level: Severity,
    pub log: Seq<LogEntry>,
    /// The latest log line that passed the notification filter.
    pub notification: Option<LogEntry>,
    /// The most recent latency samples, oldest first.
    pub graph: Seq<GraphStatistics>,
    pub summary: Option<StatisticsSummary>,
    pub drivers: Seq<String>,
    /// Thousandths.
    pub adb_progress: u16,
    pub new_version: Option<NewVersionNotice>,
}

impl DashboardModel {
    pub open spec fn wf(self) -> bool {
        self.graph.len() <= GRAPH_HISTORY_SIZE && self.adb_progress <= ADB_PROGRESS_FULL
    }

    /// Everything derived from the last session event.
    pub open spec fn session_state(self) -> (Option<SessionSnapshot>, Severity) {
        (self.session, self.notification_level)
    }
}

/// The state of a panel that has just started.
pub open spec fn fresh_model() -> DashboardModel {
    DashboardModel {
        just_opened: true,
        setup_wizard_open: false,
        session: None,
        notification_level: Severity::Info,
        log: Seq::empty(),
        notification: None,
        graph: Seq::empty(),
        summary: None,
        drivers: Seq::empty(),
        adb_progress: 0,
        new_version: None,
    }
}

/// A sample added to the graph; the oldest one leaves once it is full.
pub open spec fn rolling_push(s: Seq<GraphStatistics>, g: GraphStatistics) -> Seq<GraphStatistics> {
    if s.len() < GRAPH_HISTORY_SIZE {
        s.push(g)
    } else {
        s.drop_first().push(g)
    }
}

/// Applying `e` raises the one-shot "open the setup wizard" transition.
pub open spec fn raises_wizard(d: DashboardModel, e: Event) -> bool {
    d.just_opened && (e matches Event::Session(s) && s.open_setup_wizard)
}

/// The effect of one event on the panel.
pub open spec fn apply_spec(d: DashboardModel, e: Event) -> (DashboardModel, Reaction) {
    match e {
        Event::Log(entry) => (
            DashboardModel {
                log: d.log.push(entry),
                notification: if severity_rank(entry.severity) >= severity_rank(
                    d.notification_level,
                ) {
                    Some(entry)
                } else {
                    d.notification
                },
                ..d
            },
            Reaction::Nothing,
        ),
        Event::GraphStatistics(g) => (
            DashboardModel { graph: rolling_push(d.graph, g), ..d },
            Reaction::Nothing,
        ),
        Event::StatisticsSummary(s) => (DashboardModel { summary: Some(s), ..d }, Reaction::Nothing),
        Event::Session(s) => (
            DashboardModel {
                just_opened: false,
                setup_wizard_open: d.setup_wizard_open || raises_wizard(d, e),
                notification_level: s.notification_level,
                session: Some(s),
                ..d
            },
            Reaction::Nothing,
        ),
        Event::ServerRequestsSelfRestart => (d, Reaction::RestartRequested),
        Event::DriversList(list) => (DashboardModel { drivers: list@, ..d }, Reaction::Nothing),
        Event::Adb(p) => (
            DashboardModel {
                adb_progress: if p <= ADB_PROGRESS_FULL {
                    p
                } else {
                    ADB_PROGRESS_FULL
                },
                ..d
            },
            Reaction::Nothing,
        ),
        Event::NewVersionFound { version, message } => (
            DashboardModel { new_version: Some(NewVersionNotice { version, message }), ..d },
            Reaction::Nothing,
        ),
        _ => (d, Reaction::Nothing),
    }
}

/// The panel after applying `es` in order.
pub open spec fn apply_all(d: DashboardModel, es: Seq<Event>) -> DashboardModel
    decreases es.len(),
{
    if es.len() == 0 {
        d
    } else {
        apply_spec(apply_all(d, es.drop_last()), es.last()).0
    }
}

/// How many of `es` ask for a restart.
pub open spec fn restart_count(es: Seq<Event>) -> nat
    decreases es.len(),
{
    if es.len() == 0 {
        0
    } else {
        restart_count(es.drop_last()) + if es.last() is ServerRequestsSelfRestart {
            1nat
        } else {
            0nat
        }
    }
}

/// How many times applying `es` in order raises the wizard transition.
pub open spec fn wizard_raise_count(d: DashboardModel, es: Seq<Event>) -> nat
    decreases es.len(),
{
    if es.len() == 0 {
        0
    } else {
        wizard_raise_count(d, es.drop_last()) + if raises_wizard(
            apply_all(d, es.drop_last()),
            es.last(),
        ) {
            1nat
        } else {
            0nat
        }
    }
}

/// The panel's state holders: logs, notifications, statistics, session and
/// the views derived from it, installation state, pending notices.
pub struct Dashboard {
    just_opened: bool,
    setup_wizard_open: bool,
    session: Option<SessionSnapshot>,
    notification_level: Severity,
    log: Vec<LogEntry>,
    notification: Option<LogEntry>,
    graph: Vec<GraphStatistics>,
    summary: Option<StatisticsSummary>,
    drivers: Vec<String>,
    adb_progress: u16,
    new_version: Option<NewVersionNotice>,
}

impl View for Dashboard {
    type V = DashboardModel;

    closed spec fn view(&self) -> DashboardModel {
        DashboardModel {
            just_opened: self.just_opened,
            setup_wizard_open: self.setup_wizard_open,
            session: self.session,
            notification_level: self.notification_level,
            log: self.log@,
            notification: self.notification,
            graph: self.graph@,
            summary: self.summary,
            drivers: self.drivers@,
            adb_progress: self.adb_progress,
            new_version: self.new_version,
        }
    }
}

impl Dashboard {
    /// A panel that has just started; it asks the server for its session.
    pub fn new(out: &mut OutboundQueue) -> (r: Dashboard)
        ensures
            r@ == fresh_model(),
            r@.wf(),
            final(out)@ == old(out)@.push(OutboundRequest::GetSession),
    {
        out.push(OutboundRequest::GetSession);
        Dashboard {
            just_opened: true,
            setup_wizard_open: false,
            session: None,
            notification_level: Severity::Info,
            log: Vec::new(),
            notification: None,
            graph: Vec::new(),
            summary: None,
            drivers: Vec::new(),
            adb_progress: 0,
            new_version: None,
        }
    }

    pub fn setup_wizard_open(&self) -> (r: bool)
        ensures
            r == self@.setup_wizard_open,
    {
        self.setup_wizard_open
    }

    pub fn session(&self) -> (r: &Option<SessionSnapshot>)
        ensures
            *r == self@.session,
    {
        &self.session
    }

    pub fn notification_level(&self) -> (r: Severity)
        ensures
            r == self@.notification_level,
    {
        self.notification_level
    }

    pub fn log_history(&self) -> (r: &Vec<LogEntry>)
        ensures
            r@ == self@.log,
    {
        &self.log
    }

    pub fn notification(&self) -> (r: &Option<LogEntry>)
        ensures
            *r == self@.notification,
    {
        &self.notification
    }

    pub fn graph(&self) -> (r: &Vec<GraphStatistics>)
        ensures
            r@ == self@.graph,
    {
        &self.graph
    }

    pub fn summary(&self) -> (r: Option<StatisticsSummary>)
        ensures
            r == self@.summary,
    {
        self.summary
    }

    pub fn drivers(&self) -> (r: &Vec<String>)
        ensures
            r@ == self@.drivers,
    {
        &self.drivers
    }

    /// Download progress in thousandths.
    pub fn adb_progress(&self) -> (r: u16)
        ensures
            r == self@.adb_progress,
    {
        self.adb_progress
    }

    pub fn new_version(&self) -> (r: &Option<NewVersionNotice>)
        ensures
            *r == self@.new_version,
    {
        &self.new_version
    }

    /// Routes one event to every state holder that observes its kind.
    pub fn apply_event(&mut self, e: Event) -> (r: Reaction)
        requires
            old(self)@.wf(),
        ensures
            final(self)@.wf(),
            (final(self)@, r) == apply_spec(old(self)@, e),
    {
        match e {
            Event::Log(entry) => {
                if entry.severity.rank() >= self.notification_level.rank() {
                    self.notification = Some(
                        LogEntry { severity: entry.severity, content: entry.content.clone() },
                    );
                }
                self.log.push(entry);
            },
            Event::GraphStatistics(g) => {
                if self.graph.len() >= GRAPH_HISTORY_SIZE {
                    self.graph.remove(0);
                }
                self.graph.push(g);
            },
            Event::StatisticsSummary(s) => {
                self.summary = Some(s);
            },
            Event::Session(s) => {
                if self.just_opened {
                    if s.open_setup_wizard {
                        self.setup_wizard_open = true;
                    }
                    self.just_opened = false;
                }
                self.notification_level = s.notification_level;
                self.session = Some(s);
            },
            Event::ServerRequestsSelfRestart => {
                return Reaction::RestartRequested;
            },
            Event::DriversList(list) => {
                self.drivers = list;
            },
            Event::Adb(p) => {
                self.adb_progress = if p <= ADB_PROGRESS_FULL {
                    p
                } else {
                    ADB_PROGRESS_FULL
                };
            },
            Event::NewVersionFound { version, message } => {
                self.new_version = Some(NewVersionNotice { version, message });
            },
            Event::DebugGroup { .. } | Event::Tracking | Event::Buttons | Event::Haptics => {},
        }
        Reaction::Nothing
    }

    /// Applies every waiting event in arrival order and leaves the source
    /// empty. Returns how many of them asked for a restart; the host sends
    /// each through the restart guard.
    pub fn drain_and_apply(&mut self, source: &mut EventQueue) -> (r: usize)
        requires
            old(self)@.wf(),
        ensures
            final(self)@.wf(),
            final(self)@ == apply_all(old(self)@, old(source)@),
            final(source)@.len() == 0,
            r == restart_count(old(source)@),
    {
        let ghost events = source@;
        let ghost start = self@;
        let ghost n = events.len();
        let total: usize = source.len();
        let mut restarts: usize = 0;
        let mut k: usize = 0;
        while source.len() > 0
            invariant
                self@.wf(),
                n == events.len(),
                n == total,
                k <= n,
                source@ == events.subrange(k as int, n as int),
                self@ == apply_all(start, events.subrange(0, k as int)),
                restarts == restart_count(events.subrange(0, k as int)),
                restarts <= k,
            decreases source@.len(),
        {
            let e = source.poll_event();
            proof {
                assert(events.subrange(k as int, n as int)[0] == events[k as int]);
            }
            match e {
                Some(e) => {
                    proof {
                        let done = events.subrange(0, k as int + 1);
                        assert(done.drop_last() == events.subrange(0, k as int));
                        assert(done.last() == e);
                    }
                    let reaction = self.apply_event(e);
                    if let Reaction::RestartRequested = reaction {
                        restarts = restarts + 1;
                    }
                    k = k + 1;
                },
                None => {},
            }
        }
        proof {
            assert(events.subrange(0, n as int) == events);
        }
        restarts
    }

    /// The operator closed the setup wizard; when they finished it, the
    /// flag that opens it on startup is cleared on the server.
    pub fn close_setup_wizard(&mut self, finished: bool, out: &mut OutboundQueue)
        ensures
            final(self)@ == (DashboardModel { setup_wizard_open: false, ..old(self)@ }),
            finished ==> final(out)@.len() == old(out)@.len() + 1,
            finished ==> final(out)@.drop_last() == old(out)@,
            finished ==> is_clear_wizard_request(final(out)@.last()),
            !finished ==> final(out)@ == old(out)@,
    {
        if finished {
            out.push(clear_wizard_flag_request());
        }
        self.setup_wizard_open = false;
    }

    /// The installation view asked for the setup wizard.
    pub fn open_setup_wizard(&mut self)
        ensures
            final(self)@ == (DashboardModel { setup_wizard_open: true, ..old(self)@ }),
    {
        self.setup_wizard_open = true;
    }

    /// The operator dismissed the new-version notice, possibly with a
    /// request for the server.
    pub fn dismiss_new_version(&mut self, request: Option<OutboundRequest>, out: &mut OutboundQueue)
        ensures
            final(self)@ == (DashboardModel { new_version: None, ..old(self)@ }),
            final(out)@ == match request {
                Some(q) => old(out)@.push(q),
                None => old(out)@,
            },
    {
        if let Some(q) = request {
            out.push(q);
        }
        self.new_version = None;
    }

    /// The window is closing: true, with a shutdown request queued, when the
    /// session asks to stop the streaming service together with the panel.
    pub fn close_requested(&self, out: &mut OutboundQueue) -> (r: bool)
        ensures
            r == (self@.session matches Some(s) && s.open_close_steamvr_with_dashboard),
            r ==> final(out)@ == old(out)@.push(OutboundRequest::ShutdownSteamvr),
            !r ==> final(out)@ == old(out)@,
    {
        let shut_down = match &self.session {
            Some(s) => s.open_close_steamvr_with_dashboard,
            None => false,
        };
        if shut_down {
            out.push(OutboundRequest::ShutdownSteamvr);
        }
        shut_down
    }
}

/// Applying a batch in one tick equals applying it split over two ticks.
pub proof fn lemma_apply_all_split(d: DashboardModel, xs: Seq<Event>, ys: Seq<Event>)
    ensures
        apply_all(d, xs + ys) == apply_all(apply_all(d, xs), ys),
    decreases ys.len(),
{
    if ys.len() == 0 {
        assert(xs + ys == xs);
    } else {
        lemma_apply_all_split(d, xs, ys.drop_last());
        assert((xs + ys).drop_last() == xs + ys.drop_last());
        assert((xs + ys).last() == ys.last());
    }
}

/// Only the last session counts: after session `a` then session `b`, the
/// state derived from the session is the one that `b` alone gives; and
/// applying them in one tick or in two gives the same panel.
pub proof fn lemma_last_session_wins(d: DashboardModel, a: SessionSnapshot, b: SessionSnapshot)
    ensures
        apply_spec(apply_spec(d, Event::Session(a)).0, Event::Session(b)).0.session_state()
            == apply_spec(d, Event::Session(b)).0.session_state(),
        apply_all(d, seq![Event::Session(a), Event::Session(b)]) == apply_all(
            apply_all(d, seq![Event::Session(a)]),
            seq![Event::Session(b)],
        ),
{
    lemma_apply_all_split(d, seq![Event::Session(a)], seq![Event::Session(b)]);
    assert(seq![Event::Session(a)] + seq![Event::Session(b)] == seq![
        Event::Session(a),
        Event::Session(b),
    ]);
}

proof fn lemma_wizard_raise_bound(d: DashboardModel, es: Seq<Event>)
    ensures
        wizard_raise_count(d, es) + (if apply_all(d, es).just_opened {
            1nat
        } else {
            0nat
        }) <= if d.just_opened {
            1nat
        } else {
            0nat
        },
    decreases es.len(),
{
    if es.len() > 0 {
        lemma_wizard_raise_bound(d, es.drop_last());
    }
}

/// The setup wizard is raised at most once over any run of events, and
/// never once a session has been applied.
pub proof fn lemma_wizard_raised_at_most_once(d: DashboardModel, es: Seq<Event>)
    ensures
        wizard_raise_count(d, es) <= 1,
        !d.just_opened ==> wizard_raise_count(d, es) == 0,
{
    lemma_wizard_raise_bound(d, es);
}

/// Two sessions that both ask for the wizard on a fresh panel raise it
/// exactly once, and it is open afterwards.
pub proof fn lemma_wizard_first_session_only(a: SessionSnapshot, b: SessionSnapshot)
    requires
        a.open_setup_wizard,
        b.open_setup_wizard,
    ensures
        wizard_raise_count(fresh_model(), seq![Event::Session(a), Event::Session(b)]) == 1,
        apply_all(fresh_model(), seq![Event::Session(a), Event::Session(b)]).setup_wizard_open,
{
    let es = seq![Event::Session(a), Event::Session(b)];
    assert(es.drop_last() == seq![Event::Session(a)]);
    assert(es.drop_last().drop_last() == Seq::<Event>::empty());
    assert(es.last() == Event::Session(b));
    assert(es.drop_last().last() == Event::Session(a));
    let d0 = fresh_model();
    assert(apply_all(d0, Seq::<Event>::empty()) == d0);
    let d1 = apply_spec(d0, Event::Session(a)).0;
    assert(apply_all(d0, es.drop_last()) == d1);
    assert(wizard_raise_count(d0, Seq::<Event>::empty()) == 0);
    assert(raises_wizard(d0, Event::Session(a)));
    assert(wizard_raise_count(d0, es.drop_last()) == 1);
    assert(!raises_wizard(d1, Event::Session(b)));
}

/// Events that nobody observes change nothing and ask for nothing.
pub proof fn lemma_noop_events(d: DashboardModel, e: Event)
    requires
        is_noop(e),
    ensures
        apply_spec(d, e) == (d, Reaction::Nothing),
{
}

} // verus!
