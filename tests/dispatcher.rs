use alvr_dashboard::{
    Dashboard, Event, EventQueue, GRAPH_HISTORY_SIZE, GraphStatistics, LogEntry,
    NewVersionNotice, OutboundQueue, OutboundRequest, PathValuePair, Reaction, SessionSnapshot,
    Severity, StatisticsSummary,
};

fn session(wizard: bool, close_with_panel: bool, level: Severity, clients: &[&str]) -> SessionSnapshot {
    SessionSnapshot {
        open_setup_wizard: wizard,
        open_close_steamvr_with_dashboard: close_with_panel,
        notification_level: level,
        clients: clients.iter().map(|c| c.to_string()).collect(),
    }
}

fn fresh() -> Dashboard {
    let mut out = OutboundQueue::new();
    Dashboard::new(&mut out)
}

fn log(severity: Severity, content: &str) -> Event {
    Event::Log(LogEntry { severity, content: content.to_string() })
}

#[test]
fn new_panel_asks_for_the_session() {
    let mut out = OutboundQueue::new();
    let d = Dashboard::new(&mut out);
    assert_eq!(out.drain(), vec![OutboundRequest::GetSession]);
    assert!(!d.setup_wizard_open());
    assert!(d.session().is_none());
    assert_eq!(d.notification_level(), Severity::Info);
}

#[test]
fn later_session_replaces_the_earlier_one() {
    let mut both = fresh();
    both.apply_event(Event::Session(session(false, false, Severity::Debug, &["a"])));
    both.apply_event(Event::Session(session(false, true, Severity::Error, &["b", "c"])));
    let mut only = fresh();
    only.apply_event(Event::Session(session(false, true, Severity::Error, &["b", "c"])));
    assert_eq!(both.session(), only.session());
    assert_eq!(both.notification_level(), only.notification_level());
    assert_eq!(both.session().as_ref().unwrap().clients, vec!["b".to_string(), "c".to_string()]);
}

#[test]
fn one_tick_or_two_give_the_same_state() {
    let mut one = fresh();
    let mut q = EventQueue::new();
    q.push(Event::Session(session(true, false, Severity::Warning, &["a"])));
    q.push(Event::Session(session(false, false, Severity::Info, &["b"])));
    assert_eq!(one.drain_and_apply(&mut q), 0);
    assert_eq!(q.len(), 0);

    let mut two = fresh();
    let mut q = EventQueue::new();
    q.push(Event::Session(session(true, false, Severity::Warning, &["a"])));
    two.drain_and_apply(&mut q);
    q.push(Event::Session(session(false, false, Severity::Info, &["b"])));
    two.drain_and_apply(&mut q);

    assert_eq!(one.session(), two.session());
    assert_eq!(one.setup_wizard_open(), two.setup_wizard_open());
    assert!(one.setup_wizard_open());
}

#[test]
fn setup_wizard_opens_on_the_first_session_only() {
    let mut d = fresh();
    let mut out = OutboundQueue::new();
    d.apply_event(Event::Session(session(true, false, Severity::Info, &[])));
    assert!(d.setup_wizard_open());
    d.close_setup_wizard(false, &mut out);
    assert!(!d.setup_wizard_open());
    d.apply_event(Event::Session(session(true, false, Severity::Info, &[])));
    assert!(!d.setup_wizard_open());
    assert!(out.drain().is_empty());
}

#[test]
fn first_session_without_the_flag_never_opens_the_wizard() {
    let mut d = fresh();
    d.apply_event(Event::Session(session(false, false, Severity::Info, &[])));
    d.apply_event(Event::Session(session(true, false, Severity::Info, &[])));
    assert!(!d.setup_wizard_open());
}

#[test]
fn finishing_the_wizard_clears_the_flag_on_the_server() {
    let mut d = fresh();
    let mut out = OutboundQueue::new();
    d.open_setup_wizard();
    assert!(d.setup_wizard_open());
    d.close_setup_wizard(true, &mut out);
    assert!(!d.setup_wizard_open());
    assert_eq!(
        out.drain(),
        vec![OutboundRequest::SetValues(vec![PathValuePair {
            path: "session_settings.extra.open_setup_wizard".to_string(),
            value: false,
        }])]
    );
}

#[test]
fn unobserved_events_change_nothing() {
    let mut d = fresh();
    d.apply_event(log(Severity::Error, "boom"));
    let events = vec![
        Event::Tracking,
        Event::Buttons,
        Event::Haptics,
        Event::DebugGroup { group: "g".to_string(), message: "m".to_string() },
    ];
    for e in events {
        assert_eq!(d.apply_event(e), Reaction::Nothing);
    }
    assert_eq!(d.log_history().len(), 1);
    assert_eq!(d.notification().as_ref().unwrap().content, "boom");
    assert!(d.graph().is_empty());
    assert!(d.summary().is_none());
    assert!(d.drivers().is_empty());
    assert_eq!(d.adb_progress(), 0);
    assert!(d.new_version().is_none());
    assert!(d.session().is_none());
    assert!(!d.setup_wizard_open());
}

#[test]
fn empty_event_source_yields_nothing() {
    let mut q = EventQueue::new();
    assert!(q.poll_event().is_none());
    assert_eq!(q.len(), 0);
    let mut d = fresh();
    assert_eq!(d.drain_and_apply(&mut q), 0);
    assert!(d.log_history().is_empty());
}

#[test]
fn logs_are_kept_and_notified_by_level() {
    let mut d = fresh();
    d.apply_event(Event::Session(session(false, false, Severity::Warning, &[])));
    d.apply_event(log(Severity::Info, "quiet"));
    assert!(d.notification().is_none());
    d.apply_event(log(Severity::Warning, "loud"));
    d.apply_event(log(Severity::Debug, "quieter"));
    assert_eq!(d.log_history().len(), 3);
    assert_eq!(d.log_history()[0].content, "quiet");
    assert_eq!(d.log_history()[2].content, "quieter");
    assert_eq!(
        d.notification(),
        &Some(LogEntry { severity: Severity::Warning, content: "loud".to_string() })
    );
}

#[test]
fn events_reach_their_observers() {
    let mut d = fresh();
    let mut q = EventQueue::new();
    q.push(Event::StatisticsSummary(StatisticsSummary {
        video_packets_total: 10,
        video_packets_per_sec: 2,
        packets_lost_total: 1,
    }));
    q.push(Event::ServerRequestsSelfRestart);
    q.push(Event::DriversList(vec!["alvr".to_string()]));
    q.push(Event::Adb(250));
    q.push(Event::NewVersionFound { version: "21.0.0".to_string(), message: "hi".to_string() });
    q.push(Event::ServerRequestsSelfRestart);
    assert_eq!(d.drain_and_apply(&mut q), 2);
    assert_eq!(d.summary().unwrap().video_packets_total, 10);
    assert_eq!(d.drivers(), &vec!["alvr".to_string()]);
    assert_eq!(d.adb_progress(), 250);
    assert_eq!(
        d.new_version(),
        &Some(NewVersionNotice { version: "21.0.0".to_string(), message: "hi".to_string() })
    );
    assert_eq!(d.apply_event(Event::ServerRequestsSelfRestart), Reaction::RestartRequested);
}

#[test]
fn download_progress_is_bounded() {
    let mut d = fresh();
    d.apply_event(Event::Adb(5000));
    assert_eq!(d.adb_progress(), 1000);
}

#[test]
fn graph_keeps_the_latest_samples() {
    let mut d = fresh();
    for i in 0..(GRAPH_HISTORY_SIZE as u64 + 5) {
        d.apply_event(Event::GraphStatistics(GraphStatistics { total_latency_us: i, server_fps: 90 }));
    }
    assert_eq!(d.graph().len(), GRAPH_HISTORY_SIZE);
    assert_eq!(d.graph()[0].total_latency_us, 5);
    assert_eq!(d.graph()[GRAPH_HISTORY_SIZE - 1].total_latency_us, GRAPH_HISTORY_SIZE as u64 + 4);
}

#[test]
fn dismissing_the_notice_forwards_its_request() {
    let mut d = fresh();
    let mut out = OutboundQueue::new();
    d.apply_event(Event::NewVersionFound { version: "21.0.0".to_string(), message: String::new() });
    d.dismiss_new_version(Some(OutboundRequest::ShutdownSteamvr), &mut out);
    assert!(d.new_version().is_none());
    assert_eq!(out.drain(), vec![OutboundRequest::ShutdownSteamvr]);
    d.dismiss_new_version(None, &mut out);
    assert!(out.drain().is_empty());
}

#[test]
fn closing_shuts_the_service_down_only_when_configured() {
    let mut d = fresh();
    let mut out = OutboundQueue::new();
    assert!(!d.close_requested(&mut out));
    d.apply_event(Event::Session(session(false, false, Severity::Info, &[])));
    assert!(!d.close_requested(&mut out));
    assert!(out.drain().is_empty());
    d.apply_event(Event::Session(session(false, true, Severity::Info, &[])));
    assert!(d.close_requested(&mut out));
    assert_eq!(out.drain(), vec![OutboundRequest::ShutdownSteamvr]);
}

#[test]
fn severity_ranks_in_order() {
    assert_eq!(Severity::Debug.rank(), 0);
    assert_eq!(Severity::Info.rank(), 1);
    assert_eq!(Severity::Warning.rank(), 2);
    assert_eq!(Severity::Error.rank(), 3);
}
