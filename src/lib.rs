//! Coordination core of a device-streaming control panel: the per-tick
//! outbound request queue, the single-flight restart guard, the event
//! dispatcher that keeps the panel's state, and the installer actor's
//! command/reply protocol.

mod dashboard;
mod events;
mod installer;
mod outbound;
mod release;
mod restart;

pub use dashboard::{
    ADB_PROGRESS_FULL, Dashboard, DashboardModel, GRAPH_HISTORY_SIZE, NewVersionNotice, Reaction,
    apply_all, apply_spec, fresh_model, lemma_apply_all_split, lemma_last_session_wins,
    lemma_noop_events, lemma_wizard_first_session_only, lemma_wizard_raised_at_most_once,
    raises_wizard, restart_count, rolling_push, wizard_raise_count,
};
pub use events::{
    Event, EventQueue, GraphStatistics, LogEntry, SessionSnapshot, Severity, StatisticsSummary,
    is_noop, severity_rank,
};
pub use installer::{
    ActorModel, InstallerActor, PROGRESS_FULL, Phase, Progress, UiMessage, WorkerMessage,
    finish_command_spec, lemma_command_fifo, lemma_command_lifecycle, lemma_progress_bounds,
    poll_spec, progress_spec, report_all, start_spec, submit_spec, terminal, updates,
};
pub use outbound::{
    OutboundQueue, OutboundRequest, PathValuePair, clear_wizard_flag_request,
    is_clear_wizard_request, wizard_flag_path,
};
pub use release::{InstallationInfo, ReleaseChannelsInfo, ReleaseInfo, names_unique, pairs_map};
pub use restart::{
    FinishStep, GuardModel, RestartGuard, RestartStep, claim_spec, finish_rounds, finish_spec,
    idle_guard, lemma_all_requests_served, lemma_single_flight, request_restart, request_spec,
    requests_from_idle,
};
