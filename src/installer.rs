use vstd::prelude::*;
use crate::release::{ReleaseChannelsInfo, ReleaseInfo};

verus! {

/// A command from the panel to the installer actor.
#[derive(Debug, PartialEq, Eq)]
pub enum UiMessage {
    InstallServer { release_info: ReleaseInfo, session_version: Option<String> },
    InstallClient(ReleaseInfo),
    Quit,
}

/// The largest progress value: progress is counted in thousandths of the
/// whole, so this stands for 1.0.
pub const PROGRESS_FULL: u16 = 1000;

/// A progress report of a running command: a message that is never empty
/// and a progress between 0 and `PROGRESS_FULL` thousandths.
#[derive(Debug, PartialEq, Eq)]
pub struct Progress {
    message: String,
    progress: u16,
}

impl Progress {
    pub closed spec fn message_view(self) -> Seq<char> {
        self.message@
    }

    pub closed spec fn progress_view(self) -> u16 {
        self.progress
    }

    /// A meaningful report: a non-empty message and a progress in [0, 1].
    pub open spec fn valid(self) -> bool {
        self.message_view().len() > 0 && self.progress_view() <= PROGRESS_FULL
    }

    /// A report, or `None` when the message is empty or the progress is
    /// past `PROGRESS_FULL`.
    pub fn new(message: String, progress: u16) -> (r: Option<Progress>)
        ensures
            r is Some <==> message@.len() > 0 && progress <= PROGRESS_FULL,
            r is Some ==> r->0.message_view() == message@ && r->0.progress_view() == progress,
            r is Some ==> r->0.valid(),
    {
        if !message.as_str().is_empty() && progress <= PROGRESS_FULL {
            Some(Progress { message, progress })
        } else {
            None
        }
    }

    pub fn message(&self) -> (r: &String)
        ensures
            r@ == self.message_view(),
    {
        &self.message
    }

    /// Progress in thousandths.
    pub fn progress(&self) -> (r: u16)
        ensures
            r == self.progress_view(),
    {
        self.progress
    }
}

/// A message from the installer actor to the panel.
#[derive(Debug, PartialEq, Eq)]
pub enum WorkerMessage {
    ReleaseChannelsInfo(ReleaseChannelsInfo),
    ProgressUpdate(Progress),
    Done,
    Error(String),
}

/// Where the actor is in its loop.
#[derive(Debug, Clone, Copy, PartialEq, Eq, Structural)]
pub enum Phase {
    /// Waiting for the next command.
    Idle,
    /// Executing a command whose terminal message is still owed.
    Working,
    /// A `Quit` was taken: the loop has ended.
    Stopped,
}

/// The actor as the contracts see it.
pub struct ActorModel {
    pub pending: Seq<UiMessage>,
    pub phase: Phase,
    pub replies: Seq<WorkerMessage>,
}

impl ActorModel {
    /// Every progress report among the replies is meaningful.
    pub open spec fn wf(self) -> bool {
        forall|i: int|
            0 <= i < self.replies.len() && (#[trigger] self.replies[i]) is ProgressUpdate
                ==> self.replies[i]->ProgressUpdate_0.valid()
    }
}

pub open spec fn submit_spec(m: ActorModel, cmd: UiMessage) -> ActorModel {
    ActorModel { pending: m.pending.push(cmd), ..m }
}

/// Taking the next command: nothing once stopped or with no command
/// queued; a `Quit` stops the loop; any other command starts.
pub open spec fn start_spec(m: ActorModel) -> (ActorModel, Option<UiMessage>) {
    if m.phase == Phase::Stopped || m.pending.len() == 0 {
        (m, None)
    } else if m.pending[0] is Quit {
        (ActorModel { pending: m.pending.drop_first(), phase: Phase::Stopped, ..m }, None)
    } else {
        (
            ActorModel { pending: m.pending.drop_first(), phase: Phase::Working, ..m },
            Some(m.pending[0]),
        )
    }
}

pub open spec fn progress_spec(m: ActorModel, p: Progress) -> ActorModel {
    ActorModel { replies: m.replies.push(WorkerMessage::ProgressUpdate(p)), ..m }
}

/// The one terminal message of a command's outcome.
pub open spec fn terminal(outcome: Result<(), String>) -> WorkerMessage {
    match outcome {
        Ok(()) => WorkerMessage::Done,
        Err(message) => WorkerMessage::Error(message),
    }
}

pub open spec fn finish_command_spec(m: ActorModel, outcome: Result<(), String>) -> ActorModel {
    ActorModel { replies: m.replies.push(terminal(outcome)), phase: Phase::Idle, ..m }
}

pub open spec fn poll_spec(m: ActorModel) -> (ActorModel, Option<WorkerMessage>) {
    if m.replies.len() == 0 {
        (m, None)
    } else {
        (ActorModel { replies: m.replies.drop_first(), ..m }, Some(m.replies[0]))
    }
}

/// The background installer: a FIFO of commands, executed one at a time,
/// and a FIFO of replies. The host thread performs the long-running work
/// of a started command and reports its progress and outcome here.
pub struct InstallerActor {
    pending: Vec<UiMessage>,
    phase: Phase,
    replies: Vec<WorkerMessage>,
}

impl View for InstallerActor {
    type V = ActorModel;

    closed spec fn view(&self) -> ActorModel {
        ActorModel { pending: self.pending@, phase: self.phase, replies: self.replies@ }
    }
}

impl InstallerActor {
    pub fn new() -> (r: InstallerActor)
        ensures
            r@.pending.len() == 0,
            r@.phase == Phase::Idle,
            r@.replies.len() == 0,
            r@.wf(),
    {
        InstallerActor { pending: Vec::new(), phase: Phase::Idle, replies: Vec::new() }
    }

    pub fn phase(&self) -> (r: Phase)
        ensures
            r == self@.phase,
    {
        self.phase
    }

    /// Queues a command behind those already queued; never blocks.
    pub fn submit(&mut self, cmd: UiMessage)
        ensures
            old(self)@.wf() ==> final(self)@.wf(),
            final(self)@ == submit_spec(old(self)@, cmd),
    {
        self.pending.push(cmd);
    }

    /// Takes the next command once the previous one has ended. `Some` is a
    /// command to execute now; `None` means there is nothing to run, or the
    /// loop has ended (the phase is then `Stopped`).
    pub fn start_next(&mut self) -> (r: Option<UiMessage>)
        requires
            old(self)@.phase != Phase::Working,
        ensures
            old(self)@.wf() ==> final(self)@.wf(),
            (final(self)@, r) == start_spec(old(self)@),
    {
        if self.phase == Phase::Stopped || self.pending.len() == 0 {
            return None;
        }
        let cmd = self.pending.remove(0);
        if let UiMessage::Quit = cmd {
            self.phase = Phase::Stopped;
            None
        } else {
            self.phase = Phase::Working;
            Some(cmd)
        }
    }

    /// Emits a progress report of the running command.
    pub fn report_progress(&mut self, progress: Progress)
        requires
            old(self)@.wf(),
            old(self)@.phase == Phase::Working,
            progress.valid(),
        ensures
            final(self)@.wf(),
            final(self)@ == progress_spec(old(self)@, progress),
    {
        self.replies.push(WorkerMessage::ProgressUpdate(progress));
    }

    /// Ends the running command with exactly one `Done` or `Error`.
    pub fn finish(&mut self, outcome: Result<(), String>)
        requires
            old(self)@.wf(),
            old(self)@.phase == Phase::Working,
        ensures
            final(self)@.wf(),
            final(self)@ == finish_command_spec(old(self)@, outcome),
    {
        let msg = match outcome {
            Ok(()) => WorkerMessage::Done,
            Err(message) => WorkerMessage::Error(message),
        };
        self.replies.push(msg);
        self.phase = Phase::Idle;
    }

    /// Publishes the release channels, outside any command's lifecycle.
    pub fn publish_channels(&mut self, info: ReleaseChannelsInfo)
        requires
            old(self)@.wf(),
            old(self)@.phase != Phase::Stopped,
        ensures
            final(self)@.wf(),
            final(self)@ == (ActorModel {
                replies: old(self)@.replies.push(WorkerMessage::ReleaseChannelsInfo(info)),
                ..old(self)@
            }),
    {
        self.replies.push(WorkerMessage::ReleaseChannelsInfo(info));
    }

    /// The oldest reply not yet handed out, or `None` without any change
    /// when there is none; never blocks.
    pub fn poll_reply(&mut self) -> (r: Option<WorkerMessage>)
        requires
            old(self)@.wf(),
        ensures
            final(self)@.wf(),
            r matches Some(WorkerMessage::ProgressUpdate(p)) ==> p.valid(),
            (final(self)@, r) == poll_spec(old(self)@),
    {
        if self.replies.len() == 0 {
            None
        } else {
            Some(self.replies.remove(0))
        }
    }
}

/// Every progress update the actor hands out is meaningful: reports,
/// outcomes, published channels and polls keep all queued progress updates
/// within [0, 1] with a non-empty message, so any update polled is too.
pub proof fn lemma_progress_bounds(
    m: ActorModel,
    p: Progress,
    outcome: Result<(), String>,
    info: ReleaseChannelsInfo,
)
    requires
        m.wf(),
        p.valid(),
    ensures
        progress_spec(m, p).wf(),
        finish_command_spec(m, outcome).wf(),
        (ActorModel { replies: m.replies.push(WorkerMessage::ReleaseChannelsInfo(info)), ..m }).wf(),
        poll_spec(m).0.wf(),
        poll_spec(m).1 matches Some(WorkerMessage::ProgressUpdate(q)) ==> q.valid()
            && q.message_view().len() > 0 && q.progress_view() <= PROGRESS_FULL,
{
    let r = m.replies.push(terminal(outcome));
    assert forall|i: int| 0 <= i < r.len() && (#[trigger] r[i]) is ProgressUpdate implies r[i]->ProgressUpdate_0.valid() by {
        if i < m.replies.len() {
            assert(r[i] == m.replies[i]);
        }
    }
}

/// Reporting each of `ps` in turn on a running command.
pub open spec fn report_all(m: ActorModel, ps: Seq<Progress>) -> ActorModel
    decreases ps.len(),
{
    if ps.len() == 0 {
        m
    } else {
        progress_spec(report_all(m, ps.drop_last()), ps.last())
    }
}

/// The reply of each progress report, in order.
pub open spec fn updates(ps: Seq<Progress>) -> Seq<WorkerMessage> {
    ps.map_values(|p: Progress| WorkerMessage::ProgressUpdate(p))
}

proof fn lemma_report_all(m: ActorModel, ps: Seq<Progress>)
    ensures
        report_all(m, ps).replies == m.replies + updates(ps),
        report_all(m, ps).phase == m.phase,
        report_all(m, ps).pending == m.pending,
    decreases ps.len(),
{
    if ps.len() > 0 {
        lemma_report_all(m, ps.drop_last());
        assert(updates(ps) == updates(ps.drop_last()).push(WorkerMessage::ProgressUpdate(ps.last())));
        assert(m.replies + updates(ps) == (m.replies + updates(ps.drop_last())).push(
            WorkerMessage::ProgressUpdate(ps.last()),
        ));
    } else {
        assert(m.replies + updates(ps) == m.replies);
    }
}

/// One command's lifecycle: after any number of progress reports and its
/// outcome, the replies grow by exactly those reports and then exactly one
/// terminal message, and the actor is idle: it emits nothing more until it
/// starts the next command.
pub proof fn lemma_command_lifecycle(m: ActorModel, ps: Seq<Progress>, outcome: Result<(), String>)
    requires
        m.phase == Phase::Working,
    ensures
        finish_command_spec(report_all(m, ps), outcome).replies == m.replies + updates(ps).push(
            terminal(outcome),
        ),
        finish_command_spec(report_all(m, ps), outcome).phase == Phase::Idle,
        finish_command_spec(report_all(m, ps), outcome).pending == m.pending,
{
    lemma_report_all(m, ps);
    assert(m.replies + updates(ps).push(terminal(outcome)) == (m.replies + updates(ps)).push(
        terminal(outcome),
    ));
}

/// Commands run in the order submitted, one at a time: with `x`, `y` and
/// `Quit` queued on an idle actor, `x` starts first; `y` starts only after
/// `x`'s lifecycle has ended; after `y` ends, `Quit` stops the loop, and a
/// stopped actor starts nothing and emits nothing more.
pub proof fn lemma_command_fifo(
    m: ActorModel,
    x: UiMessage,
    y: UiMessage,
    px: Seq<Progress>,
    ox: Result<(), String>,
    py: Seq<Progress>,
    oy: Result<(), String>,
)
    requires
        m.phase == Phase::Idle,
        m.pending.len() == 0,
        !(x is Quit),
        !(y is Quit),
    ensures
        ({
            let queued = submit_spec(submit_spec(submit_spec(m, x), y), UiMessage::Quit);
            let (run_x, first) = start_spec(queued);
            let done_x = finish_command_spec(report_all(run_x, px), ox);
            let (run_y, second) = start_spec(done_x);
            let done_y = finish_command_spec(report_all(run_y, py), oy);
            let (stopped, third) = start_spec(done_y);
            &&& first == Some(x)
            &&& run_x.phase == Phase::Working
            &&& second == Some(y)
            &&& run_y.replies == m.replies + updates(px).push(terminal(ox))
            &&& done_y.replies == run_y.replies + updates(py).push(terminal(oy))
            &&& third is None
            &&& stopped.phase == Phase::Stopped
            &&& stopped.replies == done_y.replies
            &&& start_spec(stopped) == (stopped, None::<UiMessage>)
        }),
{
    let queued = submit_spec(submit_spec(submit_spec(m, x), y), UiMessage::Quit);
    assert(queued.pending == seq![x, y, UiMessage::Quit]);
    let (run_x, first) = start_spec(queued);
    assert(run_x.pending == seq![y, UiMessage::Quit]);
    lemma_command_lifecycle(run_x, px, ox);
    let done_x = finish_command_spec(report_all(run_x, px), ox);
    let (run_y, second) = start_spec(done_x);
    assert(run_y.pending == seq![UiMessage::Quit]);
    lemma_command_lifecycle(run_y, py, oy);
}

} // verus!
