use vstd::prelude::*;
use crate::outbound::{OutboundQueue, OutboundRequest};

verus! {

/// What a caller of [`RestartGuard::request`] does next.
#[derive(Debug, Clone, Copy, PartialEq, Eq, Structural)]
pub enum RestartStep {
    /// The caller owns the guard: it starts the restart action now.
    Launch,
    /// An action is in flight: the caller blocks until it is woken.
    Wait,
}

/// What the owner of a finished restart action does next.
#[derive(Debug, Clone, Copy, PartialEq, Eq, Structural)]
pub enum FinishStep {
    /// The guard was handed to one blocked caller: wake exactly one waiter.
    HandOff,
    /// Nobody was waiting: the guard is free again.
    Idle,
}

/// The state of the guard, as the contracts see it.
pub struct GuardModel {
    /// Some caller owns the guard (its action runs, or it was handed the guard).
    pub busy: bool,
    /// The guard was handed to a waiter that has not yet claimed it.
    pub granted: bool,
    /// Callers blocked in a wait that the guard has not yet served.
    pub waiting: nat,
}

impl GuardModel {
    pub open spec fn wf(self) -> bool {
        &&& (self.granted ==> self.busy)
        &&& (self.waiting > 0 ==> self.busy)
    }

    /// A restart action is executing right now.
    pub open spec fn running(self) -> bool {
        self.busy && !self.granted
    }

    pub open spec fn idle(self) -> bool {
        !self.busy && !self.granted && self.waiting == 0
    }
}

pub open spec fn idle_guard() -> GuardModel {
    GuardModel { busy: false, granted: false, waiting: 0 }
}

/// A new restart intent.
pub open spec fn request_spec(m: GuardModel) -> (GuardModel, RestartStep) {
    if m.busy {
        (GuardModel { waiting: m.waiting + 1, ..m }, RestartStep::Wait)
    } else {
        (GuardModel { busy: true, ..m }, RestartStep::Launch)
    }
}

/// The running restart action has completed.
pub open spec fn finish_spec(m: GuardModel) -> (GuardModel, FinishStep) {
    if m.waiting > 0 {
        (GuardModel { granted: true, waiting: (m.waiting - 1) as nat, ..m }, FinishStep::HandOff)
    } else {
        (GuardModel { busy: false, ..m }, FinishStep::Idle)
    }
}

/// A blocked caller woke up: it proceeds only if the guard was handed over.
pub open spec fn claim_spec(m: GuardModel) -> (GuardModel, bool) {
    if m.granted {
        (GuardModel { granted: false, ..m }, true)
    } else {
        (m, false)
    }
}

/// The single-flight guard in front of the "restart the streaming service"
/// action. The host keeps it behind a lock and pairs it with a condition
/// variable; the guard decides, the host blocks, wakes and runs actions.
pub struct RestartGuard {
    busy: bool,
    granted: bool,
    waiting: u64,
}

impl View for RestartGuard {
    type V = GuardModel;

    closed spec fn view(&self) -> GuardModel {
        GuardModel { busy: self.busy, granted: self.granted, waiting: self.waiting as nat }
    }
}

impl RestartGuard {
    pub fn new() -> (r: RestartGuard)
        ensures
            r@ == idle_guard(),
    {
        RestartGuard { busy: false, granted: false, waiting: 0 }
    }

    /// True while a restart is in progress or handed to a waiter.
    pub fn is_restarting(&self) -> (r: bool)
        ensures
            r == self@.busy,
    {
        self.busy
    }

    /// Registers a restart intent. `Launch` means the caller starts the
    /// action; `Wait` means it blocks until woken and then calls `claim`.
    pub fn request(&mut self) -> (r: RestartStep)
        requires
            old(self)@.waiting < u64::MAX,
        ensures
            (final(self)@, r) == request_spec(old(self)@),
    {
        if self.busy {
            self.waiting = self.waiting + 1;
            RestartStep::Wait
        } else {
            self.busy = true;
            RestartStep::Launch
        }
    }

    /// Records the end of the running action, whether it succeeded or not.
    pub fn finish(&mut self) -> (r: FinishStep)
        requires
            old(self)@.wf(),
            old(self)@.running(),
        ensures
            (final(self)@, r) == finish_spec(old(self)@),
    {
        if self.waiting > 0 {
            self.waiting = self.waiting - 1;
            self.granted = true;
            FinishStep::HandOff
        } else {
            self.busy = false;
            FinishStep::Idle
        }
    }

    /// Called by a woken waiter: true when it now owns the guard and starts
    /// its own restart, false on a wake-up meant for nobody in particular.
    pub fn claim(&mut self) -> (r: bool)
        ensures
            (final(self)@, r) == claim_spec(old(self)@),
    {
        if self.granted {
            self.granted = false;
            true
        } else {
            false
        }
    }
}

/// A restart intent from the panel: queues the restart request for the
/// server, then asks the guard whether to launch now or wait.
pub fn request_restart(guard: &mut RestartGuard, out: &mut OutboundQueue) -> (r: RestartStep)
    requires
        old(guard)@.waiting < u64::MAX,
    ensures
        final(out)@ == old(out)@.push(OutboundRequest::RestartSteamvr),
        (final(guard)@, r) == request_spec(old(guard)@),
{
    out.push(OutboundRequest::RestartSteamvr);
    guard.request()
}

/// No restart action ever starts while another one runs: every step keeps
/// the guard well formed, an action is launched (by `request` or by `claim`)
/// only when none is running, and then it is the one running.
pub proof fn lemma_single_flight(m: GuardModel)
    requires
        m.wf(),
    ensures
        request_spec(m).0.wf(),
        request_spec(m).1 == RestartStep::Launch ==> !m.running() && request_spec(m).0.running(),
        m.running() ==> finish_spec(m).0.wf() && !finish_spec(m).0.running(),
        claim_spec(m).0.wf(),
        claim_spec(m).1 ==> !m.running() && claim_spec(m).0.running(),
{
}

/// `n` callers asking for a restart, one after another, on a free guard.
pub open spec fn requests_from_idle(n: nat) -> GuardModel
    decreases n,
{
    if n == 0 {
        idle_guard()
    } else {
        request_spec(requests_from_idle((n - 1) as nat)).0
    }
}

/// `k` rounds of: the running action finishes, then a woken waiter claims.
pub open spec fn finish_rounds(m: GuardModel, k: nat) -> GuardModel
    decreases k,
{
    if k == 0 {
        m
    } else {
        finish_rounds(claim_spec(finish_spec(m).0).0, (k - 1) as nat)
    }
}

proof fn lemma_requests_from_idle(n: nat)
    requires
        n > 0,
    ensures
        requests_from_idle(n).wf(),
        requests_from_idle(n).running(),
        requests_from_idle(n).waiting == n - 1,
    decreases n,
{
    if n > 1 {
        lemma_requests_from_idle((n - 1) as nat);
    } else {
        assert(requests_from_idle(0) == idle_guard());
    }
}

proof fn lemma_finish_rounds(m: GuardModel)
    requires
        m.wf(),
        m.running(),
    ensures
        finish_rounds(m, m.waiting + 1).idle(),
    decreases m.waiting,
{
    let next = claim_spec(finish_spec(m).0).0;
    if m.waiting > 0 {
        assert(next.running() && next.wf() && next.waiting == m.waiting - 1);
        lemma_finish_rounds(next);
        assert(finish_rounds(m, m.waiting + 1) == finish_rounds(next, next.waiting + 1));
    } else {
        assert(finish_rounds(next, 0) == next);
    }
}

/// No deadlock for any number of callers: after `n >= 1` overlapping
/// requests, one action runs and `n - 1` callers wait; after `n` rounds of
/// finishing and claiming, every caller has had its restart and the guard is
/// free again.
pub proof fn lemma_all_requests_served(n: nat)
    requires
        n >= 1,
    ensures
        requests_from_idle(n).running(),
        requests_from_idle(n).waiting == n - 1,
        finish_rounds(requests_from_idle(n), n).idle(),
{
    lemma_requests_from_idle(n);
    lemma_finish_rounds(requests_from_idle(n));
}

} // verus!
