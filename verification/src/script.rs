//! The worker's fixed script as a state machine, and a deterministic
//! rehearsal of it.
//!
//! The machine holds every decision the worker makes: which step comes
//! next, and how the boundary's answer turns into the reported tag. The
//! unverified driver only performs each `WorkerAction` with the real
//! thread primitives and feeds the result back as a `WorkerEvent`.

use vstd::prelude::*;
use crate::guard::{GuardOutcome, classify_spec, classify_guard, report_view, report_line};

verus! {

/// Where, if anywhere, a worker's body raises its fault. This classifies
/// the bodies the protocol's guarantees speak of; the machine itself never
/// learns it in advance.
#[derive(Clone, Copy, Debug, PartialEq, Eq, Structural)]
pub enum FaultSite {
    NoFault,
    InsideGuard,
    OutsideGuard,
}

/// The worker's position in its script.
#[derive(Clone, Copy, Debug, PartialEq, Eq, Structural)]
pub enum Phase {
    AtSleep,
    AtYield,
    AtGuard,
    AtReport(GuardOutcome),
    Finished,
}

/// What the thread running the script must do next.
#[derive(Clone, Copy, Debug, PartialEq, Eq, Structural)]
pub enum WorkerAction {
    /// Block the worker for this many milliseconds.
    DoSleep(u64),
    /// Relinquish the scheduling slot without a fixed delay.
    DoYield,
    /// Execute the guarded scope under the fault-catching boundary.
    RunGuard,
    /// Log the status line for this tag (`guard::report_line`).
    EmitReport(GuardOutcome),
    /// The script is over; the worker exits cleanly.
    Stop,
}

/// What the thread reports back after performing an action: a plain step
/// finished, or the boundary returned and said whether it captured a fault.
#[derive(Clone, Copy, Debug, PartialEq, Eq, Structural)]
pub enum WorkerEvent {
    Ran,
    GuardReturn(bool),
}

/// The action owed in each phase.
pub open spec fn action_of(phase: Phase, sleep_ms: u64) -> WorkerAction {
    match phase {
        Phase::AtSleep => WorkerAction::DoSleep(sleep_ms),
        Phase::AtYield => WorkerAction::DoYield,
        Phase::AtGuard => WorkerAction::RunGuard,
        Phase::AtReport(o) => WorkerAction::EmitReport(o),
        Phase::Finished => WorkerAction::Stop,
    }
}

/// The transition relation: each phase advances on the event its action
/// produces, and the boundary's answer is tagged on the way. An event
/// that does not fit the phase changes nothing.
pub open spec fn step_spec(phase: Phase, e: WorkerEvent) -> Phase {
    match (phase, e) {
        (Phase::AtSleep, WorkerEvent::Ran) => Phase::AtYield,
        (Phase::AtYield, WorkerEvent::Ran) => Phase::AtGuard,
        (Phase::AtGuard, WorkerEvent::GuardReturn(captured)) => Phase::AtReport(
            classify_spec(captured),
        ),
        (Phase::AtReport(_), WorkerEvent::Ran) => Phase::Finished,
        _ => phase,
    }
}

/// One worker's script: sleep, yield, guarded scope, report, stop.
#[derive(Clone, Copy, Debug, PartialEq, Eq, Structural)]
pub struct WorkerScript {
    pub sleep_ms: u64,
    pub phase: Phase,
}

impl WorkerScript {
    /// A fresh script whose first step sleeps for `sleep_ms` milliseconds.
    pub fn new(sleep_ms: u64) -> (s: WorkerScript)
        ensures
            s.sleep_ms == sleep_ms,
            s.phase == Phase::AtSleep,
    {
        WorkerScript { sleep_ms, phase: Phase::AtSleep }
    }

    /// The action the worker owes in its current phase.
    pub fn next_action(&self) -> (a: WorkerAction)
        ensures
            a == action_of(self.phase, self.sleep_ms),
    {
        match self.phase {
            Phase::AtSleep => WorkerAction::DoSleep(self.sleep_ms),
            Phase::AtYield => WorkerAction::DoYield,
            Phase::AtGuard => WorkerAction::RunGuard,
            Phase::AtReport(o) => WorkerAction::EmitReport(o),
            Phase::Finished => WorkerAction::Stop,
        }
    }

    /// Advances the script by one reported event, exactly along `step_spec`.
    pub fn report_event(&mut self, e: WorkerEvent)
        ensures
            final(self).sleep_ms == old(self).sleep_ms,
            final(self).phase == step_spec(old(self).phase, e),
    {
        let next = match (self.phase, e) {
            (Phase::AtSleep, WorkerEvent::Ran) => Phase::AtYield,
            (Phase::AtYield, WorkerEvent::Ran) => Phase::AtGuard,
            (Phase::AtGuard, WorkerEvent::GuardReturn(captured)) => Phase::AtReport(
                classify_guard(captured),
            ),
            (Phase::AtReport(_), WorkerEvent::Ran) => Phase::Finished,
            (p, _) => p,
        };
        self.phase = next;
    }
}

/// Whether a worker whose body faults at `site` exits cleanly: only a
/// fault outside the guarded scope terminates the thread.
pub open spec fn exits_cleanly(site: FaultSite) -> bool {
    site != FaultSite::OutsideGuard
}

/// The exact status lines the rehearsed worker logs for each fault site.
/// An unguarded fault kills the worker before it logs anything.
pub open spec fn rehearsal_log(site: FaultSite) -> Seq<Seq<char>> {
    match site {
        FaultSite::NoFault => seq![
            "guarded scope: before"@,
            "guarded scope: after"@,
            report_view(GuardOutcome::Completed),
        ],
        FaultSite::InsideGuard => seq![
            "guarded scope: before"@,
            report_view(GuardOutcome::FaultCaptured),
        ],
        FaultSite::OutsideGuard => Seq::empty(),
    }
}

/// A log agrees with its model line for line.
pub open spec fn log_matches(log: Seq<&'static str>, model: Seq<Seq<char>>) -> bool {
    &&& log.len() == model.len()
    &&& forall|i: int| 0 <= i < log.len() ==> log[i]@ == model[i]
}

/// What one rehearsed run leaves behind: whether the worker exited
/// cleanly, and every status line it logged, in order. The log stands in
/// for the injected sink the real driver would write to.
#[derive(Debug)]
pub struct Rehearsal {
    pub clean: bool,
    pub log: Vec<&'static str>,
}

/// Runs the whole script against a body that faults at `site`, with no
/// real thread involved: the sleep lasts zero milliseconds and the yield
/// is immediate, neither being observable here. The guarded body logs a
/// line before its fault site and one after it, as the demonstration
/// worker does.
pub fn rehearse(site: FaultSite) -> (r: Rehearsal)
    ensures
        r.clean == exits_cleanly(site),
        log_matches(r.log@, rehearsal_log(site)),
{
    let mut log: Vec<&'static str> = Vec::new();
    let mut script = WorkerScript::new(0);
    script.report_event(WorkerEvent::Ran);
    script.report_event(WorkerEvent::Ran);
    if let FaultSite::OutsideGuard = site {
        // The fault is raised with no boundary around it: the worker
        // terminates here, and only the join can report that.
        return Rehearsal { clean: false, log };
    }
    log.push("guarded scope: before");
    let captured = if let FaultSite::InsideGuard = site {
        true
    } else {
        false
    };
    if !captured {
        log.push("guarded scope: after");
    }
    script.report_event(WorkerEvent::GuardReturn(captured));
    if let WorkerAction::EmitReport(o) = script.next_action() {
        log.push(report_line(&o));
    }
    script.report_event(WorkerEvent::Ran);
    Rehearsal { clean: true, log }
}

} // verus!
