//! The protocol's guarantees, stated over the spec functions that the
//! executable contracts use.

use vstd::prelude::*;
use crate::guard::{GuardOutcome, report_view};
use crate::launch::{WorkerOutcome, JoinFault, join_ruling};
use crate::script::{FaultSite, exits_cleanly, rehearsal_log};

verus! {

/// The two status lines of the guarded scope are distinct, so a report of
/// one tag can never be read as a report of the other.
pub proof fn report_lines_differ()
    ensures
        report_view(GuardOutcome::Completed) != report_view(GuardOutcome::FaultCaptured),
{
    reveal_strlit("guarded scope completed");
    reveal_strlit("guarded scope fault captured");
    assert(report_view(GuardOutcome::Completed).len() != report_view(
        GuardOutcome::FaultCaptured,
    ).len());
}

/// A fault raised inside the guarded scope is absorbed there: the worker
/// still exits cleanly, and the launcher's wait returns the normal
/// outcome, not a failure.
pub proof fn guarded_fault_is_isolated()
    ensures
        exits_cleanly(FaultSite::InsideGuard),
        join_ruling(exits_cleanly(FaultSite::InsideGuard)) == Ok::<WorkerOutcome, JoinFault>(
            WorkerOutcome::CompletedNormally,
        ),
{
}

/// A worker with no fault anywhere exits cleanly, its wait returns the
/// normal outcome, and its log carries the completed tag's line and never
/// the captured tag's line.
pub proof fn clean_worker_reports_completed()
    ensures
        exits_cleanly(FaultSite::NoFault),
        join_ruling(exits_cleanly(FaultSite::NoFault)) == Ok::<WorkerOutcome, JoinFault>(
            WorkerOutcome::CompletedNormally,
        ),
        rehearsal_log(FaultSite::NoFault).contains(report_view(GuardOutcome::Completed)),
        !rehearsal_log(FaultSite::NoFault).contains(report_view(GuardOutcome::FaultCaptured)),
{
    reveal_strlit("guarded scope: before");
    reveal_strlit("guarded scope: after");
    reveal_strlit("guarded scope completed");
    reveal_strlit("guarded scope fault captured");
    let log = rehearsal_log(FaultSite::NoFault);
    assert(log[2] == report_view(GuardOutcome::Completed));
    assert forall|i: int| 0 <= i < log.len() implies log[i] != report_view(
        GuardOutcome::FaultCaptured,
    ) by {
        assert(log[i].len() != report_view(GuardOutcome::FaultCaptured).len());
    }
}

/// A fault raised outside the guarded scope terminates the worker, and the
/// launcher's wait must then fail, never succeed silently.
pub proof fn unguarded_fault_is_detected()
    ensures
        !exits_cleanly(FaultSite::OutsideGuard),
        join_ruling(exits_cleanly(FaultSite::OutsideGuard)) == Err::<WorkerOutcome, JoinFault>(
            JoinFault,
        ),
{
}

} // verus!
