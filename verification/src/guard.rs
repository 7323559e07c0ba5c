//! The fault-catching boundary: its tagged outcome, and the worker's
//! explicit inspection of that tag.

use vstd::prelude::*;

verus! {

/// The tagged result produced once per execution of the guarded scope:
/// either the scope ran to completion, or it raised a fault that the
/// boundary intercepted.
#[derive(Clone, Copy, Debug, PartialEq, Eq, Structural)]
pub enum GuardOutcome {
    Completed,
    FaultCaptured,
}

/// The tag that belongs to a raw boundary answer: `captured` is true
/// exactly when the boundary intercepted a fault.
pub open spec fn classify_spec(captured: bool) -> GuardOutcome {
    if captured {
        GuardOutcome::FaultCaptured
    } else {
        GuardOutcome::Completed
    }
}

/// Converts the boundary's raw answer into the tagged outcome. The driver
/// reports whether its unwind barrier intercepted a fault; no other source
/// of a `GuardOutcome` exists.
pub fn classify_guard(captured: bool) -> (o: GuardOutcome)
    ensures
        o == classify_spec(captured),
{
    if captured {
        GuardOutcome::FaultCaptured
    } else {
        GuardOutcome::Completed
    }
}

/// The status line the worker logs for each tag.
pub open spec fn report_view(o: GuardOutcome) -> Seq<char> {
    match o {
        GuardOutcome::Completed => "guarded scope completed"@,
        GuardOutcome::FaultCaptured => "guarded scope fault captured"@,
    }
}

/// The worker's explicit branch on the tag: each outcome gets its own
/// status line, and the two lines are distinct (`laws::report_lines_differ`).
pub fn report_line(o: &GuardOutcome) -> (r: &'static str)
    ensures
        r@ == report_view(*o),
{
    match o {
        GuardOutcome::Completed => "guarded scope completed",
        GuardOutcome::FaultCaptured => "guarded scope fault captured",
    }
}

} // verus!
