//! The launcher's side of the protocol: the one-shot handle and the
//! ruling its wait draws from the worker's termination.
//!
//! Policy on waiting twice: a wait consumes its handle, so a second wait
//! on the same worker is ruled out at the type level rather than reported
//! at run time. The driver's underlying join primitive consumes its handle
//! the same way.

use vstd::prelude::*;

verus! {

/// The one outcome a launcher may consume per worker: the worker thread as
/// a whole exited cleanly. A fault absorbed inside the guarded scope never
/// reaches this type; an unabsorbed fault yields no outcome at all but a
/// `JoinFault`.
#[derive(Clone, Copy, Debug, PartialEq, Eq, Structural)]
pub enum WorkerOutcome {
    CompletedNormally,
}

/// The loud failure at the join point: the worker's top-level execution
/// faulted uncaught. Not a recoverable condition in this design.
#[derive(Clone, Copy, Debug, PartialEq, Eq, Structural)]
pub struct JoinFault;

impl JoinFault {
    /// The fixed description of the failure, for whatever sink the caller
    /// reports it to.
    pub fn describe(&self) -> (r: &'static str)
        ensures
            r@ == "worker terminated abnormally"@,
    {
        "worker terminated abnormally"
    }
}

/// What a wait must return for each way the worker thread can end:
/// the normal outcome exactly when the thread exited cleanly, the loud
/// failure exactly when it did not.
pub open spec fn join_ruling(clean: bool) -> Result<WorkerOutcome, JoinFault> {
    if clean {
        Ok(WorkerOutcome::CompletedNormally)
    } else {
        Err(JoinFault)
    }
}

/// A joined worker, reduced to the one fact the launcher may observe:
/// whether the thread exited cleanly. The driver builds one from its join
/// primitive's result and must consume it exactly once.
pub struct WorkerHandle {
    joined_clean: bool,
}

impl WorkerHandle {
    /// Whether the worker this handle stands for exited cleanly.
    pub closed spec fn clean(&self) -> bool {
        self.joined_clean
    }

    /// Wraps the raw result of the driver's join primitive: `clean` is true
    /// exactly when the worker thread terminated without an uncaught fault.
    pub fn from_join(clean: bool) -> (h: WorkerHandle)
        ensures
            h.clean() == clean,
    {
        WorkerHandle { joined_clean: clean }
    }

    /// The launcher's wait: consumes the handle and returns the normal
    /// outcome for a clean exit, or fails loudly on an uncaught top-level
    /// fault. Never absorbs such a fault silently.
    pub fn wait(self) -> (r: Result<WorkerOutcome, JoinFault>)
        ensures
            r == join_ruling(self.clean()),
            self.clean() <==> r is Ok,
    {
        if self.joined_clean {
            Ok(WorkerOutcome::CompletedNormally)
        } else {
            Err(JoinFault)
        }
    }
}

} // verus!
