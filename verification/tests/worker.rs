use worker_guard::guard::{classify_guard, report_line, GuardOutcome};
use worker_guard::launch::{JoinFault, WorkerHandle, WorkerOutcome};
use worker_guard::script::{
    rehearse, FaultSite, Phase, WorkerAction, WorkerEvent, WorkerScript,
};

#[test]
fn classify_tags_the_boundary_answer() {
    assert_eq!(classify_guard(false), GuardOutcome::Completed);
    assert_eq!(classify_guard(true), GuardOutcome::FaultCaptured);
}

#[test]
fn report_lines_are_distinct_and_fixed() {
    assert_eq!(report_line(&GuardOutcome::Completed), "guarded scope completed");
    assert_eq!(
        report_line(&GuardOutcome::FaultCaptured),
        "guarded scope fault captured"
    );
    assert_ne!(
        report_line(&GuardOutcome::Completed),
        report_line(&GuardOutcome::FaultCaptured)
    );
}

#[test]
fn wait_on_clean_join_completes_normally() {
    let handle = WorkerHandle::from_join(true);
    assert_eq!(handle.wait(), Ok(WorkerOutcome::CompletedNormally));
}

#[test]
fn wait_on_unclean_join_fails_loudly() {
    let handle = WorkerHandle::from_join(false);
    let ruling = handle.wait();
    assert_eq!(ruling, Err(JoinFault));
    assert_eq!(
        ruling.unwrap_err().describe(),
        "worker terminated abnormally"
    );
}

#[test]
fn guarded_fault_never_escapes_to_wait() {
    let run = rehearse(FaultSite::InsideGuard);
    assert!(run.clean);
    let handle = WorkerHandle::from_join(run.clean);
    assert_eq!(handle.wait(), Ok(WorkerOutcome::CompletedNormally));
}

#[test]
fn clean_worker_reports_completed_tag_only() {
    let run = rehearse(FaultSite::NoFault);
    assert!(run.clean);
    assert_eq!(
        run.log,
        vec![
            "guarded scope: before",
            "guarded scope: after",
            "guarded scope completed",
        ]
    );
    assert!(!run.log.contains(&"guarded scope fault captured"));
    let handle = WorkerHandle::from_join(run.clean);
    assert_eq!(handle.wait(), Ok(WorkerOutcome::CompletedNormally));
}

#[test]
fn unguarded_fault_is_detected_at_wait() {
    let run = rehearse(FaultSite::OutsideGuard);
    assert!(!run.clean);
    assert!(run.log.is_empty());
    let handle = WorkerHandle::from_join(run.clean);
    assert_eq!(handle.wait(), Err(JoinFault));
}

#[test]
fn guarded_fault_scenario_in_order() {
    // Sleep for zero milliseconds, yield once, then let the guarded scope
    // fault: the before marker comes first, the captured tag's line comes
    // next, no fault message surfaces, and the wait succeeds.
    let run = rehearse(FaultSite::InsideGuard);
    assert_eq!(
        run.log,
        vec!["guarded scope: before", "guarded scope fault captured"]
    );
    assert_eq!(
        WorkerHandle::from_join(run.clean).wait(),
        Ok(WorkerOutcome::CompletedNormally)
    );
}

#[test]
fn script_walks_its_phases_in_order() {
    let mut script = WorkerScript::new(0);
    assert_eq!(script.next_action(), WorkerAction::DoSleep(0));
    script.report_event(WorkerEvent::Ran);
    assert_eq!(script.next_action(), WorkerAction::DoYield);
    script.report_event(WorkerEvent::Ran);
    assert_eq!(script.next_action(), WorkerAction::RunGuard);
    script.report_event(WorkerEvent::GuardReturn(true));
    assert_eq!(
        script.next_action(),
        WorkerAction::EmitReport(GuardOutcome::FaultCaptured)
    );
    script.report_event(WorkerEvent::Ran);
    assert_eq!(script.next_action(), WorkerAction::Stop);
}

#[test]
fn script_keeps_its_sleep_duration() {
    let script = WorkerScript::new(2000);
    assert_eq!(script.next_action(), WorkerAction::DoSleep(2000));
}

#[test]
fn script_ignores_an_event_that_does_not_fit() {
    let mut script = WorkerScript::new(0);
    script.report_event(WorkerEvent::GuardReturn(true));
    assert_eq!(script.phase, Phase::AtSleep);
    script.report_event(WorkerEvent::Ran);
    script.report_event(WorkerEvent::Ran);
    script.report_event(WorkerEvent::Ran);
    assert_eq!(script.phase, Phase::AtGuard);
}

#[test]
fn clean_guard_reports_completed_tag() {
    let mut script = WorkerScript::new(0);
    script.report_event(WorkerEvent::Ran);
    script.report_event(WorkerEvent::Ran);
    script.report_event(WorkerEvent::GuardReturn(false));
    assert_eq!(
        script.next_action(),
        WorkerAction::EmitReport(GuardOutcome::Completed)
    );
}
