use ind_persistence::search_reindex::{
    admission_start, admission_step, reindex_dedupe_key, version_cursor, Admission, AdmissionAction, AdmissionEvent,
    AdmissionStage, OutboxChoice,
};
use ind_persistence::sql::Timestamp;

/// Drives an admission with fixed database facts and returns its answer.
fn decide(target: Option<i32>, current: i32, existing: Option<bool>, active: bool, terminal: i64) -> (Admission, Vec<AdmissionAction>) {
    let (mut stage, first) = admission_start(target);
    let mut actions = vec![first];
    loop {
        let event = match stage {
            AdmissionStage::AwaitCurrentVersion { .. } => AdmissionEvent::CurrentVersion(current),
            AdmissionStage::AwaitExisting { .. } => AdmissionEvent::ExistingRow(existing),
            AdmissionStage::AwaitActive { .. } => AdmissionEvent::ActiveJob(active),
            AdmissionStage::AwaitTerminalRuns { .. } => AdmissionEvent::TerminalRuns(terminal),
        };
        let (next, action) = admission_step(stage, event);
        actions.push(action);
        match (next, action) {
            (None, AdmissionAction::Finish(a)) => return (a, actions),
            (Some(s), _) => stage = s,
            (None, _) => panic!("an admission ends with its answer"),
        }
    }
}

#[test]
fn dedupe_keys() {
    assert_eq!(reindex_dedupe_key(None), "search.reindex_all:manual");
    assert_eq!(reindex_dedupe_key(Some(7)), "search.reindex_all:version:7");
    assert_eq!(reindex_dedupe_key(Some(-3)), "search.reindex_all:version:-3");
}

#[test]
fn a_reached_version_is_not_queued() {
    let (a, actions) = decide(Some(3), 3, None, false, 0);
    assert_eq!(a, Admission { queued: false, outbox: OutboxChoice::NoRow });
    assert_eq!(actions, vec![AdmissionAction::ReadCurrentVersion, AdmissionAction::Finish(a)]);
    let (a, _) = decide(Some(3), 5, Some(true), false, 0);
    assert!(!a.queued);
}

#[test]
fn a_pending_row_is_reused() {
    let (a, actions) = decide(Some(4), 3, Some(false), false, 0);
    assert_eq!(a, Admission { queued: false, outbox: OutboxChoice::RefreshPending });
    assert_eq!(actions[1], AdmissionAction::SetTargetThenLoadExisting(4));
    let (a, _) = decide(None, 0, Some(false), true, 0);
    assert_eq!(a, Admission { queued: false, outbox: OutboxChoice::Existing });
}

#[test]
fn an_active_job_turns_the_request_away() {
    let (a, _) = decide(None, 0, Some(true), true, 0);
    assert_eq!(a, Admission { queued: false, outbox: OutboxChoice::Existing });
    let (a, _) = decide(Some(2), 1, None, true, 0);
    assert_eq!(a, Admission { queued: false, outbox: OutboxChoice::NoRow });
}

#[test]
fn exhausted_versions_stop_being_retried() {
    let (a, actions) = decide(Some(2), 1, Some(true), false, 3);
    assert_eq!(a, Admission { queued: false, outbox: OutboxChoice::Existing });
    assert!(actions.contains(&AdmissionAction::CountTerminalRuns));
    let (a, _) = decide(Some(2), 1, Some(true), false, 2);
    assert_eq!(a, Admission { queued: true, outbox: OutboxChoice::Requeue });
}

#[test]
fn otherwise_the_job_is_queued() {
    let (a, actions) = decide(None, 0, None, false, 99);
    assert_eq!(a, Admission { queued: true, outbox: OutboxChoice::Insert });
    assert!(!actions.contains(&AdmissionAction::CountTerminalRuns));
    let (a, _) = decide(None, 0, Some(true), false, 0);
    assert_eq!(a, Admission { queued: true, outbox: OutboxChoice::Requeue });
}

#[test]
fn version_cursor_needs_both_columns() {
    let t = Timestamp { secs: 1, nanos: 2 };
    assert_eq!(version_cursor(Some(t), Some(9)), Some((t, 9)));
    assert_eq!(version_cursor(Some(t), None), None);
    assert_eq!(version_cursor(None, Some(9)), None);
}
