use ind_persistence::error::AppError;
use ind_persistence::obsidian_export::{
    check_artifact_scope, check_owned_ids, gave_up_subjects, partition_acks, plan_ack, queued_refresh_count, refresh_after_failure, RefreshStep,
    run_outcome, unique_library_entry_ids, zip_byte_size, ArtifactItem, FailedSubject, RefreshAttempt, SubjectAck,
};
use ind_persistence::sql::Timestamp;

fn row(artifact: u128, entry: u128) -> ArtifactItem {
    ArtifactItem {
        artifact_id: artifact,
        library_entry_id: entry,
        file_path: format!("notes/{entry}.md"),
        full_document_path: None,
        last_highlight_created_at: Some(Timestamp { secs: 100 + entry as i64, nanos: 0 }),
        last_highlight_id: Some(entry * 10),
    }
}

fn ack(entry: u128, status: &str, error: Option<&str>) -> SubjectAck {
    SubjectAck {
        library_entry_id: entry,
        status: status.to_string(),
        last_content_hash: Some(format!("h{entry}")),
        last_full_document_hash: None,
        error: error.map(|e| e.to_string()),
    }
}

fn validation(field: &str, message: &str) -> AppError {
    AppError::Validation { field: field.to_string(), message: message.to_string() }
}

#[test]
fn acks_split_rows_into_delivered_and_failed() {
    let rows = vec![row(1, 10), row(1, 11), row(2, 12), row(2, 13)];
    let acks = vec![
        ack(10, "success", None),
        ack(11, "failed", Some("disk full")),
        ack(12, "failed", None),
    ];
    let p = partition_acks(&rows, &acks);
    assert_eq!(p.delivered.len(), 1);
    let d = &p.delivered[0];
    assert_eq!((d.artifact_id, d.library_entry_id), (1, 10));
    assert_eq!(d.content_hash.as_deref(), Some("h10"));
    assert_eq!(d.file_path, "notes/10.md");
    assert_eq!(d.last_highlight_id, Some(100));
    let failed: Vec<(u128, u128, String)> =
        p.failed.iter().map(|f| (f.artifact_id, f.library_entry_id, f.error.clone())).collect();
    assert_eq!(
        failed,
        vec![
            (1, 11, "disk full".to_string()),
            (2, 12, "plugin write failed".to_string()),
            (2, 13, "plugin did not report status for this subject".to_string()),
        ]
    );
}

#[test]
fn the_last_report_for_a_subject_counts() {
    let rows = vec![row(1, 10)];
    let acks = vec![ack(10, "failed", Some("first")), ack(10, "success", None)];
    let p = partition_acks(&rows, &acks);
    assert_eq!(p.delivered.len(), 1);
    assert!(p.failed.is_empty());
    let acks = vec![ack(10, "success", None), ack(10, "failed", Some("second"))];
    let p = partition_acks(&rows, &acks);
    assert!(p.delivered.is_empty());
    assert_eq!(p.failed[0].error, "second");
}

#[test]
fn run_outcome_by_counts() {
    let o = run_outcome(0, 0).unwrap();
    assert_eq!((o.status.as_str(), o.error, o.documents_exported, o.connection_synced), ("success", None, 0, false));
    let o = run_outcome(3, 3).unwrap();
    assert_eq!((o.status.as_str(), o.error, o.connection_synced), ("success", None, true));
    let o = run_outcome(3, 0).unwrap();
    assert_eq!(o.status, "failed");
    assert_eq!(o.error.as_deref(), Some("No Obsidian documents were delivered by the plugin"));
    let o = run_outcome(3, 2).unwrap();
    assert_eq!(o.status, "partial_success");
    assert_eq!(o.error.as_deref(), Some("Some Obsidian documents failed to write"));
    assert_eq!(o.documents_exported, 2);
}

#[test]
fn run_outcome_refuses_counts_beyond_i32() {
    let too_many = validation("artifact_ids", "too many artifact subjects to acknowledge");
    assert_eq!(run_outcome(i32::MAX as usize + 1, 0).err(), Some(too_many.clone()));
    assert_eq!(run_outcome(i32::MAX as usize, i32::MAX as usize).unwrap().status, "success");
}

#[test]
fn plan_ack_combines_split_and_outcome() {
    let rows = vec![row(1, 10), row(1, 11)];
    let acks = vec![ack(10, "success", None)];
    let plan = plan_ack(&rows, &acks).unwrap();
    assert_eq!(plan.partition.delivered.len() + plan.partition.failed.len(), rows.len());
    assert_eq!(plan.outcome.status, "partial_success");
    assert_eq!(plan.outcome.documents_exported, 1);
}

#[test]
fn refreshes_at_the_attempt_limit_are_given_up() {
    let failed = vec![
        FailedSubject { artifact_id: 1, library_entry_id: 10, error: "old".to_string() },
        FailedSubject { artifact_id: 2, library_entry_id: 10, error: "newest".to_string() },
        FailedSubject { artifact_id: 2, library_entry_id: 11, error: "timeout".to_string() },
    ];
    let attempts = vec![
        RefreshAttempt { library_entry_id: 11, delivery_attempts: 4 },
        RefreshAttempt { library_entry_id: 10, delivery_attempts: 5 },
        RefreshAttempt { library_entry_id: 12, delivery_attempts: 9 },
    ];
    let g = gave_up_subjects(&attempts, &failed);
    let got: Vec<(u128, String)> = g.iter().map(|x| (x.library_entry_id, x.error.clone())).collect();
    assert_eq!(
        got,
        vec![
            (10, "newest (gave up after 5 delivery attempts; manual refresh required)".to_string()),
            (12, "plugin write failed (gave up after 5 delivery attempts; manual refresh required)".to_string()),
        ]
    );
}

#[test]
fn library_entry_ids_must_be_unique() {
    assert_eq!(unique_library_entry_ids(&vec![1, 2, 3], "force_library_entry_ids"), Ok(vec![1, 2, 3]));
    assert_eq!(
        unique_library_entry_ids(&vec![1, 2, 1], "force_library_entry_ids"),
        Err(validation("force_library_entry_ids", "library entry ids must be unique"))
    );
    assert_eq!(unique_library_entry_ids(&vec![], "library_entry_ids"), Ok(vec![]));
}

#[test]
fn library_entry_ids_must_all_be_owned() {
    assert_eq!(check_owned_ids(vec![1, 2], &vec![2, 1], "library_entry_ids"), Ok(vec![1, 2]));
    assert_eq!(
        check_owned_ids(vec![1, 2], &vec![2], "library_entry_ids"),
        Err(validation("library_entry_ids", "all library entry ids must belong to the authenticated user"))
    );
}

#[test]
fn acknowledged_artifacts_must_belong_to_the_run() {
    assert_eq!(check_artifact_scope(&vec![1, 2, 2], vec![2, 1]), Ok(vec![2, 1]));
    assert_eq!(
        check_artifact_scope(&vec![1, 2], vec![1]),
        Err(validation("artifact_ids", "all artifact_ids must belong to the acknowledged run"))
    );
}

#[test]
fn counts_that_do_not_fit_are_refused() {
    assert_eq!(queued_refresh_count(7), Ok(7));
    assert_eq!(
        queued_refresh_count(u32::MAX as usize + 1),
        Err(validation("library_entry_ids", "too many items queued for refresh"))
    );
    assert_eq!(zip_byte_size(1024), Ok(1024));
    assert_eq!(zip_byte_size(i32::MAX as usize + 1), Err(validation("zip", "artifact exceeds i32 byte size")));
}

#[test]
fn failed_refreshes_back_off_and_give_up_at_the_fifth_attempt() {
    assert_eq!(refresh_after_failure(0), Some(RefreshStep::Retry { delivery_attempts: 1, delay_minutes: 1 }));
    assert_eq!(refresh_after_failure(1), Some(RefreshStep::Retry { delivery_attempts: 2, delay_minutes: 2 }));
    assert_eq!(refresh_after_failure(3), Some(RefreshStep::Retry { delivery_attempts: 4, delay_minutes: 8 }));
    assert_eq!(refresh_after_failure(4), Some(RefreshStep::GiveUp { delivery_attempts: 5 }));
    assert_eq!(refresh_after_failure(9), Some(RefreshStep::GiveUp { delivery_attempts: 10 }));
    assert_eq!(refresh_after_failure(i32::MAX - 1), Some(RefreshStep::GiveUp { delivery_attempts: i32::MAX }));
    assert_eq!(refresh_after_failure(i32::MAX), None);
}
