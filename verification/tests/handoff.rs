use ind_persistence::error::AppError;
use ind_persistence::outbox_handoff::{task_run_at, ClaimedOutboxRow, HandoffTally, RowHandoff};

fn claimed(id: u128, key: Option<&str>, at: i64) -> ClaimedOutboxRow {
    ClaimedOutboxRow { id, job_type: "search.reindex".to_string(), dedupe_key: key.map(|k| k.to_string()), available_at_secs: at }
}

#[test]
fn every_claimed_row_is_relayed_or_deferred() {
    let rows = vec![claimed(1, Some("a"), 100), claimed(2, None, -5), claimed(3, Some("b"), 7)];
    let active = [true, false, false];
    let mut tally = HandoffTally::new(rows.len());
    let mut handoffs = Vec::new();
    for (row, is_active) in rows.iter().zip(active) {
        handoffs.push(tally.settle(row, is_active));
    }
    assert_eq!(
        handoffs,
        vec![RowHandoff::Defer { id: 1 }, RowHandoff::Relay { id: 2, run_at: 0 }, RowHandoff::Relay { id: 3, run_at: 7 }]
    );
    assert_eq!(tally.relayed_ids(), &vec![2, 3]);
    let stats = tally.finish(2).unwrap();
    assert_eq!((stats.claimed, stats.relayed, stats.deduped), (3, 2, 1));
}

#[test]
fn a_dispatch_stamp_touching_other_rows_is_refused() {
    let mut tally = HandoffTally::new(1);
    tally.settle(&claimed(1, None, 0), false);
    assert_eq!(
        tally.finish(0).err(),
        Some(AppError::InvariantViolation { message: "outbox handoff dispatch batch updated an unexpected row count".to_string() })
    );
}

#[test]
fn an_empty_batch_closes_with_zero_counts() {
    let stats = HandoffTally::new(0).finish(0).unwrap();
    assert_eq!((stats.claimed, stats.relayed, stats.deduped), (0, 0, 0));
}

#[test]
fn tasks_run_no_earlier_than_the_epoch() {
    assert_eq!(task_run_at(-1), 0);
    assert_eq!(task_run_at(0), 0);
    assert_eq!(task_run_at(1_700_000_000), 1_700_000_000);
}

/// One hand-off batch over the claimed rows, with whether each row's dedupe key has an
/// active job, closed with the dispatch stamp touching every relayed row.
fn batch(rows: &[ClaimedOutboxRow], active: &[bool]) -> (usize, usize, usize) {
    let mut tally = HandoffTally::new(rows.len());
    for (row, is_active) in rows.iter().zip(active) {
        tally.settle(row, *is_active);
    }
    let relayed = tally.relayed_ids().len() as u64;
    let stats = tally.finish(relayed).unwrap();
    (stats.claimed, stats.relayed, stats.deduped)
}

#[test]
fn handoff_is_atomic_and_dedupes_only_active_jobs() {
    let key = "search:0190c0de-0000-7000-8000-000000000001";
    // The first row of the key is relayed: no job with that key exists yet.
    assert_eq!(batch(&[claimed(1, Some(key), 0)], &[false]), (1, 1, 0));
    // A second row of the key is deferred while the first job is active.
    assert_eq!(batch(&[claimed(2, Some(key), 0)], &[true]), (1, 0, 1));
    // Once that job is done, the deferred row is relayed.
    assert_eq!(batch(&[claimed(2, Some(key), 0)], &[false]), (1, 1, 0));
    // Nothing is left to claim.
    assert_eq!(batch(&[], &[]), (0, 0, 0));
}
