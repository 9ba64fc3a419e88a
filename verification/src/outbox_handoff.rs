//! Hand-off of claimed job-outbox rows to the job queue: each claimed row is either
//! relayed as a task or, when a job with its dedupe key is still active, deferred.

use vstd::prelude::*;
use crate::error::{AppError, ErrorView, invariant_violation};

verus! {

/// How long a row whose dedupe key has an active job waits before the next hand-off.
pub const ACTIVE_DEDUPE_DEFER_SECONDS: i64 = 30;

/// The counts of one hand-off batch.
#[derive(Debug)]
pub struct OutboxHandoffStats {
    pub claimed: usize,
    pub relayed: usize,
    pub deduped: usize,
}

/// An outbox row claimed for hand-off.
pub struct ClaimedOutboxRow {
    pub id: u128,
    pub job_type: String,
    pub dedupe_key: Option<String>,
    /// Seconds since the Unix epoch at which the job may run.
    pub available_at_secs: i64,
}

/// What happens to one claimed row.
#[derive(Clone, Copy, Debug, PartialEq, Eq, Structural)]
pub enum RowHandoff {
    /// Pushed to the queue as a task that may run from `run_at` (Unix seconds).
    Relay { id: u128, run_at: u64 },
    /// Left in the outbox, available again after the defer interval.
    Defer { id: u128 },
}

/// The running tally of a batch: the rows settled so far, and which were relayed.
pub struct HandoffTally {
    claimed: usize,
    settled: usize,
    relayed_ids: Vec<u128>,
    deduped: usize,
}

/// The mathematical value of a tally.
pub struct TallyView {
    pub claimed: nat,
    pub settled: nat,
    pub relayed_ids: Seq<u128>,
    pub deduped: nat,
}

impl View for HandoffTally {
    type V = TallyView;

    closed spec fn view(&self) -> TallyView {
        TallyView {
            claimed: self.claimed as nat,
            settled: self.settled as nat,
            relayed_ids: self.relayed_ids@,
            deduped: self.deduped as nat,
        }
    }
}

impl TallyView {
    /// Every settled row was either relayed or deferred, and no more rows were settled
    /// than were claimed.
    pub open spec fn wf(self) -> bool {
        &&& self.settled == self.relayed_ids.len() + self.deduped
        &&& self.settled <= self.claimed
    }
}

/// The time from which a relayed task may run: the row's availability, clamped at the epoch.
pub open spec fn run_at_spec(available_at_secs: i64) -> u64 {
    if available_at_secs < 0 {
        0
    } else {
        available_at_secs as u64
    }
}

/// The time from which a relayed task may run.
pub fn task_run_at(available_at_secs: i64) -> (r: u64)
    ensures
        r == run_at_spec(available_at_secs),
{
    if available_at_secs < 0 {
        0
    } else {
        available_at_secs as u64
    }
}

/// The error for a dispatch stamp that touched another number of rows than were relayed.
pub open spec fn unexpected_dispatch_count() -> ErrorView {
    ErrorView::InvariantViolation { message: "outbox handoff dispatch batch updated an unexpected row count"@ }
}

impl HandoffTally {
    /// A tally for a batch of `claimed` rows, none settled yet.
    pub fn new(claimed: usize) -> (t: HandoffTally)
        ensures
            t@.wf(),
            t@.claimed == claimed,
            t@.settled == 0,
            t@.relayed_ids == Seq::<u128>::empty(),
            t@.deduped == 0,
    {
        HandoffTally { claimed, settled: 0, relayed_ids: Vec::new(), deduped: 0 }
    }

    /// The identifiers of the rows relayed so far.
    pub fn relayed_ids(&self) -> (r: &Vec<u128>)
        ensures
            r@ == self@.relayed_ids,
    {
        &self.relayed_ids
    }

    /// Settles the next claimed row. `dedupe_active` tells whether a job with the row's
    /// dedupe key is pending, queued, running or failed with attempts left; it is only
    /// asked for a row that has a dedupe key. Such a row is deferred; any other is relayed.
    pub fn settle(&mut self, row: &ClaimedOutboxRow, dedupe_active: bool) -> (h: RowHandoff)
        requires
            old(self)@.wf(),
            old(self)@.settled < old(self)@.claimed,
            row.dedupe_key is None ==> !dedupe_active,
        ensures
            final(self)@.wf(),
            final(self)@.claimed == old(self)@.claimed,
            final(self)@.settled == old(self)@.settled + 1,
            dedupe_active ==> {
                &&& h == (RowHandoff::Defer { id: row.id })
                &&& final(self)@.deduped == old(self)@.deduped + 1
                &&& final(self)@.relayed_ids == old(self)@.relayed_ids
            },
            !dedupe_active ==> {
                &&& h == (RowHandoff::Relay { id: row.id, run_at: run_at_spec(row.available_at_secs) })
                &&& final(self)@.deduped == old(self)@.deduped
                &&& final(self)@.relayed_ids == old(self)@.relayed_ids.push(row.id)
            },
    {
        self.settled = self.settled + 1;
        if dedupe_active {
            self.deduped = self.deduped + 1;
            RowHandoff::Defer { id: row.id }
        } else {
            self.relayed_ids.push(row.id);
            RowHandoff::Relay { id: row.id, run_at: task_run_at(row.available_at_secs) }
        }
    }

    /// Closes a batch whose rows are all settled, given how many outbox rows the dispatch
    /// stamp updated (none when nothing was relayed): that count must equal the relayed rows.
    pub fn finish(self, dispatched_rows: u64) -> (r: Result<OutboxHandoffStats, AppError>)
        requires
            self@.wf(),
            self@.settled == self@.claimed,
        ensures
            r is Ok <==> dispatched_rows == self@.relayed_ids.len(),
            r matches Ok(s) ==> {
                &&& s.claimed == self@.claimed
                &&& s.relayed == self@.relayed_ids.len()
                &&& s.deduped == self@.deduped
                &&& s.claimed == s.relayed + s.deduped
            },
            r matches Err(e) ==> e@ == unexpected_dispatch_count(),
    {
        let relayed = self.relayed_ids.len();
        if dispatched_rows != relayed as u64 {
            return Err(invariant_violation(
                "outbox handoff dispatch batch updated an unexpected row count".to_string(),
            ));
        }
        Ok(OutboxHandoffStats { claimed: self.claimed, relayed, deduped: self.deduped })
    }
}


/// A relayed task may run from the row's availability, or from the epoch for a row
/// available before it: never earlier than the row, never before the epoch.
pub proof fn lemma_run_at_is_availability(available_at_secs: i64)
    ensures
        run_at_spec(available_at_secs) as int == (if available_at_secs < 0 { 0 } else { available_at_secs as int }),
        available_at_secs >= 0 ==> run_at_spec(available_at_secs) == available_at_secs,
{
}

} // verus!
