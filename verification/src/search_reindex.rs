//! Admission of a full search reindex: whether a request queues a new job, reuses the
//! pending one, or is turned away, decided step by step as the facts come in.

use vstd::prelude::*;
use crate::sql::Timestamp;
use crate::text::{concat, decimal_i64, decimal_text};

verus! {

/// How many exhausted runs of one target version end further attempts at it.
pub const MAX_VERSION_REINDEX_TERMINAL_RUNS: i64 = 3;

/// The dedupe key of a reindex request: one per target version, one for manual requests.
pub open spec fn reindex_dedupe_key_spec(target_version: Option<i32>) -> Seq<char> {
    match target_version {
        None => "search.reindex_all:manual"@,
        Some(v) => "search.reindex_all:version:"@ + decimal_text(v as int),
    }
}

/// The dedupe key of a reindex request.
pub fn reindex_dedupe_key(target_version: Option<i32>) -> (k: String)
    ensures
        k@ == reindex_dedupe_key_spec(target_version),
{
    match target_version {
        None => "search.reindex_all:manual".to_string(),
        Some(v) => {
            let digits = decimal_i64(v as i64);
            concat("search.reindex_all:version:", digits.as_str())
        },
    }
}

/// Which outbox row an admission hands back, and what is written to it first.
#[derive(Clone, Copy, Debug, PartialEq, Eq, Structural)]
pub enum OutboxChoice {
    /// No row.
    NoRow,
    /// The newest existing row, unchanged.
    Existing,
    /// The pending existing row, with the new payload and dedupe key and the earlier of the
    /// two availability times.
    RefreshPending,
    /// The dispatched existing row, queued again with the new payload, key and time.
    Requeue,
    /// A new row.
    Insert,
}

/// The answer to a full reindex request.
#[derive(Clone, Copy, Debug, PartialEq, Eq, Structural)]
pub struct Admission {
    pub queued: bool,
    pub outbox: OutboxChoice,
}

/// The answer to a full reindex request, from all the facts it may depend on: the target
/// version, the index's current version, the newest outbox row of the job (absent, or
/// whether it was dispatched), whether a reindex job is active, and how many runs of the
/// target's dedupe key were exhausted.
pub open spec fn admission_spec(
    target: Option<i32>,
    current_version: i32,
    existing: Option<bool>,
    active: bool,
    terminal_runs: i64,
) -> Admission {
    if target is Some && current_version >= target->0 {
        Admission { queued: false, outbox: OutboxChoice::NoRow }
    } else if existing == Some(false) {
        Admission {
            queued: false,
            outbox: if target is Some { OutboxChoice::RefreshPending } else { OutboxChoice::Existing },
        }
    } else {
        let kept = if existing is Some { OutboxChoice::Existing } else { OutboxChoice::NoRow };
        if active {
            Admission { queued: false, outbox: kept }
        } else if target is Some && terminal_runs >= MAX_VERSION_REINDEX_TERMINAL_RUNS {
            Admission { queued: false, outbox: kept }
        } else {
            Admission {
                queued: true,
                outbox: if existing is Some { OutboxChoice::Requeue } else { OutboxChoice::Insert },
            }
        }
    }
}

/// Where an admission stands: which fact it waits for.
#[derive(Clone, Copy, Debug, PartialEq, Eq, Structural)]
pub enum AdmissionStage {
    /// The index's current version, for a request with a target.
    AwaitCurrentVersion { target_version: i32 },
    /// The newest outbox row of the reindex job.
    AwaitExisting { target: Option<i32> },
    /// Whether a reindex job is active.
    AwaitActive { target: Option<i32>, existing: bool },
    /// How many runs of the target's dedupe key were exhausted.
    AwaitTerminalRuns { target_version: i32, existing: bool },
}

/// A fact the caller learned from the database.
pub enum AdmissionEvent {
    CurrentVersion(i32),
    /// The newest outbox row: absent, or whether it was dispatched.
    ExistingRow(Option<bool>),
    ActiveJob(bool),
    TerminalRuns(i64),
}

/// What the caller does next.
#[derive(Clone, Copy, Debug, PartialEq, Eq, Structural)]
pub enum AdmissionAction {
    ReadCurrentVersion,
    /// Record the target version on the index state (keeping its cursor only when the
    /// target is unchanged), then load the newest outbox row.
    SetTargetThenLoadExisting(i32),
    LoadExisting,
    CheckActiveJob,
    CountTerminalRuns,
    Finish(Admission),
}

/// Whether the event answers what the stage waits for.
pub open spec fn event_fits(stage: AdmissionStage, event: AdmissionEvent) -> bool {
    match stage {
        AdmissionStage::AwaitCurrentVersion { .. } => event is CurrentVersion,
        AdmissionStage::AwaitExisting { .. } => event is ExistingRow,
        AdmissionStage::AwaitActive { .. } => event is ActiveJob,
        AdmissionStage::AwaitTerminalRuns { .. } => event is TerminalRuns,
    }
}

/// The first stage and action of a request.
pub open spec fn start_spec(target: Option<i32>) -> (AdmissionStage, AdmissionAction) {
    match target {
        Some(t) => (AdmissionStage::AwaitCurrentVersion { target_version: t }, AdmissionAction::ReadCurrentVersion),
        None => (AdmissionStage::AwaitExisting { target: None }, AdmissionAction::LoadExisting),
    }
}

/// The next stage (none when finished) and action, from a stage and the fact it waited for.
pub open spec fn step_spec(stage: AdmissionStage, event: AdmissionEvent) -> (Option<AdmissionStage>, AdmissionAction) {
    match (stage, event) {
        (AdmissionStage::AwaitCurrentVersion { target_version: target }, AdmissionEvent::CurrentVersion(current)) => {
            if current >= target {
                (None, AdmissionAction::Finish(Admission { queued: false, outbox: OutboxChoice::NoRow }))
            } else {
                (
                    Some(AdmissionStage::AwaitExisting { target: Some(target) }),
                    AdmissionAction::SetTargetThenLoadExisting(target),
                )
            }
        },
        (AdmissionStage::AwaitExisting { target }, AdmissionEvent::ExistingRow(existing)) => {
            if existing == Some(false) {
                (
                    None,
                    AdmissionAction::Finish(
                        Admission {
                            queued: false,
                            outbox: if target is Some { OutboxChoice::RefreshPending } else { OutboxChoice::Existing },
                        },
                    ),
                )
            } else {
                (
                    Some(AdmissionStage::AwaitActive { target, existing: existing is Some }),
                    AdmissionAction::CheckActiveJob,
                )
            }
        },
        (AdmissionStage::AwaitActive { target, existing }, AdmissionEvent::ActiveJob(active)) => {
            let kept = if existing { OutboxChoice::Existing } else { OutboxChoice::NoRow };
            let fresh = if existing { OutboxChoice::Requeue } else { OutboxChoice::Insert };
            if active {
                (None, AdmissionAction::Finish(Admission { queued: false, outbox: kept }))
            } else {
                match target {
                    Some(t) => (
                        Some(AdmissionStage::AwaitTerminalRuns { target_version: t, existing }),
                        AdmissionAction::CountTerminalRuns,
                    ),
                    None => (None, AdmissionAction::Finish(Admission { queued: true, outbox: fresh })),
                }
            }
        },
        (AdmissionStage::AwaitTerminalRuns { target_version: _, existing }, AdmissionEvent::TerminalRuns(n)) => {
            let kept = if existing { OutboxChoice::Existing } else { OutboxChoice::NoRow };
            let fresh = if existing { OutboxChoice::Requeue } else { OutboxChoice::Insert };
            if n >= MAX_VERSION_REINDEX_TERMINAL_RUNS {
                (None, AdmissionAction::Finish(Admission { queued: false, outbox: kept }))
            } else {
                (None, AdmissionAction::Finish(Admission { queued: true, outbox: fresh }))
            }
        },
        _ => (Some(stage), AdmissionAction::LoadExisting),
    }
}

/// Starts the admission of a full reindex request.
pub fn admission_start(target: Option<i32>) -> (r: (AdmissionStage, AdmissionAction))
    ensures
        r == start_spec(target),
{
    match target {
        Some(t) => (AdmissionStage::AwaitCurrentVersion { target_version: t }, AdmissionAction::ReadCurrentVersion),
        None => (AdmissionStage::AwaitExisting { target: None }, AdmissionAction::LoadExisting),
    }
}

/// Advances the admission by the fact its stage waited for. A request whose target the
/// index already reached is turned away with no row; a pending outbox row is reused
/// (refreshed when the request names a target); an active job or a target that exhausted
/// its runs turns the request away with the existing row; otherwise the existing row is
/// queued again, or a new one inserted.
pub fn admission_step(stage: AdmissionStage, event: AdmissionEvent) -> (r: (Option<AdmissionStage>, AdmissionAction))
    requires
        event_fits(stage, event),
    ensures
        r == step_spec(stage, event),
{
    match (stage, event) {
        (AdmissionStage::AwaitCurrentVersion { target_version: target }, AdmissionEvent::CurrentVersion(current)) => {
            if current >= target {
                (None, AdmissionAction::Finish(Admission { queued: false, outbox: OutboxChoice::NoRow }))
            } else {
                (
                    Some(AdmissionStage::AwaitExisting { target: Some(target) }),
                    AdmissionAction::SetTargetThenLoadExisting(target),
                )
            }
        },
        (AdmissionStage::AwaitExisting { target }, AdmissionEvent::ExistingRow(existing)) => {
            let pending = match existing {
                Some(dispatched) => !dispatched,
                None => false,
            };
            if pending {
                let outbox = match target {
                    Some(_) => OutboxChoice::RefreshPending,
                    None => OutboxChoice::Existing,
                };
                (None, AdmissionAction::Finish(Admission { queued: false, outbox }))
            } else {
                (
                    Some(AdmissionStage::AwaitActive { target, existing: existing.is_some() }),
                    AdmissionAction::CheckActiveJob,
                )
            }
        },
        (AdmissionStage::AwaitActive { target, existing }, AdmissionEvent::ActiveJob(active)) => {
            let kept = if existing { OutboxChoice::Existing } else { OutboxChoice::NoRow };
            let fresh = if existing { OutboxChoice::Requeue } else { OutboxChoice::Insert };
            if active {
                (None, AdmissionAction::Finish(Admission { queued: false, outbox: kept }))
            } else {
                match target {
                    Some(t) => (
                        Some(AdmissionStage::AwaitTerminalRuns { target_version: t, existing }),
                        AdmissionAction::CountTerminalRuns,
                    ),
                    None => (None, AdmissionAction::Finish(Admission { queued: true, outbox: fresh })),
                }
            }
        },
        (AdmissionStage::AwaitTerminalRuns { target_version: _, existing }, AdmissionEvent::TerminalRuns(n)) => {
            let kept = if existing { OutboxChoice::Existing } else { OutboxChoice::NoRow };
            let fresh = if existing { OutboxChoice::Requeue } else { OutboxChoice::Insert };
            if n >= MAX_VERSION_REINDEX_TERMINAL_RUNS {
                (None, AdmissionAction::Finish(Admission { queued: false, outbox: kept }))
            } else {
                (None, AdmissionAction::Finish(Admission { queued: true, outbox: fresh }))
            }
        },
        (stage, _) => (Some(stage), AdmissionAction::LoadExisting),
    }
}

/// The event that answers a stage, drawn from a fixed set of database facts.
pub open spec fn fact_for(
    stage: AdmissionStage,
    current_version: i32,
    existing: Option<bool>,
    active: bool,
    terminal_runs: i64,
) -> AdmissionEvent {
    match stage {
        AdmissionStage::AwaitCurrentVersion { .. } => AdmissionEvent::CurrentVersion(current_version),
        AdmissionStage::AwaitExisting { .. } => AdmissionEvent::ExistingRow(existing),
        AdmissionStage::AwaitActive { .. } => AdmissionEvent::ActiveJob(active),
        AdmissionStage::AwaitTerminalRuns { .. } => AdmissionEvent::TerminalRuns(terminal_runs),
    }
}

/// The action reached by driving the admission from `stage` with answers drawn from the
/// facts, for at most `fuel` steps.
pub open spec fn drive(
    stage: AdmissionStage,
    fuel: nat,
    current_version: i32,
    existing: Option<bool>,
    active: bool,
    terminal_runs: i64,
) -> AdmissionAction
    decreases fuel,
{
    let (next, action) = step_spec(stage, fact_for(stage, current_version, existing, active, terminal_runs));
    match next {
        None => action,
        Some(s) => if fuel == 0 {
            action
        } else {
            drive(s, (fuel - 1) as nat, current_version, existing, active, terminal_runs)
        },
    }
}

/// The step-by-step admission answers every request, whatever the database holds, exactly
/// as the decision over all the facts does, within four steps: the facts it never asked
/// for do not change the answer.
pub proof fn lemma_admission_steps_decide(
    target: Option<i32>,
    current_version: i32,
    existing: Option<bool>,
    active: bool,
    terminal_runs: i64,
)
    ensures
        ({
            let (stage, first) = start_spec(target);
            drive(stage, 3, current_version, existing, active, terminal_runs)
                == AdmissionAction::Finish(admission_spec(target, current_version, existing, active, terminal_runs))
        }),
{
    reveal_with_fuel(drive, 4);
}

/// A request is queued exactly when no pending row exists, no reindex job is active, and,
/// for a target version, the index is below it and fewer than the allowed number of its
/// runs were exhausted; it then inserts a new outbox row when the job has none and requeues
/// the dispatched one otherwise. A request for a version the index reached hands back no
/// row, and a pending row is handed back (refreshed for a version request) unqueued.
pub proof fn lemma_admission_guards(
    target: Option<i32>,
    current_version: i32,
    existing: Option<bool>,
    active: bool,
    terminal_runs: i64,
)
    ensures
        admission_spec(target, current_version, existing, active, terminal_runs).queued ==> {
            &&& existing != Some(false)
            &&& !active
            &&& target is Some ==> current_version < target->0 && terminal_runs < MAX_VERSION_REINDEX_TERMINAL_RUNS
        },
        target is Some && current_version >= target->0 ==> admission_spec(
            target,
            current_version,
            existing,
            active,
            terminal_runs,
        ) == (Admission { queued: false, outbox: OutboxChoice::NoRow }),
        admission_spec(target, current_version, existing, active, terminal_runs).queued <==> (
            admission_spec(target, current_version, existing, active, terminal_runs).outbox is Requeue
            || admission_spec(target, current_version, existing, active, terminal_runs).outbox is Insert),
        existing != Some(false) && !active && (target is Some ==> current_version < target->0
            && terminal_runs < MAX_VERSION_REINDEX_TERMINAL_RUNS) ==> admission_spec(
            target,
            current_version,
            existing,
            active,
            terminal_runs,
        ) == (Admission {
            queued: true,
            outbox: if existing is None { OutboxChoice::Insert } else { OutboxChoice::Requeue },
        }),
        existing == Some(false) && !(target is Some && current_version >= target->0) ==> admission_spec(
            target,
            current_version,
            existing,
            active,
            terminal_runs,
        ) == (Admission {
            queued: false,
            outbox: if target is Some { OutboxChoice::RefreshPending } else { OutboxChoice::Existing },
        }),
{
}

/// The cursor of a version reindex, present only when both its columns are.
pub fn version_cursor(created_at: Option<Timestamp>, document_id: Option<u128>) -> (r: Option<(Timestamp, u128)>)
    ensures
        r == (match (created_at, document_id) {
            (Some(c), Some(d)) => Some((c, d)),
            _ => None::<(Timestamp, u128)>,
        }),
{
    match (created_at, document_id) {
        (Some(c), Some(d)) => Some((c, d)),
        _ => None,
    }
}

} // verus!
