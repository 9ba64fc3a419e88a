//! Decisions of the Obsidian export runs: which acknowledged subjects were delivered,
//! which failed and why, when a refresh gives up, and how a run ends.

use vstd::prelude::*;
use crate::error::{AppError, ErrorView, validation, validation_view};
use crate::sql::Timestamp;
use crate::text::concat;

verus! {

/// How many failed deliveries a queued refresh survives before it needs a manual refresh.
pub const MAX_REFRESH_ATTEMPTS: i32 = 5;

/// A subject (library entry) written into an export artifact.
pub struct ArtifactItem {
    pub artifact_id: u128,
    pub library_entry_id: u128,
    pub file_path: String,
    pub full_document_path: Option<String>,
    pub last_highlight_created_at: Option<Timestamp>,
    pub last_highlight_id: Option<u128>,
}

/// The plugin's report for one subject.
pub struct SubjectAck {
    pub library_entry_id: u128,
    pub status: String,
    pub last_content_hash: Option<String>,
    pub last_full_document_hash: Option<String>,
    pub error: Option<String>,
}

/// A subject the plugin wrote: what advances its export cursor.
pub struct DeliveredSubject {
    pub artifact_id: u128,
    pub library_entry_id: u128,
    pub last_highlight_created_at: Option<Timestamp>,
    pub last_highlight_id: Option<u128>,
    pub content_hash: Option<String>,
    pub full_document_hash: Option<String>,
    pub file_path: String,
    pub full_document_path: Option<String>,
}

/// A subject the plugin did not write, with the error recorded for it.
pub struct FailedSubject {
    pub artifact_id: u128,
    pub library_entry_id: u128,
    pub error: String,
}

/// The subjects of the acknowledged artifacts, split by outcome, each list in artifact-row order.
pub struct AckPartition {
    pub delivered: Vec<DeliveredSubject>,
    pub failed: Vec<FailedSubject>,
}

/// The texts of an optional string.
pub open spec fn opt_view(o: Option<String>) -> Option<Seq<char>> {
    match o {
        Some(s) => Some(s@),
        None => None,
    }
}

/// The mathematical value of a delivered subject.
pub struct DeliveredView {
    pub artifact_id: u128,
    pub library_entry_id: u128,
    pub last_highlight_created_at: Option<Timestamp>,
    pub last_highlight_id: Option<u128>,
    pub content_hash: Option<Seq<char>>,
    pub full_document_hash: Option<Seq<char>>,
    pub file_path: Seq<char>,
    pub full_document_path: Option<Seq<char>>,
}

impl View for DeliveredSubject {
    type V = DeliveredView;

    open spec fn view(&self) -> DeliveredView {
        DeliveredView {
            artifact_id: self.artifact_id,
            library_entry_id: self.library_entry_id,
            last_highlight_created_at: self.last_highlight_created_at,
            last_highlight_id: self.last_highlight_id,
            content_hash: opt_view(self.content_hash),
            full_document_hash: opt_view(self.full_document_hash),
            file_path: self.file_path@,
            full_document_path: opt_view(self.full_document_path),
        }
    }
}

/// The mathematical value of a failed subject.
pub struct FailedView {
    pub artifact_id: u128,
    pub library_entry_id: u128,
    pub error: Seq<char>,
}

impl View for FailedSubject {
    type V = FailedView;

    open spec fn view(&self) -> FailedView {
        FailedView {
            artifact_id: self.artifact_id,
            library_entry_id: self.library_entry_id,
            error: self.error@,
        }
    }
}

/// The report that counts for a subject: the last one the plugin sent for it.
pub open spec fn ack_for(acks: Seq<SubjectAck>, id: u128) -> Option<SubjectAck>
    decreases acks.len(),
{
    if acks.len() == 0 {
        None
    } else if acks.last().library_entry_id == id {
        Some(acks.last())
    } else {
        ack_for(acks.drop_last(), id)
    }
}

/// A subject counts as delivered only when its report says `success`; a missing report
/// is a failure, so an omitted response cannot advance a cursor.
pub open spec fn is_delivered(row: ArtifactItem, acks: Seq<SubjectAck>) -> bool {
    match ack_for(acks, row.library_entry_id) {
        Some(a) => a.status@ == "success"@,
        None => false,
    }
}

/// The error recorded for a failed subject.
pub open spec fn failure_error(row: ArtifactItem, acks: Seq<SubjectAck>) -> Seq<char> {
    match ack_for(acks, row.library_entry_id) {
        None => "plugin did not report status for this subject"@,
        Some(a) => match a.error {
            Some(e) => e@,
            None => "plugin write failed"@,
        },
    }
}

/// The delivered view of a row.
pub open spec fn delivered_view(row: ArtifactItem, acks: Seq<SubjectAck>) -> DeliveredView {
    let a = ack_for(acks, row.library_entry_id).unwrap();
    DeliveredView {
        artifact_id: row.artifact_id,
        library_entry_id: row.library_entry_id,
        last_highlight_created_at: row.last_highlight_created_at,
        last_highlight_id: row.last_highlight_id,
        content_hash: opt_view(a.last_content_hash),
        full_document_hash: opt_view(a.last_full_document_hash),
        file_path: row.file_path@,
        full_document_path: opt_view(row.full_document_path),
    }
}

/// The delivered subjects among the rows, in order.
pub open spec fn delivered_views(rows: Seq<ArtifactItem>, acks: Seq<SubjectAck>) -> Seq<DeliveredView>
    decreases rows.len(),
{
    if rows.len() == 0 {
        Seq::empty()
    } else if is_delivered(rows.last(), acks) {
        delivered_views(rows.drop_last(), acks).push(delivered_view(rows.last(), acks))
    } else {
        delivered_views(rows.drop_last(), acks)
    }
}

/// The failed subjects among the rows, in order, with their errors.
pub open spec fn failed_views(rows: Seq<ArtifactItem>, acks: Seq<SubjectAck>) -> Seq<FailedView>
    decreases rows.len(),
{
    if rows.len() == 0 {
        Seq::empty()
    } else if is_delivered(rows.last(), acks) {
        failed_views(rows.drop_last(), acks)
    } else {
        failed_views(rows.drop_last(), acks).push(
            FailedView {
                artifact_id: rows.last().artifact_id,
                library_entry_id: rows.last().library_entry_id,
                error: failure_error(rows.last(), acks),
            },
        )
    }
}

/// The report that counts for a subject, found from the end.
fn find_ack<'a>(acks: &'a Vec<SubjectAck>, id: u128) -> (r: Option<&'a SubjectAck>)
    ensures
        match r {
            Some(a) => ack_for(acks@, id) == Some(*a),
            None => ack_for(acks@, id) is None,
        },
{
    let mut i = acks.len();
    assert(acks@.take(acks@.len() as int) =~= acks@);
    while i > 0
        invariant
            i <= acks@.len(),
            ack_for(acks@, id) == ack_for(acks@.take(i as int), id),
        decreases i,
    {
        assert(acks@.take(i as int).drop_last() =~= acks@.take(i - 1));
        if acks[i - 1].library_entry_id == id {
            return Some(&acks[i - 1]);
        }
        i = i - 1;
    }
    None
}

fn clone_opt(o: &Option<String>) -> (r: Option<String>)
    ensures
        opt_view(r) == opt_view(*o),
{
    match o {
        Some(s) => Some(s.clone()),
        None => None,
    }
}

/// Splits the artifact rows by the plugin's reports: a row is delivered when the last
/// report for its subject says `success`, otherwise failed with the report's error,
/// `plugin write failed` without one, or `plugin did not report status for this subject`
/// without any report.
pub fn partition_acks(rows: &Vec<ArtifactItem>, acks: &Vec<SubjectAck>) -> (p: AckPartition)
    ensures
        p.delivered@.map_values(|d: DeliveredSubject| d@) == delivered_views(rows@, acks@),
        p.failed@.map_values(|f: FailedSubject| f@) == failed_views(rows@, acks@),
{
    let mut delivered: Vec<DeliveredSubject> = Vec::new();
    let mut failed: Vec<FailedSubject> = Vec::new();
    let mut i: usize = 0;
    assert(rows@.take(0) =~= Seq::<ArtifactItem>::empty());
    while i < rows.len()
        invariant
            i <= rows@.len(),
            delivered@.map_values(|d: DeliveredSubject| d@) == delivered_views(rows@.take(i as int), acks@),
            failed@.map_values(|f: FailedSubject| f@) == failed_views(rows@.take(i as int), acks@),
        decreases rows@.len() - i,
    {
        let row = &rows[i];
        assert(rows@.take(i + 1).drop_last() =~= rows@.take(i as int));
        assert(rows@.take(i + 1).last() == *row);
        let ack = find_ack(acks, row.library_entry_id);
        let success = match ack {
            Some(a) => crate::text::str_eq(a.status.as_str(), "success"),
            None => false,
        };
        if success {
            let a = ack.unwrap();
            let d = DeliveredSubject {
                artifact_id: row.artifact_id,
                library_entry_id: row.library_entry_id,
                last_highlight_created_at: row.last_highlight_created_at,
                last_highlight_id: row.last_highlight_id,
                content_hash: clone_opt(&a.last_content_hash),
                full_document_hash: clone_opt(&a.last_full_document_hash),
                file_path: row.file_path.clone(),
                full_document_path: clone_opt(&row.full_document_path),
            };
            let ghost before = delivered@;
            delivered.push(d);
            assert(delivered@.map_values(|d: DeliveredSubject| d@) =~= before.map_values(
                |d: DeliveredSubject| d@,
            ).push(delivered_view(*row, acks@)));
        } else {
            let error = match ack {
                Some(a) => match &a.error {
                    Some(e) => e.clone(),
                    None => "plugin write failed".to_string(),
                },
                None => "plugin did not report status for this subject".to_string(),
            };
            let f = FailedSubject {
                artifact_id: row.artifact_id,
                library_entry_id: row.library_entry_id,
                error,
            };
            let ghost before = failed@;
            failed.push(f);
            assert(failed@.map_values(|f: FailedSubject| f@) =~= before.map_values(
                |f: FailedSubject| f@,
            ).push(f@));
        }
        i = i + 1;
    }
    assert(rows@.take(rows@.len() as int) =~= rows@);
    AckPartition { delivered, failed }
}

/// The status a run ends in, from its number of subjects and of delivered subjects.
pub open spec fn run_status_spec(total: int, delivered: int) -> Seq<char> {
    if total == 0 || delivered == total {
        "success"@
    } else if delivered == 0 {
        "failed"@
    } else {
        "partial_success"@
    }
}

/// The error a run ends with, from its number of subjects and of delivered subjects.
pub open spec fn run_error_spec(total: int, delivered: int) -> Option<Seq<char>> {
    if total == 0 || delivered == total {
        None
    } else if delivered == 0 {
        Some("No Obsidian documents were delivered by the plugin"@)
    } else {
        Some("Some Obsidian documents failed to write"@)
    }
}

/// How an acknowledged run ends.
pub struct RunOutcome {
    pub status: String,
    pub documents_exported: i32,
    pub error: Option<String>,
    /// Whether the connection records a sync; otherwise it records the run's error.
    pub connection_synced: bool,
}

/// The error for an acknowledgement whose subject counts do not fit the run's counters.
pub open spec fn too_many_subjects() -> ErrorView {
    validation_view("artifact_ids"@, "too many artifact subjects to acknowledge"@)
}

/// The end of a run with `total` subjects of which `delivered` were written: `success` when
/// all (or none at all) were expected and written, `failed` when none was written,
/// `partial_success` otherwise. Counts beyond `i32` are refused.
pub fn run_outcome(total: usize, delivered: usize) -> (r: Result<RunOutcome, AppError>)
    ensures
        r is Ok <==> (total <= i32::MAX && delivered <= i32::MAX),
        r matches Ok(o) ==> {
            &&& o.status@ == run_status_spec(total as int, delivered as int)
            &&& o.documents_exported == delivered
            &&& opt_view(o.error) == run_error_spec(total as int, delivered as int)
            &&& o.connection_synced == (delivered > 0)
        },
        r matches Err(e) ==> e@ == too_many_subjects(),
{
    if total > 2147483647usize || delivered > 2147483647usize {
        return Err(validation("artifact_ids", "too many artifact subjects to acknowledge"));
    }
    let t = total as i32;
    let d = delivered as i32;
    let (status, error) = if t == 0 || d == t {
        ("success".to_string(), None)
    } else if d == 0 {
        ("failed".to_string(), Some("No Obsidian documents were delivered by the plugin".to_string()))
    } else {
        ("partial_success".to_string(), Some("Some Obsidian documents failed to write".to_string()))
    };
    Ok(RunOutcome { status, documents_exported: d, error, connection_synced: d > 0 })
}

/// What acknowledging a run does with its artifact rows.
pub struct AckPlan {
    pub partition: AckPartition,
    pub outcome: RunOutcome,
}

/// Acknowledges the artifact rows of a run against the plugin's reports: the rows split
/// into delivered and failed subjects, and the run's end follows from the counts.
pub fn plan_ack(rows: &Vec<ArtifactItem>, acks: &Vec<SubjectAck>) -> (r: Result<AckPlan, AppError>)
    ensures
        r is Ok <==> rows@.len() <= i32::MAX,
        r matches Ok(p) ==> {
            &&& p.partition.delivered@.map_values(|d: DeliveredSubject| d@) == delivered_views(rows@, acks@)
            &&& p.partition.failed@.map_values(|f: FailedSubject| f@) == failed_views(rows@, acks@)
            &&& p.outcome.status@ == run_status_spec(rows@.len() as int, delivered_views(rows@, acks@).len() as int)
            &&& p.outcome.documents_exported == delivered_views(rows@, acks@).len()
            &&& opt_view(p.outcome.error) == run_error_spec(rows@.len() as int, delivered_views(rows@, acks@).len() as int)
            &&& p.outcome.connection_synced == (delivered_views(rows@, acks@).len() > 0)
        },
        r matches Err(e) ==> e@ == too_many_subjects(),
{
    if rows.len() > 2147483647usize {
        return Err(validation("artifact_ids", "too many artifact subjects to acknowledge"));
    }
    let partition = partition_acks(rows, acks);
    proof {
        lemma_split_counts(rows@, acks@);
        assert(partition.delivered@.len() == partition.delivered@.map_values(|d: DeliveredSubject| d@).len());
    }
    let outcome = match run_outcome(rows.len(), partition.delivered.len()) {
        Ok(o) => o,
        Err(e) => return Err(e),
    };
    Ok(AckPlan { partition, outcome })
}

/// Every artifact row is either delivered or failed, never both.
pub proof fn lemma_split_counts(rows: Seq<ArtifactItem>, acks: Seq<SubjectAck>)
    ensures
        delivered_views(rows, acks).len() + failed_views(rows, acks).len() == rows.len(),
    decreases rows.len(),
{
    if rows.len() > 0 {
        lemma_split_counts(rows.drop_last(), acks);
    }
}

/// A subject's refresh-queue row after a failed delivery bumped its attempt counter.
pub struct RefreshAttempt {
    pub library_entry_id: u128,
    pub delivery_attempts: i32,
}

/// A subject whose refresh is dropped from the queue, with the error left on its cursor.
pub struct GaveUp {
    pub library_entry_id: u128,
    pub error: String,
}

/// The error recorded for a subject among the failed ones: the last recorded for it.
pub open spec fn failed_error_for(failed: Seq<FailedView>, id: u128) -> Option<Seq<char>>
    decreases failed.len(),
{
    if failed.len() == 0 {
        None
    } else if failed.last().library_entry_id == id {
        Some(failed.last().error)
    } else {
        failed_error_for(failed.drop_last(), id)
    }
}

/// The cursor error of a subject whose refresh was given up.
pub open spec fn gave_up_message(error: Seq<char>) -> Seq<char> {
    error + " (gave up after 5 delivery attempts; manual refresh required)"@
}

/// Two to the power `k`.
pub open spec fn doubling(k: nat) -> nat
    decreases k,
{
    if k == 0 {
        1
    } else {
        2 * doubling((k - 1) as nat)
    }
}

proof fn lemma_doubling_monotone(i: nat, j: nat)
    requires
        i <= j,
    ensures
        doubling(i) <= doubling(j),
    decreases j,
{
    if i < j {
        lemma_doubling_monotone(i, (j - 1) as nat);
    }
}

/// The minutes a failed refresh waits before its next delivery: one minute after the first
/// failure, doubling with each failure before, and 256 minutes from the ninth on.
pub open spec fn refresh_delay_spec(previous_attempts: int) -> int {
    doubling((if previous_attempts < 8 { previous_attempts } else { 8 }) as nat) as int
}

/// What a failed delivery does to a subject's queued refresh.
#[derive(Clone, Copy, Debug, PartialEq, Eq, Structural)]
pub enum RefreshStep {
    /// The refresh stays queued with the bumped attempt count and is due again after the delay.
    Retry { delivery_attempts: i32, delay_minutes: i64 },
    /// The bumped count reached the limit: the refresh leaves the queue (see [`gave_up_subjects`]).
    GiveUp { delivery_attempts: i32 },
}

/// The refresh step of a failed delivery whose queue row counted `previous_attempts`.
pub open spec fn refresh_step_spec(previous_attempts: int) -> RefreshStep {
    if previous_attempts + 1 >= MAX_REFRESH_ATTEMPTS {
        RefreshStep::GiveUp { delivery_attempts: (previous_attempts + 1) as i32 }
    } else {
        RefreshStep::Retry {
            delivery_attempts: (previous_attempts + 1) as i32,
            delay_minutes: refresh_delay_spec(previous_attempts) as i64,
        }
    }
}

/// Bumps a queued refresh after a failed delivery and decides whether it stays queued.
/// A queue row's attempt count starts at zero and only grows, so it is never negative.
/// A count already at the column's maximum cannot be bumped (`None`): the database refuses
/// the increment and the acknowledgement fails.
pub fn refresh_after_failure(previous_attempts: i32) -> (s: Option<RefreshStep>)
    requires
        0 <= previous_attempts,
    ensures
        s is None <==> previous_attempts == i32::MAX,
        s matches Some(step) ==> step == refresh_step_spec(previous_attempts as int),
{
    if previous_attempts == i32::MAX {
        return None;
    }
    let attempts = previous_attempts + 1;
    if attempts >= MAX_REFRESH_ATTEMPTS {
        return Some(RefreshStep::GiveUp { delivery_attempts: attempts });
    }
    let k: i32 = if previous_attempts < 8 { previous_attempts } else { 8 };
    let mut delay: i64 = 1;
    let mut i: i32 = 0;
    while i < k
        invariant
            0 <= i <= k <= 8,
            delay == doubling(i as nat),
        decreases k - i,
    {
        proof {
            lemma_doubling_monotone((i + 1) as nat, 8);
            assert(doubling(8) == 256) by {
                reveal_with_fuel(doubling, 9);
            }
        }
        delay = delay * 2;
        i = i + 1;
    }
    Some(RefreshStep::Retry { delivery_attempts: attempts, delay_minutes: delay })
}

/// The subjects given up on, in the order of the attempt rows: those that reached the
/// attempt limit, each with its failure error (or `plugin write failed`) and the note.
pub open spec fn gave_up_views(attempts: Seq<RefreshAttempt>, failed: Seq<FailedView>) -> Seq<(u128, Seq<char>)>
    decreases attempts.len(),
{
    if attempts.len() == 0 {
        Seq::empty()
    } else {
        let rest = gave_up_views(attempts.drop_last(), failed);
        let a = attempts.last();
        if a.delivery_attempts >= MAX_REFRESH_ATTEMPTS {
            let error = match failed_error_for(failed, a.library_entry_id) {
                Some(e) => e,
                None => "plugin write failed"@,
            };
            rest.push((a.library_entry_id, gave_up_message(error)))
        } else {
            rest
        }
    }
}

fn find_failed_error(failed: &Vec<FailedSubject>, id: u128) -> (r: Option<String>)
    ensures
        opt_view(r) == failed_error_for(failed@.map_values(|f: FailedSubject| f@), id),
{
    let ghost views = failed@.map_values(|f: FailedSubject| f@);
    let mut i = failed.len();
    assert(views.take(views.len() as int) =~= views);
    while i > 0
        invariant
            i <= failed@.len(),
            views == failed@.map_values(|f: FailedSubject| f@),
            failed_error_for(views, id) == failed_error_for(views.take(i as int), id),
        decreases i,
    {
        assert(views.take(i as int).drop_last() =~= views.take(i - 1));
        if failed[i - 1].library_entry_id == id {
            return Some(failed[i - 1].error.clone());
        }
        i = i - 1;
    }
    None
}

/// The subjects whose refresh reached the attempt limit, with the error their cursor keeps.
pub fn gave_up_subjects(attempts: &Vec<RefreshAttempt>, failed: &Vec<FailedSubject>) -> (g: Vec<GaveUp>)
    ensures
        g@.map_values(|x: GaveUp| (x.library_entry_id, x.error@))
            == gave_up_views(attempts@, failed@.map_values(|f: FailedSubject| f@)),
{
    let ghost views = failed@.map_values(|f: FailedSubject| f@);
    let mut g: Vec<GaveUp> = Vec::new();
    let mut i: usize = 0;
    assert(attempts@.take(0) =~= Seq::<RefreshAttempt>::empty());
    while i < attempts.len()
        invariant
            i <= attempts@.len(),
            views == failed@.map_values(|f: FailedSubject| f@),
            g@.map_values(|x: GaveUp| (x.library_entry_id, x.error@))
                == gave_up_views(attempts@.take(i as int), views),
        decreases attempts@.len() - i,
    {
        assert(attempts@.take(i + 1).drop_last() =~= attempts@.take(i as int));
        let a = &attempts[i];
        if a.delivery_attempts >= MAX_REFRESH_ATTEMPTS {
            let error = match find_failed_error(failed, a.library_entry_id) {
                Some(e) => e,
                None => "plugin write failed".to_string(),
            };
            let message = concat(error.as_str(), " (gave up after 5 delivery attempts; manual refresh required)");
            let ghost before = g@;
            g.push(GaveUp { library_entry_id: a.library_entry_id, error: message });
            assert(g@.map_values(|x: GaveUp| (x.library_entry_id, x.error@)) =~= before.map_values(
                |x: GaveUp| (x.library_entry_id, x.error@),
            ).push((a.library_entry_id, gave_up_message(error@))));
        }
        i = i + 1;
    }
    assert(attempts@.take(attempts@.len() as int) =~= attempts@);
    g
}

/// The error for a list of library entries that names one twice.
pub open spec fn duplicate_ids_error(field: Seq<char>) -> ErrorView {
    validation_view(field, "library entry ids must be unique"@)
}

/// The identifiers of the library entries, refused when one occurs twice.
pub fn unique_library_entry_ids(library_entry_ids: &Vec<u128>, field: &str) -> (r: Result<Vec<u128>, AppError>)
    ensures
        r is Ok <==> library_entry_ids@.no_duplicates(),
        r matches Ok(ids) ==> ids@ == library_entry_ids@,
        r matches Err(e) ==> e@ == duplicate_ids_error(field@),
{
    if !crate::id_sets::all_distinct(library_entry_ids) {
        return Err(validation(field, "library entry ids must be unique"));
    }
    Ok(library_entry_ids.clone())
}

/// The error for a list of library entries not all owned, live, by the caller.
pub open spec fn foreign_ids_error(field: Seq<char>) -> ErrorView {
    validation_view(field, "all library entry ids must belong to the authenticated user"@)
}

/// Checks the distinct requested ids against the ids the owner query found among them:
/// all of them must have been found.
pub fn check_owned_ids(ids: Vec<u128>, owned: &Vec<u128>, field: &str) -> (r: Result<Vec<u128>, AppError>)
    ensures
        r is Ok <==> owned@.len() == ids@.len(),
        r matches Ok(v) ==> v@ == ids@,
        r matches Err(e) ==> e@ == foreign_ids_error(field@),
{
    if owned.len() != ids.len() {
        return Err(validation(field, "all library entry ids must belong to the authenticated user"));
    }
    Ok(ids)
}

/// The error for artifact ids outside the acknowledged run.
pub open spec fn foreign_artifacts_error() -> ErrorView {
    validation_view("artifact_ids"@, "all artifact_ids must belong to the acknowledged run"@)
}

/// Checks the artifact ids a plugin acknowledged against those of them found in the run:
/// as sets they must be equal; the found ones are then the run's artifacts to settle.
pub fn check_artifact_scope(requested: &Vec<u128>, scoped: Vec<u128>) -> (r: Result<Vec<u128>, AppError>)
    ensures
        r is Ok <==> requested@.to_set() == scoped@.to_set(),
        r matches Ok(v) ==> v@ == scoped@,
        r matches Err(e) ==> e@ == foreign_artifacts_error(),
{
    if !crate::id_sets::same_id_set(&scoped, requested) {
        return Err(validation("artifact_ids", "all artifact_ids must belong to the acknowledged run"));
    }
    Ok(scoped)
}

/// The number of queued refreshes, refused beyond `u32`.
pub fn queued_refresh_count(queued: usize) -> (r: Result<u32, AppError>)
    ensures
        r is Ok <==> queued <= u32::MAX,
        r matches Ok(n) ==> n == queued,
        r matches Err(e) ==> e@ == validation_view("library_entry_ids"@, "too many items queued for refresh"@),
{
    if queued > 4294967295usize {
        return Err(validation("library_entry_ids", "too many items queued for refresh"));
    }
    Ok(queued as u32)
}

/// The byte size recorded for an export artifact, refused beyond `i32`.
pub fn zip_byte_size(len: usize) -> (r: Result<i32, AppError>)
    ensures
        r is Ok <==> len <= i32::MAX,
        r matches Ok(n) ==> n == len,
        r matches Err(e) ==> e@ == validation_view("zip"@, "artifact exceeds i32 byte size"@),
{
    if len > 2147483647usize {
        return Err(validation("zip", "artifact exceeds i32 byte size"));
    }
    Ok(len as i32)
}

/// A run ends in `success` exactly when it has no error: when every subject was written (or
/// there was none); `failed` exactly when subjects were expected and none was written; and
/// `partial_success` otherwise.
pub proof fn lemma_run_end_consistent(total: int, delivered: int)
    requires
        0 <= delivered <= total,
    ensures
        (run_status_spec(total, delivered) == "success"@) <==> run_error_spec(total, delivered) is None,
        (run_status_spec(total, delivered) == "success"@) <==> (delivered == total),
        (run_status_spec(total, delivered) == "failed"@) <==> (delivered == 0 && total > 0),
        (run_status_spec(total, delivered) == "partial_success"@) <==> (0 < delivered < total),
        delivered == 0 && total > 0 ==> run_error_spec(total, delivered)
            == Some("No Obsidian documents were delivered by the plugin"@),
        0 < delivered < total ==> run_error_spec(total, delivered) == Some("Some Obsidian documents failed to write"@),
{
    reveal_strlit("success");
    reveal_strlit("failed");
    reveal_strlit("partial_success");
    assert("success"@.len() != "failed"@.len());
    assert("success"@.len() != "partial_success"@.len());
    assert("failed"@.len() != "partial_success"@.len());
}

/// Only subjects whose refresh reached the attempt limit are given up on, and each keeps
/// its failure error with the manual-refresh note.
pub proof fn lemma_gave_up_at_limit(attempts: Seq<RefreshAttempt>, failed: Seq<FailedView>, k: int)
    requires
        0 <= k < gave_up_views(attempts, failed).len(),
    ensures
        exists|j: int| 0 <= j < attempts.len() && {
            &&& (#[trigger] attempts[j]).library_entry_id == gave_up_views(attempts, failed)[k].0
            &&& attempts[j].delivery_attempts >= MAX_REFRESH_ATTEMPTS
            &&& gave_up_views(attempts, failed)[k].1 == gave_up_message(
                match failed_error_for(failed, attempts[j].library_entry_id) {
                    Some(e) => e,
                    None => "plugin write failed"@,
                },
            )
        },
    decreases attempts.len(),
{
    let rest = gave_up_views(attempts.drop_last(), failed);
    if k < rest.len() {
        lemma_gave_up_at_limit(attempts.drop_last(), failed, k);
        let j = choose|j: int| 0 <= j < attempts.drop_last().len() && {
            &&& (#[trigger] attempts.drop_last()[j]).library_entry_id == rest[k].0
            &&& attempts.drop_last()[j].delivery_attempts >= MAX_REFRESH_ATTEMPTS
            &&& rest[k].1 == gave_up_message(
                match failed_error_for(failed, attempts.drop_last()[j].library_entry_id) {
                    Some(e) => e,
                    None => "plugin write failed"@,
                },
            )
        };
        assert(attempts[j] == attempts.drop_last()[j]);
    } else {
        let j = attempts.len() - 1;
        assert(attempts[j] == attempts.last());
    }
}

/// No report, no delivery: every delivered subject has a last report that says `success`,
/// so a subject the plugin left out can never advance its cursor.
pub proof fn lemma_delivered_were_reported(rows: Seq<ArtifactItem>, acks: Seq<SubjectAck>, k: int)
    requires
        0 <= k < delivered_views(rows, acks).len(),
    ensures
        ack_for(acks, delivered_views(rows, acks)[k].library_entry_id) is Some,
        ack_for(acks, delivered_views(rows, acks)[k].library_entry_id)->0.status@ == "success"@,
    decreases rows.len(),
{
    let rest = delivered_views(rows.drop_last(), acks);
    if k < rest.len() {
        lemma_delivered_were_reported(rows.drop_last(), acks, k);
    }
}


/// Report `j` is the last one the plugin sent for subject `id`.
pub open spec fn is_last_report(acks: Seq<SubjectAck>, j: int, id: u128) -> bool {
    &&& 0 <= j < acks.len()
    &&& acks[j].library_entry_id == id
    &&& forall|later: int| j < later < acks.len() ==> #[trigger] acks[later].library_entry_id != id
}

proof fn lemma_ack_for_is_last(acks: Seq<SubjectAck>, id: u128)
    ensures
        ack_for(acks, id) matches Some(a) ==> exists|j: int| is_last_report(acks, j, id) && acks[j] == a,
        ack_for(acks, id) is None ==> forall|j: int| 0 <= j < acks.len() ==> #[trigger] acks[j].library_entry_id != id,
    decreases acks.len(),
{
    if acks.len() > 0 {
        let init = acks.drop_last();
        lemma_ack_for_is_last(init, id);
        let n = acks.len() - 1;
        if acks.last().library_entry_id == id {
            assert(is_last_report(acks, n, id));
        } else {
            if ack_for(init, id) is Some {
                let j = choose|j: int| is_last_report(init, j, id) && init[j] == ack_for(init, id)->0;
                assert forall|later: int| j < later < acks.len() implies #[trigger] acks[later].library_entry_id != id by {
                    if later < n {
                        assert(acks[later] == init[later]);
                    }
                }
                assert(acks[j] == init[j]);
                assert(is_last_report(acks, j, id));
            } else {
                assert forall|j: int| 0 <= j < acks.len() implies #[trigger] acks[j].library_entry_id != id by {
                    if j < n {
                        assert(acks[j] == init[j]);
                    }
                }
            }
        }
    }
}

/// Every delivered subject is one of the acknowledged artifact rows, whose last report says
/// `success`; its cursor advances with that row's paths and highlight position and with the
/// hashes of that last report: the content hash is the reported `last_content_hash` and the
/// full-document hash the reported `last_full_document_hash`.
pub proof fn lemma_delivered_carry_last_report(rows: Seq<ArtifactItem>, acks: Seq<SubjectAck>, k: int)
    requires
        0 <= k < delivered_views(rows, acks).len(),
    ensures
        ({
            let d = delivered_views(rows, acks)[k];
            &&& exists|i: int| {
                &&& 0 <= i < rows.len()
                &&& #[trigger] rows[i].artifact_id == d.artifact_id
                &&& rows[i].library_entry_id == d.library_entry_id
                &&& rows[i].file_path@ == d.file_path
                &&& opt_view(rows[i].full_document_path) == d.full_document_path
                &&& rows[i].last_highlight_created_at == d.last_highlight_created_at
                &&& rows[i].last_highlight_id == d.last_highlight_id
            }
            &&& exists|j: int| {
                &&& is_last_report(acks, j, d.library_entry_id)
                &&& #[trigger] acks[j].status@ == "success"@
                &&& d.content_hash == opt_view(acks[j].last_content_hash)
                &&& d.full_document_hash == opt_view(acks[j].last_full_document_hash)
            }
        }),
    decreases rows.len(),
{
    let rest = delivered_views(rows.drop_last(), acks);
    if k < rest.len() {
        lemma_delivered_carry_last_report(rows.drop_last(), acks, k);
        let d = rest[k];
        let i = choose|i: int| {
            &&& 0 <= i < rows.drop_last().len()
            &&& #[trigger] rows.drop_last()[i].artifact_id == d.artifact_id
            &&& rows.drop_last()[i].library_entry_id == d.library_entry_id
            &&& rows.drop_last()[i].file_path@ == d.file_path
            &&& opt_view(rows.drop_last()[i].full_document_path) == d.full_document_path
            &&& rows.drop_last()[i].last_highlight_created_at == d.last_highlight_created_at
            &&& rows.drop_last()[i].last_highlight_id == d.last_highlight_id
        };
        assert(rows.drop_last()[i] == rows[i]);
    } else {
        let row = rows.last();
        let n = rows.len() - 1;
        assert(rows[n] == row);
        lemma_ack_for_is_last(acks, row.library_entry_id);
        let a = ack_for(acks, row.library_entry_id)->0;
        let j = choose|j: int| is_last_report(acks, j, row.library_entry_id) && acks[j] == a;
        assert(acks[j].status@ == "success"@);
    }
}


/// Every failed subject is one of the acknowledged artifact rows that was not delivered: its
/// last report does not say `success`, or there is none. Its error is the one that report
/// gives; a report without one records `plugin write failed`, and a subject with no report
/// at all records `plugin did not report status for this subject`.
pub proof fn lemma_failed_carry_reason(rows: Seq<ArtifactItem>, acks: Seq<SubjectAck>, k: int)
    requires
        0 <= k < failed_views(rows, acks).len(),
    ensures
        ({
            let f = failed_views(rows, acks)[k];
            &&& exists|i: int| 0 <= i < rows.len() && #[trigger] rows[i].artifact_id == f.artifact_id
                && rows[i].library_entry_id == f.library_entry_id
            &&& (forall|j: int| 0 <= j < acks.len() ==> #[trigger] acks[j].library_entry_id != f.library_entry_id)
                ==> f.error == "plugin did not report status for this subject"@
            &&& forall|j: int| #[trigger] is_last_report(acks, j, f.library_entry_id) ==> {
                &&& acks[j].status@ != "success"@
                &&& f.error == match acks[j].error {
                    Some(e) => e@,
                    None => "plugin write failed"@,
                }
            }
        }),
    decreases rows.len(),
{
    let rest = failed_views(rows.drop_last(), acks);
    if k < rest.len() {
        lemma_failed_carry_reason(rows.drop_last(), acks, k);
        let f = rest[k];
        let i = choose|i: int| 0 <= i < rows.drop_last().len() && #[trigger] rows.drop_last()[i].artifact_id == f.artifact_id
            && rows.drop_last()[i].library_entry_id == f.library_entry_id;
        assert(rows.drop_last()[i] == rows[i]);
    } else {
        let row = rows.last();
        let n = rows.len() - 1;
        assert(rows[n] == row);
        lemma_ack_for_is_last(acks, row.library_entry_id);
        assert forall|j: int| #[trigger] is_last_report(acks, j, row.library_entry_id) implies ack_for(acks, row.library_entry_id) == Some(acks[j]) by {
            if ack_for(acks, row.library_entry_id) is Some {
                let j2 = choose|j2: int| is_last_report(acks, j2, row.library_entry_id)
                    && acks[j2] == ack_for(acks, row.library_entry_id)->0;
                if j < j2 {
                    assert(acks[j2].library_entry_id == row.library_entry_id);
                } else if j2 < j {
                    assert(acks[j].library_entry_id == row.library_entry_id);
                }
            } else {
                assert(acks[j].library_entry_id == row.library_entry_id);
            }
        }
    }
}


proof fn lemma_doubling_is_pow2(k: nat)
    ensures
        doubling(k) == vstd::arithmetic::power2::pow2(k),
    decreases k,
{
    if k > 0 {
        lemma_doubling_is_pow2((k - 1) as nat);
        vstd::arithmetic::power2::lemma_pow2_unfold(k);
    } else {
        vstd::arithmetic::power2::lemma_pow2(0);
        reveal(vstd::arithmetic::power::pow);
    }
}

/// A failed refresh is retried while its bumped attempt count stays below five, after
/// 2^min(n, 8) minutes for a row that had failed n times before; at five it is given up,
/// and the subject's cursor keeps its error with the manual-refresh note.
pub proof fn lemma_refresh_backoff(n: int, error: Seq<char>)
    requires
        0 <= n < i32::MAX,
    ensures
        n + 1 < 5 ==> refresh_step_spec(n) == (RefreshStep::Retry {
            delivery_attempts: (n + 1) as i32,
            delay_minutes: vstd::arithmetic::power2::pow2((if n < 8 { n } else { 8 }) as nat) as i64,
        }),
        n + 1 >= 5 ==> refresh_step_spec(n) == (RefreshStep::GiveUp { delivery_attempts: (n + 1) as i32 }),
        gave_up_message(error) == error + " (gave up after 5 delivery attempts; manual refresh required)"@,
{
    lemma_doubling_is_pow2((if n < 8 { n } else { 8 }) as nat);
}

} // verus!
