//! Decisions of the library-entry writes: saving a document into the Library (insert,
//! restore, keep, or leave trashed) and restoring a trashed entry.

use vstd::prelude::*;
use crate::error::{AppError, ErrorView, validation, validation_view};
use crate::sql::Timestamp;

verus! {

/// Whether instant `a` is strictly later than instant `b`.
pub open spec fn is_after(a: Timestamp, b: Timestamp) -> bool {
    a.secs > b.secs || (a.secs == b.secs && a.nanos > b.nanos)
}

/// Whether instant `a` is strictly later than instant `b`.
pub fn timestamp_after(a: Timestamp, b: Timestamp) -> (r: bool)
    ensures
        r == is_after(a, b),
{
    a.secs > b.secs || (a.secs == b.secs && a.nanos > b.nanos)
}

/// The error for a source delivery that is not the owner's delivery of the saved document.
pub open spec fn foreign_delivery_error() -> ErrorView {
    validation_view(
        "source_delivery_id"@,
        "source delivery must belong to the owner and be linked to the saved document"@,
    )
}

/// Checks the answer of the provenance query: the delivery must exist for this user and
/// already be linked to the document being saved.
pub fn check_source_delivery(valid: Option<bool>) -> (r: Result<(), AppError>)
    ensures
        r is Ok <==> valid == Some(true),
        r matches Err(e) ==> e@ == foreign_delivery_error(),
{
    match valid {
        Some(true) => Ok(()),
        _ => Err(validation(
            "source_delivery_id",
            "source delivery must belong to the owner and be linked to the saved document",
        )),
    }
}

/// What saving a document into the Library does to the user's entry for it.
#[derive(Clone, Copy, Debug, PartialEq, Eq, Structural)]
pub enum SaveStep {
    /// The active entry stays; it only gains the delivery link when it has none.
    KeepActive,
    /// The trashed entry stays trashed: it was deleted after the caller's cutoff.
    SkipRestore,
    /// The trashed entry is restored, saved now, with the new source and delivery link.
    Restore,
    /// No entry exists: a new one is inserted (or, when a concurrent save won, that one kept).
    Insert,
}

/// The flags a save reports.
#[derive(Clone, Copy, Debug, PartialEq, Eq, Structural)]
pub struct SaveFlags {
    pub restored: bool,
    pub already_active: bool,
    pub skipped_restore: bool,
}

/// The step of a save, from the newest entry of the user for the document (absent, or its
/// deletion time when trashed) and the caller's cutoff: a trashed entry deleted after it
/// stays trashed.
pub open spec fn save_step_spec(existing: Option<Option<Timestamp>>, skip_if_deleted_after: Option<Timestamp>) -> SaveStep {
    match existing {
        None => SaveStep::Insert,
        Some(None) => SaveStep::KeepActive,
        Some(Some(deleted_at)) => match skip_if_deleted_after {
            Some(cutoff) => if is_after(deleted_at, cutoff) {
                SaveStep::SkipRestore
            } else {
                SaveStep::Restore
            },
            None => SaveStep::Restore,
        },
    }
}

/// Decides what a save does with the user's newest entry for the document.
pub fn decide_save(existing: Option<Option<Timestamp>>, skip_if_deleted_after: Option<Timestamp>) -> (s: SaveStep)
    ensures
        s == save_step_spec(existing, skip_if_deleted_after),
{
    match existing {
        None => SaveStep::Insert,
        Some(None) => SaveStep::KeepActive,
        Some(Some(deleted_at)) => match skip_if_deleted_after {
            Some(cutoff) => if timestamp_after(deleted_at, cutoff) {
                SaveStep::SkipRestore
            } else {
                SaveStep::Restore
            },
            None => SaveStep::Restore,
        },
    }
}

/// The flags of a save, given its step and, for an insert, whether the row was inserted
/// (rather than lost to a concurrent save of the same document).
pub open spec fn save_flags_spec(step: SaveStep, inserted: bool) -> SaveFlags {
    match step {
        SaveStep::KeepActive => SaveFlags { restored: false, already_active: true, skipped_restore: false },
        SaveStep::SkipRestore => SaveFlags { restored: false, already_active: false, skipped_restore: true },
        SaveStep::Restore => SaveFlags { restored: true, already_active: false, skipped_restore: false },
        SaveStep::Insert => SaveFlags { restored: false, already_active: !inserted, skipped_restore: false },
    }
}

/// The flags a save reports.
pub fn save_flags(step: &SaveStep, inserted: bool) -> (f: SaveFlags)
    ensures
        f == save_flags_spec(*step, inserted),
{
    match step {
        SaveStep::KeepActive => SaveFlags { restored: false, already_active: true, skipped_restore: false },
        SaveStep::SkipRestore => SaveFlags { restored: false, already_active: false, skipped_restore: true },
        SaveStep::Restore => SaveFlags { restored: true, already_active: false, skipped_restore: false },
        SaveStep::Insert => SaveFlags { restored: false, already_active: !inserted, skipped_restore: false },
    }
}

/// A save reports at most one of restored, already active and skipped. It restores a
/// trashed entry exactly when there is no cutoff or the entry was not deleted after it, and
/// skips it exactly otherwise; an active entry is reported already active; a new entry is
/// reported already active only when a concurrent save won the insert.
pub proof fn lemma_save_flags_exclusive(
    existing: Option<Option<Timestamp>>,
    skip_if_deleted_after: Option<Timestamp>,
    inserted: bool,
)
    ensures
        ({
            let f = save_flags_spec(save_step_spec(existing, skip_if_deleted_after), inserted);
            &&& !(f.restored && f.already_active)
            &&& !(f.restored && f.skipped_restore)
            &&& !(f.already_active && f.skipped_restore)
            &&& f.restored ==> (existing is Some && existing->0 is Some)
            &&& f.skipped_restore ==> {
                &&& existing is Some && existing->0 is Some
                &&& skip_if_deleted_after is Some
                &&& is_after(existing->0->0, skip_if_deleted_after->0)
            }
            &&& existing == Some(None::<Timestamp>) ==> f.already_active
            &&& existing is None ==> f == (SaveFlags { restored: false, already_active: !inserted, skipped_restore: false })
            &&& (existing is Some && existing->0 is Some && (skip_if_deleted_after is None
                || !is_after(existing->0->0, skip_if_deleted_after->0))) ==> f.restored
            &&& (existing is Some && existing->0 is Some && skip_if_deleted_after is Some
                && is_after(existing->0->0, skip_if_deleted_after->0)) ==> f.skipped_restore
        }),
{
}

/// Instants are ordered by their position on the time line: seconds first, then the
/// nanoseconds within the second.
pub proof fn lemma_is_after_orders_instants(a: Timestamp, b: Timestamp)
    requires
        a.nanos < 1_000_000_000,
        b.nanos < 1_000_000_000,
    ensures
        is_after(a, b) <==> a.secs * 1_000_000_000 + a.nanos > b.secs * 1_000_000_000 + b.nanos,
{
}

/// The user's entry for the document after a save: active, except when the restore was
/// skipped, which leaves the trashed entry as it was.
pub open spec fn entry_after_save(existing: Option<Option<Timestamp>>, step: SaveStep) -> Option<Option<Timestamp>> {
    match step {
        SaveStep::SkipRestore => existing,
        _ => Some(None),
    }
}

/// Saving is idempotent: once a save has left the document's entry active, saving the
/// document again keeps that entry and reports it as already active.
pub proof fn lemma_save_idempotent(
    existing: Option<Option<Timestamp>>,
    skip_if_deleted_after: Option<Timestamp>,
    later_cutoff: Option<Timestamp>,
    inserted: bool,
    inserted_again: bool,
)
    requires
        save_step_spec(existing, skip_if_deleted_after) != SaveStep::SkipRestore,
    ensures
        ({
            let after = entry_after_save(existing, save_step_spec(existing, skip_if_deleted_after));
            &&& save_step_spec(after, later_cutoff) == SaveStep::KeepActive
            &&& save_flags_spec(save_step_spec(after, later_cutoff), inserted_again).already_active
        }),
{
}

/// What restoring a trashed entry does.
#[derive(Clone, Copy, Debug, PartialEq, Eq, Structural)]
pub enum RestoreStep {
    /// An active entry of the same document exists (the target, or a newer save): it is
    /// returned as it is, and nothing is restored into a conflict.
    ReturnActive,
    /// No active entry exists: the target's deletion is cleared.
    ClearDeletion,
}

/// Decides a restore from whether the document has an active entry for the user.
pub fn decide_restore(active_exists: bool) -> (s: RestoreStep)
    ensures
        s == (if active_exists { RestoreStep::ReturnActive } else { RestoreStep::ClearDeletion }),
{
    if active_exists {
        RestoreStep::ReturnActive
    } else {
        RestoreStep::ClearDeletion
    }
}


/// An event a library-entry mutation records: the two this layer adds, or one the
/// application handed in with the mutation.
#[derive(Clone, Copy, Debug, PartialEq, Eq, Structural)]
pub enum EntryEvent<A> {
    /// A trashed entry is active again (or the active entry of its document was kept).
    Restored { user_id: u128, entry_id: u128, document_id: u128 },
    /// An entry was removed for good.
    PermanentlyDeleted { user_id: u128, entry_id: u128, document_id: u128 },
    /// An event of the application's own.
    Other(A),
}

/// The side effects a mutation writes in its own transaction: its events, in order, and the
/// documents whose search index is rebuilt, one reindex outbox job each, in order.
pub struct MutationEffects<A> {
    pub events: Vec<EntryEvent<A>>,
    pub reindex_documents: Vec<u128>,
}

/// Adds what a restore records to the effects handed in: the restored event of the entry
/// that is active afterwards comes first, and a reindex job for its document comes last.
pub fn add_restore_effects<A>(effects: &mut MutationEffects<A>, user_id: u128, entry_id: u128, document_id: u128)
    ensures
        final(effects).events@ == seq![EntryEvent::<A>::Restored { user_id, entry_id, document_id }]
            + old(effects).events@,
        final(effects).reindex_documents@ == old(effects).reindex_documents@.push(document_id),
{
    effects.events.insert(0, EntryEvent::Restored { user_id, entry_id, document_id });
    effects.reindex_documents.push(document_id);
    assert(effects.events@ =~= seq![EntryEvent::<A>::Restored { user_id, entry_id, document_id }]
        + old(effects).events@);
}

/// The permanently-deleted event of an entry given as (entry, user, document).
pub open spec fn deletion_event<A>(e: (u128, u128, u128)) -> EntryEvent<A> {
    EntryEvent::PermanentlyDeleted { user_id: e.1, entry_id: e.0, document_id: e.2 }
}

/// What purging entries records: for each entry, in order, its permanently-deleted event
/// and a reindex job for its document.
pub fn permanent_deletion_effects<A>(entries: &Vec<(u128, u128, u128)>) -> (effects: MutationEffects<A>)
    ensures
        effects.events@ == entries@.map_values(|e: (u128, u128, u128)| deletion_event::<A>(e)),
        effects.reindex_documents@ == entries@.map_values(|e: (u128, u128, u128)| e.2),
{
    let mut events: Vec<EntryEvent<A>> = Vec::new();
    let mut reindex_documents: Vec<u128> = Vec::new();
    let mut i: usize = 0;
    while i < entries.len()
        invariant
            i <= entries@.len(),
            events@ == entries@.take(i as int).map_values(|e: (u128, u128, u128)| deletion_event::<A>(e)),
            reindex_documents@ == entries@.take(i as int).map_values(|e: (u128, u128, u128)| e.2),
        decreases entries@.len() - i,
    {
        let (entry_id, user_id, document_id) = entries[i];
        events.push(EntryEvent::PermanentlyDeleted { user_id, entry_id, document_id });
        reindex_documents.push(document_id);
        assert(entries@.take(i + 1) =~= entries@.take(i as int).push(entries@[i as int]));
        assert(events@ =~= entries@.take(i + 1).map_values(|e: (u128, u128, u128)| deletion_event::<A>(e)));
        assert(reindex_documents@ =~= entries@.take(i + 1).map_values(|e: (u128, u128, u128)| e.2));
        i = i + 1;
    }
    assert(entries@.take(entries@.len() as int) =~= entries@);
    MutationEffects { events, reindex_documents }
}

} // verus!
