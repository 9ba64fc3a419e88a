use ind_persistence::error::AppError;
use ind_persistence::library_query::{build_tag_entries_query, scope_counts, TypeCountRow, LIBRARY_DOC_COLUMNS, TAG_ENTRIES_FROM_SQL};
use ind_persistence::library_writes::{
    add_restore_effects, check_source_delivery, decide_restore, permanent_deletion_effects, EntryEvent, MutationEffects, decide_save, save_flags, timestamp_after, RestoreStep, SaveFlags, SaveStep,
};
use ind_persistence::paging::{fetch_limit, next_page_key, split_page};
use ind_persistence::sql::{BindValue, SqlPart, Timestamp};

fn at(secs: i64) -> Timestamp {
    Timestamp { secs, nanos: 0 }
}

#[test]
fn save_keeps_an_active_entry() {
    let step = decide_save(Some(None), None);
    assert_eq!(step, SaveStep::KeepActive);
    assert_eq!(save_flags(&step, false), SaveFlags { restored: false, already_active: true, skipped_restore: false });
}

#[test]
fn save_restores_a_trashed_entry_unless_deleted_after_the_cutoff() {
    assert_eq!(decide_save(Some(Some(at(50))), None), SaveStep::Restore);
    assert_eq!(decide_save(Some(Some(at(50))), Some(at(50))), SaveStep::Restore);
    assert_eq!(decide_save(Some(Some(at(51))), Some(at(50))), SaveStep::SkipRestore);
    assert_eq!(
        decide_save(Some(Some(Timestamp { secs: 50, nanos: 1 })), Some(at(50))),
        SaveStep::SkipRestore
    );
    assert_eq!(save_flags(&SaveStep::Restore, false), SaveFlags { restored: true, already_active: false, skipped_restore: false });
    assert_eq!(save_flags(&SaveStep::SkipRestore, false), SaveFlags { restored: false, already_active: false, skipped_restore: true });
}

#[test]
fn save_inserts_and_reports_a_lost_race_as_already_active() {
    assert_eq!(decide_save(None, Some(at(1))), SaveStep::Insert);
    assert_eq!(save_flags(&SaveStep::Insert, true), SaveFlags { restored: false, already_active: false, skipped_restore: false });
    assert_eq!(save_flags(&SaveStep::Insert, false), SaveFlags { restored: false, already_active: true, skipped_restore: false });
}

#[test]
fn timestamps_compare_by_seconds_then_nanoseconds() {
    assert!(timestamp_after(at(2), at(1)));
    assert!(!timestamp_after(at(1), at(1)));
    assert!(timestamp_after(Timestamp { secs: 1, nanos: 2 }, Timestamp { secs: 1, nanos: 1 }));
    assert!(!timestamp_after(Timestamp { secs: 0, nanos: 999 }, at(1)));
}

#[test]
fn source_delivery_must_be_confirmed() {
    assert_eq!(check_source_delivery(Some(true)), Ok(()));
    let refused = Err(AppError::Validation {
        field: "source_delivery_id".to_string(),
        message: "source delivery must belong to the owner and be linked to the saved document".to_string(),
    });
    assert_eq!(check_source_delivery(Some(false)), refused.clone());
    assert_eq!(check_source_delivery(None), refused);
}

#[test]
fn restore_returns_an_active_entry_instead_of_conflicting() {
    assert_eq!(decide_restore(true), RestoreStep::ReturnActive);
    assert_eq!(decide_restore(false), RestoreStep::ClearDeletion);
}

#[test]
fn scope_counts_sum_by_state_and_by_type() {
    let rows = vec![
        TypeCountRow { item_type: "article".to_string(), unread: 3, reading: 1, done: 2 },
        TypeCountRow { item_type: "video".to_string(), unread: 0, reading: 4, done: 0 },
    ];
    let c = scope_counts(&rows);
    assert_eq!((c.unread, c.reading, c.done), (3, 5, 2));
    assert_eq!(c.by_item_type, vec![("article".to_string(), 6), ("video".to_string(), 4)]);
    let total: i64 = c.by_item_type.iter().map(|(_, n)| n).sum();
    assert_eq!(total, c.unread + c.reading + c.done);
}

#[test]
fn pages_cut_the_extra_row_and_point_past_the_last_item() {
    let page = split_page(vec![1, 2, 3, 4], 3);
    assert!(page.has_more);
    assert_eq!(page.items, vec![1, 2, 3]);
    assert_eq!(next_page_key(&page.items, page.has_more), Some(3));
    let page = split_page(vec![1, 2], 3);
    assert!(!page.has_more);
    assert_eq!(page.items, vec![1, 2]);
    assert_eq!(next_page_key(&page.items, page.has_more), None);
    assert_eq!(fetch_limit(50), 51);
}

#[test]
fn tag_entries_query_orders_by_tagging_time() {
    let b = build_tag_entries_query(5, 6, Some((at(9), 8)), 21);
    let mut text = String::new();
    let mut binds = Vec::new();
    for p in &b.parts {
        match p {
            SqlPart::Sql(s) => text.push_str(s),
            SqlPart::Bind(v) => {
                binds.push(v.clone());
                text.push('?');
            }
        }
    }
    assert_eq!(
        text,
        format!(
            "SELECT {LIBRARY_DOC_COLUMNS}{TAG_ENTRIES_FROM_SQL}? AND le.user_id = ? AND le.deleted_at IS NULL AND (let.added_at, le.id) < (?, ?) ORDER BY let.added_at DESC, le.id DESC LIMIT ?"
        )
    );
    assert_eq!(binds, vec![BindValue::Uuid(5), BindValue::Uuid(6), BindValue::Timestamp(at(9)), BindValue::Uuid(8), BindValue::Int(21)]);
}

#[test]
fn saving_twice_reports_the_second_save_as_already_active() {
    for first in [None, Some(None), Some(Some(at(5)))] {
        let step = decide_save(first, None);
        assert_ne!(step, SaveStep::SkipRestore);
        // After the first save the entry is active.
        let again = decide_save(Some(None), Some(at(1)));
        assert_eq!(again, SaveStep::KeepActive);
        assert!(save_flags(&again, false).already_active);
    }
}

#[test]
fn restore_records_its_event_first_and_reindexes_last() {
    let mut effects: MutationEffects<&str> = MutationEffects {
        events: vec![EntryEvent::Other("audit")],
        reindex_documents: vec![7],
    };
    add_restore_effects(&mut effects, 1, 2, 3);
    assert_eq!(
        effects.events,
        vec![EntryEvent::Restored { user_id: 1, entry_id: 2, document_id: 3 }, EntryEvent::Other("audit")]
    );
    assert_eq!(effects.reindex_documents, vec![7, 3]);
}

#[test]
fn purge_records_one_event_and_one_reindex_per_entry() {
    let effects: MutationEffects<()> = permanent_deletion_effects(&vec![(10, 1, 100), (11, 1, 101)]);
    assert_eq!(
        effects.events,
        vec![
            EntryEvent::PermanentlyDeleted { user_id: 1, entry_id: 10, document_id: 100 },
            EntryEvent::PermanentlyDeleted { user_id: 1, entry_id: 11, document_id: 101 },
        ]
    );
    assert_eq!(effects.reindex_documents, vec![100, 101]);
}
