use ind_persistence::accounts::{check_lease, client_ip_address, reset_token_consumption};
use ind_persistence::codecs::MilaSessionType;
use ind_persistence::error::{require_affected, AppError};
use ind_persistence::grouping::{attach_positions, group_positions, row_positions};
use ind_persistence::id_sets::{all_distinct, same_id_set};
use ind_persistence::import_jobs::{clean_title, rollback_origin_keys, OutcomeRef, OutcomeScan, OUTCOME_PAGE_SIZE};
use ind_persistence::integrations::{
    check_selection_batch, notion_candidates_limit, notion_items_window, notion_search_pattern, pending_count,
    pending_counts, versioned_update_outcome,
};
use ind_persistence::mila::{validate_session_scope, MilaSessionScope};
use ind_persistence::search::{
    entity_card_query, hit_section, plain_sender_filter, sender_filter_is_address, suggestion_mention_count,
    suggestion_prefix,
};
use ind_persistence::sql::Timestamp;
use ind_persistence::tags::{check_merge_sources, check_parent_move, tag_scope_flag, tag_source_to_str, TagSource};

fn validation(field: &str, message: &str) -> AppError {
    AppError::Validation { field: field.to_string(), message: message.to_string() }
}

fn scope(t: MilaSessionType, doc: Option<u128>, col: Option<u128>) -> MilaSessionScope {
    MilaSessionScope { session_type: t, document_id: doc, collection_id: col }
}

#[test]
fn session_scopes_that_match_their_type_pass() {
    assert_eq!(validate_session_scope(&scope(MilaSessionType::SingleDocument, Some(1), None)), Ok(()));
    assert_eq!(validate_session_scope(&scope(MilaSessionType::CrossItem, None, None)), Ok(()));
    assert_eq!(validate_session_scope(&scope(MilaSessionType::Collection, None, Some(2))), Ok(()));
}

#[test]
fn session_scopes_that_contradict_their_type_fail() {
    assert_eq!(
        validate_session_scope(&scope(MilaSessionType::CrossItem, Some(1), None)),
        Err(validation("document_id", "document_id is only valid for single_document sessions"))
    );
    assert_eq!(
        validate_session_scope(&scope(MilaSessionType::Collection, Some(1), Some(2))),
        Err(validation("document_id", "document_id is only valid for single_document sessions"))
    );
    assert_eq!(
        validate_session_scope(&scope(MilaSessionType::SingleDocument, None, None)),
        Err(validation("document_id", "single_document sessions require document_id"))
    );
    assert_eq!(
        validate_session_scope(&scope(MilaSessionType::SingleDocument, Some(1), Some(2))),
        Err(validation("document_id", "single_document sessions cannot include collection_id"))
    );
    assert_eq!(
        validate_session_scope(&scope(MilaSessionType::CrossItem, None, Some(2))),
        Err(validation("collection_id", "cross_item sessions cannot include collection_id"))
    );
    assert_eq!(
        validate_session_scope(&scope(MilaSessionType::Collection, None, None)),
        Err(validation("collection_id", "collection sessions require collection_id"))
    );
}

#[test]
fn versioned_settings_updates() {
    assert_eq!(versioned_update_outcome(Some(8), true, "c1".to_string()), Ok(8));
    assert_eq!(
        versioned_update_outcome(None, true, "c1".to_string()),
        Err(AppError::Conflict {
            entity: "integration_connection".to_string(),
            message: "settings were updated concurrently; reload and retry".to_string(),
        })
    );
    assert_eq!(
        versioned_update_outcome(None, false, "c1".to_string()),
        Err(AppError::NotFound { entity: "integration_connection".to_string(), id: "c1".to_string() })
    );
}

#[test]
fn pending_job_counts() {
    assert_eq!(pending_count(-4), 0);
    assert_eq!(pending_count(12), 12);
    assert_eq!(pending_count(i64::MAX), u32::MAX);
    assert_eq!(pending_counts(&vec![(Some(1), 3), (None, 9), (Some(2), -1)]), vec![(1, 3), (2, 0)]);
}

#[test]
fn notion_listing_parameters() {
    assert_eq!(notion_search_pattern(&None), None);
    assert_eq!(notion_search_pattern(&Some("   ".to_string())), None);
    assert_eq!(notion_search_pattern(&Some(" 5%_x ".to_string())), Some("%5\\%\\_x%".to_string()));
    assert_eq!(notion_items_window(0, -3), (1, 0));
    assert_eq!(notion_items_window(500, 40), (200, 40));
    assert_eq!(notion_items_window(25, 0), (25, 0));
    assert_eq!(notion_candidates_limit(-1), 1);
    assert_eq!(notion_candidates_limit(5000), 1000);
    assert_eq!(notion_candidates_limit(10), 10);
}

#[test]
fn selection_batches_must_all_apply() {
    assert_eq!(check_selection_batch(3, 3), Ok(()));
    assert_eq!(check_selection_batch(0, 0), Ok(()));
    assert_eq!(
        check_selection_batch(5, 3),
        Err(AppError::NotFound {
            entity: "notion_export_item".to_string(),
            id: "2 of 5 items missing or not owned by user".to_string(),
        })
    );
}

#[test]
fn writes_that_touch_no_row_are_not_found() {
    assert_eq!(require_affected(1, "import_job", "j".to_string()), Ok(()));
    assert_eq!(
        require_affected(0, "import_job", "j".to_string()),
        Err(AppError::NotFound { entity: "import_job".to_string(), id: "j".to_string() })
    );
}

#[test]
fn account_rules() {
    assert_eq!(client_ip_address(Some("192.168.0.1/32".to_string())), Some("192.168.0.1".to_string()));
    assert_eq!(client_ip_address(Some("::1".to_string())), Some("::1".to_string()));
    assert_eq!(client_ip_address(None), None);
    assert_eq!(reset_token_consumption(1, None, "t".to_string()), Ok(()));
    assert_eq!(
        reset_token_consumption(0, Some(Some(Timestamp { secs: 1, nanos: 0 })), "t".to_string()),
        Err(AppError::Conflict { entity: "password_reset_token".to_string(), message: "token already used".to_string() })
    );
    assert_eq!(
        reset_token_consumption(0, Some(None), "t".to_string()),
        Err(AppError::NotFound { entity: "password_reset_token".to_string(), id: "t".to_string() })
    );
    assert_eq!(check_lease(1, "vacuum"), Ok(()));
    assert_eq!(
        check_lease(0, "vacuum"),
        Err(AppError::InvariantViolation { message: "maintenance task `vacuum` lease is no longer owned".to_string() })
    );
}

#[test]
fn tag_rules() {
    assert_eq!(tag_scope_flag(Some("document")), 1);
    assert_eq!(tag_scope_flag(Some("highlight")), 2);
    assert_eq!(tag_scope_flag(Some("other")), 0);
    assert_eq!(tag_scope_flag(None), 0);
    assert_eq!(tag_source_to_str(TagSource::Manual), "manual");
    assert_eq!(tag_source_to_str(TagSource::Ai), "ai");
    assert_eq!(tag_source_to_str(TagSource::Import), "import");
    assert_eq!(check_parent_move(Some(false)), Ok(()));
    assert_eq!(check_parent_move(None), Ok(()));
    assert_eq!(
        check_parent_move(Some(true)),
        Err(validation("parent_id", "a tag cannot be moved under one of its descendants"))
    );
    assert_eq!(check_merge_sources(Some(2), 2), Ok(()));
    assert_eq!(check_merge_sources(None, 0), Ok(()));
    assert_eq!(check_merge_sources(Some(1), 2), Err(validation("source_ids", "one or more source tags not found")));
}

#[test]
fn search_rules() {
    assert_eq!(suggestion_prefix("AbC"), "abc%");
    assert_eq!(entity_card_query("  ab "), None);
    assert_eq!(entity_card_query(" Ada "), Some(("ada".to_string(), "ada%".to_string())));
    assert_eq!(entity_card_query("éé"), Some(("éé".to_string(), "éé%".to_string())));
    assert!(sender_filter_is_address("Ann@Example.com"));
    assert!(!sender_filter_is_address("example.com"));
    assert_eq!(plain_sender_filter("  Example.COM "), "example.com");
    assert_eq!(hit_section(Some(1), Some("k".to_string())), Some((1, "k".to_string())));
    assert_eq!(hit_section::<u8>(None, Some("k".to_string())), None);
    assert_eq!(suggestion_mention_count(-1), 0);
    assert_eq!(suggestion_mention_count(i64::MAX), i32::MAX);
    assert_eq!(suggestion_mention_count(17), 17);
}

#[test]
fn tag_rows_group_by_owner_in_order() {
    let rows = vec![7u128, 5, 7, 9, 5];
    assert_eq!(row_positions(&rows, 7), vec![0, 2]);
    assert_eq!(group_positions(&rows), vec![(7, vec![0, 2]), (5, vec![1, 4]), (9, vec![3])]);
    assert_eq!(attach_positions(&vec![5, 8, 5], &rows), vec![vec![1, 4], vec![], vec![]]);
}

#[test]
fn id_set_checks() {
    assert!(all_distinct(&vec![1, 2, 3]));
    assert!(!all_distinct(&vec![1, 2, 1]));
    assert!(same_id_set(&vec![1, 2, 2], &vec![2, 1]));
    assert!(!same_id_set(&vec![1], &vec![1, 3]));
}

#[test]
fn import_item_titles_and_rollback_keys() {
    assert_eq!(clean_title(Some("  A title ".to_string())), Some("A title".to_string()));
    assert_eq!(clean_title(Some(" \t ".to_string())), None);
    assert_eq!(clean_title(None), None);
    assert_eq!(rollback_origin_keys(&vec!["42".to_string(), "x".to_string()]), vec!["readwise:42".to_string(), "readwise:x".to_string()]);
}

fn outcome(ext: &str, secs: i64, id: u128) -> OutcomeRef {
    OutcomeRef { external_id: ext.to_string(), created_at: Timestamp { secs, nanos: 0 }, id }
}

#[test]
fn the_outcome_scan_keeps_the_latest_match() {
    let mut scan = OutcomeScan::new();
    let first = vec![outcome("a", 5, 1), outcome("b", 9, 2), outcome("a", 3, 3)];
    assert_eq!(scan.take_page(&first, "a"), Some(0));
    assert_eq!(scan.offset, OUTCOME_PAGE_SIZE);
    let second = vec![outcome("a", 5, 4), outcome("a", 5, 0)];
    assert_eq!(scan.take_page(&second, "a"), Some(0));
    assert_eq!(scan.best, Some((Timestamp { secs: 5, nanos: 0 }, 4)));
    assert_eq!(scan.take_page(&vec![], "a"), None);
    assert!(scan.done);
    assert_eq!(scan.offset, OUTCOME_PAGE_SIZE * 2);
}
