use ind_persistence::error::AppError;
use ind_persistence::filter_sql::{normalize_text_value, parse_prefixed_uuid, FilterOp};
use ind_persistence::json::JsonValue;
use ind_persistence::library_filters::{push_filter_node, FilterNode, COLLECTION_EXISTS_SQL, TAG_EXISTS_SQL, TAG_NOT_EXISTS_SQL};
use ind_persistence::library_query::{build_library_entries_query, LibraryListFilter, LIBRARY_DOC_COLUMNS, LIBRARY_FROM_SQL};
use ind_persistence::sql::{BindValue, SqlBuilder, SqlPart, Timestamp};

fn render(b: &SqlBuilder) -> (String, Vec<BindValue>) {
    let mut text = String::new();
    let mut binds = Vec::new();
    for part in &b.parts {
        match part {
            SqlPart::Sql(s) => text.push_str(s),
            SqlPart::Bind(v) => {
                binds.push(v.clone());
                text.push_str(&format!("${}", binds.len()));
            }
        }
    }
    (text, binds)
}

fn cond(field: &str, op: FilterOp, value: JsonValue) -> FilterNode {
    FilterNode::Condition { field: field.to_string(), op, value }
}

fn s(v: &str) -> JsonValue {
    JsonValue::String(v.to_string())
}

fn emit(node: &FilterNode) -> (Result<(), AppError>, String, Vec<BindValue>) {
    let mut b = SqlBuilder::new("");
    let r = push_filter_node(&mut b, node);
    let (text, binds) = render(&b);
    (r, text, binds)
}

fn filter_error(message: &str) -> AppError {
    AppError::Validation { field: "filter_expression".to_string(), message: message.to_string() }
}

#[test]
fn boolean_field_eq_binds_the_flag() {
    let (r, text, binds) = emit(&cond("is_favorite", FilterOp::Eq, JsonValue::Bool(true)));
    assert_eq!(r, Ok(()));
    assert_eq!(text, "le.is_favorite = $1");
    assert_eq!(binds, vec![BindValue::Bool(true)]);
}

#[test]
fn boolean_field_rejects_other_operators_and_values() {
    let (r, _, _) = emit(&cond("is_favorite", FilterOp::Neq, JsonValue::Bool(true)));
    assert_eq!(r, Err(filter_error("is_favorite only supports eq")));
    let (r, _, _) = emit(&cond("is_favorite", FilterOp::Eq, s("yes")));
    assert_eq!(r, Err(filter_error("is_favorite value must be boolean")));
}

#[test]
fn empty_and_is_true_and_empty_or_is_false() {
    let (r, text, _) = emit(&FilterNode::And { conditions: vec![] });
    assert_eq!(r, Ok(()));
    assert_eq!(text, "TRUE");
    let (r, text, _) = emit(&FilterNode::Or { conditions: vec![] });
    assert_eq!(r, Ok(()));
    assert_eq!(text, "FALSE");
}

#[test]
fn and_or_not_nest_with_parentheses() {
    let node = FilterNode::And {
        conditions: vec![
            cond("triage_state", FilterOp::Eq, s("inbox")),
            FilterNode::Not {
                condition: Box::new(FilterNode::Or {
                    conditions: vec![
                        cond("is_favorite", FilterOp::Eq, JsonValue::Bool(false)),
                        cond("item_type", FilterOp::Neq, s("article")),
                    ],
                }),
            },
        ],
    };
    let (r, text, binds) = emit(&node);
    assert_eq!(r, Ok(()));
    assert_eq!(text, "(le.triage_state = $1 AND NOT ((le.is_favorite = $2 OR d.document_type != $3)))");
    assert_eq!(
        binds,
        vec![
            BindValue::Text("inbox".to_string()),
            BindValue::Bool(false),
            BindValue::Text("article".to_string()),
        ]
    );
}

#[test]
fn case_insensitive_fields_lower_both_sides() {
    let (r, text, binds) = emit(&cond("subject", FilterOp::Contains, s("HeLLo")));
    assert_eq!(r, Ok(()));
    assert_eq!(text, "LOWER(d.title) LIKE '%' || $1 || '%'");
    assert_eq!(binds, vec![BindValue::Text("hello".to_string())]);
}

#[test]
fn text_in_binds_a_list() {
    let (r, text, binds) = emit(&cond("domain", FilterOp::In, JsonValue::Array(vec![s("A.com"), s("b.org")])));
    assert_eq!(r, Ok(()));
    assert_eq!(text, "LOWER(d.domain) = ANY($1)");
    assert_eq!(binds, vec![BindValue::TextList(vec!["a.com".to_string(), "b.org".to_string()])]);
}

#[test]
fn text_in_rejects_non_strings_and_non_arrays() {
    let (r, _, _) = emit(&cond("item_type", FilterOp::In, JsonValue::Array(vec![s("a"), JsonValue::Null])));
    assert_eq!(r, Err(filter_error("item_type IN values must be strings")));
    let (r, _, _) = emit(&cond("item_type", FilterOp::In, s("a")));
    assert_eq!(r, Err(filter_error("item_type IN value must be an array")));
    let (r, _, _) = emit(&cond("item_type", FilterOp::Gt, s("a")));
    assert_eq!(r, Err(filter_error("item_type only supports eq, neq, contains, in")));
    let (r, _, _) = emit(&cond("item_type", FilterOp::Eq, JsonValue::Bool(true)));
    assert_eq!(r, Err(filter_error("item_type value must be a string")));
}

#[test]
fn domain_rejects_contains() {
    let (r, text, _) = emit(&cond("domain", FilterOp::Contains, s("x")));
    assert_eq!(r, Err(filter_error("domain only supports eq, neq, in")));
    assert_eq!(text, "");
}

#[test]
fn unknown_field_is_rejected() {
    let (r, _, _) = emit(&cond("colour", FilterOp::Eq, s("red")));
    assert_eq!(r, Err(filter_error("unsupported filter field: colour")));
}

#[test]
fn tag_filters_use_exists_subqueries() {
    let (r, text, binds) = emit(&cond("tag", FilterOp::Eq, s("Rust")));
    assert_eq!(r, Ok(()));
    assert_eq!(text, format!("{TAG_EXISTS_SQL}$1))"));
    assert_eq!(binds, vec![BindValue::Text("Rust".to_string())]);
    let (r, text, _) = emit(&cond("tag", FilterOp::Neq, s("Rust")));
    assert_eq!(r, Ok(()));
    assert_eq!(text, format!("{TAG_NOT_EXISTS_SQL}$1))"));
    let (r, _, _) = emit(&cond("tag", FilterOp::In, s("Rust")));
    assert_eq!(r, Err(filter_error("tag field only supports eq, neq, contains")));
    let (r, _, _) = emit(&cond("tag", FilterOp::Eq, JsonValue::Null));
    assert_eq!(r, Err(filter_error("tag value must be a string")));
}

#[test]
fn collection_filter_accepts_prefixed_and_bare_ids() {
    let id = "67e55044-10b1-426f-9247-bb680e5fe0c8";
    let expected = 0x67e5504410b1426f9247bb680e5fe0c8u128;
    for raw in [format!("col_{id}"), id.to_string()] {
        let (r, text, binds) = emit(&cond("collection", FilterOp::Eq, s(&raw)));
        assert_eq!(r, Ok(()));
        assert_eq!(text, format!("{COLLECTION_EXISTS_SQL}$1)"));
        assert_eq!(binds, vec![BindValue::Uuid(expected)]);
    }
    let (r, _, _) = emit(&cond("collection", FilterOp::Eq, s("col_nope")));
    assert_eq!(r, Err(filter_error("collection value is not a valid UUID")));
    let (r, _, _) = emit(&cond("collection", FilterOp::Neq, s(id)));
    assert_eq!(r, Err(filter_error("collection field only supports eq, contains")));
}

#[test]
fn parse_prefixed_uuid_strips_only_the_prefix() {
    assert_eq!(parse_prefixed_uuid("col_67e55044-10b1-426f-9247-bb680e5fe0c8", "col_"), Some(0x67e5504410b1426f9247bb680e5fe0c8));
    assert_eq!(parse_prefixed_uuid("tag_67e55044-10b1-426f-9247-bb680e5fe0c8", "col_"), None);
}

#[test]
fn timestamp_eq_covers_the_whole_day() {
    let (r, text, binds) = emit(&cond("saved_at", FilterOp::Eq, s("2024-01-02T00:00:00Z")));
    assert_eq!(r, Ok(()));
    assert_eq!(text, "(le.saved_at >= $1 AND le.saved_at < $2)");
    assert_eq!(
        binds,
        vec![
            BindValue::Timestamp(Timestamp { secs: 1704153600, nanos: 0 }),
            BindValue::Timestamp(Timestamp { secs: 1704240000, nanos: 0 }),
        ]
    );
}

#[test]
fn timestamp_order_operators_round_to_days() {
    let day = Timestamp { secs: 1704153600, nanos: 0 };
    let next = Timestamp { secs: 1704240000, nanos: 0 };
    let cases = [
        (FilterOp::Gt, "d.published_at >= $1", next),
        (FilterOp::Lt, "d.published_at < $1", day),
        (FilterOp::Gte, "d.published_at >= $1", day),
        (FilterOp::Lte, "d.published_at < $1", next),
    ];
    for (op, expected, bound) in cases {
        let (r, text, binds) = emit(&cond("published_at", op, s("2024-01-02T00:00:00Z")));
        assert_eq!(r, Ok(()));
        assert_eq!(text, expected);
        assert_eq!(binds, vec![BindValue::Timestamp(bound)]);
    }
}

#[test]
fn timestamp_errors() {
    let (r, _, _) = emit(&cond("saved_at", FilterOp::Eq, JsonValue::Bool(true)));
    assert_eq!(r, Err(filter_error("saved_at value must be an ISO 8601 string")));
    let (r, _, _) = emit(&cond("saved_at", FilterOp::Eq, s("yesterday")));
    assert_eq!(r, Err(filter_error("saved_at value is not a valid timestamp")));
    let (r, _, _) = emit(&cond("saved_at", FilterOp::Contains, s("2024-01-02T00:00:00Z")));
    assert_eq!(r, Err(filter_error("saved_at does not support this operator")));
}

#[test]
fn sender_filters_wrap_an_exists() {
    let (r, text, binds) = emit(&cond("list_id", FilterOp::Eq, s("News.Example")));
    assert_eq!(r, Ok(()));
    assert!(text.starts_with("EXISTS (SELECT 1 FROM email_senders s_filter"));
    assert!(text.ends_with("LOWER(s_filter.list_id) = $1)"));
    assert_eq!(binds, vec![BindValue::Text("news.example".to_string())]);
}

#[test]
fn sender_boolean_fields() {
    let (r, text, _) = emit(&cond("has_unsubscribe", FilterOp::Eq, JsonValue::Bool(true)));
    assert_eq!(r, Ok(()));
    assert!(text.contains("email_unsubscribe_targets"));
    let (r, _, _) = emit(&cond("sender_blocked", FilterOp::Neq, JsonValue::Bool(true)));
    assert_eq!(r, Err(filter_error("sender_blocked only supports eq")));
}

#[test]
fn normalize_text_value_lowers_only_when_asked() {
    assert_eq!(normalize_text_value("MiXeD", true), "mixed");
    assert_eq!(normalize_text_value("MiXeD", false), "MiXeD");
    assert_eq!(normalize_text_value("ÄBC Σ", true), "äbc σ");
}

#[test]
fn library_query_has_filter_cursor_and_limit() {
    let filter = LibraryListFilter {
        filter_expression: Some(cond("is_favorite", FilterOp::Eq, JsonValue::Bool(true))),
        trashed_only: false,
    };
    let cursor = Some((Timestamp { secs: 10, nanos: 5 }, 7u128));
    let b = build_library_entries_query(42, &filter, cursor, 51).unwrap();
    let (text, binds) = render(&b);
    assert_eq!(
        text,
        format!(
            "SELECT {LIBRARY_DOC_COLUMNS}{LIBRARY_FROM_SQL}$1 AND le.deleted_at IS NULL AND le.is_favorite = $2 AND (le.saved_at, le.id) < ($3, $4) ORDER BY le.saved_at DESC, le.id DESC LIMIT $5"
        )
    );
    assert_eq!(
        binds,
        vec![
            BindValue::Uuid(42),
            BindValue::Bool(true),
            BindValue::Timestamp(Timestamp { secs: 10, nanos: 5 }),
            BindValue::Uuid(7),
            BindValue::Int(51),
        ]
    );
}

#[test]
fn library_query_reads_the_trash_and_reports_filter_errors() {
    let trash = LibraryListFilter { filter_expression: None, trashed_only: true };
    let (text, _) = render(&build_library_entries_query(1, &trash, None, 21).unwrap());
    assert!(text.contains(" AND le.deleted_at IS NOT NULL ORDER BY"));
    let bad = LibraryListFilter { filter_expression: Some(cond("nope", FilterOp::Eq, JsonValue::Null)), trashed_only: false };
    match build_library_entries_query(1, &bad, None, 21) {
        Err(e) => assert_eq!(e, filter_error("unsupported filter field: nope")),
        Ok(_) => panic!("an unknown field must be refused"),
    }
}

#[test]
fn a_day_past_the_calendar_end_is_reported() {
    let (r, text, _) = emit(&cond("saved_at", FilterOp::Eq, s("+262142-12-31T12:00:00Z")));
    assert_eq!(
        r,
        Err(AppError::InvariantViolation { message: "saved_at day bound overflows the calendar".to_string() })
    );
    assert_eq!(text, "");
    let (r, _, _) = emit(&cond("saved_at", FilterOp::Eq, s("+262142-12-30T12:00:00Z")));
    assert_eq!(r, Ok(()));
}

#[test]
fn values_never_reach_the_sql_text() {
    let hostile = "x')) OR 1=1; DROP TABLE tags; --";
    let node = FilterNode::Or {
        conditions: vec![
            cond("tag", FilterOp::Eq, s(hostile)),
            cond("subject", FilterOp::Contains, s(hostile)),
            cond("sender", FilterOp::Contains, s(hostile)),
            cond("list_id", FilterOp::In, JsonValue::Array(vec![s(hostile)])),
        ],
    };
    let (r, text, binds) = emit(&node);
    assert_eq!(r, Ok(()));
    assert!(!text.contains("DROP TABLE"));
    assert_eq!(binds.len(), 5);
}

#[test]
fn first_rejected_condition_from_the_left_decides_the_error() {
    let node = FilterNode::Or {
        conditions: vec![
            cond("is_favorite", FilterOp::Eq, JsonValue::Bool(true)),
            FilterNode::Not { condition: Box::new(cond("colour", FilterOp::Eq, s("red"))) },
            cond("is_favorite", FilterOp::Neq, JsonValue::Bool(true)),
        ],
    };
    let (r, _, _) = emit(&node);
    assert_eq!(r, Err(filter_error("unsupported filter field: colour")));
    let node = FilterNode::And {
        conditions: vec![
            cond("is_favorite", FilterOp::Neq, JsonValue::Bool(true)),
            cond("colour", FilterOp::Eq, s("red")),
        ],
    };
    let (r, _, _) = emit(&node);
    assert_eq!(r, Err(filter_error("is_favorite only supports eq")));
}

#[test]
fn normalizing_twice_changes_nothing_more() {
    for v in ["MiXeD", "ÄBC Σ", "ΣΑΣ", "İstanbul", ""] {
        for ci in [true, false] {
            let once = normalize_text_value(v, ci);
            assert_eq!(normalize_text_value(&once, ci), once);
        }
    }
}

#[test]
fn day_bounds_reach_both_ends_of_the_calendar() {
    let (r, _, binds) = emit(&cond("saved_at", FilterOp::Eq, s("-262143-01-01T00:00:00Z")));
    assert_eq!(r, Ok(()));
    assert_eq!(
        binds,
        vec![
            BindValue::Timestamp(Timestamp { secs: -8334601228800, nanos: 0 }),
            BindValue::Timestamp(Timestamp { secs: -8334601142400, nanos: 0 }),
        ]
    );
    let (r, _, binds) = emit(&cond("saved_at", FilterOp::Eq, s("+262142-12-30T23:59:59Z")));
    assert_eq!(r, Ok(()));
    assert_eq!(
        binds,
        vec![
            BindValue::Timestamp(Timestamp { secs: 8210266790399, nanos: 0 }),
            BindValue::Timestamp(Timestamp { secs: 8210266876799, nanos: 0 }),
        ]
    );
    let (r, _, _) = emit(&cond("saved_at", FilterOp::Eq, s("+262142-12-31T00:00:00Z")));
    assert_eq!(
        r,
        Err(AppError::InvariantViolation { message: "saved_at day bound overflows the calendar".to_string() })
    );
}
