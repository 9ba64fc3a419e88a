//! Compiles the smart-list filter language into SQL over saved Library content
//! (`library_entries le JOIN documents d`).

use vstd::prelude::*;
use crate::error::{AppError, ErrorView};
use crate::filter_sql::{
    Emission, FilterOp, boolean_filter, emit_fail, emit_ok, emit_then, emitted, filter_error_view,
    in_values, prefixed_uuid, push_boolean_filter, push_text_filter, push_timestamp_filter,
    text_filter, timestamp_filter, parse_prefixed_uuid, validation_error,
};
use crate::json::{JsonValue, json_array, json_bool, json_str};
use crate::sql::{BindValue, BindView, PartView, SqlBuilder, bind_text, sql, texts_view};
use crate::text::{concat, concat3, lowercase, str_eq, to_lowercase};

verus! {

/// A node of the filter language: a boolean combination of field conditions.
#[derive(Debug)]
pub enum FilterNode {
    And { conditions: Vec<FilterNode> },
    Or { conditions: Vec<FilterNode> },
    Not { condition: Box<FilterNode> },
    Condition { field: String, op: FilterOp, value: JsonValue },
}

/// Membership of the entry in a tag with the bound name (case-insensitive).
pub const TAG_EXISTS_SQL: &'static str = "EXISTS (SELECT 1 FROM library_entry_tags let_filter JOIN tags t_filter ON t_filter.id = let_filter.tag_id WHERE let_filter.library_entry_id = le.id AND t_filter.user_id = le.user_id AND LOWER(t_filter.name) = LOWER(";

/// No membership of the entry in a tag with the bound name (case-insensitive).
pub const TAG_NOT_EXISTS_SQL: &'static str = "NOT EXISTS (SELECT 1 FROM library_entry_tags let_filter JOIN tags t_filter ON t_filter.id = let_filter.tag_id WHERE let_filter.library_entry_id = le.id AND t_filter.user_id = le.user_id AND LOWER(t_filter.name) = LOWER(";

/// Membership of the entry in the collection with the bound id.
pub const COLLECTION_EXISTS_SQL: &'static str = "EXISTS (SELECT 1 FROM collection_entries ce_filter WHERE ce_filter.library_entry_id = le.id AND ce_filter.user_id = le.user_id AND ce_filter.collection_id = ";

/// Opens an `EXISTS` over the email sender linked to the document; the predicate that
/// follows refers to `s_filter`.
pub const SENDER_EXISTS_OPEN_SQL: &'static str = "EXISTS (SELECT 1 FROM email_senders s_filter WHERE s_filter.id = d.sender_id AND s_filter.user_id = le.user_id AND ";

/// The linked sender has an unsubscribe target.
pub const UNSUBSCRIBE_TARGET_EXISTS_SQL: &'static str = "EXISTS (SELECT 1 FROM email_unsubscribe_targets t_filter WHERE t_filter.sender_id = s_filter.id)";

/// The filter fields the language knows.
pub open spec fn is_allowed_filter_field(field: Seq<char>) -> bool {
    ||| field == "tag"@
    ||| field == "collection"@
    ||| field == "is_favorite"@
    ||| field == "item_type"@
    ||| field == "triage_state"@
    ||| field == "domain"@
    ||| field == "subject"@
    ||| field == "sender"@
    ||| field == "sender_domain"@
    ||| field == "list_id"@
    ||| field == "has_unsubscribe"@
    ||| field == "sender_blocked"@
    ||| field == "saved_at"@
    ||| field == "published_at"@
}

/// `tag`: membership in a tag by name, case-insensitive.
pub open spec fn tag_filter(op: FilterOp, value: JsonValue) -> Emission {
    match json_str(value) {
        None => emit_fail("tag value must be a string"@),
        Some(name) => match op {
            FilterOp::Eq | FilterOp::Contains => emit_ok(
                seq![sql(TAG_EXISTS_SQL@), bind_text(name), sql("))"@)],
            ),
            FilterOp::Neq => emit_ok(seq![sql(TAG_NOT_EXISTS_SQL@), bind_text(name), sql("))"@)]),
            _ => emit_fail("tag field only supports eq, neq, contains"@),
        },
    }
}

fn push_tag_filter(builder: &mut SqlBuilder, op: &FilterOp, value: &JsonValue) -> (r: Result<(), AppError>)
    ensures
        emitted(old(builder)@, final(builder)@, r, tag_filter(*op, *value)),
{
    let tag_name = match value.as_str() {
        Some(t) => t.to_string(),
        None => {
            return Err(validation_error("tag value must be a string"));
        },
    };
    match op {
        FilterOp::Eq | FilterOp::Contains => {
            builder.push(TAG_EXISTS_SQL);
            builder.push_bind(BindValue::Text(tag_name));
            builder.push("))");
        },
        FilterOp::Neq => {
            builder.push(TAG_NOT_EXISTS_SQL);
            builder.push_bind(BindValue::Text(tag_name));
            builder.push("))");
        },
        _ => {
            return Err(validation_error("tag field only supports eq, neq, contains"));
        },
    }
    assert(final(builder)@ =~= old(builder)@ + tag_filter(*op, *value).0);
    Ok(())
}

/// `collection`: membership in a collection, given as `col_<uuid>` or a bare UUID.
pub open spec fn collection_filter(op: FilterOp, value: JsonValue) -> Emission {
    match json_str(value) {
        None => emit_fail("collection value must be a string (collection ID)"@),
        Some(raw) => match prefixed_uuid(raw, "col_"@) {
            None => emit_fail("collection value is not a valid UUID"@),
            Some(id) => match op {
                FilterOp::Eq | FilterOp::Contains => emit_ok(
                    seq![sql(COLLECTION_EXISTS_SQL@), PartView::Bind(BindView::Uuid(id)), sql(")"@)],
                ),
                _ => emit_fail("collection field only supports eq, contains"@),
            },
        },
    }
}

fn push_collection_filter(builder: &mut SqlBuilder, op: &FilterOp, value: &JsonValue) -> (r: Result<(), AppError>)
    ensures
        emitted(old(builder)@, final(builder)@, r, collection_filter(*op, *value)),
{
    let raw = match value.as_str() {
        Some(t) => t,
        None => {
            return Err(validation_error("collection value must be a string (collection ID)"));
        },
    };
    let collection_id = match parse_prefixed_uuid(raw, "col_") {
        Some(id) => id,
        None => {
            return Err(validation_error("collection value is not a valid UUID"));
        },
    };
    match op {
        FilterOp::Eq | FilterOp::Contains => {
            builder.push(COLLECTION_EXISTS_SQL);
            builder.push_bind(BindValue::Uuid(collection_id));
            builder.push(")");
        },
        _ => {
            return Err(validation_error("collection field only supports eq, contains"));
        },
    }
    assert(final(builder)@ =~= old(builder)@ + collection_filter(*op, *value).0);
    Ok(())
}

/// The text of a string value, or the "must be a string" error for `field`.
fn ensure_text<'a>(value: &'a JsonValue, field: &str) -> (r: Result<&'a str, AppError>)
    ensures
        match r {
            Ok(t) => json_str(*value) == Some(t@),
            Err(e) => json_str(*value) is None && e@ == filter_error_view(field@ + " value must be a string"@),
        },
{
    match value.as_str() {
        Some(t) => Ok(t),
        None => Err(validation_error(&concat(field, " value must be a string"))),
    }
}

/// The boolean of an `eq` condition, or the error for `field`.
pub open spec fn bool_condition(value: JsonValue, field: Seq<char>, op: FilterOp) -> Result<bool, Seq<char>> {
    if op != FilterOp::Eq {
        Err(field + " only supports eq"@)
    } else {
        match json_bool(value) {
            Some(b) => Ok(b),
            None => Err(field + " value must be boolean"@),
        }
    }
}

fn ensure_bool(value: &JsonValue, field: &str, op: &FilterOp) -> (r: Result<bool, AppError>)
    ensures
        match (r, bool_condition(*value, field@, *op)) {
            (Ok(b), Ok(c)) => b == c,
            (Err(e), Err(m)) => e@ == filter_error_view(m),
            _ => false,
        },
{
    match op {
        FilterOp::Eq => {},
        _ => {
            return Err(validation_error(&concat(field, " only supports eq")));
        },
    }
    match value.as_bool() {
        Some(b) => Ok(b),
        None => Err(validation_error(&concat(field, " value must be boolean"))),
    }
}

/// A case-insensitive predicate on a sender column, wrapped in the sender `EXISTS`.
/// The `EXISTS` (and, for `eq`/`neq`/`contains`, the comparison) is written before the
/// value is checked, as the builder receives it.
pub open spec fn sender_text_filter(column: Seq<char>, field: Seq<char>, op: FilterOp, value: JsonValue) -> Emission {
    let open = seq![sql(SENDER_EXISTS_OPEN_SQL@)];
    let lowered = "LOWER("@ + column;
    let text_missing = Some(filter_error_view(field + " value must be a string"@));
    match op {
        FilterOp::Eq => match json_str(value) {
            None => (open.push(sql(lowered + ") = "@)), text_missing),
            Some(t) => emit_ok(open + seq![sql(lowered + ") = "@), bind_text(lowercase(t)), sql(")"@)]),
        },
        FilterOp::Neq => match json_str(value) {
            None => (open.push(sql(lowered + ") != "@)), text_missing),
            Some(t) => emit_ok(open + seq![sql(lowered + ") != "@), bind_text(lowercase(t)), sql(")"@)]),
        },
        FilterOp::Contains => match json_str(value) {
            None => (open.push(sql(lowered + ") LIKE '%' || "@)), text_missing),
            Some(t) => emit_ok(
                open + seq![
                    sql(lowered + ") LIKE '%' || "@),
                    bind_text(lowercase(t)),
                    sql(" || '%'"@),
                    sql(")"@),
                ],
            ),
        },
        FilterOp::In => match json_array(value) {
            None => (open, Some(filter_error_view(field + " IN value must be an array"@))),
            Some(items) => match in_values(items, true) {
                None => (open, Some(filter_error_view(field + " IN values must be strings"@))),
                Some(values) => emit_ok(
                    open + seq![
                        sql(lowered + ") = ANY("@),
                        PartView::Bind(BindView::TextList(values)),
                        sql(")"@),
                        sql(")"@),
                    ],
                ),
            },
        },
        _ => (open, Some(filter_error_view(field + " only supports eq, neq, contains, in"@))),
    }
}

fn push_sender_text_filter(
    builder: &mut SqlBuilder,
    column: &str,
    field: &str,
    op: &FilterOp,
    value: &JsonValue,
) -> (r: Result<(), AppError>)
    ensures
        emitted(old(builder)@, final(builder)@, r, sender_text_filter(column@, field@, *op, *value)),
{
    let ghost e = sender_text_filter(column@, field@, *op, *value);
    builder.push(SENDER_EXISTS_OPEN_SQL);
    match op {
        FilterOp::Eq => {
            builder.push(concat3("LOWER(", column, ") = ").as_str());
            let t = match ensure_text(value, field) {
                Ok(t) => t,
                Err(err) => {
                    assert(final(builder)@ =~= old(builder)@ + e.0);
                    return Err(err);
                },
            };
            builder.push_bind(BindValue::Text(to_lowercase(t)));
        },
        FilterOp::Neq => {
            builder.push(concat3("LOWER(", column, ") != ").as_str());
            let t = match ensure_text(value, field) {
                Ok(t) => t,
                Err(err) => {
                    assert(final(builder)@ =~= old(builder)@ + e.0);
                    return Err(err);
                },
            };
            builder.push_bind(BindValue::Text(to_lowercase(t)));
        },
        FilterOp::Contains => {
            builder.push(concat3("LOWER(", column, ") LIKE '%' || ").as_str());
            let t = match ensure_text(value, field) {
                Ok(t) => t,
                Err(err) => {
                    assert(final(builder)@ =~= old(builder)@ + e.0);
                    return Err(err);
                },
            };
            builder.push_bind(BindValue::Text(to_lowercase(t)));
            builder.push(" || '%'");
        },
        FilterOp::In => {
            let items = match value.as_array() {
                Some(items) => items,
                None => {
                    assert(final(builder)@ =~= old(builder)@ + e.0);
                    return Err(validation_error(&concat(field, " IN value must be an array")));
                },
            };
            let values = match collect_in_values_lowered(items, field) {
                Ok(v) => v,
                Err(err) => {
                    assert(final(builder)@ =~= old(builder)@ + e.0);
                    return Err(err);
                },
            };
            builder.push(concat3("LOWER(", column, ") = ANY(").as_str());
            builder.push_bind(BindValue::TextList(values));
            builder.push(")");
        },
        _ => {
            assert(final(builder)@ =~= old(builder)@ + e.0);
            return Err(validation_error(&concat(field, " only supports eq, neq, contains, in")));
        },
    }
    builder.push(")");
    assert(final(builder)@ =~= old(builder)@ + e.0);
    Ok(())
}

proof fn lemma_in_values_prefix_none(items: Seq<JsonValue>, k: int, case_insensitive: bool)
    requires
        0 <= k <= items.len(),
        in_values(items.take(k), case_insensitive) is None,
    ensures
        in_values(items, case_insensitive) is None,
    decreases items.len() - k,
{
    if k < items.len() {
        assert(items.take(k + 1).drop_last() =~= items.take(k));
        lemma_in_values_prefix_none(items, k + 1, case_insensitive);
    } else {
        assert(items.take(k) =~= items);
    }
}

/// Collects the lower-cased texts of an `in` list for a sender column.
fn collect_in_values_lowered(items: &Vec<JsonValue>, field: &str) -> (r: Result<Vec<String>, AppError>)
    ensures
        match r {
            Ok(values) => in_values(items@, true) == Some(texts_view(values@)),
            Err(e) => in_values(items@, true) is None
                && e@ == filter_error_view(field@ + " IN values must be strings"@),
        },
{
    let mut values: Vec<String> = Vec::new();
    let mut i: usize = 0;
    assert(items@.take(0) =~= Seq::<JsonValue>::empty());
    assert(texts_view(values@) =~= Seq::<Seq<char>>::empty());
    while i < items.len()
        invariant
            i <= items@.len(),
            in_values(items@.take(i as int), true) == Some(texts_view(values@)),
        decreases items@.len() - i,
    {
        assert(items@.take(i + 1).drop_last() =~= items@.take(i as int));
        match items[i].as_str() {
            Some(t) => {
                let n = to_lowercase(t);
                let ghost before = values@;
                values.push(n);
                assert(texts_view(values@) =~= texts_view(before).push(n@));
            },
            None => {
                proof {
                    lemma_in_values_prefix_none(items@, i + 1, true);
                }
                return Err(validation_error(&concat(field, " IN values must be strings")));
            },
        }
        i = i + 1;
    }
    assert(items@.take(items@.len() as int) =~= items@);
    Ok(values)
}

/// `sender`: `eq`/`neq`/`in` match the canonical address; `contains` matches the address
/// or the display name. All comparisons ignore case.
pub open spec fn sender_filter(op: FilterOp, value: JsonValue) -> Emission {
    if op == FilterOp::Contains {
        match json_str(value) {
            None => emit_fail("sender"@ + " value must be a string"@),
            Some(t) => emit_ok(
                seq![
                    sql(SENDER_EXISTS_OPEN_SQL@),
                    sql("(LOWER(s_filter.canonical_addr) LIKE '%' || "@),
                    bind_text(lowercase(t)),
                    sql(" || '%' OR LOWER(COALESCE(s_filter.display_name, '')) LIKE '%' || "@),
                    bind_text(lowercase(t)),
                    sql(" || '%')"@),
                    sql(")"@),
                ],
            ),
        }
    } else {
        sender_text_filter("s_filter.canonical_addr"@, "sender"@, op, value)
    }
}

fn push_sender_filter(builder: &mut SqlBuilder, op: &FilterOp, value: &JsonValue) -> (r: Result<(), AppError>)
    ensures
        emitted(old(builder)@, final(builder)@, r, sender_filter(*op, *value)),
{
    match op {
        FilterOp::Contains => {
            let text = match ensure_text(value, "sender") {
                Ok(t) => t,
                Err(err) => {
                    assert(final(builder)@ =~= old(builder)@ + Seq::<PartView>::empty());
                    return Err(err);
                },
            };
            let needle = to_lowercase(text);
            let needle2 = needle.clone();
            builder.push(SENDER_EXISTS_OPEN_SQL);
            builder.push("(LOWER(s_filter.canonical_addr) LIKE '%' || ");
            builder.push_bind(BindValue::Text(needle2));
            builder.push(" || '%' OR LOWER(COALESCE(s_filter.display_name, '')) LIKE '%' || ");
            builder.push_bind(BindValue::Text(needle));
            builder.push(" || '%')");
            builder.push(")");
            assert(final(builder)@ =~= old(builder)@ + sender_filter(*op, *value).0);
            Ok(())
        },
        _ => push_sender_text_filter(builder, "s_filter.canonical_addr", "sender", op, value),
    }
}

/// `sender_domain`: the domain part of the sender's canonical address.
pub open spec fn sender_domain_filter(op: FilterOp, value: JsonValue) -> Emission {
    sender_text_filter("split_part(s_filter.canonical_addr, '@', 2)"@, "sender_domain"@, op, value)
}

fn push_sender_addr_part_filter(builder: &mut SqlBuilder, op: &FilterOp, value: &JsonValue) -> (r: Result<(), AppError>)
    ensures
        emitted(old(builder)@, final(builder)@, r, sender_domain_filter(*op, *value)),
{
    push_sender_text_filter(builder, "split_part(s_filter.canonical_addr, '@', 2)", "sender_domain", op, value)
}

/// A boolean condition on the linked sender: `NOT ` in front when the wanted value is false.
pub open spec fn sender_flag_filter(field: Seq<char>, predicate: Seq<char>, op: FilterOp, value: JsonValue) -> Emission {
    match bool_condition(value, field, op) {
        Err(m) => emit_fail(m),
        Ok(want) => emit_ok(
            (if want { Seq::empty() } else { seq![sql("NOT "@)] })
                + seq![sql(SENDER_EXISTS_OPEN_SQL@), sql(predicate), sql(")"@)],
        ),
    }
}

fn push_sender_flag_filter(
    builder: &mut SqlBuilder,
    field: &str,
    predicate: &str,
    op: &FilterOp,
    value: &JsonValue,
) -> (r: Result<(), AppError>)
    ensures
        emitted(old(builder)@, final(builder)@, r, sender_flag_filter(field@, predicate@, *op, *value)),
{
    let want = ensure_bool(value, field, op)?;
    if !want {
        builder.push("NOT ");
    }
    builder.push(SENDER_EXISTS_OPEN_SQL);
    builder.push(predicate);
    builder.push(")");
    assert(final(builder)@ =~= old(builder)@ + sender_flag_filter(field@, predicate@, *op, *value).0);
    Ok(())
}

/// `has_unsubscribe`: whether the linked sender has an unsubscribe target.
pub open spec fn has_unsubscribe_filter(op: FilterOp, value: JsonValue) -> Emission {
    sender_flag_filter("has_unsubscribe"@, UNSUBSCRIBE_TARGET_EXISTS_SQL@, op, value)
}

fn push_has_unsubscribe_filter(builder: &mut SqlBuilder, op: &FilterOp, value: &JsonValue) -> (r: Result<(), AppError>)
    ensures
        emitted(old(builder)@, final(builder)@, r, has_unsubscribe_filter(*op, *value)),
{
    push_sender_flag_filter(builder, "has_unsubscribe", UNSUBSCRIBE_TARGET_EXISTS_SQL, op, value)
}

/// `sender_blocked`: whether the linked sender is blocked.
pub open spec fn sender_blocked_filter(op: FilterOp, value: JsonValue) -> Emission {
    sender_flag_filter("sender_blocked"@, "s_filter.blocked_at IS NOT NULL"@, op, value)
}

fn push_sender_blocked_filter(builder: &mut SqlBuilder, op: &FilterOp, value: &JsonValue) -> (r: Result<(), AppError>)
    ensures
        emitted(old(builder)@, final(builder)@, r, sender_blocked_filter(*op, *value)),
{
    push_sender_flag_filter(builder, "sender_blocked", "s_filter.blocked_at IS NOT NULL", op, value)
}

/// The emission of one field condition.
pub open spec fn condition_emission(field: Seq<char>, op: FilterOp, value: JsonValue) -> Emission {
    if !is_allowed_filter_field(field) {
        emit_fail("unsupported filter field: "@ + field)
    } else if field == "tag"@ {
        tag_filter(op, value)
    } else if field == "collection"@ {
        collection_filter(op, value)
    } else if field == "is_favorite"@ {
        boolean_filter("le.is_favorite"@, field, op, value)
    } else if field == "item_type"@ {
        text_filter("d.document_type"@, field, op, value, false)
    } else if field == "triage_state"@ {
        text_filter("le.triage_state"@, field, op, value, false)
    } else if field == "domain"@ {
        if op == FilterOp::Contains {
            emit_fail(field + " only supports eq, neq, in"@)
        } else {
            text_filter("d.domain"@, field, op, value, true)
        }
    } else if field == "subject"@ {
        text_filter("d.title"@, field, op, value, true)
    } else if field == "sender"@ {
        sender_filter(op, value)
    } else if field == "sender_domain"@ {
        sender_domain_filter(op, value)
    } else if field == "list_id"@ {
        sender_text_filter("s_filter.list_id"@, field, op, value)
    } else if field == "has_unsubscribe"@ {
        has_unsubscribe_filter(op, value)
    } else if field == "sender_blocked"@ {
        sender_blocked_filter(op, value)
    } else if field == "saved_at"@ {
        timestamp_filter("le.saved_at"@, field, op, value)
    } else {
        timestamp_filter("d.published_at"@, field, op, value)
    }
}

/// Appends the SQL of one field condition.
pub fn push_filter_condition(
    builder: &mut SqlBuilder,
    field: &str,
    op: &FilterOp,
    value: &JsonValue,
) -> (r: Result<(), AppError>)
    ensures
        emitted(old(builder)@, final(builder)@, r, condition_emission(field@, *op, *value)),
{
    if str_eq(field, "tag") {
        push_tag_filter(builder, op, value)
    } else if str_eq(field, "collection") {
        push_collection_filter(builder, op, value)
    } else if str_eq(field, "is_favorite") {
        push_boolean_filter(builder, "le.is_favorite", field, op, value)
    } else if str_eq(field, "item_type") {
        push_text_filter(builder, "d.document_type", field, op, value, false)
    } else if str_eq(field, "triage_state") {
        push_text_filter(builder, "le.triage_state", field, op, value, false)
    } else if str_eq(field, "domain") {
        reject_contains(field, op)?;
        push_text_filter(builder, "d.domain", field, op, value, true)
    } else if str_eq(field, "subject") {
        push_text_filter(builder, "d.title", field, op, value, true)
    } else if str_eq(field, "sender") {
        push_sender_filter(builder, op, value)
    } else if str_eq(field, "sender_domain") {
        push_sender_addr_part_filter(builder, op, value)
    } else if str_eq(field, "list_id") {
        push_sender_text_filter(builder, "s_filter.list_id", field, op, value)
    } else if str_eq(field, "has_unsubscribe") {
        push_has_unsubscribe_filter(builder, op, value)
    } else if str_eq(field, "sender_blocked") {
        push_sender_blocked_filter(builder, op, value)
    } else if str_eq(field, "saved_at") {
        push_timestamp_filter(builder, "le.saved_at", field, op, value)
    } else if str_eq(field, "published_at") {
        push_timestamp_filter(builder, "d.published_at", field, op, value)
    } else {
        assert(old(builder)@ + Seq::<PartView>::empty() =~= old(builder)@);
        Err(validation_error(&concat("unsupported filter field: ", field)))
    }
}

/// `domain` takes `eq`, `neq` and `in` only.
fn reject_contains(field: &str, op: &FilterOp) -> (r: Result<(), AppError>)
    ensures
        match r {
            Ok(_) => *op != FilterOp::Contains,
            Err(e) => *op == FilterOp::Contains && e@ == filter_error_view(field@ + " only supports eq, neq, in"@),
        },
{
    match op {
        FilterOp::Contains => Err(validation_error(&concat(field, " only supports eq, neq, in"))),
        _ => Ok(()),
    }
}

/// The emission of a filter node: `And`/`Or` join their conditions in parentheses
/// (`TRUE`/`FALSE` when empty), `Not` negates in parentheses.
pub open spec fn node_emission(node: FilterNode) -> Emission
    decreases node,
{
    match node {
        FilterNode::And { conditions } => if conditions@.len() == 0 {
            emit_ok(seq![sql("TRUE"@)])
        } else {
            emit_then(
                emit_then(emit_ok(seq![sql("("@)]), list_emission(conditions@, " AND "@)),
                emit_ok(seq![sql(")"@)]),
            )
        },
        FilterNode::Or { conditions } => if conditions@.len() == 0 {
            emit_ok(seq![sql("FALSE"@)])
        } else {
            emit_then(
                emit_then(emit_ok(seq![sql("("@)]), list_emission(conditions@, " OR "@)),
                emit_ok(seq![sql(")"@)]),
            )
        },
        FilterNode::Not { condition } => emit_then(
            emit_then(emit_ok(seq![sql("NOT ("@)]), node_emission(*condition)),
            emit_ok(seq![sql(")"@)]),
        ),
        FilterNode::Condition { field, op, value } => condition_emission(field@, op, value),
    }
}

/// The emission of a list of conditions joined by `sep`, stopping at the first error.
pub open spec fn list_emission(conditions: Seq<FilterNode>, sep: Seq<char>) -> Emission
    decreases conditions,
{
    if conditions.len() == 0 {
        emit_ok(Seq::empty())
    } else {
        emit_then(
            list_emission(conditions.drop_last(), sep),
            emit_then(
                if conditions.len() > 1 { emit_ok(seq![sql(sep)]) } else { emit_ok(Seq::empty()) },
                node_emission(conditions.last()),
            ),
        )
    }
}

proof fn lemma_list_emission_stops(conditions: Seq<FilterNode>, sep: Seq<char>, k: int)
    requires
        0 <= k <= conditions.len(),
        list_emission(conditions.take(k), sep).1 is Some,
    ensures
        list_emission(conditions, sep) == list_emission(conditions.take(k), sep),
    decreases conditions.len() - k,
{
    if k < conditions.len() {
        assert(conditions.take(k + 1).drop_last() =~= conditions.take(k));
        lemma_list_emission_stops(conditions, sep, k + 1);
    } else {
        assert(conditions.take(k) =~= conditions);
    }
}

/// Appends the conditions joined by `sep` (`empty` when there are none), in parentheses.
fn push_joined(
    builder: &mut SqlBuilder,
    conditions: &Vec<FilterNode>,
    empty: &str,
    sep: &str,
    is_and: bool,
    Ghost(node): Ghost<FilterNode>,
) -> (r: Result<(), AppError>)
    requires
        is_and ==> node is And && node->And_conditions == *conditions,
        !is_and ==> node is Or && node->Or_conditions == *conditions,
    ensures
        emitted(
            old(builder)@,
            final(builder)@,
            r,
            if conditions@.len() == 0 {
                emit_ok(seq![sql(empty@)])
            } else {
                emit_then(
                    emit_then(emit_ok(seq![sql("("@)]), list_emission(conditions@, sep@)),
                    emit_ok(seq![sql(")"@)]),
                )
            },
        ),
    decreases node, 0int,
{
    if conditions.len() == 0 {
        builder.push(empty);
        assert(final(builder)@ =~= old(builder)@ + seq![sql(empty@)]);
        return Ok(());
    }
    builder.push("(");
    let ghost start = builder@;
    assert(start =~= old(builder)@ + seq![sql("("@)]);
    let mut index: usize = 0;
    assert(conditions@.take(0) =~= Seq::<FilterNode>::empty());
    while index < conditions.len()
        invariant
            is_and ==> node is And && node->And_conditions == *conditions,
            !is_and ==> node is Or && node->Or_conditions == *conditions,
            conditions@.len() > 0,
            start == old(builder)@ + seq![sql("("@)],
            index <= conditions@.len(),
            builder@ == start + list_emission(conditions@.take(index as int), sep@).0,
            list_emission(conditions@.take(index as int), sep@).1 is None,
        decreases conditions@.len() - index,
    {
        let ghost before = builder@;
        assert(conditions@.take(index + 1).drop_last() =~= conditions@.take(index as int));
        assert(conditions@.take(index + 1).last() == conditions@[index as int]);
        if index > 0 {
            builder.push(sep);
        }
        let ghost mid = builder@;
        let ghost sep_part: Emission = if index > 0 { emit_ok(seq![sql(sep@)]) } else { emit_ok(Seq::empty()) };
        assert(mid =~= before + sep_part.0);
        proof {
            if is_and {
                assert(decreases_to!(node => node->And_conditions));
            } else {
                assert(decreases_to!(node => node->Or_conditions));
            }
            assert(decreases_to!(*conditions => conditions@));
            assert(decreases_to!(conditions@ => conditions@[index as int]));
            assert(decreases_to!(node => conditions@[index as int]));
        }
        let r = push_filter_node(builder, &conditions[index]);
        let ghost child = node_emission(conditions@[index as int]);
        assert(list_emission(conditions@.take(index + 1), sep@)
            == emit_then(list_emission(conditions@.take(index as int), sep@), emit_then(sep_part, child)));
        match r {
            Ok(()) => {},
            Err(err) => {
                proof {
                    lemma_list_emission_stops(conditions@, sep@, index + 1);
                }
                assert(builder@ =~= start + list_emission(conditions@.take(index + 1), sep@).0);
                assert(builder@ =~= old(builder)@ + seq![sql("("@)] + list_emission(conditions@, sep@).0);
                assert(list_emission(conditions@, sep@).1 == Some(err@));
                let ghost whole = emit_then(
                    emit_then(emit_ok(seq![sql("("@)]), list_emission(conditions@, sep@)),
                    emit_ok(seq![sql(")"@)]),
                );
                assert(whole.0 =~= seq![sql("("@)] + list_emission(conditions@, sep@).0);
                assert(builder@ =~= old(builder)@ + whole.0);
                return Err(err);
            },
        }
        assert(builder@ =~= start + list_emission(conditions@.take(index + 1), sep@).0);
        index = index + 1;
    }
    assert(conditions@.take(conditions@.len() as int) =~= conditions@);
    let ghost whole = emit_then(
        emit_then(emit_ok(seq![sql("("@)]), list_emission(conditions@, sep@)),
        emit_ok(seq![sql(")"@)]),
    );
    assert(whole.1 is None);
    builder.push(")");
    assert(whole.0 =~= seq![sql("("@)] + list_emission(conditions@, sep@).0 + seq![sql(")"@)]);
    assert(builder@ =~= old(builder)@ + whole.0);
    assert(final(builder)@ =~= old(builder)@ + seq![sql("("@)] + list_emission(conditions@, sep@).0 + seq![sql(")"@)]);
    Ok(())
}

/// Appends the SQL of a filter node.
pub fn push_filter_node(builder: &mut SqlBuilder, node: &FilterNode) -> (r: Result<(), AppError>)
    ensures
        emitted(old(builder)@, final(builder)@, r, node_emission(*node)),
    decreases node, 1int,
{
    match node {
        FilterNode::And { conditions } => push_joined(builder, conditions, "TRUE", " AND ", true, Ghost(*node)),
        FilterNode::Or { conditions } => push_joined(builder, conditions, "FALSE", " OR ", false, Ghost(*node)),
        FilterNode::Not { condition } => {
            builder.push("NOT (");
            match push_filter_node(builder, condition) {
                Ok(()) => {},
                Err(err) => {
                    assert(final(builder)@ =~= old(builder)@ + node_emission(*node).0);
                    return Err(err);
                },
            }
            builder.push(")");
            assert(final(builder)@ =~= old(builder)@ + node_emission(*node).0);
            Ok(())
        },
        FilterNode::Condition { field, op, value } => push_filter_condition(builder, field.as_str(), op, value),
    }
}

/// The columns a condition compares, as they appear in the SQL text.
pub open spec fn is_filter_column(t: Seq<char>) -> bool {
    ||| t == "le.is_favorite"@
    ||| t == "d.document_type"@
    ||| t == "le.triage_state"@
    ||| t == "LOWER("@ + "d.domain"@ + ")"@
    ||| t == "LOWER("@ + "d.title"@ + ")"@
    ||| t == "le.saved_at"@
    ||| t == "d.published_at"@
}

/// The sender columns compared case-insensitively inside the sender `EXISTS`.
pub open spec fn is_sender_column(c: Seq<char>) -> bool {
    ||| c == "s_filter.canonical_addr"@
    ||| c == "s_filter.list_id"@
    ||| c == "split_part(s_filter.canonical_addr, '@', 2)"@
}

/// The SQL texts a filter is made of: the library's own fragments. None of them is taken
/// from a condition's value; values only ever reach the statement as bound parameters.
pub open spec fn is_filter_fragment(t: Seq<char>) -> bool {
    ||| t == "TRUE"@
    ||| t == "FALSE"@
    ||| t == "("@
    ||| t == ")"@
    ||| t == "))"@
    ||| t == "NOT ("@
    ||| t == "NOT "@
    ||| t == " AND "@
    ||| t == " OR "@
    ||| t == " = "@
    ||| t == " != "@
    ||| t == " LIKE '%' || "@
    ||| t == " || '%'"@
    ||| t == " = ANY("@
    ||| t == " >= "@
    ||| t == " < "@
    ||| t == TAG_EXISTS_SQL@
    ||| t == TAG_NOT_EXISTS_SQL@
    ||| t == COLLECTION_EXISTS_SQL@
    ||| t == SENDER_EXISTS_OPEN_SQL@
    ||| t == UNSUBSCRIBE_TARGET_EXISTS_SQL@
    ||| t == "s_filter.blocked_at IS NOT NULL"@
    ||| t == "(LOWER(s_filter.canonical_addr) LIKE '%' || "@
    ||| t == " || '%' OR LOWER(COALESCE(s_filter.display_name, '')) LIKE '%' || "@
    ||| t == " || '%')"@
    ||| is_filter_column(t)
    ||| exists|c: Seq<char>| is_sender_column(c) && {
        ||| t == "LOWER("@ + c + ") = "@
        ||| t == "LOWER("@ + c + ") != "@
        ||| t == "LOWER("@ + c + ") LIKE '%' || "@
        ||| t == "LOWER("@ + c + ") = ANY("@
    }
}

/// A part that is SQL text is a fragment of the library; a bound parameter may hold anything.
pub open spec fn fragment_part(p: PartView) -> bool {
    match p {
        PartView::Sql(t) => is_filter_fragment(t),
        PartView::Bind(_) => true,
    }
}

/// Every SQL text among the parts is a fragment of the library.
pub open spec fn all_fragments(parts: Seq<PartView>) -> bool {
    forall|i: int| 0 <= i < parts.len() ==> fragment_part(#[trigger] parts[i])
}

proof fn lemma_fragments_concat(a: Seq<PartView>, b: Seq<PartView>)
    requires
        all_fragments(a),
        all_fragments(b),
    ensures
        all_fragments(a + b),
{
    assert forall|i: int| 0 <= i < (a + b).len() implies fragment_part(#[trigger] (a + b)[i]) by {
        if i < a.len() {
            assert((a + b)[i] == a[i]);
        } else {
            assert((a + b)[i] == b[i - a.len()]);
        }
    }
}

proof fn lemma_text_filter_fragments(column: Seq<char>, field: Seq<char>, op: FilterOp, value: JsonValue, case_insensitive: bool)
    requires
        is_filter_column(if case_insensitive { "LOWER("@ + column + ")"@ } else { column }),
    ensures
        all_fragments(text_filter(column, field, op, value, case_insensitive).0),
{
}

proof fn lemma_sender_text_fragments(column: Seq<char>, field: Seq<char>, op: FilterOp, value: JsonValue)
    requires
        is_sender_column(column),
    ensures
        all_fragments(sender_text_filter(column, field, op, value).0),
{
    let e = sender_text_filter(column, field, op, value);
    assert forall|i: int| 0 <= i < e.0.len() implies fragment_part(#[trigger] e.0[i]) by {
        match e.0[i] {
            PartView::Sql(t) => {
                if t != SENDER_EXISTS_OPEN_SQL@ && t != ")"@ && t != " || '%'"@ {
                    assert(is_sender_column(column) && {
                        ||| t == "LOWER("@ + column + ") = "@
                        ||| t == "LOWER("@ + column + ") != "@
                        ||| t == "LOWER("@ + column + ") LIKE '%' || "@
                        ||| t == "LOWER("@ + column + ") = ANY("@
                    });
                }
            },
            PartView::Bind(_) => {},
        }
    }
}

proof fn lemma_condition_fragments(field: Seq<char>, op: FilterOp, value: JsonValue)
    ensures
        all_fragments(condition_emission(field, op, value).0),
{
    if !is_allowed_filter_field(field) {
    } else if field == "tag"@ {
    } else if field == "collection"@ {
    } else if field == "is_favorite"@ {
    } else if field == "item_type"@ {
        lemma_text_filter_fragments("d.document_type"@, field, op, value, false);
    } else if field == "triage_state"@ {
        lemma_text_filter_fragments("le.triage_state"@, field, op, value, false);
    } else if field == "domain"@ {
        lemma_text_filter_fragments("d.domain"@, field, op, value, true);
    } else if field == "subject"@ {
        lemma_text_filter_fragments("d.title"@, field, op, value, true);
    } else if field == "sender"@ {
        lemma_sender_text_fragments("s_filter.canonical_addr"@, "sender"@, op, value);
    } else if field == "sender_domain"@ {
        lemma_sender_text_fragments("split_part(s_filter.canonical_addr, '@', 2)"@, "sender_domain"@, op, value);
    } else if field == "list_id"@ {
        lemma_sender_text_fragments("s_filter.list_id"@, field, op, value);
    } else if field == "has_unsubscribe"@ {
    } else if field == "sender_blocked"@ {
    } else {
    }
}

proof fn lemma_list_fragments(conditions: Seq<FilterNode>, sep: Seq<char>)
    requires
        sep == " AND "@ || sep == " OR "@,
    ensures
        all_fragments(list_emission(conditions, sep).0),
    decreases conditions,
{
    if conditions.len() > 0 {
        assert(decreases_to!(conditions => conditions.drop_last()));
        lemma_list_fragments(conditions.drop_last(), sep);
        assert(decreases_to!(conditions => conditions.last()));
        lemma_filter_sql_is_fragments(conditions.last());
        let head = list_emission(conditions.drop_last(), sep);
        let glue: Emission = if conditions.len() > 1 { emit_ok(seq![sql(sep)]) } else { emit_ok(Seq::empty()) };
        let tail = emit_then(glue, node_emission(conditions.last()));
        lemma_fragments_concat(glue.0, node_emission(conditions.last()).0);
        lemma_fragments_concat(head.0, tail.0);
    }
}

/// Filters are parameterised: whatever the filter and its values, the SQL text it compiles
/// to consists of the library's own fragments, and every value is a bound parameter.
pub proof fn lemma_filter_sql_is_fragments(node: FilterNode)
    ensures
        all_fragments(node_emission(node).0),
    decreases node,
{
    match node {
        FilterNode::And { conditions } => {
            assert(decreases_to!(node => conditions));
            assert(decreases_to!(conditions => conditions@));
            lemma_list_fragments(conditions@, " AND "@);
            lemma_fragments_concat(seq![sql("("@)], list_emission(conditions@, " AND "@).0);
            lemma_fragments_concat(seq![sql("("@)] + list_emission(conditions@, " AND "@).0, seq![sql(")"@)]);
        },
        FilterNode::Or { conditions } => {
            assert(decreases_to!(node => conditions));
            assert(decreases_to!(conditions => conditions@));
            lemma_list_fragments(conditions@, " OR "@);
            lemma_fragments_concat(seq![sql("("@)], list_emission(conditions@, " OR "@).0);
            lemma_fragments_concat(seq![sql("("@)] + list_emission(conditions@, " OR "@).0, seq![sql(")"@)]);
        },
        FilterNode::Not { condition } => {
            lemma_filter_sql_is_fragments(*condition);
            lemma_fragments_concat(seq![sql("NOT ("@)], node_emission(*condition).0);
            lemma_fragments_concat(seq![sql("NOT ("@)] + node_emission(*condition).0, seq![sql(")"@)]);
        },
        FilterNode::Condition { field, op, value } => {
            lemma_condition_fragments(field@, op, value);
        },
    }
}


/// A condition of a filter tree: its field, operator and value.
pub type FilterLeaf = (Seq<char>, FilterOp, JsonValue);

/// The conditions of a filter tree, left to right.
pub open spec fn filter_leaves(node: FilterNode) -> Seq<FilterLeaf>
    decreases node,
{
    match node {
        FilterNode::And { conditions } => leaves_of_list(conditions@),
        FilterNode::Or { conditions } => leaves_of_list(conditions@),
        FilterNode::Not { condition } => filter_leaves(*condition),
        FilterNode::Condition { field, op, value } => seq![(field@, op, value)],
    }
}

/// The conditions of a list of filter trees, left to right.
pub open spec fn leaves_of_list(conditions: Seq<FilterNode>) -> Seq<FilterLeaf>
    decreases conditions,
{
    if conditions.len() == 0 {
        Seq::empty()
    } else {
        leaves_of_list(conditions.drop_last()) + filter_leaves(conditions.last())
    }
}

/// The error with which a single condition is rejected, if it is.
pub open spec fn leaf_rejection(leaf: FilterLeaf) -> Option<ErrorView> {
    condition_emission(leaf.0, leaf.1, leaf.2).1
}

/// The error of the first rejected condition of a sequence, if any is rejected.
pub open spec fn first_rejection(leaves: Seq<FilterLeaf>) -> Option<ErrorView>
    decreases leaves.len(),
{
    if leaves.len() == 0 {
        None
    } else if first_rejection(leaves.drop_last()) is Some {
        first_rejection(leaves.drop_last())
    } else {
        leaf_rejection(leaves.last())
    }
}

proof fn lemma_first_rejection_concat(a: Seq<FilterLeaf>, b: Seq<FilterLeaf>)
    ensures
        first_rejection(a + b) == (if first_rejection(a) is Some { first_rejection(a) } else { first_rejection(b) }),
    decreases b.len(),
{
    if b.len() == 0 {
        assert(a + b =~= a);
    } else {
        assert((a + b).drop_last() =~= a + b.drop_last());
        assert((a + b).last() == b.last());
        lemma_first_rejection_concat(a, b.drop_last());
    }
}

proof fn lemma_first_rejection_is_first(leaves: Seq<FilterLeaf>)
    ensures
        (first_rejection(leaves) is None) <==> (forall|i: int| 0 <= i < leaves.len() ==> #[trigger] leaf_rejection(leaves[i]) is None),
        first_rejection(leaves) is Some ==> exists|i: int| {
            &&& 0 <= i < leaves.len()
            &&& #[trigger] leaf_rejection(leaves[i]) == first_rejection(leaves)
            &&& forall|j: int| 0 <= j < i ==> #[trigger] leaf_rejection(leaves[j]) is None
        },
    decreases leaves.len(),
{
    if leaves.len() > 0 {
        let init = leaves.drop_last();
        lemma_first_rejection_is_first(init);
        assert forall|i: int| 0 <= i < init.len() implies init[i] == leaves[i] by {}
        if first_rejection(init) is Some {
            let i = choose|i: int| {
                &&& 0 <= i < init.len()
                &&& #[trigger] leaf_rejection(init[i]) == first_rejection(init)
                &&& forall|j: int| 0 <= j < i ==> #[trigger] leaf_rejection(init[j]) is None
            };
            assert(leaf_rejection(leaves[i]) == first_rejection(leaves));
            assert forall|j: int| 0 <= j < i implies #[trigger] leaf_rejection(leaves[j]) is None by {
                assert(leaves[j] == init[j]);
            }
        } else {
            let k = leaves.len() - 1;
            assert(leaves[k] == leaves.last());
            if first_rejection(leaves) is Some {
                assert forall|j: int| 0 <= j < k implies #[trigger] leaf_rejection(leaves[j]) is None by {
                    assert(leaves[j] == init[j]);
                }
            } else {
                assert forall|i: int| 0 <= i < leaves.len() implies #[trigger] leaf_rejection(leaves[i]) is None by {
                    if i < k {
                        assert(leaves[i] == init[i]);
                    }
                }
            }
        }
    }
}

proof fn lemma_list_error(conditions: Seq<FilterNode>, sep: Seq<char>)
    ensures
        list_emission(conditions, sep).1 == first_rejection(leaves_of_list(conditions)),
    decreases conditions,
{
    if conditions.len() > 0 {
        assert(decreases_to!(conditions => conditions.drop_last()));
        lemma_list_error(conditions.drop_last(), sep);
        assert(decreases_to!(conditions => conditions.last()));
        lemma_node_error(conditions.last());
        lemma_first_rejection_concat(leaves_of_list(conditions.drop_last()), filter_leaves(conditions.last()));
    }
}

proof fn lemma_node_error(node: FilterNode)
    ensures
        node_emission(node).1 == first_rejection(filter_leaves(node)),
    decreases node,
{
    match node {
        FilterNode::And { conditions } => {
            assert(decreases_to!(node => conditions));
            assert(decreases_to!(conditions => conditions@));
            lemma_list_error(conditions@, " AND "@);
            if conditions@.len() == 0 {
                assert(leaves_of_list(conditions@) =~= Seq::<FilterLeaf>::empty());
                assert(first_rejection(Seq::<FilterLeaf>::empty()) is None);
            }
        },
        FilterNode::Or { conditions } => {
            assert(decreases_to!(node => conditions));
            assert(decreases_to!(conditions => conditions@));
            lemma_list_error(conditions@, " OR "@);
            if conditions@.len() == 0 {
                assert(leaves_of_list(conditions@) =~= Seq::<FilterLeaf>::empty());
                assert(first_rejection(Seq::<FilterLeaf>::empty()) is None);
            }
        },
        FilterNode::Not { condition } => {
            lemma_node_error(*condition);
        },
        FilterNode::Condition { field, op, value } => {
            let leaves = seq![(field@, op, value)];
            assert(leaves.drop_last() =~= Seq::<FilterLeaf>::empty());
        },
    }
}

/// A filter fails exactly when one of its conditions is rejected (an unsupported field, an
/// operator the field does not take, a value of the wrong shape), and then with the error of
/// the first rejected condition from the left; every condition before it is accepted.
pub proof fn lemma_filter_error_is_first_rejection(node: FilterNode)
    ensures
        node_emission(node).1 == first_rejection(filter_leaves(node)),
        (node_emission(node).1 is Some) <==> exists|i: int|
            0 <= i < filter_leaves(node).len() && #[trigger] leaf_rejection(filter_leaves(node)[i]) is Some,
        node_emission(node).1 is Some ==> exists|i: int| {
            &&& 0 <= i < filter_leaves(node).len()
            &&& #[trigger] leaf_rejection(filter_leaves(node)[i]) == node_emission(node).1
            &&& forall|j: int| 0 <= j < i ==> #[trigger] leaf_rejection(filter_leaves(node)[j]) is None
        },
{
    lemma_node_error(node);
    lemma_first_rejection_is_first(filter_leaves(node));
}



/// A sender flag compared with `eq` to `true` selects the entries whose sender has the flag
/// (`has_unsubscribe`: an unsubscribe target exists; `sender_blocked`: the sender is
/// blocked), as the sender `EXISTS` over the flag's predicate; compared to `false` it
/// selects exactly the other entries, the same `EXISTS` negated with `NOT `.
pub proof fn lemma_sender_flag_polarity()
    ensures
        condition_emission("has_unsubscribe"@, FilterOp::Eq, JsonValue::Bool(true))
            == emit_ok(seq![sql(SENDER_EXISTS_OPEN_SQL@), sql(UNSUBSCRIBE_TARGET_EXISTS_SQL@), sql(")"@)]),
        condition_emission("has_unsubscribe"@, FilterOp::Eq, JsonValue::Bool(false))
            == emit_ok(seq![sql("NOT "@)] + condition_emission("has_unsubscribe"@, FilterOp::Eq, JsonValue::Bool(true)).0),
        condition_emission("sender_blocked"@, FilterOp::Eq, JsonValue::Bool(true))
            == emit_ok(seq![sql(SENDER_EXISTS_OPEN_SQL@), sql("s_filter.blocked_at IS NOT NULL"@), sql(")"@)]),
        condition_emission("sender_blocked"@, FilterOp::Eq, JsonValue::Bool(false))
            == emit_ok(seq![sql("NOT "@)] + condition_emission("sender_blocked"@, FilterOp::Eq, JsonValue::Bool(true)).0),
{
    reveal_strlit("tag");
    reveal_strlit("collection");
    reveal_strlit("is_favorite");
    reveal_strlit("item_type");
    reveal_strlit("triage_state");
    reveal_strlit("domain");
    reveal_strlit("subject");
    reveal_strlit("sender");
    reveal_strlit("sender_domain");
    reveal_strlit("list_id");
    reveal_strlit("has_unsubscribe");
    reveal_strlit("sender_blocked");
    assert(bool_condition(JsonValue::Bool(true), "has_unsubscribe"@, FilterOp::Eq) == Ok::<bool, Seq<char>>(true));
    assert(bool_condition(JsonValue::Bool(false), "has_unsubscribe"@, FilterOp::Eq) == Ok::<bool, Seq<char>>(false));
    assert(is_allowed_filter_field("has_unsubscribe"@));
    assert("has_unsubscribe"@.len() != "tag"@.len());
    assert("has_unsubscribe"@.len() != "collection"@.len());
    assert("has_unsubscribe"@.len() != "is_favorite"@.len());
    assert("has_unsubscribe"@.len() != "item_type"@.len());
    assert("has_unsubscribe"@.len() != "triage_state"@.len());
    assert("has_unsubscribe"@.len() != "domain"@.len());
    assert("has_unsubscribe"@.len() != "subject"@.len());
    assert("has_unsubscribe"@.len() != "sender"@.len());
    assert("has_unsubscribe"@.len() != "sender_domain"@.len());
    assert("has_unsubscribe"@.len() != "list_id"@.len());
    assert(seq![sql("NOT "@)] + seq![sql(SENDER_EXISTS_OPEN_SQL@), sql(UNSUBSCRIBE_TARGET_EXISTS_SQL@), sql(")"@)]
        =~= seq![sql("NOT "@), sql(SENDER_EXISTS_OPEN_SQL@), sql(UNSUBSCRIBE_TARGET_EXISTS_SQL@), sql(")"@)]);
    assert(Seq::<PartView>::empty() + seq![sql(SENDER_EXISTS_OPEN_SQL@), sql(UNSUBSCRIBE_TARGET_EXISTS_SQL@), sql(")"@)]
        =~= seq![sql(SENDER_EXISTS_OPEN_SQL@), sql(UNSUBSCRIBE_TARGET_EXISTS_SQL@), sql(")"@)]);
    assert(Seq::<PartView>::empty() + seq![sql(SENDER_EXISTS_OPEN_SQL@), sql("s_filter.blocked_at IS NOT NULL"@), sql(")"@)]
        =~= seq![sql(SENDER_EXISTS_OPEN_SQL@), sql("s_filter.blocked_at IS NOT NULL"@), sql(")"@)]);
}


/// Tags: `eq` (and `contains`) keeps the entries carrying a tag of that name (case-insensitive
/// match in SQL), `neq` exactly the other entries: the same `EXISTS` over the same bound
/// name, negated.
pub proof fn lemma_tag_condition(name: String)
    ensures
        TAG_NOT_EXISTS_SQL@ == "NOT "@ + TAG_EXISTS_SQL@,
        condition_emission("tag"@, FilterOp::Eq, JsonValue::String(name))
            == emit_ok(seq![sql(TAG_EXISTS_SQL@), bind_text(name@), sql("))"@)]),
        condition_emission("tag"@, FilterOp::Contains, JsonValue::String(name))
            == condition_emission("tag"@, FilterOp::Eq, JsonValue::String(name)),
        condition_emission("tag"@, FilterOp::Neq, JsonValue::String(name))
            == emit_ok(seq![sql(TAG_NOT_EXISTS_SQL@), bind_text(name@), sql("))"@)]),
{
    reveal_strlit("tag");
    reveal_strlit("EXISTS (SELECT 1 FROM library_entry_tags let_filter JOIN tags t_filter ON t_filter.id = let_filter.tag_id WHERE let_filter.library_entry_id = le.id AND t_filter.user_id = le.user_id AND LOWER(t_filter.name) = LOWER(");
    reveal_strlit("NOT EXISTS (SELECT 1 FROM library_entry_tags let_filter JOIN tags t_filter ON t_filter.id = let_filter.tag_id WHERE let_filter.library_entry_id = le.id AND t_filter.user_id = le.user_id AND LOWER(t_filter.name) = LOWER(");
    reveal_strlit("NOT ");
    assert(TAG_NOT_EXISTS_SQL@ =~= "NOT "@ + TAG_EXISTS_SQL@);
}

/// `is_favorite` compared with `eq` to a boolean keeps the entries whose flag has that value.
pub proof fn lemma_favorite_condition(b: bool)
    ensures
        condition_emission("is_favorite"@, FilterOp::Eq, JsonValue::Bool(b))
            == emit_ok(seq![sql("le.is_favorite"@), sql(" = "@), PartView::Bind(BindView::Bool(b))]),
{
    reveal_strlit("is_favorite");
    reveal_strlit("tag");
    assert("is_favorite"@.len() != "tag"@.len());
    reveal_strlit("collection");
    assert("is_favorite"@.len() != "collection"@.len());
}

/// `item_type` compares `d.document_type` exactly: the value is bound as given; `eq` keeps the entries equal to the value, `neq` the
/// others, `contains` those holding it.
pub proof fn lemma_item_type_condition(t: String)
    ensures
        condition_emission("item_type"@, FilterOp::Eq, JsonValue::String(t))
            == emit_ok(seq![sql("d.document_type"@), sql(" = "@), bind_text(t@)]),
        condition_emission("item_type"@, FilterOp::Neq, JsonValue::String(t))
            == emit_ok(seq![sql("d.document_type"@), sql(" != "@), bind_text(t@)]),
        condition_emission("item_type"@, FilterOp::Contains, JsonValue::String(t))
            == emit_ok(seq![sql("d.document_type"@), sql(" LIKE '%' || "@), bind_text(t@), sql(" || '%'"@)]),
{
    reveal_strlit("item_type");
    reveal_strlit("tag");
    assert("item_type"@.len() != "tag"@.len());
    reveal_strlit("collection");
    assert("item_type"@.len() != "collection"@.len());
    reveal_strlit("is_favorite");
    assert("item_type"@.len() != "is_favorite"@.len());
}

/// `triage_state` compares `le.triage_state` exactly: the value is bound as given; `eq` keeps the entries equal to the value, `neq` the
/// others, `contains` those holding it.
pub proof fn lemma_triage_state_condition(t: String)
    ensures
        condition_emission("triage_state"@, FilterOp::Eq, JsonValue::String(t))
            == emit_ok(seq![sql("le.triage_state"@), sql(" = "@), bind_text(t@)]),
        condition_emission("triage_state"@, FilterOp::Neq, JsonValue::String(t))
            == emit_ok(seq![sql("le.triage_state"@), sql(" != "@), bind_text(t@)]),
        condition_emission("triage_state"@, FilterOp::Contains, JsonValue::String(t))
            == emit_ok(seq![sql("le.triage_state"@), sql(" LIKE '%' || "@), bind_text(t@), sql(" || '%'"@)]),
{
    reveal_strlit("triage_state");
    reveal_strlit("tag");
    assert("triage_state"@.len() != "tag"@.len());
    reveal_strlit("collection");
    assert("triage_state"@.len() != "collection"@.len());
    reveal_strlit("is_favorite");
    assert("triage_state"@.len() != "is_favorite"@.len());
    reveal_strlit("item_type");
    assert("triage_state"@.len() != "item_type"@.len());
}

/// `domain` compares `d.domain` case-insensitively: the column and the value are both lower-cased; `eq` keeps the entries equal to the value, `neq` the
/// others (substring search is refused).
pub proof fn lemma_domain_condition(t: String)
    ensures
        condition_emission("domain"@, FilterOp::Eq, JsonValue::String(t))
            == emit_ok(seq![sql("LOWER("@ + "d.domain"@ + ")"@), sql(" = "@), bind_text(lowercase(t@))]),
        condition_emission("domain"@, FilterOp::Neq, JsonValue::String(t))
            == emit_ok(seq![sql("LOWER("@ + "d.domain"@ + ")"@), sql(" != "@), bind_text(lowercase(t@))]),
        condition_emission("domain"@, FilterOp::Contains, JsonValue::String(t)).1 is Some,
{
    reveal_strlit("domain");
    reveal_strlit("tag");
    assert("domain"@.len() != "tag"@.len());
    reveal_strlit("collection");
    assert("domain"@.len() != "collection"@.len());
    reveal_strlit("is_favorite");
    assert("domain"@.len() != "is_favorite"@.len());
    reveal_strlit("item_type");
    assert("domain"@.len() != "item_type"@.len());
    reveal_strlit("triage_state");
    assert("domain"@.len() != "triage_state"@.len());
}

/// `subject` compares `d.title` case-insensitively: the column and the value are both lower-cased; `eq` keeps the entries equal to the value, `neq` the
/// others, `contains` those holding it.
pub proof fn lemma_subject_condition(t: String)
    ensures
        condition_emission("subject"@, FilterOp::Eq, JsonValue::String(t))
            == emit_ok(seq![sql("LOWER("@ + "d.title"@ + ")"@), sql(" = "@), bind_text(lowercase(t@))]),
        condition_emission("subject"@, FilterOp::Neq, JsonValue::String(t))
            == emit_ok(seq![sql("LOWER("@ + "d.title"@ + ")"@), sql(" != "@), bind_text(lowercase(t@))]),
        condition_emission("subject"@, FilterOp::Contains, JsonValue::String(t))
            == emit_ok(seq![sql("LOWER("@ + "d.title"@ + ")"@), sql(" LIKE '%' || "@), bind_text(lowercase(t@)), sql(" || '%'"@)]),
{
    reveal_strlit("subject");
    reveal_strlit("tag");
    assert("subject"@.len() != "tag"@.len());
    reveal_strlit("collection");
    assert("subject"@.len() != "collection"@.len());
    reveal_strlit("is_favorite");
    assert("subject"@.len() != "is_favorite"@.len());
    reveal_strlit("item_type");
    assert("subject"@.len() != "item_type"@.len());
    reveal_strlit("triage_state");
    assert("subject"@.len() != "triage_state"@.len());
    reveal_strlit("domain");
    assert("subject"@.len() != "domain"@.len());
}


/// `collection` keeps the entries in the collection whose identifier the value names (with
/// or without its `col_` prefix), for `eq` and `contains` alike; `neq` is refused.
pub proof fn lemma_collection_condition(raw: String)
    ensures
        prefixed_uuid(raw@, "col_"@) matches Some(id) ==> condition_emission("collection"@, FilterOp::Eq, JsonValue::String(raw))
            == emit_ok(seq![sql(COLLECTION_EXISTS_SQL@), PartView::Bind(BindView::Uuid(id)), sql(")"@)]),
        condition_emission("collection"@, FilterOp::Contains, JsonValue::String(raw))
            == condition_emission("collection"@, FilterOp::Eq, JsonValue::String(raw)),
        condition_emission("collection"@, FilterOp::Neq, JsonValue::String(raw)).1 is Some,
{
    reveal_strlit("collection");
    reveal_strlit("tag");
    assert("collection"@.len() != "tag"@.len());
}

/// `saved_at` compares the entry's save time and `published_at` the document's publication
/// time, each by the day of the given instant.
pub proof fn lemma_timestamp_fields(op: FilterOp, value: JsonValue)
    ensures
        condition_emission("saved_at"@, op, value) == timestamp_filter("le.saved_at"@, "saved_at"@, op, value),
        condition_emission("published_at"@, op, value) == timestamp_filter("d.published_at"@, "published_at"@, op, value),
{
    reveal_strlit("published_at");
    reveal_strlit("tag");
    assert("published_at"@.len() != "tag"@.len());
    reveal_strlit("collection");
    assert("published_at"@.len() != "collection"@.len());
    reveal_strlit("is_favorite");
    assert("published_at"@.len() != "is_favorite"@.len());
    reveal_strlit("item_type");
    assert("published_at"@.len() != "item_type"@.len());
    reveal_strlit("triage_state");
    assert("published_at"@[0] != "triage_state"@[0]);
    reveal_strlit("domain");
    assert("published_at"@.len() != "domain"@.len());
    reveal_strlit("subject");
    assert("published_at"@.len() != "subject"@.len());
    reveal_strlit("sender");
    assert("published_at"@.len() != "sender"@.len());
    reveal_strlit("sender_domain");
    assert("published_at"@.len() != "sender_domain"@.len());
    reveal_strlit("list_id");
    assert("published_at"@.len() != "list_id"@.len());
    reveal_strlit("has_unsubscribe");
    assert("published_at"@.len() != "has_unsubscribe"@.len());
    reveal_strlit("sender_blocked");
    assert("published_at"@.len() != "sender_blocked"@.len());
    reveal_strlit("saved_at");
    assert("published_at"@.len() != "saved_at"@.len());
    assert("saved_at"@.len() != "tag"@.len());
    assert("saved_at"@.len() != "collection"@.len());
    assert("saved_at"@.len() != "is_favorite"@.len());
    assert("saved_at"@.len() != "item_type"@.len());
    assert("saved_at"@.len() != "triage_state"@.len());
    assert("saved_at"@.len() != "domain"@.len());
    assert("saved_at"@.len() != "subject"@.len());
    assert("saved_at"@.len() != "sender"@.len());
    assert("saved_at"@.len() != "sender_domain"@.len());
    assert("saved_at"@.len() != "list_id"@.len());
    assert("saved_at"@.len() != "has_unsubscribe"@.len());
    assert("saved_at"@.len() != "sender_blocked"@.len());
}


/// `sender_domain` compares the linked sender's `split_part(s_filter.canonical_addr, '@', 2)` case-insensitively, inside the sender
/// `EXISTS`: `eq` keeps the entries whose sender matches the value, `neq` those whose sender
/// differs from it, `contains` those whose sender holds it.
pub proof fn lemma_sender_domain_condition(t: String)
    ensures
        condition_emission("sender_domain"@, FilterOp::Eq, JsonValue::String(t)) == emit_ok(
            seq![sql(SENDER_EXISTS_OPEN_SQL@), sql("LOWER("@ + "split_part(s_filter.canonical_addr, '@', 2)"@ + ") = "@), bind_text(lowercase(t@)), sql(")"@)],
        ),
        condition_emission("sender_domain"@, FilterOp::Neq, JsonValue::String(t)) == emit_ok(
            seq![sql(SENDER_EXISTS_OPEN_SQL@), sql("LOWER("@ + "split_part(s_filter.canonical_addr, '@', 2)"@ + ") != "@), bind_text(lowercase(t@)), sql(")"@)],
        ),
        condition_emission("sender_domain"@, FilterOp::Contains, JsonValue::String(t)) == emit_ok(
            seq![
                sql(SENDER_EXISTS_OPEN_SQL@),
                sql("LOWER("@ + "split_part(s_filter.canonical_addr, '@', 2)"@ + ") LIKE '%' || "@),
                bind_text(lowercase(t@)),
                sql(" || '%'"@),
                sql(")"@),
            ],
        ),
{
    reveal_strlit("sender_domain");
    reveal_strlit("tag");
    assert("sender_domain"@.len() != "tag"@.len());
    reveal_strlit("collection");
    assert("sender_domain"@.len() != "collection"@.len());
    reveal_strlit("is_favorite");
    assert("sender_domain"@.len() != "is_favorite"@.len());
    reveal_strlit("item_type");
    assert("sender_domain"@.len() != "item_type"@.len());
    reveal_strlit("triage_state");
    assert("sender_domain"@.len() != "triage_state"@.len());
    reveal_strlit("domain");
    assert("sender_domain"@.len() != "domain"@.len());
    reveal_strlit("subject");
    assert("sender_domain"@.len() != "subject"@.len());
    reveal_strlit("sender");
    assert("sender_domain"@.len() != "sender"@.len());
    let open = seq![sql(SENDER_EXISTS_OPEN_SQL@)];
    assert(open + seq![sql("LOWER("@ + "split_part(s_filter.canonical_addr, '@', 2)"@ + ") = "@), bind_text(lowercase(t@)), sql(")"@)]
        =~= seq![sql(SENDER_EXISTS_OPEN_SQL@), sql("LOWER("@ + "split_part(s_filter.canonical_addr, '@', 2)"@ + ") = "@), bind_text(lowercase(t@)), sql(")"@)]);
    assert(open + seq![sql("LOWER("@ + "split_part(s_filter.canonical_addr, '@', 2)"@ + ") != "@), bind_text(lowercase(t@)), sql(")"@)]
        =~= seq![sql(SENDER_EXISTS_OPEN_SQL@), sql("LOWER("@ + "split_part(s_filter.canonical_addr, '@', 2)"@ + ") != "@), bind_text(lowercase(t@)), sql(")"@)]);
    assert(open + seq![sql("LOWER("@ + "split_part(s_filter.canonical_addr, '@', 2)"@ + ") LIKE '%' || "@), bind_text(lowercase(t@)), sql(" || '%'"@), sql(")"@)]
        =~= seq![sql(SENDER_EXISTS_OPEN_SQL@), sql("LOWER("@ + "split_part(s_filter.canonical_addr, '@', 2)"@ + ") LIKE '%' || "@), bind_text(lowercase(t@)), sql(" || '%'"@), sql(")"@)]);
}

/// `list_id` compares the linked sender's `s_filter.list_id` case-insensitively, inside the sender
/// `EXISTS`: `eq` keeps the entries whose sender matches the value, `neq` those whose sender
/// differs from it, `contains` those whose sender holds it.
pub proof fn lemma_list_id_condition(t: String)
    ensures
        condition_emission("list_id"@, FilterOp::Eq, JsonValue::String(t)) == emit_ok(
            seq![sql(SENDER_EXISTS_OPEN_SQL@), sql("LOWER("@ + "s_filter.list_id"@ + ") = "@), bind_text(lowercase(t@)), sql(")"@)],
        ),
        condition_emission("list_id"@, FilterOp::Neq, JsonValue::String(t)) == emit_ok(
            seq![sql(SENDER_EXISTS_OPEN_SQL@), sql("LOWER("@ + "s_filter.list_id"@ + ") != "@), bind_text(lowercase(t@)), sql(")"@)],
        ),
        condition_emission("list_id"@, FilterOp::Contains, JsonValue::String(t)) == emit_ok(
            seq![
                sql(SENDER_EXISTS_OPEN_SQL@),
                sql("LOWER("@ + "s_filter.list_id"@ + ") LIKE '%' || "@),
                bind_text(lowercase(t@)),
                sql(" || '%'"@),
                sql(")"@),
            ],
        ),
{
    reveal_strlit("list_id");
    reveal_strlit("tag");
    assert("list_id"@.len() != "tag"@.len());
    reveal_strlit("collection");
    assert("list_id"@.len() != "collection"@.len());
    reveal_strlit("is_favorite");
    assert("list_id"@.len() != "is_favorite"@.len());
    reveal_strlit("item_type");
    assert("list_id"@.len() != "item_type"@.len());
    reveal_strlit("triage_state");
    assert("list_id"@.len() != "triage_state"@.len());
    reveal_strlit("domain");
    assert("list_id"@.len() != "domain"@.len());
    reveal_strlit("subject");
    assert("list_id"@[0] != "subject"@[0]);
    reveal_strlit("sender");
    assert("list_id"@.len() != "sender"@.len());
    reveal_strlit("sender_domain");
    assert("list_id"@.len() != "sender_domain"@.len());
    let open = seq![sql(SENDER_EXISTS_OPEN_SQL@)];
    assert(open + seq![sql("LOWER("@ + "s_filter.list_id"@ + ") = "@), bind_text(lowercase(t@)), sql(")"@)]
        =~= seq![sql(SENDER_EXISTS_OPEN_SQL@), sql("LOWER("@ + "s_filter.list_id"@ + ") = "@), bind_text(lowercase(t@)), sql(")"@)]);
    assert(open + seq![sql("LOWER("@ + "s_filter.list_id"@ + ") != "@), bind_text(lowercase(t@)), sql(")"@)]
        =~= seq![sql(SENDER_EXISTS_OPEN_SQL@), sql("LOWER("@ + "s_filter.list_id"@ + ") != "@), bind_text(lowercase(t@)), sql(")"@)]);
    assert(open + seq![sql("LOWER("@ + "s_filter.list_id"@ + ") LIKE '%' || "@), bind_text(lowercase(t@)), sql(" || '%'"@), sql(")"@)]
        =~= seq![sql(SENDER_EXISTS_OPEN_SQL@), sql("LOWER("@ + "s_filter.list_id"@ + ") LIKE '%' || "@), bind_text(lowercase(t@)), sql(" || '%'"@), sql(")"@)]);
}

} // verus!
