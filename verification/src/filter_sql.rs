//! Column-parameterised SQL fragments for the Library smart-list filter language.
//!
//! Every emitter appends to a [`SqlBuilder`] and may fail with a validation error. Its
//! specification is an [`Emission`]: the parts it appends, and the error it stops with,
//! if any. On an error the parts appended before it stay in the builder, as they do in a
//! query builder; callers discard the builder then.

use vstd::prelude::*;
use crate::error::{AppError, ErrorView, invariant_violation};
use crate::json::{JsonValue, json_array, json_bool, json_str};
use crate::outside::{next_utc_day, parse_utc_timestamp, parse_uuid, parsed_utc_timestamp, parsed_uuid, utc_next_day};
use crate::sql::{BindValue, BindView, PartView, SqlBuilder, Timestamp, bind_text, sql, texts_view};
use crate::text::{concat, concat3, lowercase, strip_prefix_or_self, strip_prefix_or_self_exec, to_lowercase};

verus! {

/// A comparison operator of the filter language.
#[derive(Clone, Copy, PartialEq, Eq, Structural, Debug)]
pub enum FilterOp {
    Eq,
    Neq,
    Contains,
    In,
    Gt,
    Lt,
    Gte,
    Lte,
}

/// The parts an emitter appends, and the error it stops with (`None` when it succeeds).
pub type Emission = (Seq<PartView>, Option<ErrorView>);

/// A successful emission of `parts`.
pub open spec fn emit_ok(parts: Seq<PartView>) -> Emission {
    (parts, None)
}

/// A validation failure of the filter expression, appending nothing.
pub open spec fn emit_fail(message: Seq<char>) -> Emission {
    (Seq::empty(), Some(filter_error_view(message)))
}

/// The emission of `a` followed, when `a` succeeded, by that of `b`.
pub open spec fn emit_then(a: Emission, b: Emission) -> Emission {
    if a.1 is Some {
        a
    } else {
        (a.0 + b.0, b.1)
    }
}

/// The builder went from `before` to `after` and the call returned `r`, as `e` describes.
pub open spec fn emitted(
    before: Seq<PartView>,
    after: Seq<PartView>,
    r: Result<(), AppError>,
    e: Emission,
) -> bool {
    &&& after == before + e.0
    &&& match r {
        Ok(_) => e.1 is None,
        Err(err) => e.1 == Some(err@),
    }
}

/// The validation error for the `filter_expression` field with the given message.
pub open spec fn filter_error_view(message: Seq<char>) -> ErrorView {
    ErrorView::Validation { field: "filter_expression"@, message }
}

/// A validation error on the filter expression.
pub fn validation_error(message: &str) -> (e: AppError)
    ensures
        e@ == filter_error_view(message@),
{
    AppError::Validation { field: "filter_expression".to_string(), message: message.to_string() }
}

/// The text compared against a column: lower-cased when the comparison ignores case.
pub open spec fn normalized(value: Seq<char>, case_insensitive: bool) -> Seq<char> {
    if case_insensitive {
        lowercase(value)
    } else {
        value
    }
}

/// Lower-cases the text when the comparison ignores case; otherwise copies it.
pub fn normalize_text_value(value: &str, case_insensitive: bool) -> (r: String)
    ensures
        r@ == normalized(value@, case_insensitive),
{
    if case_insensitive {
        to_lowercase(value)
    } else {
        value.to_string()
    }
}

/// A case-sensitive comparison takes the text as it is, so normalising it again changes
/// nothing; a case-insensitive one takes the Unicode lower-casing of the text.
pub proof fn lemma_normalized_text(value: Seq<char>)
    ensures
        normalized(value, false) == value,
        normalized(normalized(value, false), false) == normalized(value, false),
        normalized(value, true) == lowercase(value),
{
}

/// `eq` on a boolean column.
pub open spec fn boolean_filter(
    column: Seq<char>,
    field: Seq<char>,
    op: FilterOp,
    value: JsonValue,
) -> Emission {
    if op != FilterOp::Eq {
        emit_fail(field + " only supports eq"@)
    } else {
        match json_bool(value) {
            None => emit_fail(field + " value must be boolean"@),
            Some(b) => emit_ok(seq![sql(column), sql(" = "@), PartView::Bind(BindView::Bool(b))]),
        }
    }
}

/// Appends `column = <bool>`; only `eq` with a boolean value is accepted.
pub fn push_boolean_filter(
    builder: &mut SqlBuilder,
    column: &str,
    field: &str,
    op: &FilterOp,
    value: &JsonValue,
) -> (r: Result<(), AppError>)
    ensures
        emitted(old(builder)@, final(builder)@, r, boolean_filter(column@, field@, *op, *value)),
{
    match op {
        FilterOp::Eq => {},
        _ => {
            return Err(validation_error(&concat(field, " only supports eq")));
        },
    }
    let parsed = match value.as_bool() {
        Some(b) => b,
        None => {
            return Err(validation_error(&concat(field, " value must be boolean")));
        },
    };
    builder.push(column);
    builder.push(" = ");
    builder.push_bind(BindValue::Bool(parsed));
    proof {
        assert(final(builder)@ =~= old(builder)@ + boolean_filter(column@, field@, *op, *value).0);
    }
    Ok(())
}

/// The texts of the elements of an `in` list, each normalized; `None` if one is not a string.
pub open spec fn in_values(items: Seq<JsonValue>, case_insensitive: bool) -> Option<Seq<Seq<char>>>
    decreases items.len(),
{
    if items.len() == 0 {
        Some(Seq::empty())
    } else {
        match (in_values(items.drop_last(), case_insensitive), json_str(items.last())) {
            (Some(prefix), Some(t)) => Some(prefix.push(normalized(t, case_insensitive))),
            _ => None,
        }
    }
}

proof fn lemma_in_values_prefix(items: Seq<JsonValue>, k: int, case_insensitive: bool)
    requires
        0 <= k <= items.len(),
        in_values(items.take(k), case_insensitive) is None,
    ensures
        in_values(items, case_insensitive) is None,
    decreases items.len() - k,
{
    if k < items.len() {
        assert(items.take(k + 1).drop_last() =~= items.take(k));
        lemma_in_values_prefix(items, k + 1, case_insensitive);
    } else {
        assert(items.take(k) =~= items);
    }
}

/// Collects the texts of an `in` list, normalized; fails on an element that is not a string.
fn collect_in_values(items: &Vec<JsonValue>, field: &str, case_insensitive: bool) -> (r: Result<Vec<String>, AppError>)
    ensures
        match r {
            Ok(values) => in_values(items@, case_insensitive) == Some(texts_view(values@)),
            Err(e) => in_values(items@, case_insensitive) is None
                && e@ == filter_error_view(field@ + " IN values must be strings"@),
        },
{
    let mut values: Vec<String> = Vec::new();
    let mut i: usize = 0;
    assert(items@.take(0) =~= Seq::<JsonValue>::empty());
    assert(texts_view(values@) =~= Seq::<Seq<char>>::empty());
    while i < items.len()
        invariant
            i <= items@.len(),
            in_values(items@.take(i as int), case_insensitive) == Some(texts_view(values@)),
        decreases items@.len() - i,
    {
        assert(items@.take(i + 1).drop_last() =~= items@.take(i as int));
        match items[i].as_str() {
            Some(t) => {
                let n = normalize_text_value(t, case_insensitive);
                let ghost before = values@;
                values.push(n);
                assert(texts_view(values@) =~= texts_view(before).push(n@));
            },
            None => {
                proof {
                    lemma_in_values_prefix(items@, i + 1, case_insensitive);
                }
                return Err(validation_error(&concat(field, " IN values must be strings")));
            },
        }
        i = i + 1;
    }
    assert(items@.take(items@.len() as int) =~= items@);
    Ok(values)
}

/// The column as compared: wrapped in `LOWER(..)` when the comparison ignores case.
pub open spec fn compared_column(column: Seq<char>, case_insensitive: bool) -> Seq<char> {
    if case_insensitive {
        "LOWER("@ + column + ")"@
    } else {
        column
    }
}

/// The single-text comparison for `eq`, `neq` and `contains`.
pub open spec fn text_comparison(col: Seq<char>, op: FilterOp, text: Seq<char>) -> Seq<PartView> {
    match op {
        FilterOp::Eq => seq![sql(col), sql(" = "@), bind_text(text)],
        FilterOp::Neq => seq![sql(col), sql(" != "@), bind_text(text)],
        _ => seq![sql(col), sql(" LIKE '%' || "@), bind_text(text), sql(" || '%'"@)],
    }
}

/// Text comparison on a column: `eq`, `neq`, `contains` (substring) and `in`.
pub open spec fn text_filter(
    column: Seq<char>,
    field: Seq<char>,
    op: FilterOp,
    value: JsonValue,
    case_insensitive: bool,
) -> Emission {
    let col = compared_column(column, case_insensitive);
    match op {
        FilterOp::Eq | FilterOp::Neq | FilterOp::Contains => match json_str(value) {
            None => emit_fail(field + " value must be a string"@),
            Some(t) => emit_ok(text_comparison(col, op, normalized(t, case_insensitive))),
        },
        FilterOp::In => match json_array(value) {
            None => emit_fail(field + " IN value must be an array"@),
            Some(items) => match in_values(items, case_insensitive) {
                None => emit_fail(field + " IN values must be strings"@),
                Some(values) => emit_ok(
                    seq![
                        sql(col),
                        sql(" = ANY("@),
                        PartView::Bind(BindView::TextList(values)),
                        sql(")"@),
                    ],
                ),
            },
        },
        _ => emit_fail(field + " only supports eq, neq, contains, in"@),
    }
}

/// Appends a text comparison on `column`; with `case_insensitive` both sides are lower-cased.
pub fn push_text_filter(
    builder: &mut SqlBuilder,
    column: &str,
    field: &str,
    op: &FilterOp,
    value: &JsonValue,
    case_insensitive: bool,
) -> (r: Result<(), AppError>)
    ensures
        emitted(
            old(builder)@,
            final(builder)@,
            r,
            text_filter(column@, field@, *op, *value, case_insensitive),
        ),
{
    let sql_column = if case_insensitive {
        concat3("LOWER(", column, ")")
    } else {
        column.to_string()
    };
    let ghost e = text_filter(column@, field@, *op, *value, case_insensitive);
    match op {
        FilterOp::Eq | FilterOp::Neq | FilterOp::Contains => {
            let parsed = match value.as_str() {
                Some(t) => t,
                None => {
                    return Err(validation_error(&concat(field, " value must be a string")));
                },
            };
            let normalized = normalize_text_value(parsed, case_insensitive);
            builder.push(sql_column.as_str());
            match op {
                FilterOp::Eq => {
                    builder.push(" = ");
                    builder.push_bind(BindValue::Text(normalized));
                },
                FilterOp::Neq => {
                    builder.push(" != ");
                    builder.push_bind(BindValue::Text(normalized));
                },
                _ => {
                    builder.push(" LIKE '%' || ");
                    builder.push_bind(BindValue::Text(normalized));
                    builder.push(" || '%'");
                },
            }
            assert(final(builder)@ =~= old(builder)@ + e.0);
            Ok(())
        },
        FilterOp::In => {
            let items = match value.as_array() {
                Some(items) => items,
                None => {
                    return Err(validation_error(&concat(field, " IN value must be an array")));
                },
            };
            let values = collect_in_values(items, field, case_insensitive)?;
            builder.push(sql_column.as_str());
            builder.push(" = ANY(");
            builder.push_bind(BindValue::TextList(values));
            builder.push(")");
            assert(final(builder)@ =~= old(builder)@ + e.0);
            Ok(())
        },
        _ => Err(validation_error(&concat(field, " only supports eq, neq, contains, in"))),
    }
}

/// Comparison of a timestamp column with the day that starts at the given instant:
/// `eq` is the day itself, `gt` after it, `lt` before the instant, `gte` from the
/// instant on, `lte` up to the end of the day.
pub open spec fn timestamp_comparison(
    column: Seq<char>,
    op: FilterOp,
    at: Timestamp,
    next_day: Timestamp,
    field: Seq<char>,
) -> Emission {
    let ts = PartView::Bind(BindView::Timestamp(at));
    let next = PartView::Bind(BindView::Timestamp(next_day));
    match op {
        FilterOp::Eq => emit_ok(
            seq![
                sql("("@),
                sql(column),
                sql(" >= "@),
                ts,
                sql(" AND "@),
                sql(column),
                sql(" < "@),
                next,
                sql(")"@),
            ],
        ),
        FilterOp::Gt => emit_ok(seq![sql(column), sql(" >= "@), next]),
        FilterOp::Lt => emit_ok(seq![sql(column), sql(" < "@), ts]),
        FilterOp::Gte => emit_ok(seq![sql(column), sql(" >= "@), ts]),
        FilterOp::Lte => emit_ok(seq![sql(column), sql(" < "@), next]),
        _ => emit_fail(field + " does not support this operator"@),
    }
}

/// The error for a timestamp whose next day chrono cannot represent (a date at the very end
/// of chrono's calendar). A query builder adding the day there panics; this library reports
/// it as an invariant violation instead, which the caller can turn into that panic.
pub open spec fn day_overflow_view(field: Seq<char>) -> ErrorView {
    ErrorView::InvariantViolation { message: field + " day bound overflows the calendar"@ }
}

/// Timestamp comparison: the value must be a string that chrono reads as a UTC instant.
pub open spec fn timestamp_filter(
    column: Seq<char>,
    field: Seq<char>,
    op: FilterOp,
    value: JsonValue,
) -> Emission {
    match json_str(value) {
        None => emit_fail(field + " value must be an ISO 8601 string"@),
        Some(text) => match parsed_utc_timestamp(text) {
            None => emit_fail(field + " value is not a valid timestamp"@),
            Some(at) => match utc_next_day(at) {
                None => (Seq::empty(), Some(day_overflow_view(field))),
                Some(next_day) => timestamp_comparison(column, op, at, next_day, field),
            },
        },
    }
}

/// The comparisons of a timestamp column with the day that starts at `at` and ends before
/// `next_day`: `gte` keeps the rows from `at` on and `lt` exactly the others; `gt` keeps the
/// rows from the next day on and `lte` exactly the others; `eq` keeps the rows of the day
/// itself, those that pass both `gte` and `lte`; no other operator is taken.
pub proof fn lemma_timestamp_day_comparisons(column: Seq<char>, at: Timestamp, next_day: Timestamp, field: Seq<char>)
    ensures
        timestamp_comparison(column, FilterOp::Gte, at, next_day, field)
            == emit_ok(seq![sql(column), sql(" >= "@), PartView::Bind(BindView::Timestamp(at))]),
        timestamp_comparison(column, FilterOp::Lt, at, next_day, field)
            == emit_ok(seq![sql(column), sql(" < "@), PartView::Bind(BindView::Timestamp(at))]),
        timestamp_comparison(column, FilterOp::Gt, at, next_day, field)
            == emit_ok(seq![sql(column), sql(" >= "@), PartView::Bind(BindView::Timestamp(next_day))]),
        timestamp_comparison(column, FilterOp::Lte, at, next_day, field)
            == emit_ok(seq![sql(column), sql(" < "@), PartView::Bind(BindView::Timestamp(next_day))]),
        timestamp_comparison(column, FilterOp::Eq, at, next_day, field) == emit_ok(
            seq![sql("("@)] + timestamp_comparison(column, FilterOp::Gte, at, next_day, field).0
                + seq![sql(" AND "@)] + timestamp_comparison(column, FilterOp::Lte, at, next_day, field).0
                + seq![sql(")"@)],
        ),
        timestamp_comparison(column, FilterOp::Neq, at, next_day, field).1 is Some,
        timestamp_comparison(column, FilterOp::Contains, at, next_day, field).1 is Some,
        timestamp_comparison(column, FilterOp::In, at, next_day, field).1 is Some,
{
    assert(seq![sql("("@)] + timestamp_comparison(column, FilterOp::Gte, at, next_day, field).0
        + seq![sql(" AND "@)] + timestamp_comparison(column, FilterOp::Lte, at, next_day, field).0
        + seq![sql(")"@)] =~= timestamp_comparison(column, FilterOp::Eq, at, next_day, field).0);
}

/// Appends a comparison of a timestamp column with the day of the given instant.
pub fn push_timestamp_filter(
    builder: &mut SqlBuilder,
    column: &str,
    field: &str,
    op: &FilterOp,
    value: &JsonValue,
) -> (r: Result<(), AppError>)
    ensures
        emitted(old(builder)@, final(builder)@, r, timestamp_filter(column@, field@, *op, *value)),
{
    let text = match value.as_str() {
        Some(t) => t,
        None => {
            return Err(validation_error(&concat(field, " value must be an ISO 8601 string")));
        },
    };
    let timestamp = match parse_utc_timestamp(text) {
        Some(at) => at,
        None => {
            return Err(validation_error(&concat(field, " value is not a valid timestamp")));
        },
    };
    let next_day = match next_utc_day(timestamp) {
        Some(n) => n,
        None => {
            return Err(invariant_violation(concat(field, " day bound overflows the calendar")));
        },
    };
    let ghost e = timestamp_filter(column@, field@, *op, *value);
    match op {
        FilterOp::Eq => {
            builder.push("(");
            builder.push(column);
            builder.push(" >= ");
            builder.push_bind(BindValue::Timestamp(timestamp));
            builder.push(" AND ");
            builder.push(column);
            builder.push(" < ");
            builder.push_bind(BindValue::Timestamp(next_day));
            builder.push(")");
        },
        FilterOp::Gt => {
            builder.push(column);
            builder.push(" >= ");
            builder.push_bind(BindValue::Timestamp(next_day));
        },
        FilterOp::Lt => {
            builder.push(column);
            builder.push(" < ");
            builder.push_bind(BindValue::Timestamp(timestamp));
        },
        FilterOp::Gte => {
            builder.push(column);
            builder.push(" >= ");
            builder.push_bind(BindValue::Timestamp(timestamp));
        },
        FilterOp::Lte => {
            builder.push(column);
            builder.push(" < ");
            builder.push_bind(BindValue::Timestamp(next_day));
        },
        _ => {
            return Err(validation_error(&concat(field, " does not support this operator")));
        },
    }
    assert(final(builder)@ =~= old(builder)@ + e.0);
    Ok(())
}

/// The UUID a prefixed identifier denotes: the prefix is dropped when present.
pub open spec fn prefixed_uuid(value: Seq<char>, prefix: Seq<char>) -> Option<u128> {
    parsed_uuid(strip_prefix_or_self(value, prefix))
}

/// Parses an identifier such as `col_<uuid>`, with or without its prefix.
pub fn parse_prefixed_uuid(value: &str, prefix: &str) -> (r: Option<u128>)
    ensures
        r == prefixed_uuid(value@, prefix@),
{
    let bare = strip_prefix_or_self_exec(value, prefix);
    parse_uuid(bare.as_str())
}

} // verus!
