//! The list query over saved Library content (`library_entries` joined with `documents`).

use vstd::prelude::*;
use crate::error::AppError;
use crate::filter_sql::{Emission, emit_ok, emit_then, emitted};
use crate::library_filters::{FilterNode, is_filter_fragment, lemma_filter_sql_is_fragments, node_emission, push_filter_node};
use crate::sql::{BindValue, BindView, PartView, SqlBuilder, Timestamp, sql};

verus! {

/// The column projection of a Library entry with its document: `le.*`, then `d.*` under
/// `doc_` aliases.
pub const LIBRARY_DOC_COLUMNS: &'static str = "le.id, le.user_id, le.document_id, le.saved_at, le.triage_state, le.is_favorite, le.is_shortlisted, le.deleted_at, le.source, le.source_delivery_id, le.created_at, le.updated_at, d.document_type AS doc_document_type, d.canonical_url AS doc_canonical_url, d.original_url AS doc_original_url, d.content_hash AS doc_content_hash, d.title AS doc_title, d.author AS doc_author, d.excerpt AS doc_excerpt, d.published_at AS doc_published_at, d.language AS doc_language, d.domain AS doc_domain, d.lead_image_url AS doc_lead_image_url, d.thumbnail_url AS doc_thumbnail_url, d.word_count AS doc_word_count, d.reading_time_minutes AS doc_reading_time_minutes, d.created_at AS doc_created_at, d.updated_at AS doc_updated_at";

/// The join of an entry with its own document, restricted to one user.
pub const LIBRARY_FROM_SQL: &'static str = " FROM library_entries le JOIN documents d ON d.id = le.document_id AND d.user_id = le.user_id WHERE le.user_id = ";

/// Inputs of a Library list query; `trashed_only` reads the Trash instead of the Library.
pub struct LibraryListFilter {
    pub filter_expression: Option<FilterNode>,
    pub trashed_only: bool,
}

/// The statement that lists one page of Library entries, newest saved first: the
/// user's entries, live or trashed, matching the filter, before the cursor
/// `(saved_at, id)`, with `fetch_limit` rows at most.
pub open spec fn library_query_emission(
    user_id: u128,
    trashed_only: bool,
    filter: Option<FilterNode>,
    cursor: Option<(Timestamp, u128)>,
    fetch_limit: i64,
) -> Emission {
    let head = seq![
        sql("SELECT "@),
        sql(LIBRARY_DOC_COLUMNS@),
        sql(LIBRARY_FROM_SQL@),
        PartView::Bind(BindView::Uuid(user_id)),
        sql(if trashed_only { " AND le.deleted_at IS NOT NULL"@ } else { " AND le.deleted_at IS NULL"@ }),
    ];
    let filtered = match filter {
        Some(node) => emit_then(emit_ok(seq![sql(" AND "@)]), node_emission(node)),
        None => emit_ok(Seq::empty()),
    };
    let after_cursor = match cursor {
        Some((at, id)) => seq![
            sql(" AND (le.saved_at, le.id) < ("@),
            PartView::Bind(BindView::Timestamp(at)),
            sql(", "@),
            PartView::Bind(BindView::Uuid(id)),
            sql(")"@),
        ],
        None => Seq::empty(),
    };
    let tail = after_cursor + seq![
        sql(" ORDER BY le.saved_at DESC, le.id DESC LIMIT "@),
        PartView::Bind(BindView::Int(fetch_limit)),
    ];
    emit_then(emit_then(emit_ok(head), filtered), emit_ok(tail))
}

/// The SQL texts of the Library list statement outside its filter.
pub open spec fn is_query_fragment(t: Seq<char>) -> bool {
    ||| t == "SELECT "@
    ||| t == LIBRARY_DOC_COLUMNS@
    ||| t == LIBRARY_FROM_SQL@
    ||| t == " AND le.deleted_at IS NOT NULL"@
    ||| t == " AND le.deleted_at IS NULL"@
    ||| t == " AND "@
    ||| t == " AND (le.saved_at, le.id) < ("@
    ||| t == ", "@
    ||| t == ")"@
    ||| t == " ORDER BY le.saved_at DESC, le.id DESC LIMIT "@
}

/// A part of the list statement that is SQL text is the library's own.
pub open spec fn query_part(p: PartView) -> bool {
    match p {
        PartView::Sql(t) => is_query_fragment(t) || is_filter_fragment(t),
        PartView::Bind(_) => true,
    }
}

/// The Library list statement is parameterised: its SQL text is the library's own, and the
/// user, the cursor, the limit and every filter value are bound parameters.
pub proof fn lemma_library_query_parameterised(
    user_id: u128,
    trashed_only: bool,
    filter: Option<FilterNode>,
    cursor: Option<(Timestamp, u128)>,
    fetch_limit: i64,
)
    ensures
        forall|i: int| 0 <= i < library_query_emission(user_id, trashed_only, filter, cursor, fetch_limit).0.len()
            ==> query_part(#[trigger] library_query_emission(user_id, trashed_only, filter, cursor, fetch_limit).0[i]),
{
    let e = library_query_emission(user_id, trashed_only, filter, cursor, fetch_limit);
    match filter {
        Some(node) => {
            lemma_filter_sql_is_fragments(node);
            let f = node_emission(node).0;
            assert forall|i: int| 0 <= i < e.0.len() implies query_part(#[trigger] e.0[i]) by {
                if 6 <= i < 6 + f.len() {
                    assert(crate::library_filters::fragment_part(f[i - 6]));
                }
            }
        },
        None => {},
    }
}

/// Builds the Library list statement; fails where the filter expression is invalid.
pub fn build_library_entries_query(
    user_id: u128,
    filter: &LibraryListFilter,
    cursor: Option<(Timestamp, u128)>,
    fetch_limit: i64,
) -> (r: Result<SqlBuilder, AppError>)
    ensures
        ({
            let e = library_query_emission(
                user_id,
                filter.trashed_only,
                filter.filter_expression,
                cursor,
                fetch_limit,
            );
            match r {
                Ok(b) => e.1 is None && b@ == e.0,
                Err(err) => e.1 == Some(err@),
            }
        }),
{
    let ghost e = library_query_emission(
        user_id,
        filter.trashed_only,
        filter.filter_expression,
        cursor,
        fetch_limit,
    );
    let mut builder = SqlBuilder::new("SELECT ");
    builder.push(LIBRARY_DOC_COLUMNS);
    builder.push(LIBRARY_FROM_SQL);
    builder.push_bind(BindValue::Uuid(user_id));
    if filter.trashed_only {
        builder.push(" AND le.deleted_at IS NOT NULL");
    } else {
        builder.push(" AND le.deleted_at IS NULL");
    }
    let ghost head = builder@;
    match &filter.filter_expression {
        Some(node) => {
            builder.push(" AND ");
            match push_filter_node(&mut builder, node) {
                Ok(()) => {},
                Err(err) => {
                    return Err(err);
                },
            }
        },
        None => {},
    }
    let ghost filtered = builder@;
    match cursor {
        Some((at, id)) => {
            builder.push(" AND (le.saved_at, le.id) < (");
            builder.push_bind(BindValue::Timestamp(at));
            builder.push(", ");
            builder.push_bind(BindValue::Uuid(id));
            builder.push(")");
        },
        None => {},
    }
    builder.push(" ORDER BY le.saved_at DESC, le.id DESC LIMIT ");
    builder.push_bind(BindValue::Int(fetch_limit));
    assert(builder@ =~= e.0);
    Ok(builder)
}

/// The join of a tag's links with the entries and their documents, up to the tag binding.
pub const TAG_ENTRIES_FROM_SQL: &'static str = ", let.added_at AS link_added_at FROM library_entry_tags let JOIN library_entries le ON le.id = let.library_entry_id JOIN documents d ON d.id = le.document_id AND d.user_id = le.user_id WHERE let.tag_id = ";

/// The statement that lists one page of a tag's live Library entries of one user, most
/// recently tagged first, before the cursor `(added_at, id)`, with `fetch_limit` rows at most.
pub open spec fn tag_entries_emission(
    tag_id: u128,
    user_id: u128,
    cursor: Option<(Timestamp, u128)>,
    fetch_limit: i64,
) -> Seq<PartView> {
    let head = seq![
        sql("SELECT "@),
        sql(LIBRARY_DOC_COLUMNS@),
        sql(TAG_ENTRIES_FROM_SQL@),
        PartView::Bind(BindView::Uuid(tag_id)),
        sql(" AND le.user_id = "@),
        PartView::Bind(BindView::Uuid(user_id)),
        sql(" AND le.deleted_at IS NULL"@),
    ];
    let after_cursor = match cursor {
        Some((at, id)) => seq![
            sql(" AND (let.added_at, le.id) < ("@),
            PartView::Bind(BindView::Timestamp(at)),
            sql(", "@),
            PartView::Bind(BindView::Uuid(id)),
            sql(")"@),
        ],
        None => Seq::empty(),
    };
    head + after_cursor + seq![
        sql(" ORDER BY let.added_at DESC, le.id DESC LIMIT "@),
        PartView::Bind(BindView::Int(fetch_limit)),
    ]
}

/// Builds the statement listing a tag's Library entries.
pub fn build_tag_entries_query(
    tag_id: u128,
    user_id: u128,
    cursor: Option<(Timestamp, u128)>,
    fetch_limit: i64,
) -> (b: SqlBuilder)
    ensures
        b@ == tag_entries_emission(tag_id, user_id, cursor, fetch_limit),
{
    let mut builder = SqlBuilder::new("SELECT ");
    builder.push(LIBRARY_DOC_COLUMNS);
    builder.push(TAG_ENTRIES_FROM_SQL);
    builder.push_bind(BindValue::Uuid(tag_id));
    builder.push(" AND le.user_id = ");
    builder.push_bind(BindValue::Uuid(user_id));
    builder.push(" AND le.deleted_at IS NULL");
    match cursor {
        Some((at, id)) => {
            builder.push(" AND (let.added_at, le.id) < (");
            builder.push_bind(BindValue::Timestamp(at));
            builder.push(", ");
            builder.push_bind(BindValue::Uuid(id));
            builder.push(")");
        },
        None => {},
    }
    builder.push(" ORDER BY let.added_at DESC, le.id DESC LIMIT ");
    builder.push_bind(BindValue::Int(fetch_limit));
    assert(builder@ =~= tag_entries_emission(tag_id, user_id, cursor, fetch_limit));
    builder
}

/// The read-state counts of the Library entries of one document type.
pub struct TypeCountRow {
    pub item_type: String,
    pub unread: i64,
    pub reading: i64,
    pub done: i64,
}

/// The Library's counts by read state, and per document type.
pub struct ScopeCounts {
    pub unread: i64,
    pub reading: i64,
    pub done: i64,
    pub by_item_type: Vec<(String, i64)>,
}

/// The sum of one read-state column over the rows.
pub open spec fn column_sum(rows: Seq<TypeCountRow>, col: int) -> int
    decreases rows.len(),
{
    if rows.len() == 0 {
        0
    } else {
        column_sum(rows.drop_last(), col) + (if col == 0 {
            rows.last().unread as int
        } else if col == 1 {
            rows.last().reading as int
        } else {
            rows.last().done as int
        })
    }
}

/// The entries of a type row: all its read states together.
pub open spec fn row_total(r: TypeCountRow) -> int {
    r.unread + r.reading + r.done
}

/// The sums of the counts stay within `i64`, row by row and over every prefix of the rows.
pub open spec fn counts_fit(rows: Seq<TypeCountRow>) -> bool {
    &&& forall|k: int, col: int| 0 <= k <= rows.len() && 0 <= col < 3 ==> i64::MIN <= #[trigger] column_sum(rows.take(k), col) <= i64::MAX
    &&& forall|k: int| 0 <= k < rows.len() ==> {
        &&& i64::MIN <= (#[trigger] rows[k]).unread + rows[k].reading <= i64::MAX
        &&& i64::MIN <= row_total(rows[k]) <= i64::MAX
    }
}

/// Sums the per-type rows into the Library's read-state counts; each type's count is the
/// sum of its read states.
pub fn scope_counts(rows: &Vec<TypeCountRow>) -> (c: ScopeCounts)
    requires
        counts_fit(rows@),
    ensures
        c.unread == column_sum(rows@, 0),
        c.reading == column_sum(rows@, 1),
        c.done == column_sum(rows@, 2),
        c.by_item_type@.len() == rows@.len(),
        forall|k: int| 0 <= k < rows@.len() ==> {
            &&& (#[trigger] c.by_item_type@[k]).0@ == rows@[k].item_type@
            &&& c.by_item_type@[k].1 == row_total(rows@[k])
        },
{
    let mut unread: i64 = 0;
    let mut reading: i64 = 0;
    let mut done: i64 = 0;
    let mut by_item_type: Vec<(String, i64)> = Vec::new();
    let mut i: usize = 0;
    assert(rows@.take(0) =~= Seq::<TypeCountRow>::empty());
    while i < rows.len()
        invariant
            i <= rows@.len(),
            counts_fit(rows@),
            unread == column_sum(rows@.take(i as int), 0),
            reading == column_sum(rows@.take(i as int), 1),
            done == column_sum(rows@.take(i as int), 2),
            by_item_type@.len() == i,
            forall|k: int| 0 <= k < i ==> {
                &&& (#[trigger] by_item_type@[k]).0@ == rows@[k].item_type@
                &&& by_item_type@[k].1 == row_total(rows@[k])
            },
        decreases rows@.len() - i,
    {
        proof {
            assert(rows@.take(i + 1).drop_last() =~= rows@.take(i as int));
            assert(rows@.take(i + 1).last() == rows@[i as int]);
            assert(i64::MIN <= column_sum(rows@.take(i + 1), 0) <= i64::MAX);
            assert(i64::MIN <= column_sum(rows@.take(i + 1), 1) <= i64::MAX);
            assert(i64::MIN <= column_sum(rows@.take(i + 1), 2) <= i64::MAX);
        }
        let r = &rows[i];
        unread = unread + r.unread;
        reading = reading + r.reading;
        done = done + r.done;
        let total = r.unread + r.reading + r.done;
        by_item_type.push((r.item_type.clone(), total));
        i = i + 1;
    }
    assert(rows@.take(rows@.len() as int) =~= rows@);
    ScopeCounts { unread, reading, done, by_item_type }
}

/// The per-type counts add up to the read-state counts: every Library entry in scope is
/// counted once by type and once by read state.
pub proof fn lemma_scope_counts_balance(rows: Seq<TypeCountRow>)
    ensures
        type_total(rows) == column_sum(rows, 0) + column_sum(rows, 1) + column_sum(rows, 2),
    decreases rows.len(),
{
    if rows.len() > 0 {
        lemma_scope_counts_balance(rows.drop_last());
    }
}

/// The sum of the per-type counts.
pub open spec fn type_total(rows: Seq<TypeCountRow>) -> int
    decreases rows.len(),
{
    if rows.len() == 0 {
        0
    } else {
        type_total(rows.drop_last()) + row_total(rows.last())
    }
}

} // verus!
