//! Integration connections: optimistic settings updates, pending-job counts, and the
//! Notion export listing and selection rules.

use vstd::prelude::*;
use crate::error::{AppError, ErrorView, conflict, not_found};
use crate::text::{concat3, decimal_text, decimal_u64, escape_like_pattern, like_escaped, trim, trimmed};

verus! {

/// The error for a connection that does not exist for the caller.
pub open spec fn connection_not_found(id: Seq<char>) -> ErrorView {
    ErrorView::NotFound { entity: "integration_connection"@, id }
}

/// The error for a settings write that lost the race against another writer.
pub open spec fn concurrent_settings_update() -> ErrorView {
    ErrorView::Conflict {
        entity: "integration_connection"@,
        message: "settings were updated concurrently; reload and retry"@,
    }
}

/// Settles a settings write guarded by the version the caller saw: the new version when the
/// guarded update matched; otherwise a conflict when the connection still exists (another
/// writer moved the version), or not found when it does not.
pub fn versioned_update_outcome(new_version: Option<i64>, still_exists: bool, id_text: String) -> (r: Result<i64, AppError>)
    ensures
        new_version matches Some(v) ==> r == Ok::<i64, AppError>(v),
        new_version is None && still_exists ==> (r matches Err(e) && e@ == concurrent_settings_update()),
        new_version is None && !still_exists ==> (r matches Err(e) && e@ == connection_not_found(id_text@)),
{
    match new_version {
        Some(v) => Ok(v),
        None => if still_exists {
            Err(conflict("integration_connection", "settings were updated concurrently; reload and retry"))
        } else {
            Err(not_found("integration_connection", id_text))
        },
    }
}

/// A count of pending jobs as the listing reports it: negative counts as none, beyond
/// `u32` saturates.
pub open spec fn pending_count_spec(count: i64) -> u32 {
    if count < 0 {
        0
    } else if count > u32::MAX {
        u32::MAX
    } else {
        count as u32
    }
}

/// A count of pending jobs as the listing reports it.
pub fn pending_count(count: i64) -> (r: u32)
    ensures
        r == pending_count_spec(count),
{
    if count < 0 {
        0
    } else if count > 4294967295i64 {
        4294967295u32
    } else {
        count as u32
    }
}

/// The pending-job counts per connection: rows whose payload names no connection, or one
/// that does not parse, are skipped; the others keep their order.
pub open spec fn pending_counts_spec(rows: Seq<(Option<u128>, i64)>) -> Seq<(u128, u32)>
    decreases rows.len(),
{
    if rows.len() == 0 {
        Seq::empty()
    } else {
        let rest = pending_counts_spec(rows.drop_last());
        match rows.last().0 {
            Some(id) => rest.push((id, pending_count_spec(rows.last().1))),
            None => rest,
        }
    }
}

/// The pending-job counts per connection, from the grouped rows with their parsed connection.
pub fn pending_counts(rows: &Vec<(Option<u128>, i64)>) -> (r: Vec<(u128, u32)>)
    ensures
        r@ == pending_counts_spec(rows@),
{
    let mut r: Vec<(u128, u32)> = Vec::new();
    let mut i: usize = 0;
    assert(rows@.take(0) =~= Seq::<(Option<u128>, i64)>::empty());
    while i < rows.len()
        invariant
            i <= rows@.len(),
            r@ == pending_counts_spec(rows@.take(i as int)),
        decreases rows@.len() - i,
    {
        assert(rows@.take(i + 1).drop_last() =~= rows@.take(i as int));
        let (id, count) = rows[i];
        match id {
            Some(id) => r.push((id, pending_count(count))),
            None => {},
        }
        i = i + 1;
    }
    assert(rows@.take(rows@.len() as int) =~= rows@);
    r
}

/// The title/URL pattern of a Notion export listing: none for an absent or blank query,
/// otherwise the trimmed query, LIKE-escaped, between `%` signs.
pub open spec fn notion_search_spec(query: Option<Seq<char>>) -> Option<Seq<char>> {
    match query {
        None => None,
        Some(q) => if trimmed(q).len() == 0 {
            None
        } else {
            Some("%"@ + like_escaped(trimmed(q)) + "%"@)
        },
    }
}

/// The title/URL pattern of a Notion export listing.
pub fn notion_search_pattern(query: &Option<String>) -> (r: Option<String>)
    ensures
        (match r {
            Some(s) => Some(s@),
            None => None::<Seq<char>>,
        }) == notion_search_spec(match query {
            Some(q) => Some(q@),
            None => None::<Seq<char>>,
        }),
{
    match query {
        None => None,
        Some(q) => {
            let t = trim(q.as_str());
            if t.as_str().unicode_len() == 0 {
                None
            } else {
                let escaped = escape_like_pattern(t.as_str());
                Some(concat3("%", escaped.as_str(), "%"))
            }
        },
    }
}

/// The page window of a Notion export listing: at least one and at most 200 items, from a
/// non-negative offset.
pub fn notion_items_window(limit: i64, offset: i64) -> (r: (i64, i64))
    ensures
        r.0 == (if limit < 1 { 1 } else if limit > 200 { 200 } else { limit }),
        r.1 == (if offset < 0 { 0 } else { offset }),
{
    let l = if limit < 1 {
        1
    } else if limit > 200 {
        200
    } else {
        limit
    };
    let o = if offset < 0 {
        0
    } else {
        offset
    };
    (l, o)
}

/// The batch size of a Notion export candidate scan: at least one, at most 1000.
pub fn notion_candidates_limit(limit: i64) -> (r: i64)
    ensures
        r == (if limit < 1 { 1 } else if limit > 1000 { 1000 } else { limit }),
{
    if limit < 1 {
        1
    } else if limit > 1000 {
        1000
    } else {
        limit
    }
}

/// The message of a selection batch that named entries the user does not own (live).
pub open spec fn missing_items_message(total: nat, applied: nat) -> Seq<char> {
    decimal_text(total - applied) + " of "@ + decimal_text(total as int) + " items missing or not owned by user"@
}

/// Settles a batch of Notion export selections after the write: every selection must have
/// hit a live entry of the user, else the whole batch is refused, naming how many missed.
pub fn check_selection_batch(total: usize, applied: usize) -> (r: Result<(), AppError>)
    requires
        applied <= total,
    ensures
        r is Ok <==> applied == total,
        r matches Err(e) ==> e@ == (ErrorView::NotFound {
            entity: "notion_export_item"@,
            id: missing_items_message(total as nat, applied as nat),
        }),
{
    if applied == total {
        return Ok(());
    }
    let missing = decimal_u64((total - applied) as u64);
    let all = decimal_u64(total as u64);
    let head = concat3(missing.as_str(), " of ", all.as_str());
    let id = crate::text::concat(head.as_str(), " items missing or not owned by user");
    Err(not_found("notion_export_item", id))
}

} // verus!
