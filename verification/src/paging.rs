//! Keyset pagination: a query fetches one row more than the page holds, so that the
//! extra row tells whether another page follows.

use vstd::prelude::*;

verus! {

/// One page of rows and whether more rows follow it.
pub struct PageSplit<T> {
    pub items: Vec<T>,
    pub has_more: bool,
}

/// Cuts the fetched rows down to the page: the first `limit` rows; more follow when
/// more than `limit` were fetched.
pub fn split_page<T>(rows: Vec<T>, limit: usize) -> (page: PageSplit<T>)
    ensures
        page.has_more == (rows@.len() > limit),
        page.items@ == if rows@.len() > limit { rows@.take(limit as int) } else { rows@ },
{
    let has_more = rows.len() > limit;
    let mut items = rows;
    if has_more {
        items.truncate(limit);
    }
    PageSplit { items, has_more }
}

/// The number of rows to fetch for a page of `limit` rows.
pub fn fetch_limit(limit: i64) -> (n: i64)
    requires
        limit < i64::MAX,
    ensures
        n == limit + 1,
{
    limit + 1
}

/// The key the next page starts after: that of the page's last item, when more follow.
pub fn next_page_key<K: Copy>(items: &Vec<K>, has_more: bool) -> (r: Option<K>)
    ensures
        r == (if has_more && items@.len() > 0 { Some(items@.last()) } else { None }),
{
    if has_more && items.len() > 0 {
        Some(items[items.len() - 1])
    } else {
        None
    }
}

/// A page holds the first `limit` rows fetched, in order, or all of them when no more follow.
pub proof fn lemma_page_prefix<T>(rows: Seq<T>, limit: nat)
    ensures
        ({
            let items = if rows.len() > limit { rows.take(limit as int) } else { rows };
            &&& items.len() == (if rows.len() > limit { limit } else { rows.len() })
            &&& items.is_prefix_of(rows)
        }),
{
    if rows.len() > limit {
        assert(rows.take(limit as int).is_prefix_of(rows));
    } else {
        assert(rows.is_prefix_of(rows));
    }
}


/// A page of at least one row has a next key exactly when more rows follow it, and the next
/// page starts after its last row, the `limit`-th row fetched.
pub proof fn lemma_next_key_marks_more<K>(rows: Seq<K>, limit: nat)
    requires
        limit >= 1,
    ensures
        ({
            let has_more = rows.len() > limit;
            let items = if has_more { rows.take(limit as int) } else { rows };
            let next = if has_more && items.len() > 0 { Some(items.last()) } else { None };
            &&& (next is Some <==> has_more)
            &&& has_more ==> next == Some(rows[limit - 1])
            &&& items.len() <= limit
        }),
{
}

} // verus!
