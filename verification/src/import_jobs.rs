//! Import jobs: cleaning item titles, the origin keys of a rollback, and the scan that
//! finds the latest outcome recorded for an external item.

use vstd::prelude::*;
use crate::sql::Timestamp;
use crate::text::{concat, trim, trimmed};

verus! {

/// How many outcomes one page of the scan reads.
pub const OUTCOME_PAGE_SIZE: i64 = 1000;

/// An item title as listed: trimmed, and absent when nothing is left.
pub open spec fn clean_title_spec(title: Option<Seq<char>>) -> Option<Seq<char>> {
    match title {
        Some(t) => if trimmed(t).len() == 0 {
            None
        } else {
            Some(trimmed(t))
        },
        None => None,
    }
}

/// An item title as listed.
pub fn clean_title(title: Option<String>) -> (r: Option<String>)
    ensures
        (match r {
            Some(s) => Some(s@),
            None => None::<Seq<char>>,
        }) == clean_title_spec(match title {
            Some(t) => Some(t@),
            None => None::<Seq<char>>,
        }),
{
    match title {
        Some(t) => {
            let c = trim(t.as_str());
            if c.as_str().unicode_len() == 0 {
                None
            } else {
                Some(c)
            }
        },
        None => None,
    }
}

/// The origin key under which an imported Readwise item's document was recorded.
pub open spec fn readwise_origin_key(external_id: Seq<char>) -> Seq<char> {
    "readwise:"@ + external_id
}

/// The origin keys of the items a rollback trashes, in order.
pub fn rollback_origin_keys(external_ids: &Vec<String>) -> (r: Vec<String>)
    ensures
        r@.len() == external_ids@.len(),
        forall|i: int| 0 <= i < r@.len() ==> (#[trigger] r@[i])@ == readwise_origin_key(external_ids@[i]@),
{
    let mut r: Vec<String> = Vec::new();
    let mut i: usize = 0;
    while i < external_ids.len()
        invariant
            i <= external_ids@.len(),
            r@.len() == i,
            forall|j: int| 0 <= j < i ==> (#[trigger] r@[j])@ == readwise_origin_key(external_ids@[j]@),
        decreases external_ids@.len() - i,
    {
        r.push(concat("readwise:", external_ids[i].as_str()));
        i = i + 1;
    }
    r
}

/// An outcome as the scan sees it: the external item it records, and its ordering key.
pub struct OutcomeRef {
    pub external_id: String,
    pub created_at: Timestamp,
    pub id: u128,
}

/// Whether key `a` orders at or after key `b`: by creation time, then by identifier.
pub open spec fn key_at_or_after(a: (Timestamp, u128), b: (Timestamp, u128)) -> bool {
    ||| a.0.secs > b.0.secs
    ||| (a.0.secs == b.0.secs && a.0.nanos > b.0.nanos)
    ||| (a.0.secs == b.0.secs && a.0.nanos == b.0.nanos && a.1 >= b.1)
}

/// The latest key among those of a page's outcomes for `external_id`, starting from `best`:
/// a later key, or an equal one found later, replaces it.
pub open spec fn latest_key(best: Option<(Timestamp, u128)>, page: Seq<OutcomeRef>, external_id: Seq<char>) -> Option<(Timestamp, u128)>
    decreases page.len(),
{
    if page.len() == 0 {
        best
    } else {
        let before = latest_key(best, page.drop_last(), external_id);
        let o = page.last();
        if o.external_id@ == external_id && (before is None || key_at_or_after((o.created_at, o.id), before->0)) {
            Some((o.created_at, o.id))
        } else {
            before
        }
    }
}

/// The scan keeps the latest outcome: its key orders at or after the starting one and that
/// of every outcome of the item in the page, and, unless it is the starting one, it is the
/// key of one of them.
pub proof fn lemma_latest_key_is_latest(best: Option<(Timestamp, u128)>, page: Seq<OutcomeRef>, external_id: Seq<char>)
    ensures
        best is Some ==> {
            &&& latest_key(best, page, external_id) is Some
            &&& key_at_or_after(latest_key(best, page, external_id)->0, best->0)
        },
        forall|i: int| 0 <= i < page.len() && (#[trigger] page[i]).external_id@ == external_id ==> {
            &&& latest_key(best, page, external_id) is Some
            &&& key_at_or_after(latest_key(best, page, external_id)->0, (page[i].created_at, page[i].id))
        },
        latest_key(best, page, external_id) != best ==> exists|i: int|
            0 <= i < page.len() && (#[trigger] page[i]).external_id@ == external_id
                && latest_key(best, page, external_id) == Some((page[i].created_at, page[i].id)),
    decreases page.len(),
{
    if page.len() > 0 {
        let init = page.drop_last();
        lemma_latest_key_is_latest(best, init, external_id);
        let before = latest_key(best, init, external_id);
        let r = latest_key(best, page, external_id);
        assert forall|i: int| 0 <= i < page.len() && (#[trigger] page[i]).external_id@ == external_id implies {
            &&& r is Some
            &&& key_at_or_after(r->0, (page[i].created_at, page[i].id))
        } by {
            if i < init.len() {
                assert(init[i] == page[i]);
            }
        }
        if r != best {
            if r == before {
                let i = choose|i: int| 0 <= i < init.len() && (#[trigger] init[i]).external_id@ == external_id
                    && before == Some((init[i].created_at, init[i].id));
                assert(page[i] == init[i]);
            } else {
                let i = page.len() - 1;
                assert(page[i] == page.last());
            }
        }
    }
}

/// The scan over the outcomes of an import job, page by page, for the latest outcome of
/// one external item.
pub struct OutcomeScan {
    pub best: Option<(Timestamp, u128)>,
    pub offset: i64,
    pub done: bool,
}

impl OutcomeScan {
    /// A scan that has read nothing.
    pub fn new() -> (s: OutcomeScan)
        ensures
            s.best is None,
            s.offset == 0,
            !s.done,
    {
        OutcomeScan { best: None, offset: 0, done: false }
    }

    /// Takes in the next page, read at `self.offset` with the page size. An empty page ends
    /// the scan; otherwise the offset moves one page on. Returns the position in this page of
    /// the outcome that is now the latest, when this page holds it.
    pub fn take_page(&mut self, page: &Vec<OutcomeRef>, external_id: &str) -> (found: Option<usize>)
        requires
            !old(self).done,
            old(self).offset <= i64::MAX - OUTCOME_PAGE_SIZE,
        ensures
            final(self).done == (page@.len() == 0),
            final(self).offset == (if page@.len() == 0 { old(self).offset as int } else { old(self).offset + OUTCOME_PAGE_SIZE }),
            final(self).best == latest_key(old(self).best, page@, external_id@),
            match found {
                Some(k) => k < page@.len() && final(self).best == Some((page@[k as int].created_at, page@[k as int].id)),
                None => final(self).best == old(self).best,
            },
    {
        if page.len() == 0 {
            self.done = true;
            return None;
        }
        let ghost start = self.best;
        let mut found: Option<usize> = None;
        let mut i: usize = 0;
        assert(page@.take(0) =~= Seq::<OutcomeRef>::empty());
        while i < page.len()
            invariant
                i <= page@.len(),
                self.offset == old(self).offset,
                self.offset <= i64::MAX - OUTCOME_PAGE_SIZE,
                self.done == old(self).done,
                self.best == latest_key(start, page@.take(i as int), external_id@),
                match found {
                    Some(k) => k < i && self.best == Some((page@[k as int].created_at, page@[k as int].id)),
                    None => self.best == start,
                },
            decreases page@.len() - i,
        {
            assert(page@.take(i + 1).drop_last() =~= page@.take(i as int));
            let o = &page[i];
            if crate::text::str_eq(o.external_id.as_str(), external_id) {
                let replace = match self.best {
                    None => true,
                    Some((at, id)) => o.created_at.secs > at.secs || (o.created_at.secs == at.secs
                        && o.created_at.nanos > at.nanos) || (o.created_at.secs == at.secs
                        && o.created_at.nanos == at.nanos && o.id >= id),
                };
                if replace {
                    self.best = Some((o.created_at, o.id));
                    found = Some(i);
                }
            }
            i = i + 1;
        }
        assert(page@.take(page@.len() as int) =~= page@);
        self.offset = self.offset + OUTCOME_PAGE_SIZE;
        found
    }
}

} // verus!
