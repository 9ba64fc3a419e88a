//! Grouping of rows by an owner identifier, as the tag lookups of highlights need: the
//! rows of each owner keep the order in which the query returned them.

use vstd::prelude::*;

verus! {

/// The positions of the rows that belong to `id`, in order.
pub open spec fn positions_of(row_ids: Seq<u128>, id: u128) -> Seq<usize>
    decreases row_ids.len(),
{
    if row_ids.len() == 0 {
        Seq::empty()
    } else {
        let rest = positions_of(row_ids.drop_last(), id);
        if row_ids.last() == id {
            rest.push((row_ids.len() - 1) as usize)
        } else {
            rest
        }
    }
}

/// The identifiers in order of first appearance, each once.
pub open spec fn first_appearances(ids: Seq<u128>) -> Seq<u128>
    decreases ids.len(),
{
    if ids.len() == 0 {
        Seq::empty()
    } else {
        let rest = first_appearances(ids.drop_last());
        if ids.drop_last().contains(ids.last()) {
            rest
        } else {
            rest.push(ids.last())
        }
    }
}

/// An identifier appears among the first appearances exactly when it appears at all.
pub proof fn lemma_first_appearances_contains(ids: Seq<u128>, x: u128)
    ensures
        first_appearances(ids).contains(x) <==> ids.contains(x),
    decreases ids.len(),
{
    if ids.len() > 0 {
        let init = ids.drop_last();
        lemma_first_appearances_contains(init, x);
        if init.contains(x) {
            let k = choose|k: int| 0 <= k < init.len() && init[k] == x;
            assert(ids[k] == x);
        }
        if ids.contains(x) {
            let k = choose|k: int| 0 <= k < ids.len() && ids[k] == x;
            if k < init.len() {
                assert(init[k] == x);
            }
        }
        let rest = first_appearances(init);
        if !init.contains(ids.last()) {
            if rest.push(ids.last()).contains(x) {
                let k = choose|k: int| 0 <= k < rest.push(ids.last()).len() && rest.push(ids.last())[k] == x;
                if k < rest.len() {
                    assert(rest[k] == x);
                }
            }
            if rest.contains(x) {
                let k = choose|k: int| 0 <= k < rest.len() && rest[k] == x;
                assert(rest.push(ids.last())[k] == x);
            }
            assert(rest.push(ids.last())[rest.len() as int] == ids.last());
        }
    }
}

/// The positions of the rows that belong to `id`.
pub fn row_positions(row_ids: &Vec<u128>, id: u128) -> (r: Vec<usize>)
    ensures
        r@ == positions_of(row_ids@, id),
{
    let mut r: Vec<usize> = Vec::new();
    let mut i: usize = 0;
    assert(row_ids@.take(0) =~= Seq::<u128>::empty());
    while i < row_ids.len()
        invariant
            i <= row_ids@.len(),
            r@ == positions_of(row_ids@.take(i as int), id),
        decreases row_ids@.len() - i,
    {
        assert(row_ids@.take(i + 1).drop_last() =~= row_ids@.take(i as int));
        if row_ids[i] == id {
            r.push(i);
        }
        i = i + 1;
    }
    assert(row_ids@.take(row_ids@.len() as int) =~= row_ids@);
    r
}

/// Groups rows by owner: each owner once, in order of its first row, with the positions
/// of its rows.
pub fn group_positions(row_ids: &Vec<u128>) -> (g: Vec<(u128, Vec<usize>)>)
    ensures
        g@.len() == first_appearances(row_ids@).len(),
        forall|k: int| 0 <= k < g@.len() ==> {
            &&& (#[trigger] g@[k]).0 == first_appearances(row_ids@)[k]
            &&& g@[k].1@ == positions_of(row_ids@, g@[k].0)
        },
{
    let mut owners: Vec<u128> = Vec::new();
    let mut i: usize = 0;
    assert(row_ids@.take(0) =~= Seq::<u128>::empty());
    while i < row_ids.len()
        invariant
            i <= row_ids@.len(),
            owners@ == first_appearances(row_ids@.take(i as int)),
        decreases row_ids@.len() - i,
    {
        let ghost prefix = row_ids@.take(i as int);
        assert(row_ids@.take(i + 1).drop_last() =~= prefix);
        assert(row_ids@.take(i + 1).last() == row_ids@[i as int]);
        let x = row_ids[i];
        proof {
            lemma_first_appearances_contains(prefix, x);
        }
        if !crate::id_sets::contains_id(&owners, x) {
            owners.push(x);
        }
        i = i + 1;
    }
    assert(row_ids@.take(row_ids@.len() as int) =~= row_ids@);
    let mut g: Vec<(u128, Vec<usize>)> = Vec::new();
    let mut k: usize = 0;
    while k < owners.len()
        invariant
            k <= owners@.len(),
            owners@ == first_appearances(row_ids@),
            g@.len() == k,
            forall|j: int| 0 <= j < k ==> {
                &&& (#[trigger] g@[j]).0 == owners@[j]
                &&& g@[j].1@ == positions_of(row_ids@, g@[j].0)
            },
        decreases owners@.len() - k,
    {
        let id = owners[k];
        let p = row_positions(row_ids, id);
        g.push((id, p));
        k = k + 1;
    }
    g
}

/// For each highlight, the positions of its tag rows; a highlight listed again after its
/// first occurrence gets none, as its tags were already handed out.
pub open spec fn attached_positions(highlight_ids: Seq<u128>, row_ids: Seq<u128>, i: int) -> Seq<usize> {
    if highlight_ids.take(i).contains(highlight_ids[i]) {
        Seq::empty()
    } else {
        positions_of(row_ids, highlight_ids[i])
    }
}

/// Attaches the tag rows to the highlights, in highlight order.
pub fn attach_positions(highlight_ids: &Vec<u128>, row_ids: &Vec<u128>) -> (r: Vec<Vec<usize>>)
    ensures
        r@.len() == highlight_ids@.len(),
        forall|i: int| 0 <= i < r@.len() ==> (#[trigger] r@[i])@ == attached_positions(highlight_ids@, row_ids@, i),
{
    let mut r: Vec<Vec<usize>> = Vec::new();
    let mut seen: Vec<u128> = Vec::new();
    let mut i: usize = 0;
    while i < highlight_ids.len()
        invariant
            i <= highlight_ids@.len(),
            r@.len() == i,
            seen@ == highlight_ids@.take(i as int),
            forall|j: int| 0 <= j < i ==> (#[trigger] r@[j])@ == attached_positions(highlight_ids@, row_ids@, j),
        decreases highlight_ids@.len() - i,
    {
        let id = highlight_ids[i];
        let p = if crate::id_sets::contains_id(&seen, id) {
            Vec::new()
        } else {
            row_positions(row_ids, id)
        };
        r.push(p);
        seen.push(id);
        assert(seen@ =~= highlight_ids@.take(i + 1));
        i = i + 1;
    }
    r
}

/// The positions of an owner's rows are exactly the rows that belong to it, in increasing
/// order: no row is lost, none is given to another owner, none is listed twice.
pub proof fn lemma_positions_exact(row_ids: Seq<u128>, id: u128)
    requires
        row_ids.len() <= usize::MAX + 1,
    ensures
        forall|a: int| 0 <= a < positions_of(row_ids, id).len() ==> {
            &&& (#[trigger] positions_of(row_ids, id)[a]) < row_ids.len()
            &&& row_ids[positions_of(row_ids, id)[a] as int] == id
        },
        forall|j: int| 0 <= j < row_ids.len() && row_ids[j] == id ==> exists|a: int|
            0 <= a < positions_of(row_ids, id).len() && (#[trigger] positions_of(row_ids, id)[a]) == j,
        forall|a: int, b: int| 0 <= a < b < positions_of(row_ids, id).len() ==> positions_of(row_ids, id)[a] < positions_of(row_ids, id)[b],
    decreases row_ids.len(),
{
    if row_ids.len() > 0 {
        let init = row_ids.drop_last();
        lemma_positions_exact(init, id);
        let rest = positions_of(init, id);
        let n = row_ids.len() - 1;
        let p = positions_of(row_ids, id);
        assert forall|a: int| 0 <= a < rest.len() implies (#[trigger] p[a]) == rest[a] by {
            if row_ids.last() == id {
                assert(p == rest.push(n as usize));
            }
        }
        assert forall|j: int| 0 <= j < row_ids.len() && row_ids[j] == id implies exists|a: int|
            0 <= a < p.len() && (#[trigger] p[a]) == j by {
            if j < n {
                assert(init[j] == id);
                let a = choose|a: int| 0 <= a < rest.len() && (#[trigger] rest[a]) == j;
                assert(p[a] == j);
            } else {
                assert(p == rest.push(n as usize));
                assert(p[rest.len() as int] == j);
            }
        }
        assert forall|a: int| 0 <= a < p.len() implies {
            &&& (#[trigger] p[a]) < row_ids.len()
            &&& row_ids[p[a] as int] == id
        } by {
            if a < rest.len() {
                assert(init[rest[a] as int] == id);
            }
        }
    }
}

} // verus!
