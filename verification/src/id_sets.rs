//! Membership, uniqueness and set equality over lists of row identifiers.

use vstd::prelude::*;

verus! {

/// Whether `id` occurs in `ids`.
pub fn contains_id(ids: &Vec<u128>, id: u128) -> (r: bool)
    ensures
        r == ids@.contains(id),
{
    let mut i: usize = 0;
    while i < ids.len()
        invariant
            i <= ids@.len(),
            forall|j: int| 0 <= j < i ==> ids@[j] != id,
        decreases ids@.len() - i,
    {
        if ids[i] == id {
            return true;
        }
        i = i + 1;
    }
    false
}

/// Whether no identifier occurs twice in `ids`.
pub fn all_distinct(ids: &Vec<u128>) -> (r: bool)
    ensures
        r == ids@.no_duplicates(),
{
    let mut i: usize = 0;
    while i < ids.len()
        invariant
            i <= ids@.len(),
            forall|a: int, b: int| 0 <= a < b < ids@.len() && a < i ==> ids@[a] != ids@[b],
        decreases ids@.len() - i,
    {
        let mut j: usize = i + 1;
        while j < ids.len()
            invariant
                i < ids@.len(),
                i + 1 <= j <= ids@.len(),
                forall|a: int, b: int| 0 <= a < b < ids@.len() && a < i ==> ids@[a] != ids@[b],
                forall|b: int| i < b < j ==> ids@[i as int] != ids@[b],
            decreases ids@.len() - j,
        {
            if ids[i] == ids[j] {
                return false;
            }
            j = j + 1;
        }
        i = i + 1;
    }
    true
}

/// Whether every identifier of `a` occurs in `b`.
pub fn all_contained(a: &Vec<u128>, b: &Vec<u128>) -> (r: bool)
    ensures
        r == (forall|i: int| 0 <= i < a@.len() ==> b@.contains(#[trigger] a@[i])),
{
    let mut i: usize = 0;
    while i < a.len()
        invariant
            i <= a@.len(),
            forall|k: int| 0 <= k < i ==> b@.contains(#[trigger] a@[k]),
        decreases a@.len() - i,
    {
        if !contains_id(b, a[i]) {
            return false;
        }
        i = i + 1;
    }
    true
}

/// Whether `a` and `b` hold the same identifiers, as sets.
pub fn same_id_set(a: &Vec<u128>, b: &Vec<u128>) -> (r: bool)
    ensures
        r == (a@.to_set() == b@.to_set()),
{
    let ab = all_contained(a, b);
    let ba = all_contained(b, a);
    proof {
        if ab && ba {
            assert forall|x: u128| a@.to_set().contains(x) <==> b@.to_set().contains(x) by {
                if a@.contains(x) {
                    let k = choose|k: int| 0 <= k < a@.len() && a@[k] == x;
                    assert(b@.contains(a@[k]));
                }
                if b@.contains(x) {
                    let k = choose|k: int| 0 <= k < b@.len() && b@[k] == x;
                    assert(a@.contains(b@[k]));
                }
            }
            assert(a@.to_set() =~= b@.to_set());
        } else if !ab {
            let k = choose|k: int| 0 <= k < a@.len() && !b@.contains(#[trigger] a@[k]);
            assert(a@.to_set().contains(a@[k]));
            assert(!b@.to_set().contains(a@[k]));
        } else {
            let k = choose|k: int| 0 <= k < b@.len() && !a@.contains(#[trigger] b@[k]);
            assert(b@.to_set().contains(b@[k]));
            assert(!a@.to_set().contains(b@[k]));
        }
    }
    ab && ba
}

} // verus!
