//! The extra ids of a build: a list without repetition that only grows, each
//! id standing where it was first seen.

use crate::text::texts;
use vstd::prelude::*;

verus! {

/// `current` after the ids of `ids` have been added to it one by one, each at
/// the end, and each only if it is not there yet.
pub open spec fn merge_ids(current: Seq<Seq<char>>, ids: Seq<Seq<char>>) -> Seq<Seq<char>>
    decreases ids.len(),
{
    if ids.len() == 0 {
        current
    } else {
        let merged = merge_ids(current, ids.drop_last());
        if merged.contains(ids.last()) {
            merged
        } else {
            merged.push(ids.last())
        }
    }
}

/// Whether `id` is among `ids`.
pub fn contains_id(ids: &Vec<String>, id: &String) -> (found: bool)
    ensures
        found == texts(ids@).contains(id@),
{
    let mut i: usize = 0;
    while i < ids.len()
        invariant
            i <= ids.len(),
            forall|j: int| 0 <= j < i ==> ids@[j]@ != id@,
        decreases ids.len() - i,
    {
        if ids[i] == *id {
            assert(texts(ids@)[i as int] == id@);
            return true;
        }
        i += 1;
    }
    false
}

/// Whether no id occurs twice in `ids`.
pub fn all_distinct(ids: &Vec<String>) -> (distinct: bool)
    ensures
        distinct == texts(ids@).no_duplicates(),
{
    let mut i: usize = 0;
    while i < ids.len()
        invariant
            i <= ids.len(),
            forall|a: int, b: int| 0 <= a < b < i ==> ids@[a]@ != ids@[b]@,
        decreases ids.len() - i,
    {
        let mut j: usize = 0;
        while j < i
            invariant
                j <= i < ids.len(),
                forall|a: int| 0 <= a < j ==> ids@[a]@ != ids@[i as int]@,
            decreases i - j,
        {
            if ids[j] == ids[i] {
                assert(texts(ids@)[j as int] == texts(ids@)[i as int]);
                return false;
            }
            j += 1;
        }
        i += 1;
    }
    true
}

/// Adds `ids` to `current`, skipping every id that is already there and
/// keeping the order in which the ids were first seen.
pub fn merge_extra_ids(current: &Vec<String>, ids: &Vec<String>) -> (merged: Vec<String>)
    ensures
        texts(merged@) == merge_ids(texts(current@), texts(ids@)),
{
    let mut merged = current.clone();
    let mut i: usize = 0;
    while i < ids.len()
        invariant
            i <= ids.len(),
            texts(merged@) == merge_ids(texts(current@), texts(ids@).take(i as int)),
        decreases ids.len() - i,
    {
        assert(texts(ids@).take(i as int + 1).drop_last() =~= texts(ids@).take(i as int));
        if !contains_id(&merged, &ids[i]) {
            merged.push(ids[i].clone());
        }
        i += 1;
    }
    assert(texts(ids@).take(i as int) =~= texts(ids@));
    merged
}

/// Merging never changes what was there: the old list is the beginning of
/// the new one.
pub proof fn lemma_merge_extends(current: Seq<Seq<char>>, ids: Seq<Seq<char>>)
    ensures
        current.is_prefix_of(merge_ids(current, ids)),
    decreases ids.len(),
{
    if ids.len() > 0 {
        lemma_merge_extends(current, ids.drop_last());
    }
}

/// The merged list holds exactly the ids that were there and the ids that
/// were added.
pub proof fn lemma_merge_is_union(current: Seq<Seq<char>>, ids: Seq<Seq<char>>)
    ensures
        forall|id: Seq<char>| #[trigger]
            merge_ids(current, ids).contains(id) <==> current.contains(id) || ids.contains(id),
    decreases ids.len(),
{
    if ids.len() > 0 {
        let front = ids.drop_last();
        let merged = merge_ids(current, front);
        lemma_merge_is_union(current, front);
        assert forall|id: Seq<char>| #[trigger]
            merge_ids(current, ids).contains(id) <==> current.contains(id) || ids.contains(
                id,
            ) by {
            if ids.contains(id) {
                let k: int = choose|k: int| 0 <= k < ids.len() && ids[k] == id;
                if k < front.len() {
                    assert(front[k] == id);
                }
            }
            if !merged.contains(ids.last()) {
                let grown = merged.push(ids.last());
                if merged.contains(id) {
                    let k: int = choose|k: int| 0 <= k < merged.len() && merged[k] == id;
                    assert(grown[k] == id);
                }
                if id == ids.last() {
                    assert(grown[merged.len() as int] == id);
                }
            }
        }
    }
}

/// A list without repetition stays without repetition, whatever is added and
/// however often.
pub proof fn lemma_merge_no_duplicates(current: Seq<Seq<char>>, ids: Seq<Seq<char>>)
    requires
        current.no_duplicates(),
    ensures
        merge_ids(current, ids).no_duplicates(),
    decreases ids.len(),
{
    if ids.len() > 0 {
        lemma_merge_no_duplicates(current, ids.drop_last());
    }
}

/// Adding one batch and then another gives what adding both at once gives.
pub proof fn lemma_merge_in_steps(
    current: Seq<Seq<char>>,
    first: Seq<Seq<char>>,
    second: Seq<Seq<char>>,
)
    ensures
        merge_ids(merge_ids(current, first), second) == merge_ids(current, first + second),
    decreases second.len(),
{
    if second.len() > 0 {
        lemma_merge_in_steps(current, first, second.drop_last());
        assert((first + second).drop_last() =~= first + second.drop_last());
    }
}

/// Adding ids that are all there already changes nothing.
pub proof fn lemma_merge_known_ids(current: Seq<Seq<char>>, ids: Seq<Seq<char>>)
    requires
        forall|k: int| 0 <= k < ids.len() ==> current.contains(#[trigger] ids[k]),
    ensures
        merge_ids(current, ids) == current,
    decreases ids.len(),
{
    if ids.len() > 0 {
        lemma_merge_known_ids(current, ids.drop_last());
    }
}

/// Adding the same batch a second time changes nothing.
pub proof fn lemma_merge_idempotent(current: Seq<Seq<char>>, ids: Seq<Seq<char>>)
    ensures
        merge_ids(merge_ids(current, ids), ids) == merge_ids(current, ids),
{
    lemma_merge_is_union(current, ids);
    lemma_merge_known_ids(merge_ids(current, ids), ids);
}

/// First-seen order: what the list was after any first part of a batch is
/// the beginning of what it is after the whole batch, so an id seen later
/// never comes to stand before one seen earlier.
pub proof fn lemma_merge_first_seen_order(current: Seq<Seq<char>>, ids: Seq<Seq<char>>, n: int)
    requires
        0 <= n <= ids.len(),
    ensures
        merge_ids(current, ids.take(n)).is_prefix_of(merge_ids(current, ids)),
{
    lemma_merge_in_steps(current, ids.take(n), ids.skip(n));
    assert(ids.take(n) + ids.skip(n) =~= ids);
    lemma_merge_extends(merge_ids(current, ids.take(n)), ids.skip(n));
}

} // verus!
