//! Lookup of caller-chosen identifiers in an ordered collection.

use vstd::prelude::*;

verus! {

/// Position of the first occurrence of `id`, or the length of `ids` when it
/// does not occur.
pub open spec fn index_of(ids: Seq<Seq<char>>, id: Seq<char>) -> int
    decreases ids.len(),
{
    if ids.len() == 0 {
        0
    } else if ids[0] == id {
        0
    } else {
        1 + index_of(ids.drop_first(), id)
    }
}

/// No identifier occurs twice.
pub open spec fn distinct(ids: Seq<Seq<char>>) -> bool {
    forall|i: int, j: int| 0 <= i < j < ids.len() ==> ids[i] != ids[j]
}

/// `id` occurs in `ids`.
pub open spec fn has_id(ids: Seq<Seq<char>>, id: Seq<char>) -> bool {
    index_of(ids, id) < ids.len()
}

pub proof fn lemma_index_of(ids: Seq<Seq<char>>, id: Seq<char>)
    ensures
        0 <= index_of(ids, id) <= ids.len(),
        index_of(ids, id) < ids.len() ==> ids[index_of(ids, id)] == id,
        forall|i: int| 0 <= i < index_of(ids, id) ==> #[trigger] ids[i] != id,
    decreases ids.len(),
{
    if ids.len() > 0 && ids[0] != id {
        let rest = ids.drop_first();
        lemma_index_of(rest, id);
        let k = index_of(rest, id);
        assert forall|i: int| 0 <= i < 1 + k implies #[trigger] ids[i] != id by {
            if i > 0 {
                assert(ids[i] == rest[i - 1]);
            }
        }
        if k < rest.len() {
            assert(ids[1 + k] == rest[k]);
        }
    }
}

/// The first position that holds `id` is the one `index_of` names.
pub proof fn lemma_index_of_is(ids: Seq<Seq<char>>, id: Seq<char>, k: int)
    requires
        0 <= k <= ids.len(),
        k < ids.len() ==> ids[k] == id,
        forall|i: int| 0 <= i < k ==> #[trigger] ids[i] != id,
    ensures
        index_of(ids, id) == k,
{
    lemma_index_of(ids, id);
    let found = index_of(ids, id);
    if found < k {
        assert(ids[found] == id);
    } else if k < found {
        assert(ids[k] == id);
    }
}

/// In a collection without repeats, any position that holds `id` is the one
/// `index_of` names.
pub proof fn lemma_index_of_distinct(ids: Seq<Seq<char>>, id: Seq<char>, k: int)
    requires
        distinct(ids),
        0 <= k < ids.len(),
        ids[k] == id,
    ensures
        index_of(ids, id) == k,
{
    lemma_index_of(ids, id);
    let found = index_of(ids, id);
    if found < k {
        assert(ids[found] == ids[k]);
    }
}

} // verus!
