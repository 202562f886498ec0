use vstd::prelude::*;

use crate::task::Task;
use crate::todo_list::{accepts_another, listing, with_id, without_id};

verus! {

/// The contents of a store with bound `max` that held `s`, after each task of
/// `batch` was added in turn; `None` once an insertion is rejected.
pub open spec fn after_adds(s: Seq<Task>, max: nat, batch: Seq<Task>) -> Option<Seq<Task>>
    decreases batch.len(),
{
    if batch.len() == 0 {
        Some(s)
    } else if accepts_another(s.len(), max) {
        after_adds(s.push(batch[0]), max, batch.drop_first())
    } else {
        None
    }
}

proof fn lemma_after_adds_appends(s: Seq<Task>, max: nat, batch: Seq<Task>)
    requires
        s.len() + batch.len() <= max + 1,
    ensures
        after_adds(s, max, batch) == Some(s + batch),
    decreases batch.len(),
{
    if batch.len() == 0 {
        assert(s + batch =~= s);
    } else {
        lemma_after_adds_appends(s.push(batch[0]), max, batch.drop_first());
        assert(s.push(batch[0]) + batch.drop_first() =~= s + batch);
    }
}

/// Adding up to `max` tasks, one by one, to an empty store with bound `max`
/// never fails, and listing the store then gives exactly those tasks in the
/// order they were added (nothing when none was added).
pub proof fn lemma_adds_within_bound_kept_in_order(max: nat, batch: Seq<Task>)
    requires
        batch.len() <= max,
    ensures
        after_adds(Seq::empty(), max, batch) == Some(batch),
        listing(batch) == (if batch.len() == 0 {
            None
        } else {
            Some(batch)
        }),
{
    lemma_after_adds_appends(Seq::empty(), max, batch);
    assert(Seq::<Task>::empty() + batch =~= batch);
}

proof fn lemma_id_partition(s: Seq<Task>, id: Seq<char>)
    ensures
        with_id(s, id).len() + without_id(s, id).len() == s.len(),
    decreases s.len(),
{
    reveal(Seq::filter);
    if s.len() > 0 {
        lemma_id_partition(s.drop_last(), id);
    }
}

/// Deleting by an id that exactly two tasks share removes both at once: the
/// store shrinks by exactly two and no task with that id is left.
pub proof fn lemma_delete_removes_both_duplicates(s: Seq<Task>, id: Seq<char>)
    requires
        with_id(s, id).len() == 2,
    ensures
        without_id(s, id).len() == s.len() - 2,
        forall|i: int| 0 <= i < without_id(s, id).len() ==> without_id(s, id)[i].id@ != id,
{
    lemma_id_partition(s, id);
    broadcast use vstd::seq_lib::group_filter_ensures;
}

} // verus!
