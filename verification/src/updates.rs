//! Polling Telegram for updates.
use vstd::prelude::*;

verus! {

/// The offset to poll from after the update `id` is seen at `offset`: past
/// the update when it is at or after the offset, else unchanged.
pub open spec fn offset_after(offset: int, id: int) -> int {
    if id >= offset {
        id + 1
    } else {
        offset
    }
}

/// The offset to poll from after the updates `ids` are seen in turn,
/// starting at `offset`.
pub open spec fn offset_after_all(offset: int, ids: Seq<i32>) -> int
    decreases ids.len(),
{
    if ids.len() == 0 {
        offset
    } else {
        offset_after(offset_after_all(offset, ids.drop_last()), ids.last() as int)
    }
}

/// The offset to poll from after an update is seen: past the update when it
/// is at or after the current offset, else unchanged.
pub fn next_offset(offset: i32, update_id: i32) -> (r: i32)
    requires
        update_id >= offset ==> update_id < i32::MAX,
    ensures
        r == offset_after(offset as int, update_id as int),
{
    if update_id >= offset {
        update_id + 1
    } else {
        offset
    }
}

/// After a batch of updates the offset is the greatest of the old offset and
/// each update's id plus one: it never decreases, it is past every update of
/// the batch, and it is either the old offset or just past one of them.
pub proof fn lemma_offset_after_all(offset: int, ids: Seq<i32>)
    ensures
        offset_after_all(offset, ids) >= offset,
        forall|i: int| 0 <= i < ids.len() ==> offset_after_all(offset, ids) >= ids[i] + 1,
        offset_after_all(offset, ids) == offset
            || exists|i: int| 0 <= i < ids.len() && offset_after_all(offset, ids) == ids[i] + 1,
    decreases ids.len(),
{
    if ids.len() > 0 {
        let init = ids.drop_last();
        lemma_offset_after_all(offset, init);
        let before = offset_after_all(offset, init);
        let last = ids.len() - 1;
        assert forall|i: int| 0 <= i < ids.len() implies offset_after_all(offset, ids) >= ids[i] + 1 by {
            if i < last {
                assert(init[i] == ids[i]);
            }
        }
        if offset_after_all(offset, ids) != offset {
            if ids[last] >= before {
                assert(offset_after_all(offset, ids) == ids[last] + 1);
            } else {
                let j = choose|j: int| 0 <= j < init.len() && before == init[j] + 1;
                assert(ids[j] == init[j]);
            }
        }
    }
}

} // verus!
