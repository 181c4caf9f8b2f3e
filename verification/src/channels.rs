use vstd::prelude::*;

use bytes::Bytes;

verus! {

/// Builds a channel table of `count` empty queues, one per channel id.
pub(crate) fn make_queues(count: usize) -> (result: Vec<Vec<Bytes>>)
    ensures
        result@.len() == count,
        forall|ch: int| 0 <= ch < count ==> result@[ch]@.len() == 0,
{
    let mut queues: Vec<Vec<Bytes>> = Vec::new();
    let mut i: usize = 0;
    while i < count
        invariant
            i <= count,
            queues@.len() == i,
            forall|ch: int| 0 <= ch < i ==> queues@[ch]@.len() == 0,
        decreases count - i,
    {
        queues.push(Vec::new());
        i = i + 1;
    }
    queues
}

/// Empties every queue of a channel table in place, keeping the table's
/// size, so the channel setup survives a disconnect.
pub(crate) fn clear_queues(queues: &mut Vec<Vec<Bytes>>)
    ensures
        final(queues)@.len() == old(queues)@.len(),
        forall|ch: int| 0 <= ch < final(queues)@.len() ==> final(queues)@[ch]@.len() == 0,
{
    let count: usize = queues.len();
    let mut i: usize = 0;
    while i < count
        invariant
            i <= count,
            queues@.len() == count,
            forall|ch: int| 0 <= ch < i ==> queues@[ch]@.len() == 0,
        decreases count - i,
    {
        let queue = &mut queues[i];
        queue.clear();
        i = i + 1;
    }
}

} // verus!
