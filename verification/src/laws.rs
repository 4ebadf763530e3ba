//! Laws of the buffer protocol, stated over the spec functions that the
//! contracts of `append_record` and `take_all` use: `append_one`,
//! `drained_batch` and `drained_buffer`.

use vstd::prelude::*;
use crate::buffer::{append_one, drained_batch, drained_buffer};
use crate::event_flag::EventFlag;

verus! {

/// The buffer after appending each of `records` in order, one at a time.
pub open spec fn append_sequence(buffer: Seq<EventFlag>, records: Seq<EventFlag>) -> Seq<EventFlag>
    decreases records.len(),
{
    if records.len() == 0 {
        buffer
    } else {
        append_sequence(append_one(buffer, records[0]), records.drop_first())
    }
}

/// Appending records one at a time concatenates them after the buffer.
pub proof fn lemma_append_sequence_concat(buffer: Seq<EventFlag>, records: Seq<EventFlag>)
    ensures
        append_sequence(buffer, records) == buffer + records,
    decreases records.len(),
{
    if records.len() == 0 {
        assert(buffer + records =~= buffer);
    } else {
        lemma_append_sequence_concat(append_one(buffer, records[0]), records.drop_first());
        assert(buffer.push(records[0]) + records.drop_first() =~= buffer + records);
    }
}

/// Drain completeness: after any sequence of appends into an empty buffer,
/// one drain returns exactly those records, in append order, and leaves the
/// buffer empty.
pub proof fn lemma_drain_completeness(records: Seq<EventFlag>)
    ensures
        drained_batch(append_sequence(Seq::empty(), records)) == records,
        drained_buffer(append_sequence(Seq::empty(), records)) == Seq::<EventFlag>::empty(),
{
    lemma_append_sequence_concat(Seq::empty(), records);
    assert(Seq::empty() + records =~= records);
}

/// Drain isolation: a drain returns exactly what was appended before it;
/// records appended after it land in the buffer the drain left empty, so
/// they appear only in the next drain's batch, never in the earlier one.
pub proof fn lemma_drain_isolation(earlier: Seq<EventFlag>, later: Seq<EventFlag>)
    ensures
        drained_batch(append_sequence(Seq::empty(), earlier)) == earlier,
        drained_batch(
            append_sequence(drained_buffer(append_sequence(Seq::empty(), earlier)), later),
        ) == later,
{
    lemma_drain_completeness(earlier);
    lemma_drain_completeness(later);
}

/// No loss under concurrency: the lock serializes every append against the
/// drain's single atomic exchange, so the records appended while a drain is
/// in progress split into those that land before the exchange and those that
/// land after. The former appear wholly in the drained batch, after the
/// records the buffer already held; the latter appear wholly in the buffer
/// left behind; each appended record thus appears in exactly one of the two,
/// exactly once, in append order.
pub proof fn lemma_no_loss_under_concurrency(
    initial: Seq<EventFlag>,
    before: Seq<EventFlag>,
    after: Seq<EventFlag>,
)
    ensures
        ({
            let batch = drained_batch(append_sequence(initial, before));
            let remainder = append_sequence(
                drained_buffer(append_sequence(initial, before)),
                after,
            );
            &&& batch == initial + before
            &&& remainder == after
            &&& forall|i: int|
                0 <= i < before.len() ==> batch[initial.len() + i] == before[i]
            &&& forall|i: int| 0 <= i < after.len() ==> remainder[i] == after[i]
            &&& batch.len() + remainder.len() == initial.len() + before.len() + after.len()
        }),
{
    lemma_append_sequence_concat(initial, before);
    lemma_drain_completeness(after);
}

/// Idempotent empty drain: draining an empty buffer returns an empty batch
/// and leaves the buffer empty.
pub proof fn lemma_idempotent_empty_drain()
    ensures
        drained_batch(Seq::<EventFlag>::empty()) == Seq::<EventFlag>::empty(),
        drained_buffer(Seq::<EventFlag>::empty()) == Seq::<EventFlag>::empty(),
{
}

} // verus!
