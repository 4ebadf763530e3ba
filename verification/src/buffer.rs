//! The flag buffer: an append-only backlog of event records shared between
//! one producer and one consumer, drained in a single atomic exchange.
//!
//! The sequential operations `append_record` and `take_all` carry the exact
//! contracts; `FlagBuffer` runs them under a verified reader-writer lock, so
//! an append either lands wholly in the batch a concurrent drain returns or
//! wholly in the buffer left behind, never split, lost, or duplicated.

use vstd::prelude::*;
use vstd::rwlock::{RwLock, RwLockPredicate};
use crate::event_flag::EventFlag;

verus! {

/// The buffer after appending one record at the end.
pub open spec fn append_one(buffer: Seq<EventFlag>, record: EventFlag) -> Seq<EventFlag> {
    buffer.push(record)
}

/// What a drain returns: the whole buffer, in insertion order.
pub open spec fn drained_batch(buffer: Seq<EventFlag>) -> Seq<EventFlag> {
    buffer
}

/// What a drain leaves behind: an empty buffer.
pub open spec fn drained_buffer(buffer: Seq<EventFlag>) -> Seq<EventFlag> {
    Seq::empty()
}

/// Appends one record at the end of the backlog.
pub fn append_record(records: &mut Vec<EventFlag>, record: EventFlag)
    ensures
        final(records)@ == append_one(old(records)@, record),
{
    records.push(record);
}

/// Takes the whole backlog and resets it to empty in one step, returning
/// exactly what was taken.
pub fn take_all(records: &mut Vec<EventFlag>) -> (batch: Vec<EventFlag>)
    ensures
        batch@ == drained_batch(old(records)@),
        final(records)@ == drained_buffer(old(records)@),
{
    let mut batch: Vec<EventFlag> = Vec::new();
    core::mem::swap(records, &mut batch);
    batch
}

/// The lock invariant of a flag buffer: any backlog is a valid value, since
/// the buffer is unbounded and validates nothing.
pub struct FlagBufferPred {}

impl RwLockPredicate<Vec<EventFlag>> for FlagBufferPred {
    open spec fn inv(self, records: Vec<EventFlag>) -> bool {
        true
    }
}

/// A mutually-exclusive, append-only collection of event records. Share one
/// instance between the producer and the consumer; every access runs under
/// its lock, held only for the one insertion or the one exchange.
pub struct FlagBuffer {
    storage: RwLock<Vec<EventFlag>, FlagBufferPred>,
}

impl FlagBuffer {
    /// An empty buffer.
    pub fn new() -> FlagBuffer {
        FlagBuffer { storage: RwLock::new(Vec::new(), Ghost(FlagBufferPred {})) }
    }

    /// Appends one record, holding the lock for a single insertion.
    pub fn append(&self, record: EventFlag) {
        let (mut records, write_handle) = self.storage.acquire_write();
        append_record(&mut records, record);
        write_handle.release_write(records);
    }

    /// Atomically takes the entire backlog and resets the buffer to empty,
    /// returning exactly what was taken; the sole removal path.
    pub fn drain(&self) -> Vec<EventFlag> {
        let (mut records, write_handle) = self.storage.acquire_write();
        let batch = take_all(&mut records);
        write_handle.release_write(records);
        batch
    }
}

/// The capability of an entity that owns flag-polling state: hand out the
/// shared buffer, report a flag's current truth, and drain the backlog.
pub trait BufferedEventFlags {
    /// The shared, mutually-exclusive handle to the record backlog.
    fn access_flag_storage(&self) -> &FlagBuffer;

    /// The current, non-buffered boolean state of the named flag, sourced
    /// from whatever live state the implementing entity tracks; independent
    /// of the buffer and never blocked on its lock.
    fn get_event_flag_state(&self, event_flag: u32) -> bool;

    /// Atomically takes the whole backlog and resets the buffer to empty,
    /// returning exactly what was taken.
    fn get_buffered_flags(&mut self) -> Vec<EventFlag> {
        self.access_flag_storage().drain()
    }
}

} // verus!
