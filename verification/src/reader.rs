//! The reader capability.
//!
//! A `ChunkReader` stands for the exclusive claim on one response body's
//! reader. It records the two facts the adapter's protocol depends on:
//! whether the lock is still held, and whether a read is in flight. The host
//! glue pairs it with the real reader object and performs the host call
//! whenever a transition here says one is due.

use vstd::prelude::*;

verus! {

/// Exclusive capability over one locked reader.
///
/// At most one read may be outstanding at a time, and the lock is released
/// at most once: `release` reports the transition so the host release
/// operation is performed exactly on it.
#[derive(Debug)]
pub struct ChunkReader {
    locked: bool,
    in_flight: bool,
}

impl ChunkReader {
    /// Whether the lock on the underlying reader is still held.
    pub closed spec fn is_locked(&self) -> bool {
        self.locked
    }

    /// Whether a read is outstanding against the underlying reader.
    pub closed spec fn has_in_flight(&self) -> bool {
        self.in_flight
    }

    /// The reader after a release, and whether that release performs the
    /// host release operation.
    pub closed spec fn release_spec(&self) -> (ChunkReader, bool) {
        (ChunkReader { locked: false, in_flight: self.in_flight }, self.locked)
    }

    /// A freshly acquired reader: locked, with no read in flight.
    pub fn new() -> (r: Self)
        ensures
            r.is_locked(),
            !r.has_in_flight(),
    {
        ChunkReader { locked: true, in_flight: false }
    }

    /// Record that one read is issued. Never legal while another is
    /// outstanding, so two reads are never in flight at once.
    pub fn begin_read(&mut self)
        requires
            old(self).is_locked(),
            !old(self).has_in_flight(),
        ensures
            final(self).is_locked(),
            final(self).has_in_flight(),
    {
        self.in_flight = true;
    }

    /// Record that the outstanding read completed.
    pub fn complete_read(&mut self)
        requires
            old(self).has_in_flight(),
        ensures
            final(self).is_locked() == old(self).is_locked(),
            !final(self).has_in_flight(),
    {
        self.in_flight = false;
    }

    /// Give up the lock. Returns whether the host release operation must be
    /// performed now: `true` exactly on the transition from held to
    /// released, so releasing twice performs it only once.
    pub fn release(&mut self) -> (perform: bool)
        ensures
            (*final(self), perform) == old(self).release_spec(),
            !final(self).is_locked(),
            perform == old(self).is_locked(),
            final(self).has_in_flight() == old(self).has_in_flight(),
    {
        let was_locked = self.locked;
        self.locked = false;
        was_locked
    }

    /// Releasing an already-released reader is safely ignored: the second
    /// release performs no host operation and leaves the reader unchanged.
    pub proof fn lemma_release_idempotent(self)
        ensures
            !self.release_spec().0.is_locked(),
            self.release_spec().0.release_spec().1 == false,
            self.release_spec().0.release_spec().0 == self.release_spec().0,
    {
    }
}

} // verus!
