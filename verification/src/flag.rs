//! The shared cancellation flag.
//!
//! The adapter and a companion task handle jointly observe one boolean: while
//! it is set the adapter may issue reads; once cleared, the adapter
//! short-circuits the next poll with a cancellation error. The flag is also
//! cleared by the adapter itself on natural completion, so that a late
//! external cancel cannot act on a finished resource. The host glue holds the
//! flag in a same-thread shared cell and hands a reference into each poll.

use vstd::prelude::*;

verus! {

/// A boolean cancellation signal, observed lazily at each poll boundary.
#[derive(Debug, Clone)]
pub struct CancellationFlag {
    active: bool,
}

impl CancellationFlag {
    /// The abstract value of the flag: `true` while the sequence may go on.
    pub closed spec fn view(&self) -> bool {
        self.active
    }

    /// A fresh flag with the given initial value.
    pub fn new(active: bool) -> (r: Self)
        ensures
            r@ == active,
    {
        CancellationFlag { active }
    }

    /// Whether the sequence is still allowed to issue reads.
    pub fn is_active(&self) -> (r: bool)
        ensures
            r == self@,
    {
        self.active
    }

    /// Request cancellation (or record natural completion): clears the flag.
    pub fn clear(&mut self)
        ensures
            !final(self)@,
    {
        self.active = false;
    }
}

} // verus!
