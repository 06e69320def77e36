//! One direction of the row-cursor channel pair: a single-value relay
//! carrying "next free row" updates from one worker to the other.
//! A newer value supersedes an unread one — last write wins — and a
//! receive drains the cell, so a value is adopted at most once.

use vstd::prelude::*;

verus! {

/// A single-value relay cell for row-cursor updates. Its view is the
/// update currently in flight, if any.
pub struct CursorRelay {
    pending: Option<u16>,
}

impl View for CursorRelay {
    type V = Option<u16>;

    closed spec fn view(&self) -> Option<u16> {
        self.pending
    }
}

impl CursorRelay {
    /// An empty relay: nothing in flight.
    pub fn new() -> (r: CursorRelay)
        ensures
            r@ is None,
    {
        CursorRelay { pending: None }
    }

    /// Send a cursor update. Whatever was in flight is superseded:
    /// the receiver only ever adopts the most recent value.
    pub fn send(&mut self, v: u16)
        ensures
            final(self)@ == Some(v),
    {
        self.pending = Some(v);
    }

    /// Receive the update in flight, if any, draining the cell.
    pub fn take(&mut self) -> (r: Option<u16>)
        ensures
            r == old(self)@,
            final(self)@ is None,
    {
        let r = self.pending;
        self.pending = None;
        r
    }
}

} // verus!
