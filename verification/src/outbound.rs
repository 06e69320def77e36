//! The outbound queue: an unbounded FIFO of committed lines, produced
//! by the local input editor and drained by the peer line feed, one
//! line per tick, toward the connection.

use vstd::prelude::*;

verus! {

/// FIFO of committed lines awaiting transmission.
pub struct OutboundQueue {
    lines: Vec<Vec<char>>,
}

impl View for OutboundQueue {
    type V = Seq<Seq<char>>;

    closed spec fn view(&self) -> Seq<Seq<char>> {
        Seq::new(self.lines@.len(), |i: int| self.lines@[i]@)
    }
}

impl OutboundQueue {
    pub fn new() -> (r: OutboundQueue)
        ensures
            r@ == Seq::<Seq<char>>::empty(),
    {
        let r = OutboundQueue { lines: Vec::new() };
        assert(r@ =~= Seq::<Seq<char>>::empty());
        r
    }

    pub fn len(&self) -> (n: usize)
        ensures
            n == self@.len(),
    {
        self.lines.len()
    }

    /// Enqueue a committed line at the back.
    pub fn push_back(&mut self, line: Vec<char>)
        ensures
            final(self)@ == old(self)@.push(line@),
    {
        self.lines.push(line);
        assert(self@ =~= old(self)@.push(line@));
    }

    /// Dequeue the oldest line, if any: the queue hands lines out in
    /// the order they were committed.
    pub fn pop_front(&mut self) -> (r: Option<Vec<char>>)
        ensures
            old(self)@.len() == 0 ==> r is None && final(self)@ == old(self)@,
            old(self)@.len() > 0 ==> r is Some && r->0@ == old(self)@.first() && final(self)@
                == old(self)@.drop_first(),
    {
        if self.lines.len() == 0 {
            None
        } else {
            let line = self.lines.remove(0);
            assert(self@ =~= old(self)@.drop_first());
            Some(line)
        }
    }
}

} // verus!
