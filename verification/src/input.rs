//! The local input editor's line buffer: a character sequence bounded
//! to `INPUT_CAPACITY` characters, with append, backspace, commit, and
//! the sliding window shown on the input line.

use vstd::prelude::*;

verus! {

/// Hard bound on the number of characters a line under composition may
/// hold; keystrokes beyond it are ignored.
pub const INPUT_CAPACITY: usize = 128;

/// A line being composed. Its length never exceeds `INPUT_CAPACITY`,
/// however many keystrokes arrive.
pub struct InputBuffer {
    chars: Vec<char>,
}

impl View for InputBuffer {
    type V = Seq<char>;

    closed spec fn view(&self) -> Seq<char> {
        self.chars@
    }
}

/// Start of the window of `s` that stays visible in a region `width`
/// columns wide: the trailing `width - 4` characters, so the tail of
/// the buffer is always on screen.
pub open spec fn window_start(s: Seq<char>, width: nat) -> nat
    recommends
        width >= 4,
{
    if s.len() > width - 4 {
        (s.len() - (width - 4)) as nat
    } else {
        0
    }
}

/// The visible tail of `s` on an input line of a region `width`
/// columns wide.
pub open spec fn window_of(s: Seq<char>, width: nat) -> Seq<char>
    recommends
        width >= 4,
{
    s.subrange(window_start(s, width) as int, s.len() as int)
}

impl InputBuffer {
    /// The capacity bound, kept by every operation.
    pub open spec fn well_formed(self) -> bool {
        self@.len() <= INPUT_CAPACITY
    }

    pub fn new() -> (r: InputBuffer)
        ensures
            r@ == Seq::<char>::empty(),
            r.well_formed(),
    {
        InputBuffer { chars: Vec::new() }
    }

    pub fn len(&self) -> (n: usize)
        ensures
            n == self@.len(),
    {
        self.chars.len()
    }

    pub fn is_empty(&self) -> (b: bool)
        ensures
            b == (self@.len() == 0),
    {
        self.chars.len() == 0
    }

    /// Append one typed character, unless the buffer is already at
    /// capacity, in which case the keystroke is ignored. Returns
    /// whether the character was taken.
    pub fn push_char(&mut self, c: char) -> (taken: bool)
        ensures
            taken == (old(self)@.len() < INPUT_CAPACITY),
            taken ==> final(self)@ == old(self)@.push(c),
            !taken ==> final(self)@ == old(self)@,
            old(self).well_formed() ==> final(self).well_formed(),
    {
        if self.chars.len() < INPUT_CAPACITY {
            self.chars.push(c);
            true
        } else {
            false
        }
    }

    /// Erase the last character; on an empty buffer this is a no-op.
    /// Returns whether a character was removed.
    pub fn backspace(&mut self) -> (removed: bool)
        ensures
            removed == (old(self)@.len() > 0),
            removed ==> final(self)@ == old(self)@.drop_last(),
            !removed ==> final(self)@ == old(self)@,
            old(self).well_formed() ==> final(self).well_formed(),
    {
        if self.chars.len() > 0 {
            let _ = self.chars.pop();
            true
        } else {
            false
        }
    }

    /// Commit the composed line: the buffer's text plus the line
    /// terminator is handed out, and the buffer is cleared.
    pub fn commit(&mut self) -> (line: Vec<char>)
        requires
            old(self)@.len() > 0,
        ensures
            line@ == old(self)@.push('\n'),
            final(self)@ == Seq::<char>::empty(),
            final(self).well_formed(),
    {
        self.chars.push('\n');
        let mut line: Vec<char> = Vec::new();
        core::mem::swap(&mut line, &mut self.chars);
        line
    }

    /// The trailing `width - 4` characters of the buffer: what the
    /// input line shows after a redraw. The window never overflows
    /// the input box.
    pub fn visible_window(&self, width: u16) -> (w: Vec<char>)
        requires
            width >= 4,
        ensures
            w@ == window_of(self@, width as nat),
            w@.len() <= width - 4,
    {
        let start: usize = if self.chars.len() > (width - 4) as usize {
            self.chars.len() - (width - 4) as usize
        } else {
            0
        };
        let mut w: Vec<char> = Vec::new();
        let mut i: usize = start;
        while i < self.chars.len()
            invariant
                start <= i <= self.chars@.len(),
                w@ == self.chars@.subrange(start as int, i as int),
            decreases self.chars@.len() - i,
        {
            w.push(self.chars[i]);
            i = i + 1;
        }
        assert(w@ =~= window_of(self@, width as nat));
        w
    }
}

} // verus!
