//! The local input editor: the foreground worker's per-tick decisions.
//! Each tick it first adopts the latest row-cursor update from the
//! peer line feed (last-write-wins), then reacts to at most one
//! keyboard event: editing the bounded buffer, committing a line into
//! the region and onto the outbound queue, or ending the session.

use crate::input::{window_of, InputBuffer, INPUT_CAPACITY};
use crate::outbound::OutboundQueue;
use crate::region::Region;
use crate::render::{local_echo, local_echo_spec, pad_to_border};
use crate::session::{Key, LineRender};
use vstd::prelude::*;

verus! {

/// How one keyboard event changes the composed line: a character is
/// appended while the buffer is under capacity, backspace drops the
/// last character of a non-empty buffer, enter clears a non-empty
/// buffer by committing it, and everything else leaves it alone.
pub open spec fn buffer_after_key(s: Seq<char>, k: Key) -> Seq<char> {
    match k {
        Key::Char(c) => if s.len() < INPUT_CAPACITY {
            s.push(c)
        } else {
            s
        },
        Key::Backspace => if s.len() > 0 {
            s.drop_last()
        } else {
            s
        },
        Key::Enter => if s.len() > 0 {
            Seq::empty()
        } else {
            s
        },
        Key::Escape => s,
        Key::Other => s,
    }
}

/// The foreground worker's state: the region it draws into, its row
/// cursor, and the line under composition.
pub struct Editor {
    pub region: Region,
    pub cursor: u16,
    pub buffer: InputBuffer,
}

/// What one editor tick asks the drawing layer to do.
pub struct EditorTick {
    /// The session is over (escape was pressed); nothing is drawn and
    /// nothing is flushed.
    pub end_session: bool,
    /// Redraw the input line with this text: the visible tail of the
    /// buffer after a character was typed.
    pub redraw_input: Option<Vec<char>>,
    /// Erase the last echoed character in place (backspace on a
    /// non-empty buffer).
    pub erase_one: bool,
    /// A committed line to draw into the region, and to follow with a
    /// cursor propagation or a scroll per its placement.
    pub committed: Option<LineRender>,
}

impl Editor {
    pub open spec fn well_formed(self) -> bool {
        &&& self.region.well_formed()
        &&& self.region.valid_row(self.cursor)
        &&& self.buffer.well_formed()
    }

    pub fn new(region: Region) -> (r: Editor)
        requires
            region.well_formed(),
        ensures
            r.region == region,
            r.cursor == 1u16,
            r.buffer@ == Seq::<char>::empty(),
            r.well_formed(),
    {
        Editor { region, cursor: 1, buffer: InputBuffer::new() }
    }

    /// One tick of the editor loop. `update` is the row-cursor value
    /// received from the peer line feed this tick, if any; it
    /// overwrites the local cursor before any rendering decision is
    /// made. `key` is the keyboard event polled within the tick
    /// window, if any.
    ///
    /// A committed line's row span is measured on the line itself —
    /// its text plus the terminator, what goes on the wire — not on
    /// the two-character echo prefix added for display.
    pub fn tick(&mut self, queue: &mut OutboundQueue, update: Option<u16>, key: Option<Key>) -> (r:
        EditorTick)
        requires
            old(self).well_formed(),
            update is Some ==> old(self).region.valid_row(update->0),
        ensures
            final(self).well_formed(),
            final(self).region == old(self).region,
            ({
                let u: u16 = if update is Some {
                    update->0
                } else {
                    old(self).cursor
                };
                let s0 = old(self).buffer@;
                let region = old(self).region;
                &&& (match key {
                    None => final(self).buffer@ == s0,
                    Some(k) => final(self).buffer@ == buffer_after_key(s0, k),
                })
                &&& (r.end_session <==> key matches Some(Key::Escape))
                &&& (if key matches Some(Key::Enter) && s0.len() > 0 {
                    let line = s0.push('\n');
                    &&& final(queue)@ == old(queue)@.push(line)
                    &&& r.committed matches Some(c) && c.decided(
                        region,
                        u,
                        local_echo_spec(line),
                        line.len(),
                        local_echo_spec(line).len(),
                    )
                    &&& final(self).cursor == region.place_spec(u, line.len()).next
                } else {
                    &&& final(queue)@ == old(queue)@
                    &&& r.committed is None
                    &&& final(self).cursor == u
                })
                &&& (match key {
                    Some(Key::Char(c)) => r.redraw_input matches Some(w) && w@ == window_of(
                        final(self).buffer@,
                        region.width as nat,
                    ),
                    _ => r.redraw_input is None,
                })
                &&& (r.erase_one <==> (key matches Some(Key::Backspace) && s0.len() > 0))
            }),
    {
        if let Some(v) = update {
            self.cursor = v;
        }
        match key {
            None => EditorTick {
                end_session: false,
                redraw_input: None,
                erase_one: false,
                committed: None,
            },
            Some(Key::Char(c)) => {
                let _ = self.buffer.push_char(c);
                let win = self.buffer.visible_window(self.region.width);
                EditorTick {
                    end_session: false,
                    redraw_input: Some(win),
                    erase_one: false,
                    committed: None,
                }
            },
            Some(Key::Backspace) => {
                let removed = self.buffer.backspace();
                EditorTick {
                    end_session: false,
                    redraw_input: None,
                    erase_one: removed,
                    committed: None,
                }
            },
            Some(Key::Enter) => {
                if self.buffer.is_empty() {
                    EditorTick {
                        end_session: false,
                        redraw_input: None,
                        erase_one: false,
                        committed: None,
                    }
                } else {
                    let line = self.buffer.commit();
                    let echo = local_echo(&line);
                    let p = self.region.place(self.cursor, line.len());
                    let text = if p.scrolled {
                        let visible = echo.len();
                        pad_to_border(&echo, visible, self.region.width)
                    } else {
                        echo
                    };
                    queue.push_back(line);
                    self.cursor = p.next;
                    EditorTick {
                        end_session: false,
                        redraw_input: None,
                        erase_one: false,
                        committed: Some(LineRender { place: p, text }),
                    }
                }
            },
            Some(Key::Escape) => EditorTick {
                end_session: true,
                redraw_input: None,
                erase_one: false,
                committed: None,
            },
            Some(Key::Other) => EditorTick {
                end_session: false,
                redraw_input: None,
                erase_one: false,
                committed: None,
            },
        }
    }
}

} // verus!
