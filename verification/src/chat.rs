//! The whole chat session, wired together: the local input editor and
//! the peer line feed, the row-cursor relay pair between them, and the
//! outbound queue. Each worker's step first drains its relay, then
//! ticks, then hands any advanced cursor to the other side — the full
//! "next free row" handoff of the session, as one sequential model.

use crate::editor::{buffer_after_key, Editor, EditorTick};
use crate::input::window_of;
use crate::outbound::OutboundQueue;
use crate::peer::{PeerFeed, PeerTick};
use crate::region::Region;
use crate::relay::CursorRelay;
use crate::render::{local_echo_spec, peer_message_spec, peer_visible_len_spec};
use crate::session::Key;
use vstd::prelude::*;

verus! {

/// A running session: two workers, the relay pair, and the FIFO of
/// committed lines between them.
pub struct ChatSession {
    pub editor: Editor,
    pub feed: PeerFeed,
    /// Cursor updates travelling from the peer line feed to the
    /// editor.
    pub to_editor: CursorRelay,
    /// Cursor updates travelling from the editor to the peer line
    /// feed.
    pub to_feed: CursorRelay,
    pub outbound: OutboundQueue,
}

impl ChatSession {
    /// Both workers draw into the same region, and every update in
    /// flight names a legal row of it.
    pub open spec fn well_formed(self) -> bool {
        &&& self.editor.well_formed()
        &&& self.feed.well_formed()
        &&& self.feed.region == self.editor.region
        &&& (self.to_editor@ is Some ==> self.editor.region.valid_row(self.to_editor@->0))
        &&& (self.to_feed@ is Some ==> self.editor.region.valid_row(self.to_feed@->0))
    }

    /// A fresh session over an empty region: both cursors at the top
    /// row, nothing in flight, nothing queued.
    pub fn new(region: Region, peer_name: Vec<char>) -> (r: ChatSession)
        requires
            region.well_formed(),
        ensures
            r.well_formed(),
            r.editor.region == region,
            r.editor.cursor == 1u16,
            r.editor.buffer@ == Seq::<char>::empty(),
            r.feed.cursor == 1u16,
            r.feed.name == peer_name,
            r.to_editor@ is None,
            r.to_feed@ is None,
            r.outbound@ == Seq::<Seq<char>>::empty(),
    {
        ChatSession {
            editor: Editor::new(region),
            feed: PeerFeed::new(region, peer_name),
            to_editor: CursorRelay::new(),
            to_feed: CursorRelay::new(),
            outbound: OutboundQueue::new(),
        }
    }

    /// One tick of the foreground worker: drain the relay from the
    /// peer line feed, react to at most one keyboard event, and hand
    /// an advanced cursor back — unless a scroll reset the frame of
    /// reference, in which case nothing is sent.
    pub fn editor_step(&mut self, key: Option<Key>) -> (r: EditorTick)
        requires
            old(self).well_formed(),
        ensures
            final(self).well_formed(),
            final(self).editor.region == old(self).editor.region,
            final(self).feed == old(self).feed,
            final(self).to_editor@ is None,
            ({
                let u: u16 = if old(self).to_editor@ is Some {
                    old(self).to_editor@->0
                } else {
                    old(self).editor.cursor
                };
                let s0 = old(self).editor.buffer@;
                let region = old(self).editor.region;
                &&& (match key {
                    None => final(self).editor.buffer@ == s0,
                    Some(k) => final(self).editor.buffer@ == buffer_after_key(s0, k),
                })
                &&& (r.end_session <==> key matches Some(Key::Escape))
                &&& (if key matches Some(Key::Enter) && s0.len() > 0 {
                    let line = s0.push('\n');
                    let p = region.place_spec(u, line.len());
                    &&& final(self).outbound@ == old(self).outbound@.push(line)
                    &&& r.committed matches Some(c) && c.decided(
                        region,
                        u,
                        local_echo_spec(line),
                        line.len(),
                        local_echo_spec(line).len(),
                    )
                    &&& final(self).editor.cursor == p.next
                    &&& final(self).to_feed@ == (if p.scrolled {
                        old(self).to_feed@
                    } else {
                        Some(p.next)
                    })
                } else {
                    &&& final(self).outbound@ == old(self).outbound@
                    &&& r.committed is None
                    &&& final(self).editor.cursor == u
                    &&& final(self).to_feed@ == old(self).to_feed@
                })
                &&& (match key {
                    Some(Key::Char(c)) => r.redraw_input matches Some(w) && w@ == window_of(
                        final(self).editor.buffer@,
                        region.width as nat,
                    ),
                    _ => r.redraw_input is None,
                })
                &&& (r.erase_one <==> (key matches Some(Key::Backspace) && s0.len() > 0))
            }),
    {
        let update = self.to_editor.take();
        let r = self.editor.tick(&mut self.outbound, update, key);
        if let Some(c) = &r.committed {
            if let Some(v) = c.propagate() {
                self.to_feed.send(v);
            }
        }
        r
    }

    /// One tick of the background worker: drain the relay from the
    /// editor, render at most one complete incoming line, drain at
    /// most one committed line toward the connection, and hand an
    /// advanced cursor back unless a scroll reset the frame of
    /// reference.
    pub fn feed_step(&mut self, line: Option<Vec<char>>) -> (r: PeerTick)
        requires
            old(self).well_formed(),
        ensures
            final(self).well_formed(),
            final(self).editor == old(self).editor,
            final(self).feed.region == old(self).feed.region,
            final(self).feed.name == old(self).feed.name,
            final(self).to_feed@ is None,
            ({
                let u: u16 = if old(self).to_feed@ is Some {
                    old(self).to_feed@->0
                } else {
                    old(self).feed.cursor
                };
                let region = old(self).feed.region;
                &&& (match line {
                    None => {
                        &&& r.rendered is None
                        &&& final(self).feed.cursor == u
                        &&& final(self).to_editor@ == old(self).to_editor@
                    },
                    Some(l) => {
                        let msg = peer_message_spec(old(self).feed.name@, l@);
                        let visible = peer_visible_len_spec(old(self).feed.name@, l@);
                        let p = region.place_spec(u, visible);
                        &&& r.rendered matches Some(c) && c.decided(region, u, msg, visible, visible)
                        &&& final(self).feed.cursor == p.next
                        &&& final(self).to_editor@ == (if p.scrolled {
                            old(self).to_editor@
                        } else {
                            Some(p.next)
                        })
                    },
                })
                &&& (if old(self).outbound@.len() > 0 {
                    &&& r.transmit matches Some(t) && t@ == old(self).outbound@.first()
                    &&& final(self).outbound@ == old(self).outbound@.drop_first()
                } else {
                    &&& r.transmit is None
                    &&& final(self).outbound@ == old(self).outbound@
                })
            }),
    {
        let update = self.to_feed.take();
        let r = self.feed.tick(&mut self.outbound, update, line);
        if let Some(c) = &r.rendered {
            if let Some(v) = c.propagate() {
                self.to_editor.send(v);
            }
        }
        r
    }
}

} // verus!
