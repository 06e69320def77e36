//! The peer line feed: the background worker's per-tick decisions.
//! Each tick it first adopts the latest row-cursor update from the
//! local input editor (last-write-wins), then renders at most one
//! complete incoming line into the region, and drains at most one
//! committed line from the outbound queue toward the connection.

use crate::outbound::OutboundQueue;
use crate::region::Region;
use crate::render::{pad_to_border, peer_message, peer_message_spec, peer_visible_len_spec};
use crate::session::LineRender;
use vstd::prelude::*;

verus! {

/// The background worker's state: the region it draws into, its row
/// cursor, and the peer's display name used as the sender tag.
pub struct PeerFeed {
    pub region: Region,
    pub cursor: u16,
    pub name: Vec<char>,
}

/// What one peer-feed tick decided.
pub struct PeerTick {
    /// A formatted peer line to draw into the region, and to follow
    /// with a cursor propagation or a scroll per its placement.
    pub rendered: Option<LineRender>,
    /// The oldest committed line, to write to the connection this
    /// tick. A failing write ends the background worker; that outcome
    /// belongs to the connection layer.
    pub transmit: Option<Vec<char>>,
}

impl PeerFeed {
    pub open spec fn well_formed(self) -> bool {
        &&& self.region.well_formed()
        &&& self.region.valid_row(self.cursor)
    }

    pub fn new(region: Region, name: Vec<char>) -> (r: PeerFeed)
        requires
            region.well_formed(),
        ensures
            r.region == region,
            r.cursor == 1u16,
            r.name == name,
            r.well_formed(),
    {
        PeerFeed { region, cursor: 1, name }
    }

    /// One tick of the peer-feed loop. `update` is the row-cursor
    /// value received from the editor this tick, if any; it overwrites
    /// the local cursor before any rendering decision is made. `line`
    /// is one complete newline-terminated line read from the
    /// connection this tick, if any; a partial or absent line is
    /// simply no line this tick.
    ///
    /// An incoming line's row span is measured on the columns the
    /// formatted message occupies on screen: the trimmed sender tag
    /// and text count, the color escapes around the tag do not.
    pub fn tick(&mut self, queue: &mut OutboundQueue, update: Option<u16>, line: Option<
        Vec<char>,
    >) -> (r: PeerTick)
        requires
            old(self).well_formed(),
            update is Some ==> old(self).region.valid_row(update->0),
        ensures
            final(self).well_formed(),
            final(self).region == old(self).region,
            final(self).name == old(self).name,
            ({
                let u: u16 = if update is Some {
                    update->0
                } else {
                    old(self).cursor
                };
                let region = old(self).region;
                &&& (match line {
                    None => r.rendered is None && final(self).cursor == u,
                    Some(l) => {
                        let msg = peer_message_spec(old(self).name@, l@);
                        let visible = peer_visible_len_spec(old(self).name@, l@);
                        &&& r.rendered matches Some(c) && c.decided(region, u, msg, visible, visible)
                        &&& final(self).cursor == region.place_spec(u, visible).next
                    },
                })
                &&& (if old(queue)@.len() > 0 {
                    &&& r.transmit matches Some(t) && t@ == old(queue)@.first()
                    &&& final(queue)@ == old(queue)@.drop_first()
                } else {
                    &&& r.transmit is None
                    &&& final(queue)@ == old(queue)@
                })
            }),
    {
        if let Some(v) = update {
            self.cursor = v;
        }
        let rendered = match line {
            None => None,
            Some(l) => {
                let msg = peer_message(&self.name, &l);
                // the nine escape characters occupy no columns
                let visible = msg.len() - 9;
                let p = self.region.place(self.cursor, visible);
                let text = if p.scrolled {
                    pad_to_border(&msg, visible, self.region.width)
                } else {
                    msg
                };
                self.cursor = p.next;
                Some(LineRender { place: p, text })
            },
        };
        let transmit = queue.pop_front();
        PeerTick { rendered, transmit }
    }
}

} // verus!
