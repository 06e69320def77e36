//! The session's general guarantees, stated once over the spec-level
//! models that the executable contracts are written against.

use crate::editor::buffer_after_key;
use crate::input::INPUT_CAPACITY;
use crate::region::{row_span, Region};
use crate::session::Key;
use vstd::prelude::*;

verus! {

/// A keystroke sequence folded over the composed line, one event at a
/// time, exactly as `Editor::tick` evolves the buffer.
pub open spec fn buffer_after_keys(s: Seq<char>, ks: Seq<Key>) -> Seq<char>
    decreases ks.len(),
{
    if ks.len() == 0 {
        s
    } else {
        buffer_after_keys(buffer_after_key(s, ks.first()), ks.drop_first())
    }
}

/// One keyboard event never takes the composed line past its
/// capacity: a character is only appended while the buffer is under
/// the bound, and every other event shrinks or keeps it.
pub proof fn lemma_key_keeps_capacity(s: Seq<char>, k: Key)
    requires
        s.len() <= INPUT_CAPACITY,
    ensures
        buffer_after_key(s, k).len() <= INPUT_CAPACITY,
{
}

/// The input buffer's length never exceeds its capacity, regardless
/// of how many keystrokes arrive: any keystroke sequence applied to a
/// line within the bound leaves it within the bound.
pub proof fn lemma_keystrokes_never_exceed_capacity(s: Seq<char>, ks: Seq<Key>)
    requires
        s.len() <= INPUT_CAPACITY,
    ensures
        buffer_after_keys(s, ks).len() <= INPUT_CAPACITY,
    decreases ks.len(),
{
    if ks.len() > 0 {
        lemma_key_keeps_capacity(s, ks.first());
        lemma_keystrokes_never_exceed_capacity(buffer_after_key(s, ks.first()), ks.drop_first());
    }
}

/// The scroll policy triggers exactly when, and only when, the
/// computed next row would exceed the region's height; after a scroll
/// the cursor equals the height, and otherwise the cursor advances by
/// the line's exact row span and stays inside the region.
pub proof fn lemma_scroll_iff_overflow(region: Region, cursor: u16, len: nat)
    requires
        region.well_formed(),
        region.valid_row(cursor),
    ensures
        region.place_spec(cursor, len).scrolled <==> cursor + row_span(len, region.width as nat)
            > region.height,
        region.place_spec(cursor, len).scrolled ==> region.place_spec(cursor, len).next
            == region.height,
        !region.place_spec(cursor, len).scrolled ==> region.place_spec(cursor, len).next == cursor
            + row_span(len, region.width as nat),
        region.valid_row(region.place_spec(cursor, len).next),
{
}

/// Every rendered line is drawn at the tracked cursor and advances it
/// by exactly `1 + floor(len / width)` rows when no scroll intervenes.
pub proof fn lemma_cursor_advance(region: Region, cursor: u16, len: nat)
    requires
        region.well_formed(),
        region.valid_row(cursor),
        cursor + row_span(len, region.width as nat) <= region.height,
    ensures
        region.place_spec(cursor, len).row == cursor,
        region.place_spec(cursor, len).next == cursor + 1 + len / (region.width as nat),
        !region.place_spec(cursor, len).scrolled,
{
}

} // verus!
