//! Values exchanged between the session's two workers and the drawing
//! layer: the recognized keyboard events, and a fully decided line
//! render (where to draw, what to draw, whether the region scrolled).

use crate::region::{Placement, Region};
use crate::render::scroll_text_spec;
use vstd::prelude::*;

verus! {

/// The editing events the local input editor recognizes; every other
/// keyboard event is `Other` and is ignored.
#[derive(Clone, Copy)]
pub enum Key {
    Char(char),
    Backspace,
    Enter,
    Escape,
    Other,
}

/// A line append, fully decided: the placement (row drawn at, new
/// cursor, scroll flag) and the exact characters to draw. When
/// `place.scrolled`, the text is already padded to the border and the
/// drawing layer must scroll up one row and redraw the frame.
pub struct LineRender {
    pub place: Placement,
    pub text: Vec<char>,
}

impl LineRender {
    /// The cursor value to hand to the other side after this render,
    /// exactly when no scroll happened.
    pub open spec fn propagate_spec(self) -> Option<u16> {
        self.place.propagated_spec()
    }

    pub fn propagate(&self) -> (r: Option<u16>)
        ensures
            r == self.propagate_spec(),
    {
        self.place.propagated()
    }

    /// A render decided for region `region` with the cursor at
    /// `cursor`, for a line displayed as `text`: `span_len` is the
    /// length the row-span computation measures, and `visible` the
    /// number of columns the text occupies, which the scroll padding
    /// fills to the border.
    pub open spec fn decided(
        self,
        region: Region,
        cursor: u16,
        text: Seq<char>,
        span_len: nat,
        visible: nat,
    ) -> bool {
        &&& self.place == region.place_spec(cursor, span_len)
        &&& self.text@ == scroll_text_spec(text, visible, region.width as nat, self.place.scrolled)
    }
}

} // verus!
