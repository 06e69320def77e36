//! The scroll region: a bordered rectangle of `width` columns and
//! `height` text rows, with the row-cursor arithmetic and the scroll
//! policy that decide where each appended line is drawn.

use vstd::prelude::*;

verus! {

/// Number of rows a rendered line of `len` characters occupies in a
/// region `width` columns wide: one row plus one more for each full
/// `width` of overflow.
pub open spec fn row_span(len: nat, width: nat) -> nat
    recommends
        width > 0,
{
    1 + len / width
}

/// Geometry of the chat region. `height` counts the writable text rows
/// inside the border; rows are numbered 1 through `height`.
#[derive(Clone, Copy, PartialEq, Eq, Structural)]
pub struct Region {
    pub width: u16,
    pub height: u16,
}

/// Where a line was placed and what the cursor became.
#[derive(Clone, Copy, PartialEq, Eq, Structural)]
pub struct Placement {
    /// Row at which the line is drawn: the cursor value before the line
    /// was appended.
    pub row: u16,
    /// The cursor after the line: the next free row, clamped to
    /// `height` when the scroll policy ran.
    pub next: u16,
    /// True exactly when the computed next row would have exceeded
    /// `height`, so the region scrolled up one row and the frame must
    /// be redrawn.
    pub scrolled: bool,
}

impl Placement {
    /// The cursor value to hand to the other side, exactly when no
    /// scroll happened: after a scroll both sides' frame of reference
    /// resets, so nothing is sent.
    pub open spec fn propagated_spec(self) -> Option<u16> {
        if self.scrolled {
            None
        } else {
            Some(self.next)
        }
    }

    pub fn propagated(&self) -> (r: Option<u16>)
        ensures
            r == self.propagated_spec(),
    {
        if self.scrolled {
            None
        } else {
            Some(self.next)
        }
    }
}

impl Region {
    /// The smallest geometry the frame drawing supports: the longest
    /// border caption needs 18 columns.
    pub open spec fn well_formed(self) -> bool {
        18 <= self.width && 1 <= self.height
    }

    /// A legal cursor value for this region.
    pub open spec fn valid_row(self, row: u16) -> bool {
        1 <= row <= self.height
    }

    pub fn new(width: u16, height: u16) -> (r: Region)
        requires
            18 <= width,
            1 <= height,
        ensures
            r == (Region { width, height }),
            r.well_formed(),
    {
        Region { width, height }
    }

    /// What `place` returns: the line is drawn at `cursor`, and the
    /// cursor advances by the line's row span, or the scroll policy
    /// clamps it to the bottom row.
    pub open spec fn place_spec(self, cursor: u16, len: nat) -> Placement
        recommends
            self.well_formed(),
            self.valid_row(cursor),
    {
        let span = row_span(len, self.width as nat);
        if cursor + span > self.height {
            Placement { row: cursor, next: self.height, scrolled: true }
        } else {
            Placement { row: cursor, next: (cursor + span) as u16, scrolled: false }
        }
    }

    /// Append a line of `len` characters at the current cursor: the
    /// line is drawn at `cursor`, and the cursor advances by the line's
    /// row span, or the scroll policy clamps it to the bottom row.
    ///
    /// The placement propagates to the other side exactly when no
    /// scroll happened (`!p.scrolled`): after a scroll both sides'
    /// frame of reference resets, so the clamped value is not sent.
    pub fn place(&self, cursor: u16, len: usize) -> (p: Placement)
        requires
            self.well_formed(),
            self.valid_row(cursor),
        ensures
            p == self.place_spec(cursor, len as nat),
            p.row == cursor,
            self.valid_row(p.next),
            p.scrolled <==> cursor + row_span(len as nat, self.width as nat) > self.height,
            p.scrolled ==> p.next == self.height,
            !p.scrolled ==> p.next == cursor + row_span(len as nat, self.width as nat),
    {
        let w: usize = self.width as usize;
        assert(len / w <= len / 2) by (nonlinear_arith)
            requires
                w >= 2,
        ;
        let span: usize = 1 + len / w;
        let next_raw: usize = cursor as usize + span;
        if next_raw > self.height as usize {
            Placement { row: cursor, next: self.height, scrolled: true }
        } else {
            Placement { row: cursor, next: next_raw as u16, scrolled: false }
        }
    }
}

/// A rendered line of fewer than `width` characters spans exactly one
/// row; one of `width` up to `2 * width - 1` characters spans exactly
/// two. (At `len == width` the general formula already yields two.)
pub proof fn lemma_row_span_concrete(len: nat, width: nat)
    requires
        width > 0,
    ensures
        len < width ==> row_span(len, width) == 1,
        width <= len < 2 * width ==> row_span(len, width) == 2,
{
    if len < width {
        assert(len / width == 0) by (nonlinear_arith)
            requires
                len < width,
                width > 0,
        ;
    }
    if width <= len < 2 * width {
        assert(len / width == 1) by (nonlinear_arith)
            requires
                width <= len < 2 * width,
                width > 0,
        ;
    }
}

} // verus!
