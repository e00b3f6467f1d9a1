//! A rectangular clipping region and the text-trimming it applies before
//! anything is handed to the terminal.

use vstd::prelude::*;
use vstd::string::*;
use crate::ui::dims::UiDims;

verus! {

/// Coordinates a frame works with stay in this band, so every intermediate
/// difference fits comfortably in `i32`.
pub const FRAME_COORD_LIMIT: i32 = 1000000;

/// A rectangular clipping region: `start` is inclusive, `end` exclusive.
#[derive(Clone, Copy, Debug, PartialEq, Eq, Structural)]
pub struct Frame {
    pub start: UiDims,
    pub end: UiDims,
}

impl Frame {
    /// The region is non-degenerate and its corners are in the working band.
    pub open spec fn wf(self) -> bool {
        &&& self.start.x <= self.end.x
        &&& self.start.y <= self.end.y
        &&& -FRAME_COORD_LIMIT <= self.start.x
        &&& self.end.x <= FRAME_COORD_LIMIT
        &&& -FRAME_COORD_LIMIT <= self.start.y
        &&& self.end.y <= FRAME_COORD_LIMIT
    }

    /// A frame from its two corners.
    pub fn new(start: UiDims, end: UiDims) -> (r: Frame)
        ensures
            r.start == start,
            r.end == end,
    {
        Frame { start, end }
    }

    /// A frame from its top-left corner and its size.
    pub fn new_sized(start: UiDims, size: UiDims) -> (r: Frame)
        requires
            i32::MIN <= start.x + size.x <= i32::MAX,
            i32::MIN <= start.y + size.y <= i32::MAX,
        ensures
            r.start == start,
            r.end.x == start.x + size.x,
            r.end.y == start.y + size.y,
    {
        Frame { start, end: start.add(size) }
    }

    /// Width and height of the region.
    pub fn size(&self) -> (r: UiDims)
        requires
            self.wf(),
        ensures
            r.x == self.end.x - self.start.x,
            r.y == self.end.y - self.start.y,
    {
        UiDims { x: self.end.x - self.start.x, y: self.end.y - self.start.y }
    }

    /// True when `pos` lies inside the region.
    pub open spec fn spec_contains(self, pos: UiDims) -> bool {
        self.start.x <= pos.x < self.end.x && self.start.y <= pos.y < self.end.y
    }

    /// True when `pos` lies inside the region.
    pub fn contains(&self, pos: UiDims) -> (r: bool)
        ensures
            r == self.spec_contains(pos),
    {
        pos.x >= self.start.x && pos.x < self.end.x && pos.y >= self.start.y && pos.y < self.end.y
    }

    /// The trimmed text of `spec_trim`.
    pub open spec fn spec_trim_text(self, s: Seq<char>, pos: UiDims) -> Seq<char> {
        if pos.y < self.start.y || pos.y >= self.end.y {
            Seq::empty()
        } else {
            let skip: int = if pos.x < self.start.x {
                self.start.x - pos.x
            } else {
                0
            };
            if skip >= s.len() {
                Seq::empty()
            } else {
                let t = s.subrange(skip, s.len() as int);
                let px: int = if pos.x < self.start.x {
                    self.start.x as int
                } else {
                    pos.x as int
                };
                if px + t.len() > self.end.x {
                    t.subrange(0, if self.end.x - px >= 0 { self.end.x - px } else { 0 })
                } else {
                    t
                }
            }
        }
    }

    /// The adjusted anchor of `spec_trim`: clamped to the left edge when the
    /// text started left of the region.
    pub open spec fn spec_trim_pos(self, pos: UiDims) -> UiDims {
        if pos.y < self.start.y || pos.y >= self.end.y {
            pos
        } else if pos.x < self.start.x {
            UiDims { x: self.start.x, y: pos.y }
        } else {
            pos
        }
    }

    /// Clip a text placed at an absolute position against this region: a row
    /// outside the region vanishes; characters left of the region are cut and
    /// the anchor moves to the left edge; characters past the right edge are
    /// cut.
    pub fn trim_absolute<'a>(&self, text: &'a str, pos: UiDims) -> (r: (&'a str, UiDims))
        requires
            self.wf(),
            text@.len() <= FRAME_COORD_LIMIT,
            -FRAME_COORD_LIMIT <= pos.x <= FRAME_COORD_LIMIT,
        ensures
            r.0@ == self.spec_trim_text(text@, pos),
            r.1 == self.spec_trim_pos(pos),
    {
        if pos.y < self.start.y || pos.y >= self.end.y {
            proof {
                reveal_strlit("");
                assert(""@ =~= Seq::<char>::empty());
            }
            return ("", pos);
        }

        let mut t = text;
        let mut px = pos.x;
        if px < self.start.x {
            let off = (self.start.x - px) as usize;
            let len = t.unicode_len();
            let skip = if off > len {
                len
            } else {
                off
            };
            t = t.substring_char(skip, len);
            px = self.start.x;
        }

        let len2 = t.unicode_len();
        if (len2 as i32) + px > self.end.x {
            let keep_i = self.end.x - px;
            let keep = if keep_i < 0 {
                0
            } else {
                keep_i as usize
            };
            t = t.substring_char(0, keep);
        }
        proof {
            assert(t@ =~= self.spec_trim_text(text@, pos));
        }
        (t, UiDims { x: px, y: pos.y })
    }
}

} // verus!
