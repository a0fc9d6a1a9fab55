//! Axis-aligned rectangles in texel coordinates.

use crate::text::{decimal, decimal_text};
use vstd::prelude::*;
use vstd::string::StringExecFns;

verus! {

/// General purpose 2D rectangle: a position and a size.
#[derive(Debug, Clone, Copy, PartialEq, Eq)]
pub struct Rect {
    pub pos: [u32; 2],
    pub size: [u32; 2],
}

impl Rect {
    /// `other` fits when it starts at or after this rectangle's origin on
    /// both axes and is no larger than it on both axes.
    pub open spec fn fits(self, other: Rect) -> bool {
        &&& other.pos[0] >= self.pos[0]
        &&& other.pos[1] >= self.pos[1]
        &&& other.size[0] <= self.size[0]
        &&& other.size[1] <= self.size[1]
    }

    /// `other` lies within this rectangle: it fits, and it ends at or
    /// before this rectangle's far edge on both axes.
    pub open spec fn encloses(self, other: Rect) -> bool {
        &&& self.fits(other)
        &&& other.pos[0] + other.size[0] <= self.pos[0] + self.size[0]
        &&& other.pos[1] + other.size[1] <= self.pos[1] + self.size[1]
    }

    /// Checks whether `other` can fit inside this rectangle.
    pub fn can_fit(&self, other: &Rect) -> (r: bool)
        ensures
            r == self.fits(*other),
    {
        other.pos[0] >= self.pos[0] && other.pos[1] >= self.pos[1] && other.size[0]
            <= self.size[0] && other.size[1] <= self.size[1]
    }

    /// Checks whether `other` lies within this rectangle.
    pub fn contains(&self, other: &Rect) -> (r: bool)
        ensures
            r == self.encloses(*other),
    {
        let right = self.pos[0] as u64 + self.size[0] as u64;
        let bottom = self.pos[1] as u64 + self.size[1] as u64;
        self.can_fit(other) && other.pos[0] as u64 + other.size[0] as u64 <= right
            && other.pos[1] as u64 + other.size[1] as u64 <= bottom
    }

    /// The rectangle as text: position and size in square brackets.
    pub open spec fn text(self) -> Seq<char> {
        "["@ + decimal_text(self.pos[0] as nat) + ", "@ + decimal_text(self.pos[1] as nat) + ", "@
            + decimal_text(self.size[0] as nat) + ", "@ + decimal_text(self.size[1] as nat) + "]"@
    }

    /// The rectangle as text, as in `[0, 0, 64, 64]`.
    pub fn to_text(&self) -> (s: String)
        ensures
            s@ == self.text(),
    {
        let mut s = String::from_str("[");
        s.append(decimal(self.pos[0] as u64).as_str());
        s.append(", ");
        s.append(decimal(self.pos[1] as u64).as_str());
        s.append(", ");
        s.append(decimal(self.size[0] as u64).as_str());
        s.append(", ");
        s.append(decimal(self.size[1] as u64).as_str());
        s.append("]");
        s
    }
}

} // verus!
