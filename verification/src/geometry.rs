//! Device-pixel geometry: pointer positions on the pixel grid and the
//! rectangles that cameras draw into.

use vstd::prelude::*;

verus! {

/// A pointer position on a window's device-pixel grid, measured from the
/// window's top-left corner.
#[derive(Clone, Copy, Debug, PartialEq, Eq, Structural)]
pub struct PhysicalPoint {
    /// Pixels to the right of the window's left edge.
    pub x: u32,
    /// Pixels below the window's top edge.
    pub y: u32,
}

/// The rectangle of a window, in device pixels, that a camera draws into.
#[derive(Clone, Copy, Debug, PartialEq, Eq, Structural)]
pub struct Viewport {
    /// Left edge of the rectangle.
    pub x: u32,
    /// Top edge of the rectangle.
    pub y: u32,
    /// Horizontal extent of the rectangle.
    pub width: u32,
    /// Vertical extent of the rectangle.
    pub height: u32,
}

impl Viewport {
    /// The point lies inside the rectangle, both the near and the far edge
    /// counted in: `x <= px <= x + width` and `y <= py <= y + height`.
    pub open spec fn covers(self, point: PhysicalPoint) -> bool {
        &&& self.x <= point.x
        &&& point.x <= self.x + self.width
        &&& self.y <= point.y
        &&& point.y <= self.y + self.height
    }

    /// Tests whether the point lies inside the rectangle, edges included.
    pub fn contains(&self, point: PhysicalPoint) -> (inside: bool)
        ensures
            inside == self.covers(point),
    {
        let right: u64 = self.x as u64 + self.width as u64;
        let bottom: u64 = self.y as u64 + self.height as u64;
        point.x >= self.x && point.x as u64 <= right && point.y >= self.y && point.y as u64
            <= bottom
    }
}

/// What a camera's drawing area covers: a camera without a viewport draws
/// into the whole window and so covers every point of it.
pub open spec fn area_covers(viewport: Option<Viewport>, point: PhysicalPoint) -> bool {
    match viewport {
        Some(v) => v.covers(point),
        None => true,
    }
}

/// Tests whether a camera's drawing area holds the point.
pub fn area_contains(viewport: &Option<Viewport>, point: PhysicalPoint) -> (inside: bool)
    ensures
        inside == area_covers(*viewport, point),
{
    match viewport {
        Some(v) => v.contains(point),
        None => true,
    }
}

} // verus!
