//! Where the pointer is.

use crate::projection::{point_eq, points_equal, WorldCoordinate};
use bevy::math::Vec2;
use vstd::prelude::*;

verus! {

/// The location of the pointer: its position, its window and the camera
/// through which it is seen.
#[derive(Clone, Copy, Debug)]
pub struct Location {
    /// The pointer in logical pixels of its window.
    pub position: Vec2,
    /// The identity of the window that holds the pointer.
    pub window: u64,
    /// The identity of the camera that gave the world coordinate.
    pub camera: u64,
    /// The pointer in world coordinates.
    pub world: WorldCoordinate,
}

impl Location {
    /// Two locations compare equal: the same window and camera, and
    /// positions and world coordinates that the engine's `==` takes for
    /// equal.
    pub open spec fn same(self, other: Location) -> bool {
        &&& point_eq(self.position, other.position)
        &&& self.window == other.window
        &&& self.camera == other.camera
        &&& self.world.same(other.world)
    }
}

impl PartialEq for Location {
    fn eq(&self, other: &Location) -> (same: bool) {
        points_equal(&self.position, &other.position) && self.window == other.window
            && self.camera == other.camera && self.world == other.world
    }
}

impl vstd::std_specs::cmp::PartialEqSpecImpl for Location {
    open spec fn obeys_eq_spec() -> bool {
        true
    }

    open spec fn eq_spec(&self, other: &Location) -> bool {
        self.same(*other)
    }
}

} // verus!
