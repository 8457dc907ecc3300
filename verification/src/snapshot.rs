//! What the resolver is told of the windows and cameras of one frame.

use crate::geometry::{area_contains, area_covers, PhysicalPoint, Viewport};
use bevy::math::Vec2;
use bevy::render::camera::Camera;
use bevy::transform::components::GlobalTransform;
use vstd::prelude::*;

verus! {

/// Where a camera sends what it draws.
#[derive(Clone, Copy, Debug, PartialEq, Eq, Structural)]
pub enum Target {
    /// The application's primary window, whichever that is.
    PrimaryWindow,
    /// The window with this identity.
    Window(u64),
    /// A surface that is not a window. The pointer is never over it.
    OffScreen,
}

/// One open window, as it stands this frame.
#[derive(Clone, Copy, Debug)]
pub struct WindowRecord {
    /// The window's identity.
    pub id: u64,
    /// The pointer in logical pixels; `None` while it is outside the window.
    pub cursor: Option<Vec2>,
    /// The pointer on the device-pixel grid; `None` while it is outside the
    /// window.
    pub physical_cursor: Option<PhysicalPoint>,
    /// Whether this is the application's primary window.
    pub primary: bool,
}

/// One active camera, as it stands this frame.
#[derive(Clone, Copy, Debug)]
pub struct CameraRecord<'a> {
    /// The camera's identity.
    pub id: u64,
    /// Where the camera stands in the world.
    pub transform: &'a GlobalTransform,
    /// The camera itself, which knows how to project.
    pub camera: &'a Camera,
    /// Where the camera sends what it draws.
    pub target: Target,
    /// The part of the target that the camera draws into; `None` for all of
    /// it.
    pub viewport: Option<Viewport>,
    /// Cameras of a higher order are drawn later, over those of a lower one.
    pub order: isize,
}

impl<'a> CameraRecord<'a> {
    /// The camera draws into this window: it targets the primary window and
    /// this is it, or it targets this window by identity.
    pub open spec fn draws_on(self, window: WindowRecord) -> bool {
        match self.target {
            Target::PrimaryWindow => window.primary,
            Target::Window(id) => id == window.id,
            Target::OffScreen => false,
        }
    }

    /// Tests whether the camera draws into this window.
    pub fn renders_to(&self, window: &WindowRecord) -> (yes: bool)
        ensures
            yes == self.draws_on(*window),
    {
        match self.target {
            Target::PrimaryWindow => window.primary,
            Target::Window(id) => id == window.id,
            Target::OffScreen => false,
        }
    }

    /// The camera's drawing area holds the point.
    pub open spec fn covers(self, point: PhysicalPoint) -> bool {
        area_covers(self.viewport, point)
    }

    /// Tests whether the camera's drawing area holds the point.
    pub fn contains(&self, point: PhysicalPoint) -> (inside: bool)
        ensures
            inside == self.covers(point),
    {
        area_contains(&self.viewport, point)
    }
}

/// A window that lacks the pointer's position, in logical or in device
/// pixels, does not report the pointer.
pub open spec fn reports_pointer(window: WindowRecord) -> bool {
    window.cursor is Some && window.physical_cursor is Some
}

/// The pointer is under `camera` in `window`: the window reports the
/// pointer, the camera draws into the window, and the camera's drawing area
/// holds the pointer.
pub open spec fn under_pointer(window: WindowRecord, camera: CameraRecord) -> bool {
    &&& reports_pointer(window)
    &&& camera.draws_on(window)
    &&& camera.covers(window.physical_cursor.unwrap())
}

} // verus!
