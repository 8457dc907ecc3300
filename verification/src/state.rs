//! The published state: the pointer's location as of the last update, for
//! the rest of the application to read.

use crate::location::Location;
use crate::projection::{ProjectionMode, WorldCoordinate};
use crate::resolver::{resolution, resolve};
use crate::snapshot::{CameraRecord, WindowRecord};
use bevy::math::{Ray3d, Vec2};
use vstd::prelude::*;

verus! {

/// Two states compare equal: both are empty, or both hold a location and the
/// two locations compare equal.
pub open spec fn same_state(a: Option<Location>, b: Option<Location>) -> bool {
    match (a, b) {
        (None, None) => true,
        (Some(x), Some(y)) => x.same(y),
        _ => false,
    }
}

/// The state after `value` is written over `state`: a value that compares
/// equal to what is there leaves it as it is.
pub open spec fn written(state: Option<Location>, value: Option<Location>) -> Option<Location> {
    if same_state(state, value) {
        state
    } else {
        value
    }
}

/// Provides the location of the pointer. It is there only while the pointer
/// is inside a window and under a camera that can project it.
#[derive(Clone, Copy, Debug)]
pub struct CursorLocation {
    current: Option<Location>,
}

impl View for CursorLocation {
    type V = Option<Location>;

    closed spec fn view(&self) -> Option<Location> {
        self.current
    }
}

impl Default for CursorLocation {
    fn default() -> (state: CursorLocation)
        ensures
            state@ is None,
    {
        CursorLocation { current: None }
    }
}

impl CursorLocation {
    /// The state at the start: no location.
    pub fn new() -> (state: CursorLocation)
        ensures
            state@ is None,
    {
        CursorLocation { current: None }
    }

    /// The location of the pointer, or `None` while it has none.
    pub fn get(&self) -> (found: Option<&Location>)
        ensures
            match self@ {
                Some(location) => found == Some(&location),
                None => found is None,
            },
    {
        self.current.as_ref()
    }

    /// The pointer in logical pixels of its window.
    pub fn position(&self) -> (found: Option<Vec2>)
        ensures
            match self@ {
                Some(location) => found == Some(location.position),
                None => found is None,
            },
    {
        match &self.current {
            Some(location) => Some(location.position),
            None => None,
        }
    }

    /// The identity of the window that holds the pointer.
    pub fn window(&self) -> (found: Option<u64>)
        ensures
            match self@ {
                Some(location) => found == Some(location.window),
                None => found is None,
            },
    {
        match &self.current {
            Some(location) => Some(location.window),
            None => None,
        }
    }

    /// The identity of the camera through which the pointer is seen.
    pub fn camera(&self) -> (found: Option<u64>)
        ensures
            match self@ {
                Some(location) => found == Some(location.camera),
                None => found is None,
            },
    {
        match &self.current {
            Some(location) => Some(location.camera),
            None => None,
        }
    }

    /// The point of the world plane under the pointer; `None` while the
    /// pointer has no location, and where the tracker gives rays.
    pub fn world_position(&self) -> (found: Option<Vec2>)
        ensures
            match self@ {
                Some(Location { world: WorldCoordinate::Planar(point), .. }) => found == Some(
                    point,
                ),
                _ => found is None,
            },
    {
        match &self.current {
            Some(Location { world: WorldCoordinate::Planar(point), .. }) => Some(*point),
            _ => None,
        }
    }

    /// The ray that leaves the camera through the pointer; `None` while the
    /// pointer has no location, and where the tracker gives points of the
    /// plane.
    pub fn ray(&self) -> (found: Option<Ray3d>)
        ensures
            match self@ {
                Some(Location { world: WorldCoordinate::Ray(ray), .. }) => found == Some(ray),
                _ => found is None,
            },
    {
        match &self.current {
            Some(Location { world: WorldCoordinate::Ray(ray), .. }) => Some(*ray),
            _ => None,
        }
    }

    /// Writes `value` unless it compares equal to what is there, and tells
    /// whether it wrote.
    fn set_if_neq(&mut self, value: Option<Location>) -> (changed: bool)
        ensures
            changed == !same_state(old(self)@, value),
            final(self)@ == written(old(self)@, value),
    {
        let same = match (&self.current, &value) {
            (None, None) => true,
            (Some(held), Some(new)) => held == new,
            _ => false,
        };
        if !same {
            self.current = value;
        }
        !same
    }

    /// The update of one frame: resolves the pointer among these windows and
    /// cameras and publishes the outcome. Returns whether the published state
    /// changed: it does not where the outcome compares equal to what was
    /// there, be it a location or none.
    pub fn update(
        &mut self,
        windows: &Vec<WindowRecord>,
        cameras: &Vec<CameraRecord>,
        mode: ProjectionMode,
    ) -> (changed: bool)
        ensures
            changed == !same_state(old(self)@, resolution(windows@, cameras@, mode)),
            final(self)@ == written(old(self)@, resolution(windows@, cameras@, mode)),
    {
        let found = resolve(windows, cameras, mode);
        self.set_if_neq(found)
    }
}

/// Writing a value a second time changes nothing: after the first write the
/// state compares equal to the value, so the second write is suppressed. The
/// value is empty, or a location that compares equal to itself.
pub proof fn lemma_second_write_is_suppressed(state: Option<Location>, value: Option<Location>)
    requires
        value matches Some(location) ==> location.same(location),
    ensures
        same_state(written(state, value), value),
        written(written(state, value), value) == written(state, value),
{
}

} // verus!
