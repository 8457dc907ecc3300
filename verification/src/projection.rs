//! From a pointer position in a camera's viewport to a coordinate in the
//! world: a point on the plane for flat scenes, a ray for scenes with depth.
//!
//! The arithmetic is the rendering engine's. This module declares the
//! engine's types, gives names to what its two conversions return, and puts
//! the choice between them in one verified function.

use bevy::math::{Ray3d, Vec2};
use bevy::render::camera::{Camera, ViewportConversionError};
use bevy::transform::components::GlobalTransform;
use vstd::prelude::*;

verus! {

/// `bevy::math::Vec2`: a pair of coordinates. Held and handed on, never
/// looked into.
#[verifier::external_type_specification]
#[verifier::external_body]
pub struct ExVec2(Vec2);

/// `bevy::math::Ray3d`: an origin and a direction. Held and handed on, never
/// looked into.
#[verifier::external_type_specification]
#[verifier::external_body]
pub struct ExRay3d(Ray3d);

/// `bevy::render::camera::Camera`: the camera component, with the values
/// that the engine computed for it.
#[verifier::external_type_specification]
#[verifier::external_body]
pub struct ExCamera(Camera);

/// `bevy::transform::components::GlobalTransform`: where an entity stands in
/// the world.
#[verifier::external_type_specification]
#[verifier::external_body]
pub struct ExGlobalTransform(GlobalTransform);

/// `bevy::render::camera::ViewportConversionError`: why a conversion between
/// viewport and world failed.
#[verifier::external_type_specification]
#[verifier::external_body]
pub struct ExViewportConversionError(ViewportConversionError);

/// What `Camera::viewport_to_world_2d` returns for these arguments.
pub uninterp spec fn planar_projection(
    camera: Camera,
    transform: GlobalTransform,
    position: Vec2,
) -> Result<Vec2, ViewportConversionError>;

/// What `Camera::viewport_to_world` returns for these arguments.
pub uninterp spec fn ray_projection(
    camera: Camera,
    transform: GlobalTransform,
    position: Vec2,
) -> Result<Ray3d, ViewportConversionError>;

/// What `==` returns on two `Vec2`: the comparison of their coordinates as
/// floating-point numbers.
pub uninterp spec fn point_eq(a: Vec2, b: Vec2) -> bool;

/// What `==` returns on two `Ray3d`.
pub uninterp spec fn ray_eq(a: Ray3d, b: Ray3d) -> bool;

/// Calls `Camera::viewport_to_world_2d`. Nothing is claimed of the outcome
/// but that it is the one the engine computes from these three values. The
/// call returns an error for a camera that cannot project; it panics only
/// where the engine is built with `glam_assert`, which this crate does not
/// ask for.
#[verifier::external_body]
pub(crate) fn project_planar(camera: &Camera, transform: &GlobalTransform, position: Vec2) -> (out:
    Result<Vec2, ViewportConversionError>)
    ensures
        out == planar_projection(*camera, *transform, position),
{
    camera.viewport_to_world_2d(transform, position)
}

/// Calls `Camera::viewport_to_world`. Nothing is claimed of the outcome but
/// that it is the one the engine computes from these three values. The call
/// returns an error for a camera that cannot project; it panics only where
/// the engine is built with `glam_assert`, which this crate does not ask for.
#[verifier::external_body]
pub(crate) fn project_ray(camera: &Camera, transform: &GlobalTransform, position: Vec2) -> (out:
    Result<Ray3d, ViewportConversionError>)
    ensures
        out == ray_projection(*camera, *transform, position),
{
    camera.viewport_to_world(transform, position)
}

/// Compares two `Vec2` with their `==`.
#[verifier::external_body]
pub(crate) fn points_equal(a: &Vec2, b: &Vec2) -> (same: bool)
    ensures
        same == point_eq(*a, *b),
{
    a == b
}

/// Compares two `Ray3d` with their `==`.
#[verifier::external_body]
pub(crate) fn rays_equal(a: &Ray3d, b: &Ray3d) -> (same: bool)
    ensures
        same == ray_eq(*a, *b),
{
    a == b
}

/// Which world coordinate the application wants for the pointer. It is
/// chosen once, when the tracker is set up.
#[derive(Clone, Copy, Debug, PartialEq, Eq, Structural)]
pub enum ProjectionMode {
    /// A point on the world plane, for flat scenes.
    Planar,
    /// A ray from the camera through the pointer, for scenes with depth.
    Ray,
}

/// The pointer in world coordinates.
#[derive(Clone, Copy, Debug)]
pub enum WorldCoordinate {
    /// The point of the world plane under the pointer.
    Planar(Vec2),
    /// The ray that leaves the camera through the pointer.
    Ray(Ray3d),
}

impl WorldCoordinate {
    /// Two coordinates compare equal: they are of one form, and the engine's
    /// `==` holds of what they carry.
    pub open spec fn same(self, other: WorldCoordinate) -> bool {
        match (self, other) {
            (WorldCoordinate::Planar(a), WorldCoordinate::Planar(b)) => point_eq(a, b),
            (WorldCoordinate::Ray(a), WorldCoordinate::Ray(b)) => ray_eq(a, b),
            _ => false,
        }
    }
}

impl PartialEq for WorldCoordinate {
    fn eq(&self, other: &WorldCoordinate) -> (same: bool) {
        match (self, other) {
            (WorldCoordinate::Planar(a), WorldCoordinate::Planar(b)) => points_equal(a, b),
            (WorldCoordinate::Ray(a), WorldCoordinate::Ray(b)) => rays_equal(a, b),
            _ => false,
        }
    }
}

impl vstd::std_specs::cmp::PartialEqSpecImpl for WorldCoordinate {
    open spec fn obeys_eq_spec() -> bool {
        true
    }

    open spec fn eq_spec(&self, other: &WorldCoordinate) -> bool {
        self.same(*other)
    }
}

/// The world coordinate that a camera gives a pointer position, in the form
/// that `mode` asks for; `None` where the camera cannot give one (it has no
/// size yet, or its transform cannot be inverted).
pub open spec fn projection(
    mode: ProjectionMode,
    camera: Camera,
    transform: GlobalTransform,
    position: Vec2,
) -> Option<WorldCoordinate> {
    match mode {
        ProjectionMode::Planar => match planar_projection(camera, transform, position) {
            Ok(point) => Some(WorldCoordinate::Planar(point)),
            Err(_) => None,
        },
        ProjectionMode::Ray => match ray_projection(camera, transform, position) {
            Ok(ray) => Some(WorldCoordinate::Ray(ray)),
            Err(_) => None,
        },
    }
}

/// Projects a pointer position, in logical pixels of the camera's window,
/// into the world.
pub fn project(
    mode: ProjectionMode,
    camera: &Camera,
    transform: &GlobalTransform,
    position: Vec2,
) -> (world: Option<WorldCoordinate>)
    ensures
        world == projection(mode, *camera, *transform, position),
{
    match mode {
        ProjectionMode::Planar => match project_planar(camera, transform, position) {
            Ok(point) => Some(WorldCoordinate::Planar(point)),
            Err(_) => None,
        },
        ProjectionMode::Ray => match project_ray(camera, transform, position) {
            Ok(ray) => Some(WorldCoordinate::Ray(ray)),
            Err(_) => None,
        },
    }
}

} // verus!
