//! Tracks where the pointer is: the window that holds it, the topmost camera
//! whose drawing area it falls in, and the world coordinate that this camera
//! gives it.

pub mod geometry;
pub mod laws;
pub mod location;
pub mod projection;
pub mod ranking;
pub mod resolver;
pub mod snapshot;
pub mod state;

pub use location::Location;
pub use projection::{ProjectionMode, WorldCoordinate};
pub use resolver::resolve;
pub use state::CursorLocation;
