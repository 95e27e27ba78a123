//! Competition task model and the synthesis of its map features: the course
//! line, one outline per observation zone, and the waypoint markers.
//!
//! The library is generic over the scalar type `L` that carries coordinates
//! and shape parameters. It decides every vertex of every outline exactly, as
//! a sample of a named arc around a zone's center; turning those samples into
//! coordinates on the sphere is left to a renderer.

pub mod features;
pub mod geometry;
pub mod orientation;
pub mod task;
pub mod text;

pub use features::{assemble_features, Feature};
pub use geometry::{generate_zone_geometry, Geometry, Measure, Sweep, Vertex};
pub use orientation::{bisector, Leg, MissingOrientationReference, Orientation};
pub use task::{
    bool_attribute, parse_bool_attribute, AltitudeReference, InvalidBool, Location, ObservationZone, Point,
    PointType, Task, TaskType, Waypoint,
};
