//! The task: an ordered sequence of turnpoints, each with a waypoint and an
//! observation zone, and the attribute rules of its textual encoding.
use vstd::prelude::*;

use crate::text::str_equal;

verus! {

/// The kind of competition task.
#[derive(Debug, Clone, Copy, PartialEq, Eq, Structural)]
pub enum TaskType {
    AAT,
    RT,
    FAIGeneral,
    FAITriangle,
    FAIOR,
    FAIGoal,
    MAT,
    Mixed,
    Touring,
}

/// What a height limit is measured from.
#[derive(Debug, Clone, Copy, PartialEq, Eq, Structural)]
pub enum AltitudeReference {
    AGL,
    MSL,
}

/// The role of a point in the task.
#[derive(Debug, Clone, Copy, PartialEq, Eq, Structural)]
pub enum PointType {
    Start,
    Turn,
    Area,
    Finish,
    OptionalStart,
}

impl PointType {
    /// The name under which the role is written.
    pub open spec fn spec_name(self) -> Seq<char> {
        match self {
            PointType::Start => "Start"@,
            PointType::Turn => "Turn"@,
            PointType::Area => "Area"@,
            PointType::Finish => "Finish"@,
            PointType::OptionalStart => "OptionalStart"@,
        }
    }

    /// Whether points of this role are numbered on the map.
    pub open spec fn is_numbered(self) -> bool {
        self is Turn || self is Area
    }

    pub fn as_str(&self) -> (r: &'static str)
        ensures
            r@ == self.spec_name(),
    {
        match self {
            PointType::Start => "Start",
            PointType::Turn => "Turn",
            PointType::Area => "Area",
            PointType::Finish => "Finish",
            PointType::OptionalStart => "OptionalStart",
        }
    }
}

/// A position on the sphere, in degrees.
#[derive(Debug, Clone, Copy, PartialEq)]
pub struct Location<L> {
    pub longitude: L,
    pub latitude: L,
}

/// A named position with optional metadata.
#[derive(Debug, Clone, PartialEq)]
pub struct Waypoint<L> {
    pub name: String,
    pub altitude: Option<L>,
    pub id: Option<String>,
    pub comment: Option<String>,
    pub location: Location<L>,
}

/// The shape a competitor must reach around a turnpoint. Lengths are in
/// meters, angles and radials in degrees.
#[allow(inconsistent_fields)]
#[derive(Debug, Clone, Copy, PartialEq)]
pub enum ObservationZone<L> {
    /// A cylinder with configurable radius. Scored from center.
    Cylinder { radius: L },
    /// A straight line gate, typically used for start or finish.
    Line { length: L },
    /// DAeC keyhole: 500 m cylinder or 10 km 90 degree sector. Scored from center.
    Keyhole,
    /// FAI 90 degree sector with sides of unbounded length. Scored from corner.
    FAISector,
    /// A sector between two absolute radials; annular when `inner_radius` is set.
    Sector { radius: L, start_radial: L, end_radial: L, inner_radius: Option<L> },
    /// A sector centered on the course. Defaults: radius 10000 m, angle 90 degrees.
    SymmetricQuadrant { radius: Option<L>, angle: Option<L> },
    /// A keyhole with its own sizes. Defaults: radius 10000 m, angle 90 degrees,
    /// inner radius 500 m.
    CustomKeyhole { radius: Option<L>, angle: Option<L>, inner_radius: Option<L> },
    /// Fixed one-mile cylinder for Modified Area Tasks.
    MatCylinder,
    /// BGA start sector: 5 km 180 degree sector.
    BGAStartSector,
    /// BGA fixed course: 500 m cylinder or 20 km 90 degree sector.
    BGAFixedCourse,
    /// BGA enhanced option: 500 m cylinder or 10 km 180 degree sector.
    BGAEnhancedOption,
}

/// A turnpoint of the task.
#[derive(Debug, Clone, PartialEq)]
pub struct Point<L> {
    pub point_type: PointType,
    pub score_exit: Option<bool>,
    pub waypoint: Waypoint<L>,
    pub observation_zone: ObservationZone<L>,
}

/// A competition task: its rules, and its points in flight order.
#[derive(Debug, Clone, PartialEq)]
pub struct Task<L> {
    pub task_type: TaskType,
    pub aat_min_time: Option<u32>,
    pub start_requires_arm: Option<bool>,
    pub start_score_exit: Option<bool>,
    pub start_max_speed: Option<L>,
    pub start_max_height: Option<u32>,
    pub start_max_height_ref: Option<AltitudeReference>,
    pub start_open_time: Option<u32>,
    pub start_close_time: Option<u32>,
    pub finish_min_height: Option<u32>,
    pub finish_min_height_ref: Option<AltitudeReference>,
    pub fai_finish: Option<bool>,
    pub pev_start_wait_time: Option<u32>,
    pub pev_start_window: Option<u32>,
    pub points: Vec<Point<L>>,
}

/// An attribute that holds a boolean but reads as none of `1`, `true`, `0`, `false`.
#[derive(Debug, Clone, PartialEq, Eq)]
pub struct InvalidBool {
    pub value: String,
}

impl AltitudeReference {
    /// The reference an attribute value names: `MSL` is mean sea level,
    /// every other value is above ground level.
    pub fn from_attribute(s: &str) -> (r: AltitudeReference)
        ensures
            r == (if s@ == "MSL"@ {
                AltitudeReference::MSL
            } else {
                AltitudeReference::AGL
            }),
    {
        if str_equal(s, "MSL") {
            AltitudeReference::MSL
        } else {
            AltitudeReference::AGL
        }
    }
}

/// The boolean an attribute value spells.
pub open spec fn bool_of_attribute(s: Seq<char>) -> Option<bool> {
    if s == "1"@ || s == "true"@ {
        Some(true)
    } else if s == "0"@ || s == "false"@ {
        Some(false)
    } else {
        None
    }
}

/// Reads a boolean attribute: `1` or `true`, `0` or `false`.
pub fn parse_bool_attribute(s: &str) -> (r: Result<bool, InvalidBool>)
    ensures
        bool_of_attribute(s@) is Some ==> r == Ok::<bool, InvalidBool>(bool_of_attribute(s@)->0),
        bool_of_attribute(s@) is None ==> r is Err && r->Err_0.value@ == s@,
{
    if str_equal(s, "1") || str_equal(s, "true") {
        Ok(true)
    } else if str_equal(s, "0") || str_equal(s, "false") {
        Ok(false)
    } else {
        Err(InvalidBool { value: String::from_str(s) })
    }
}

/// How a boolean attribute is written: `1` or `0`.
pub fn bool_attribute(b: bool) -> (r: &'static str)
    ensures
        r@ == (if b { "1"@ } else { "0"@ }),
{
    if b {
        "1"
    } else {
        "0"
    }
}

} // verus!
