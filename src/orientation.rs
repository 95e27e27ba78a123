//! Which way a zone faces: from the bearings of the legs that meet at its point.
use vstd::prelude::*;

use crate::task::Location;

verus! {

/// A leg of the course between two consecutive points. Its bearing is the
/// initial great-circle bearing from `from` to `to`.
#[derive(Debug, Clone, Copy, PartialEq)]
pub struct Leg<L> {
    pub from: Location<L>,
    pub to: Location<L>,
}

/// The orientation of a zone, in terms of the bearings `B` of its legs. The
/// angle it stands for is brought into `[0, 360)` degrees.
#[derive(Debug, Clone, Copy, PartialEq)]
pub enum Orientation<B> {
    /// Only an incoming leg (the last point): its bearing.
    Incoming(B),
    /// Only an outgoing leg (the first point): its bearing turned by 180 degrees.
    ReversedOutgoing(B),
    /// Both legs: the angular bisector of the incoming bearing and the
    /// outgoing bearing turned by 180 degrees, taken as the direction of the
    /// sum of their unit vectors, so that 350 and 10 degrees bisect to 0.
    Bisecting { incoming: B, outgoing: B },
}

/// A point with neither an incoming nor an outgoing leg: nothing orients its zone.
#[derive(Debug, Clone, Copy, PartialEq, Eq, Structural)]
pub struct MissingOrientationReference;

/// The orientation that the available bearings give, if any.
pub open spec fn orientation_of<B>(bearing_in: Option<B>, bearing_out: Option<B>) -> Option<Orientation<B>> {
    match (bearing_in, bearing_out) {
        (Some(i), Some(o)) => Some(Orientation::Bisecting { incoming: i, outgoing: o }),
        (Some(i), None) => Some(Orientation::Incoming(i)),
        (None, Some(o)) => Some(Orientation::ReversedOutgoing(o)),
        (None, None) => None,
    }
}

/// Resolves the orientation of a zone from its incoming and outgoing
/// bearings; fails when there is neither.
pub fn bisector<B>(bearing_in: Option<B>, bearing_out: Option<B>) -> (r: Result<Orientation<B>, MissingOrientationReference>)
    ensures
        r is Err <==> bearing_in is None && bearing_out is None,
        r is Ok ==> orientation_of(bearing_in, bearing_out) == Some(r->Ok_0),
{
    match (bearing_in, bearing_out) {
        (Some(i), Some(o)) => Ok(Orientation::Bisecting { incoming: i, outgoing: o }),
        (Some(i), None) => Ok(Orientation::Incoming(i)),
        (None, Some(o)) => Ok(Orientation::ReversedOutgoing(o)),
        (None, None) => Err(MissingOrientationReference),
    }
}

} // verus!
