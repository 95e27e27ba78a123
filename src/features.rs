//! The feature collection of a task: the course line, then for each point in
//! flight order its zone outline and its waypoint marker.
use vstd::prelude::*;

use crate::geometry::{generate_zone_geometry, lemma_polygon_ring_closed, zone_outline, Geometry};
use crate::orientation::{bisector, orientation_of, Leg, MissingOrientationReference, Orientation};
use crate::task::{Location, Point, PointType, Task};
use crate::text::{decimal, push_decimal};

verus! {

/// One map feature.
#[derive(Debug, Clone, PartialEq)]
pub enum Feature<L> {
    /// The course through every point's location, in flight order.
    CourseLine { coordinates: Vec<Location<L>> },
    /// The outline of a point's observation zone around `center`.
    ObservationZone {
        name: String,
        point_type: PointType,
        center: Location<L>,
        orientation: Orientation<Leg<L>>,
        geometry: Geometry<L>,
    },
    /// The marker of a point, labelled with its name and, for turnpoints, its number.
    Waypoint { label: String, point_type: PointType, location: Location<L> },
}

impl<L> Feature<L> {
    pub open spec fn spec_feature_type(self) -> Seq<char> {
        match self {
            Feature::CourseLine { .. } => "course_line"@,
            Feature::ObservationZone { .. } => "observation_zone"@,
            Feature::Waypoint { .. } => "waypoint"@,
        }
    }

    /// The tag of the feature's kind.
    pub fn feature_type(&self) -> (r: &'static str)
        ensures
            r@ == self.spec_feature_type(),
    {
        match self {
            Feature::CourseLine { .. } => "course_line",
            Feature::ObservationZone { .. } => "observation_zone",
            Feature::Waypoint { .. } => "waypoint",
        }
    }
}

/// The location of the point at `i`.
pub open spec fn location_at<L>(points: Seq<Point<L>>, i: int) -> Location<L> {
    points[i].waypoint.location
}

/// The leg that arrives at the point at `i`, if any.
pub open spec fn leg_in<L>(points: Seq<Point<L>>, i: int) -> Option<Leg<L>> {
    if i > 0 {
        Some(Leg { from: location_at(points, i - 1), to: location_at(points, i) })
    } else {
        None
    }
}

/// The leg that leaves the point at `i`, if any.
pub open spec fn leg_out<L>(points: Seq<Point<L>>, i: int) -> Option<Leg<L>> {
    if i + 1 < points.len() {
        Some(Leg { from: location_at(points, i), to: location_at(points, i + 1) })
    } else {
        None
    }
}

/// How many of the first `end` points are numbered turnpoints.
pub open spec fn turnpoints_before<L>(points: Seq<Point<L>>, end: int) -> nat
    decreases end,
{
    if end <= 0 {
        0
    } else {
        turnpoints_before(points, end - 1) + if points[end - 1].point_type.is_numbered() {
            1nat
        } else {
            0nat
        }
    }
}

/// The label of the marker of the point at `i`: `"<n>. <name>"` for the
/// `n`-th turnpoint, the bare name for any other point.
pub open spec fn marker_label<L>(points: Seq<Point<L>>, i: int) -> Seq<char> {
    if points[i].point_type.is_numbered() {
        decimal(turnpoints_before(points, i + 1)) + ". "@ + points[i].waypoint.name@
    } else {
        points[i].waypoint.name@
    }
}

/// Whether `f` is the course line of `points`.
pub open spec fn is_course_line<L>(f: Feature<L>, points: Seq<Point<L>>) -> bool {
    match f {
        Feature::CourseLine { coordinates } => coordinates@ == points.map_values(
            |p: Point<L>| p.waypoint.location,
        ),
        _ => false,
    }
}

/// Whether `f` is the zone feature of the point at `i`.
pub open spec fn is_zone_feature<L>(f: Feature<L>, points: Seq<Point<L>>, i: int) -> bool {
    match f {
        Feature::ObservationZone { name, point_type, center, orientation, geometry } => {
            &&& name@ == points[i].waypoint.name@
            &&& point_type == points[i].point_type
            &&& center == location_at(points, i)
            &&& orientation_of(leg_in(points, i), leg_out(points, i)) == Some(orientation)
            &&& geometry@ == zone_outline(points[i].observation_zone)
        },
        _ => false,
    }
}

/// Whether `f` is the marker of the point at `i`.
pub open spec fn is_waypoint_feature<L>(f: Feature<L>, points: Seq<Point<L>>, i: int) -> bool {
    match f {
        Feature::Waypoint { label, point_type, location } => {
            &&& label@ == marker_label(points, i)
            &&& point_type == points[i].point_type
            &&& location == location_at(points, i)
        },
        _ => false,
    }
}

/// How many features precede those of the first point: one course line when
/// there are at least two points.
pub open spec fn course_line_count(n: int) -> int {
    if n >= 2 {
        1
    } else {
        0
    }
}

/// Whether `fs` holds, at the place for the point at `i`, its zone and then its marker.
pub open spec fn point_features_at<L>(fs: Seq<Feature<L>>, points: Seq<Point<L>>, i: int) -> bool {
    let k = course_line_count(points.len() as int) + 2 * i;
    &&& is_zone_feature(fs[k], points, i)
    &&& is_waypoint_feature(fs[k + 1], points, i)
}

/// Whether `fs` is the feature collection of `points`.
pub open spec fn is_feature_collection<L>(fs: Seq<Feature<L>>, points: Seq<Point<L>>) -> bool {
    &&& fs.len() == course_line_count(points.len() as int) + 2 * points.len()
    &&& points.len() >= 2 ==> is_course_line(fs[0], points)
    &&& forall|i: int| 0 <= i < points.len() ==> #[trigger] point_features_at(fs, points, i)
}

proof fn lemma_turnpoints_bounded<L>(points: Seq<Point<L>>, end: int)
    requires
        0 <= end <= points.len(),
    ensures
        turnpoints_before(points, end) <= end,
    decreases end,
{
    if end > 0 {
        lemma_turnpoints_bounded(points, end - 1);
    }
}

/// The course line through every point, when there are at least two.
pub fn generate_course_line<L: Copy>(points: &Vec<Point<L>>) -> (r: Option<Feature<L>>)
    ensures
        points@.len() < 2 ==> r is None,
        points@.len() >= 2 ==> r is Some && is_course_line(r->0, points@),
{
    if points.len() < 2 {
        return None;
    }
    let mut coordinates: Vec<Location<L>> = Vec::new();
    let mut i: usize = 0;
    while i < points.len()
        invariant
            i <= points@.len(),
            coordinates@ =~= points@.map_values(|p: Point<L>| p.waypoint.location).take(i as int),
        decreases points@.len() - i,
    {
        coordinates.push(points[i].waypoint.location);
        i = i + 1;
    }
    assert(coordinates@ =~= points@.map_values(|p: Point<L>| p.waypoint.location));
    Some(Feature::CourseLine { coordinates })
}

/// For each point, the leg that arrives at it and the leg that leaves it.
pub fn calculate_leg_bearings<L: Copy>(points: &Vec<Point<L>>) -> (r: Vec<(Option<Leg<L>>, Option<Leg<L>>)>)
    ensures
        r@.len() == points@.len(),
        forall|i: int| 0 <= i < points@.len() ==> #[trigger] r@[i] == (leg_in(points@, i), leg_out(points@, i)),
{
    let n = points.len();
    let mut bearings: Vec<(Option<Leg<L>>, Option<Leg<L>>)> = Vec::new();
    let mut i: usize = 0;
    while i < n
        invariant
            n == points@.len(),
            i <= n,
            bearings@.len() == i,
            forall|k: int| 0 <= k < i ==> #[trigger] bearings@[k] == (leg_in(points@, k), leg_out(points@, k)),
        decreases n - i,
    {
        let bearing_in = if i > 0 {
            Some(Leg { from: points[i - 1].waypoint.location, to: points[i].waypoint.location })
        } else {
            None
        };
        let bearing_out = if i < n - 1 {
            Some(Leg { from: points[i].waypoint.location, to: points[i + 1].waypoint.location })
        } else {
            None
        };
        bearings.push((bearing_in, bearing_out));
        i = i + 1;
    }
    bearings
}

/// The marker of a point, labelled `"<n>. <name>"` when it has the turnpoint
/// number `n`, else with its bare name.
pub fn generate_waypoint_feature<L: Copy>(point: &Point<L>, turnpoint_number: Option<u64>) -> (r: Feature<L>)
    ensures
        r == (Feature::Waypoint {
            label: r->label,
            point_type: point.point_type,
            location: point.waypoint.location,
        }),
        r->label@ == match turnpoint_number {
            Some(n) => decimal(n as nat) + ". "@ + point.waypoint.name@,
            None => point.waypoint.name@,
        },
{
    let label = match turnpoint_number {
        Some(n) => {
            let mut label = String::new();
            push_decimal(&mut label, n);
            label.append(". ");
            label.append(point.waypoint.name.as_str());
            label
        },
        None => point.waypoint.name.clone(),
    };
    Feature::Waypoint { label, point_type: point.point_type, location: point.waypoint.location }
}

/// The zone feature of a point, oriented by the legs that meet there; fails
/// when there are none.
pub fn generate_observation_zone_feature<L: Copy>(
    point: &Point<L>,
    bearing_in: Option<Leg<L>>,
    bearing_out: Option<Leg<L>>,
) -> (r: Result<Option<Feature<L>>, MissingOrientationReference>)
    ensures
        r is Err <==> bearing_in is None && bearing_out is None,
        r is Ok ==> r->Ok_0 is Some,
        r matches Ok(Some(f)) ==> match f {
            Feature::ObservationZone { name, point_type, center, orientation, geometry } => {
                &&& name@ == point.waypoint.name@
                &&& point_type == point.point_type
                &&& center == point.waypoint.location
                &&& orientation_of(bearing_in, bearing_out) == Some(orientation)
                &&& geometry@ == zone_outline(point.observation_zone)
            },
            _ => false,
        },
{
    let orientation = match bisector(bearing_in, bearing_out) {
        Ok(o) => o,
        Err(e) => return Err(e),
    };
    let geometry = match generate_zone_geometry(&point.observation_zone) {
        Some(g) => g,
        None => return Ok(None),
    };
    Ok(
        Some(
            Feature::ObservationZone {
                name: point.waypoint.name.clone(),
                point_type: point.point_type,
                center: point.waypoint.location,
                orientation,
                geometry,
            },
        ),
    )
}

/// The features of a task: the course line when there are at least two
/// points, then for each point its zone outline and its marker. Fails when
/// a zone cannot be oriented: exactly when the task has a single point.
pub fn assemble_features<L: Copy>(task: &Task<L>) -> (r: Result<Vec<Feature<L>>, MissingOrientationReference>)
    ensures
        r is Err <==> task.points@.len() == 1,
        r is Ok ==> is_feature_collection(r->Ok_0@, task.points@),
{
    let points = &task.points;
    let ghost pts = points@;
    let ghost off = course_line_count(pts.len() as int);
    let mut features: Vec<Feature<L>> = Vec::new();
    match generate_course_line(points) {
        Some(line) => features.push(line),
        None => {},
    }
    let bearings = calculate_leg_bearings(points);
    let mut turnpoint_number: u64 = 0;
    let mut i: usize = 0;
    while i < points.len()
        invariant
            pts == points@,
            pts == task.points@,
            i <= pts.len(),
            bearings@.len() == pts.len(),
            forall|k: int| 0 <= k < pts.len() ==> #[trigger] bearings@[k] == (leg_in(pts, k), leg_out(pts, k)),
            off == course_line_count(pts.len() as int),
            features@.len() == off + 2 * i,
            pts.len() >= 2 ==> is_course_line(features@[0], pts),
            forall|k: int| 0 <= k < i ==> #[trigger] point_features_at(features@, pts, k),
            turnpoint_number == turnpoints_before(pts, i as int),
            pts.len() == 1 ==> i == 0,
        decreases pts.len() - i,
    {
        let ghost before = features@;
        let point = &points[i];
        let legs = bearings[i];
        let bearing_in = legs.0;
        let bearing_out = legs.1;
        proof {
            assert(bearings@[i as int] == (leg_in(pts, i as int), leg_out(pts, i as int)));
            lemma_turnpoints_bounded(pts, i as int);
        }
        let label_number = match point.point_type {
            PointType::Turn | PointType::Area => {
                turnpoint_number = turnpoint_number + 1;
                Some(turnpoint_number)
            },
            _ => None,
        };
        match generate_observation_zone_feature(point, bearing_in, bearing_out) {
            Ok(Some(zone)) => features.push(zone),
            Ok(None) => {},
            Err(e) => return Err(e),
        }
        features.push(generate_waypoint_feature(point, label_number));
        assert(point_features_at(features@, pts, i as int));
        assert forall|k: int| 0 <= k < i + 1 implies #[trigger] point_features_at(features@, pts, k) by {
            if k < i {
                assert(point_features_at(before, pts, k));
                assert(features@[off + 2 * k] == before[off + 2 * k]);
                assert(features@[off + 2 * k + 1] == before[off + 2 * k + 1]);
            }
        }
        i = i + 1;
    }
    Ok(features)
}

/// A feature collection holds a course line only when the task has at least
/// two points, and then exactly one, first, through the `n` locations in
/// flight order.
pub proof fn lemma_course_line_presence<L>(fs: Seq<Feature<L>>, points: Seq<Point<L>>)
    requires
        is_feature_collection(fs, points),
    ensures
        points.len() >= 2 ==> fs[0] is CourseLine && fs[0]->coordinates@.len() == points.len()
            && forall|j: int| 0 <= j < points.len() ==> fs[0]->coordinates@[j] == location_at(points, j),
        forall|k: int|
            0 <= k < fs.len() && (points.len() < 2 || k > 0) ==> !(#[trigger] fs[k] is CourseLine),
{
    let off = course_line_count(points.len() as int);
    assert forall|k: int| 0 <= k < fs.len() && (points.len() < 2 || k > 0) implies !(#[trigger] fs[k] is CourseLine) by {
        let i = (k - off) / 2;
        assert(point_features_at(fs, points, i));
    }
}

/// Only turnpoints (`Turn`, `Area`) are numbered: each one takes the next
/// number, every other point leaves the count as it is, so the numbers start
/// at one and increase strictly in flight order.
pub proof fn lemma_turnpoint_numbering<L>(points: Seq<Point<L>>, i: int, j: int)
    requires
        0 <= i < j < points.len(),
    ensures
        turnpoints_before(points, 0) == 0,
        points[j].point_type.is_numbered() ==> turnpoints_before(points, j + 1) == turnpoints_before(points, j) + 1,
        !points[j].point_type.is_numbered() ==> turnpoints_before(points, j + 1) == turnpoints_before(points, j),
        points[j].point_type.is_numbered() ==> turnpoints_before(points, i + 1) < turnpoints_before(points, j + 1),
    decreases j - i,
{
    if i + 1 < j {
        lemma_turnpoint_numbering(points, i + 1, j);
        lemma_turnpoint_numbering(points, i, i + 1);
    }
}

/// A task of at least two points has `1 + 2n` features: the course line,
/// and a zone and a marker for each point.
pub proof fn lemma_feature_count<L>(fs: Seq<Feature<L>>, points: Seq<Point<L>>)
    requires
        is_feature_collection(fs, points),
        points.len() >= 2,
    ensures
        fs.len() == 1 + 2 * points.len(),
{
}

/// Every zone polygon of a feature collection is a closed ring: its last
/// vertex repeats its first.
pub proof fn lemma_zone_rings_closed<L>(fs: Seq<Feature<L>>, points: Seq<Point<L>>, k: int)
    requires
        is_feature_collection(fs, points),
        0 <= k < fs.len(),
        fs[k] matches Feature::ObservationZone { geometry: Geometry::Polygon(_), .. },
    ensures
        fs[k]->geometry@.vertices().len() >= 2,
        fs[k]->geometry@.vertices()[0] == fs[k]->geometry@.vertices().last(),
{
    let i = (k - course_line_count(points.len() as int)) / 2;
    assert(point_features_at(fs, points, i));
    lemma_polygon_ring_closed(points[i].observation_zone);
}

} // verus!
