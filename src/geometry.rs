//! Outlines of observation zones. Every vertex is stated exactly, as a sample
//! along a named sweep around the zone's center at a named distance; a renderer
//! turns each into a coordinate by great-circle projection.
use vstd::prelude::*;

use crate::task::ObservationZone;

verus! {

/// Samples of a full circle.
pub const CIRCLE_SAMPLES: u32 = 64;

/// Intervals along the outer arc of a sector (one more vertex than that).
pub const ARC_SAMPLES: u32 = 32;

/// Radius of the one-mile cylinder, in hundredths of a meter.
pub const MAT_CYLINDER_RADIUS: u32 = 160934;

/// Radius at which an FAI sector is drawn, in hundredths of a meter.
pub const FAI_SECTOR_RADIUS: u32 = 2000000;

/// A right angle, in hundredths of a degree.
pub const QUARTER_TURN: u32 = 9000;

/// A straight angle, in hundredths of a degree.
pub const HALF_TURN: u32 = 18000;

/// Outer radius of a keyhole or quadrant unless given, in hundredths of a meter.
pub const DEFAULT_OUTER_RADIUS: u32 = 1000000;

/// Inner radius of a keyhole unless given, in hundredths of a meter.
pub const DEFAULT_INNER_RADIUS: u32 = 50000;

/// Outer radius of a BGA start sector, in hundredths of a meter.
pub const BGA_START_RADIUS: u32 = 500000;

/// Outer radius of a BGA fixed course keyhole, in hundredths of a meter.
pub const BGA_FIXED_COURSE_RADIUS: u32 = 2000000;

/// A length in meters or an angle in degrees: either a value the task gives,
/// or a fixed value of the zone's kind, in hundredths of the unit.
#[derive(Debug, Clone, Copy, PartialEq)]
pub enum Measure<L> {
    Given(L),
    Hundredths(u32),
}

/// An angular range around a zone's center, always swept towards increasing
/// bearing. Its extent is `end - start` brought into a full turn.
#[derive(Debug, Clone, Copy, PartialEq)]
pub enum Sweep<L> {
    /// The whole turn, from north.
    Full,
    /// From the absolute bearing `start` to the absolute bearing `end`.
    Radials { start: L, end: L },
    /// `angle` wide and centered on the point's orientation.
    Centered { angle: Measure<L> },
    /// The rest of the turn left by a centered sweep of `angle`: from its end
    /// on round to its start.
    Remainder { angle: Measure<L> },
}

/// A vertex of a zone outline, relative to the zone's center.
#[derive(Debug, Clone, Copy, PartialEq)]
pub enum Vertex<L> {
    /// The center itself.
    Center,
    /// At `distance` from the center, at the bearing a fraction `step / steps`
    /// of the way along `sweep`.
    OnSweep { distance: Measure<L>, sweep: Sweep<L>, step: u32, steps: u32 },
    /// An end of a line gate of `length`: half of it from the center, a right
    /// angle to the left (`left`) or to the right of the orientation.
    GateEnd { length: L, left: bool },
}

/// The outline of a zone, as built.
#[derive(Debug, Clone, PartialEq)]
pub enum Geometry<L> {
    Polygon(Vec<Vertex<L>>),
    LineString(Vec<Vertex<L>>),
}

/// The outline of a zone, as a mathematical value.
pub enum Outline<L> {
    Polygon(Seq<Vertex<L>>),
    LineString(Seq<Vertex<L>>),
}

impl<L> Outline<L> {
    pub open spec fn vertices(self) -> Seq<Vertex<L>> {
        match self {
            Outline::Polygon(v) => v,
            Outline::LineString(v) => v,
        }
    }
}

impl<L> View for Geometry<L> {
    type V = Outline<L>;

    open spec fn view(&self) -> Outline<L> {
        match self {
            Geometry::Polygon(v) => Outline::Polygon(v@),
            Geometry::LineString(v) => Outline::LineString(v@),
        }
    }
}

/// The `steps + 1` samples from the start to the end of `sweep`.
pub open spec fn arc_samples<L>(distance: Measure<L>, sweep: Sweep<L>, steps: u32) -> Seq<Vertex<L>> {
    Seq::new(steps as nat + 1, |i: int| Vertex::OnSweep { distance, sweep, step: i as u32, steps })
}

/// The same samples, from the end of `sweep` back to its start.
pub open spec fn arc_samples_back<L>(distance: Measure<L>, sweep: Sweep<L>, steps: u32) -> Seq<Vertex<L>> {
    Seq::new(
        steps as nat + 1,
        |i: int| Vertex::OnSweep { distance, sweep, step: (steps - i) as u32, steps },
    )
}

/// A circle: the samples of the full turn, closed by its first vertex again.
pub open spec fn circle_ring<L>(radius: Measure<L>) -> Seq<Vertex<L>> {
    Seq::new(
        CIRCLE_SAMPLES as nat,
        |i: int| Vertex::OnSweep { distance: radius, sweep: Sweep::Full, step: i as u32, steps: CIRCLE_SAMPLES },
    ).push(Vertex::OnSweep { distance: radius, sweep: Sweep::Full, step: 0, steps: CIRCLE_SAMPLES })
}

/// A sector: its outer arc, then the inner arc traced back (annular) or the
/// center, closed by the first vertex again.
pub open spec fn sector_ring<L>(radius: Measure<L>, sweep: Sweep<L>, inner_radius: Option<Measure<L>>) -> Seq<Vertex<L>> {
    let outer = arc_samples(radius, sweep, ARC_SAMPLES);
    let middle = match inner_radius {
        Some(r) => arc_samples_back(r, sweep, ARC_SAMPLES),
        None => seq![Vertex::Center],
    };
    (outer + middle).push(outer[0])
}

/// A keyhole: the outer arc of the centered sector, then the inner circle on
/// round from its end for the rest of the turn, closed by the first vertex again.
pub open spec fn keyhole_ring<L>(radius: Measure<L>, inner_radius: Measure<L>, angle: Measure<L>) -> Seq<Vertex<L>> {
    let outer = arc_samples(radius, Sweep::Centered { angle }, ARC_SAMPLES);
    (outer + arc_samples(inner_radius, Sweep::Remainder { angle }, CIRCLE_SAMPLES)).push(outer[0])
}

/// A line gate: its left end, then its right end.
pub open spec fn gate_ends<L>(length: L) -> Seq<Vertex<L>> {
    seq![Vertex::GateEnd { length, left: true }, Vertex::GateEnd { length, left: false }]
}

/// A parameter of the zone, or the fixed default of its kind.
pub open spec fn given_or<L>(p: Option<L>, hundredths: u32) -> Measure<L> {
    match p {
        Some(v) => Measure::Given(v),
        None => Measure::Hundredths(hundredths),
    }
}

/// The outline of each kind of zone.
pub open spec fn zone_outline<L>(zone: ObservationZone<L>) -> Outline<L> {
    match zone {
        ObservationZone::Cylinder { radius } => Outline::Polygon(circle_ring(Measure::Given(radius))),
        ObservationZone::MatCylinder => Outline::Polygon(
            circle_ring(Measure::Hundredths(MAT_CYLINDER_RADIUS)),
        ),
        ObservationZone::Line { length } => Outline::LineString(gate_ends(length)),
        ObservationZone::FAISector => Outline::Polygon(
            sector_ring(
                Measure::Hundredths(FAI_SECTOR_RADIUS),
                Sweep::Centered { angle: Measure::Hundredths(QUARTER_TURN) },
                None,
            ),
        ),
        ObservationZone::Sector { radius, start_radial, end_radial, inner_radius } => Outline::Polygon(
            sector_ring(
                Measure::Given(radius),
                Sweep::Radials { start: start_radial, end: end_radial },
                match inner_radius {
                    Some(r) => Some(Measure::Given(r)),
                    None => None,
                },
            ),
        ),
        ObservationZone::SymmetricQuadrant { radius, angle } => Outline::Polygon(
            sector_ring(
                given_or(radius, DEFAULT_OUTER_RADIUS),
                Sweep::Centered { angle: given_or(angle, QUARTER_TURN) },
                None,
            ),
        ),
        ObservationZone::Keyhole => Outline::Polygon(
            keyhole_ring(
                Measure::Hundredths(DEFAULT_OUTER_RADIUS),
                Measure::Hundredths(DEFAULT_INNER_RADIUS),
                Measure::Hundredths(QUARTER_TURN),
            ),
        ),
        ObservationZone::CustomKeyhole { radius, angle, inner_radius } => Outline::Polygon(
            keyhole_ring(
                given_or(radius, DEFAULT_OUTER_RADIUS),
                given_or(inner_radius, DEFAULT_INNER_RADIUS),
                given_or(angle, QUARTER_TURN),
            ),
        ),
        ObservationZone::BGAStartSector => Outline::Polygon(
            sector_ring(
                Measure::Hundredths(BGA_START_RADIUS),
                Sweep::Centered { angle: Measure::Hundredths(HALF_TURN) },
                None,
            ),
        ),
        ObservationZone::BGAFixedCourse => Outline::Polygon(
            keyhole_ring(
                Measure::Hundredths(BGA_FIXED_COURSE_RADIUS),
                Measure::Hundredths(DEFAULT_INNER_RADIUS),
                Measure::Hundredths(QUARTER_TURN),
            ),
        ),
        ObservationZone::BGAEnhancedOption => Outline::Polygon(
            keyhole_ring(
                Measure::Hundredths(DEFAULT_OUTER_RADIUS),
                Measure::Hundredths(DEFAULT_INNER_RADIUS),
                Measure::Hundredths(HALF_TURN),
            ),
        ),
    }
}

/// Appends the samples of `sweep` from start to end, or from end to start.
fn push_arc<L: Copy>(ring: &mut Vec<Vertex<L>>, distance: Measure<L>, sweep: Sweep<L>, steps: u32, backwards: bool)
    requires
        steps < u32::MAX,
    ensures
        final(ring)@ == old(ring)@ + (if backwards {
            arc_samples_back(distance, sweep, steps)
        } else {
            arc_samples(distance, sweep, steps)
        }),
{
    let ghost init = ring@;
    let ghost samples = if backwards {
        arc_samples_back(distance, sweep, steps)
    } else {
        arc_samples(distance, sweep, steps)
    };
    let mut i: u32 = 0;
    while i <= steps
        invariant
            steps < u32::MAX,
            i <= steps + 1,
            samples.len() == steps + 1,
            samples == (if backwards {
                arc_samples_back(distance, sweep, steps)
            } else {
                arc_samples(distance, sweep, steps)
            }),
            ring@ == init + samples.take(i as int),
        decreases steps + 1 - i,
    {
        let step = if backwards {
            steps - i
        } else {
            i
        };
        ring.push(Vertex::OnSweep { distance, sweep, step, steps });
        assert(samples.take(i as int + 1) =~= samples.take(i as int).push(samples[i as int]));
        i = i + 1;
    }
    assert(samples.take(i as int) =~= samples);
}

/// The circle of `radius` around the center.
pub fn generate_circle<L: Copy>(radius: Measure<L>) -> (r: Geometry<L>)
    ensures
        r@ == Outline::Polygon(circle_ring(radius)),
{
    let mut ring: Vec<Vertex<L>> = Vec::new();
    let mut i: u32 = 0;
    while i < CIRCLE_SAMPLES
        invariant
            i <= CIRCLE_SAMPLES,
            ring@ =~= circle_ring(radius).take(i as int),
        decreases CIRCLE_SAMPLES - i,
    {
        ring.push(Vertex::OnSweep { distance: radius, sweep: Sweep::Full, step: i, steps: CIRCLE_SAMPLES });
        i = i + 1;
    }
    ring.push(Vertex::OnSweep { distance: radius, sweep: Sweep::Full, step: 0, steps: CIRCLE_SAMPLES });
    assert(ring@ =~= circle_ring(radius));
    Geometry::Polygon(ring)
}

/// A sector of `radius` over `sweep`: annular when `inner_radius` is given,
/// otherwise closed at the center.
pub fn generate_sector<L: Copy>(radius: Measure<L>, sweep: Sweep<L>, inner_radius: Option<Measure<L>>) -> (r: Geometry<L>)
    ensures
        r@ == Outline::Polygon(sector_ring(radius, sweep, inner_radius)),
{
    let mut ring: Vec<Vertex<L>> = Vec::new();
    push_arc(&mut ring, radius, sweep, ARC_SAMPLES, false);
    match inner_radius {
        Some(inner) => push_arc(&mut ring, inner, sweep, ARC_SAMPLES, true),
        None => ring.push(Vertex::Center),
    }
    ring.push(Vertex::OnSweep { distance: radius, sweep, step: 0, steps: ARC_SAMPLES });
    assert(ring@ =~= sector_ring(radius, sweep, inner_radius));
    Geometry::Polygon(ring)
}

/// A keyhole: a sector of `radius` and `angle` centered on the orientation,
/// fused with the circle of `inner_radius`.
pub fn generate_keyhole<L: Copy>(radius: Measure<L>, inner_radius: Measure<L>, angle: Measure<L>) -> (r: Geometry<L>)
    ensures
        r@ == Outline::Polygon(keyhole_ring(radius, inner_radius, angle)),
{
    let mut ring: Vec<Vertex<L>> = Vec::new();
    push_arc(&mut ring, radius, Sweep::Centered { angle }, ARC_SAMPLES, false);
    push_arc(&mut ring, inner_radius, Sweep::Remainder { angle }, CIRCLE_SAMPLES, false);
    ring.push(Vertex::OnSweep { distance: radius, sweep: Sweep::Centered { angle }, step: 0, steps: ARC_SAMPLES });
    assert(ring@ =~= keyhole_ring(radius, inner_radius, angle));
    Geometry::Polygon(ring)
}

/// A line gate of `length`, square to the orientation and centered on the point.
pub fn generate_line<L: Copy>(length: L) -> (r: Geometry<L>)
    ensures
        r@ == Outline::LineString(gate_ends(length)),
{
    let ends = vec![Vertex::GateEnd { length, left: true }, Vertex::GateEnd { length, left: false }];
    assert(ends@ =~= gate_ends(length));
    Geometry::LineString(ends)
}

/// A parameter of the zone, or the fixed default of its kind when omitted.
pub fn given_or_default<L: Copy>(p: Option<L>, hundredths: u32) -> (r: Measure<L>)
    ensures
        r == given_or(p, hundredths),
{
    match p {
        Some(v) => Measure::Given(v),
        None => Measure::Hundredths(hundredths),
    }
}

/// The outline of a zone. Every kind of zone has one.
pub fn generate_zone_geometry<L: Copy>(zone: &ObservationZone<L>) -> (r: Option<Geometry<L>>)
    ensures
        r is Some,
        r->0@ == zone_outline(*zone),
{
    let geometry = match *zone {
        ObservationZone::Cylinder { radius } => generate_circle(Measure::Given(radius)),
        ObservationZone::MatCylinder => generate_circle(Measure::Hundredths(MAT_CYLINDER_RADIUS)),
        ObservationZone::Line { length } => generate_line(length),
        ObservationZone::FAISector => generate_sector(
            Measure::Hundredths(FAI_SECTOR_RADIUS),
            Sweep::Centered { angle: Measure::Hundredths(QUARTER_TURN) },
            None,
        ),
        ObservationZone::Sector { radius, start_radial, end_radial, inner_radius } => {
            let inner = match inner_radius {
                Some(r) => Some(Measure::Given(r)),
                None => None,
            };
            generate_sector(Measure::Given(radius), Sweep::Radials { start: start_radial, end: end_radial }, inner)
        },
        ObservationZone::SymmetricQuadrant { radius, angle } => {
            let radius = given_or_default(radius, DEFAULT_OUTER_RADIUS);
            let angle = given_or_default(angle, QUARTER_TURN);
            generate_sector(radius, Sweep::Centered { angle }, None)
        },
        ObservationZone::Keyhole => generate_keyhole(
            Measure::Hundredths(DEFAULT_OUTER_RADIUS),
            Measure::Hundredths(DEFAULT_INNER_RADIUS),
            Measure::Hundredths(QUARTER_TURN),
        ),
        ObservationZone::CustomKeyhole { radius, angle, inner_radius } => {
            let radius = given_or_default(radius, DEFAULT_OUTER_RADIUS);
            let angle = given_or_default(angle, QUARTER_TURN);
            let inner_radius = given_or_default(inner_radius, DEFAULT_INNER_RADIUS);
            generate_keyhole(radius, inner_radius, angle)
        },
        ObservationZone::BGAStartSector => generate_sector(
            Measure::Hundredths(BGA_START_RADIUS),
            Sweep::Centered { angle: Measure::Hundredths(HALF_TURN) },
            None,
        ),
        ObservationZone::BGAFixedCourse => generate_keyhole(
            Measure::Hundredths(BGA_FIXED_COURSE_RADIUS),
            Measure::Hundredths(DEFAULT_INNER_RADIUS),
            Measure::Hundredths(QUARTER_TURN),
        ),
        ObservationZone::BGAEnhancedOption => generate_keyhole(
            Measure::Hundredths(DEFAULT_OUTER_RADIUS),
            Measure::Hundredths(DEFAULT_INNER_RADIUS),
            Measure::Hundredths(HALF_TURN),
        ),
    };
    Some(geometry)
}

/// Every polygon outline is a closed ring: it has at least two vertices and
/// its last vertex repeats its first.
pub proof fn lemma_polygon_ring_closed<L>(zone: ObservationZone<L>)
    ensures
        zone_outline(zone) is Polygon ==> zone_outline(zone).vertices().len() >= 2
            && zone_outline(zone).vertices()[0] == zone_outline(zone).vertices().last(),
{
}

/// A cylinder, given or of one mile, has one vertex per circle sample and
/// the closing vertex: 65 in all.
pub proof fn lemma_circle_vertex_count<L>(zone: ObservationZone<L>)
    requires
        zone is Cylinder || zone is MatCylinder,
    ensures
        zone_outline(zone).vertices().len() == CIRCLE_SAMPLES + 1,
        zone_outline(zone).vertices().len() == 65,
{
}

/// A sector has the vertices of its outer arc, then those of its inner arc
/// when annular (67 vertices in all) or else the center (35 in all), then the
/// closing vertex.
pub proof fn lemma_sector_vertex_count<L>(radius: Measure<L>, sweep: Sweep<L>, inner_radius: Option<Measure<L>>)
    ensures
        inner_radius is Some ==> sector_ring(radius, sweep, inner_radius).len() == 2 * (ARC_SAMPLES + 1) + 1,
        inner_radius is Some ==> sector_ring(radius, sweep, inner_radius).len() == 67,
        inner_radius is None ==> sector_ring(radius, sweep, inner_radius).len() == ARC_SAMPLES + 3,
        inner_radius is None ==> sector_ring(radius, sweep, inner_radius).len() == 35,
{
}

/// A keyhole has the vertices of its outer arc, those of the inner circle's
/// remainder, and the closing vertex: 99 in all.
pub proof fn lemma_keyhole_vertex_count<L>(radius: Measure<L>, inner_radius: Measure<L>, angle: Measure<L>)
    ensures
        keyhole_ring(radius, inner_radius, angle).len() == 99,
{
}

} // verus!
