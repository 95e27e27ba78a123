use xcsoar_tasks::{
    assemble_features, AltitudeReference, Feature, Geometry, Leg, Location, Measure, MissingOrientationReference,
    ObservationZone, Orientation, Point, PointType, Sweep, Task, TaskType, Vertex, Waypoint,
};

fn point(name: &str, point_type: PointType, latitude: f64, longitude: f64, zone: ObservationZone<f64>) -> Point<f64> {
    Point {
        point_type,
        score_exit: None,
        waypoint: Waypoint {
            name: name.to_string(),
            altitude: None,
            id: None,
            comment: None,
            location: Location { longitude, latitude },
        },
        observation_zone: zone,
    }
}

fn task(points: Vec<Point<f64>>) -> Task<f64> {
    Task {
        task_type: TaskType::RT,
        aat_min_time: None,
        start_requires_arm: None,
        start_score_exit: None,
        start_max_speed: None,
        start_max_height: Some(1000),
        start_max_height_ref: Some(AltitudeReference::MSL),
        start_open_time: None,
        start_close_time: None,
        finish_min_height: None,
        finish_min_height_ref: None,
        fai_finish: None,
        pev_start_wait_time: None,
        pev_start_window: None,
        points,
    }
}

fn cylinder() -> ObservationZone<f64> {
    ObservationZone::Cylinder { radius: 500.0 }
}

fn labels(features: &[Feature<f64>]) -> Vec<String> {
    features
        .iter()
        .filter_map(|f| match f {
            Feature::Waypoint { label, .. } => Some(label.clone()),
            _ => None,
        })
        .collect()
}

#[test]
fn two_point_scenario() {
    let a = point("A", PointType::Start, 0.0, 0.0, cylinder());
    let b = point("B", PointType::Finish, 0.0, 1.0, ObservationZone::Line { length: 1000.0 });
    let features = assemble_features(&task(vec![a.clone(), b.clone()])).unwrap();
    assert_eq!(features.len(), 5);

    let origin = Location { longitude: 0.0, latitude: 0.0 };
    let east = Location { longitude: 1.0, latitude: 0.0 };
    assert_eq!(features[0], Feature::CourseLine { coordinates: vec![origin, east] });
    assert_eq!(features[0].feature_type(), "course_line");

    let leg = Leg { from: origin, to: east };
    match &features[1] {
        Feature::ObservationZone { name, point_type, center, orientation, geometry } => {
            assert_eq!(name, "A");
            assert_eq!(*point_type, PointType::Start);
            assert_eq!(*center, origin);
            assert_eq!(*orientation, Orientation::ReversedOutgoing(leg));
            match geometry {
                Geometry::Polygon(ring) => {
                    assert_eq!(ring.len(), 65);
                    for (i, v) in ring.iter().take(64).enumerate() {
                        assert_eq!(
                            *v,
                            Vertex::OnSweep {
                                distance: Measure::Given(500.0),
                                sweep: Sweep::Full,
                                step: i as u32,
                                steps: 64
                            }
                        );
                    }
                    assert_eq!(ring[64], ring[0]);
                }
                _ => panic!("a cylinder is a polygon"),
            }
        }
        other => panic!("expected the zone of A, got {:?}", other),
    }
    assert_eq!(features[1].feature_type(), "observation_zone");
    assert_eq!(
        features[2],
        Feature::Waypoint { label: "A".to_string(), point_type: PointType::Start, location: origin }
    );
    assert_eq!(features[2].feature_type(), "waypoint");
    assert_eq!(
        features[3],
        Feature::ObservationZone {
            name: "B".to_string(),
            point_type: PointType::Finish,
            center: east,
            orientation: Orientation::Incoming(leg),
            geometry: Geometry::LineString(vec![
                Vertex::GateEnd { length: 1000.0, left: true },
                Vertex::GateEnd { length: 1000.0, left: false },
            ]),
        }
    );
    assert_eq!(
        features[4],
        Feature::Waypoint { label: "B".to_string(), point_type: PointType::Finish, location: east }
    );
}

#[test]
fn empty_task_has_no_features() {
    let features = assemble_features(&task(vec![])).unwrap();
    assert!(features.is_empty());
}

#[test]
fn single_point_task_cannot_be_oriented() {
    let only = point("Solo", PointType::Start, 10.0, 20.0, cylinder());
    assert_eq!(assemble_features(&task(vec![only])), Err(MissingOrientationReference));
}

#[test]
fn interior_points_bisect_their_legs() {
    let points = vec![
        point("S", PointType::Start, 0.0, 0.0, ObservationZone::Line { length: 2000.0 }),
        point("T", PointType::Turn, 1.0, 1.0, ObservationZone::FAISector),
        point("F", PointType::Finish, 0.0, 2.0, cylinder()),
    ];
    let features = assemble_features(&task(points.clone())).unwrap();
    assert_eq!(features.len(), 7);
    let locations: Vec<Location<f64>> = points.iter().map(|p| p.waypoint.location).collect();
    assert_eq!(features[0], Feature::CourseLine { coordinates: locations.clone() });
    match &features[3] {
        Feature::ObservationZone { orientation, .. } => assert_eq!(
            *orientation,
            Orientation::Bisecting {
                incoming: Leg { from: locations[0], to: locations[1] },
                outgoing: Leg { from: locations[1], to: locations[2] },
            }
        ),
        other => panic!("expected the zone of T, got {:?}", other),
    }
    let kinds: Vec<&str> = features.iter().map(|f| f.feature_type()).collect();
    assert_eq!(
        kinds,
        vec!["course_line", "observation_zone", "waypoint", "observation_zone", "waypoint", "observation_zone", "waypoint"]
    );
}

#[test]
fn only_turnpoints_are_numbered() {
    let points = vec![
        point("Home", PointType::Start, 0.0, 0.0, cylinder()),
        point("Alt", PointType::OptionalStart, 0.1, 0.0, cylinder()),
        point("North", PointType::Turn, 1.0, 0.0, cylinder()),
        point("Lake", PointType::Area, 1.0, 1.0, cylinder()),
        point("Hill", PointType::Turn, 0.0, 1.0, cylinder()),
        point("Home", PointType::Finish, 0.0, 0.0, cylinder()),
    ];
    let features = assemble_features(&task(points)).unwrap();
    assert_eq!(features.len(), 1 + 2 * 6);
    assert_eq!(labels(&features), vec!["Home", "Alt", "1. North", "2. Lake", "3. Hill", "Home"]);
}

#[test]
fn numbering_goes_past_nine() {
    let mut points = vec![point("S", PointType::Start, 0.0, 0.0, cylinder())];
    for i in 0..11 {
        points.push(point(&format!("T{}", i), PointType::Turn, i as f64, 0.5, cylinder()));
    }
    let features = assemble_features(&task(points)).unwrap();
    let labels = labels(&features);
    assert_eq!(labels[1], "1. T0");
    assert_eq!(labels[10], "10. T9");
    assert_eq!(labels[11], "11. T10");
}

#[test]
fn feature_count_is_one_plus_two_per_point() {
    for n in 2..6 {
        let points: Vec<Point<f64>> =
            (0..n).map(|i| point("P", PointType::Turn, i as f64, 0.0, ObservationZone::Keyhole)).collect();
        assert_eq!(assemble_features(&task(points)).unwrap().len(), 1 + 2 * n);
    }
}
