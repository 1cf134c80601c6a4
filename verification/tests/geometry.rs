use gerber_viewer::{
    is_convex, Exposure, FromTuple2, GerberPolygon, GerberPrimitive, Invert, Position,
    RenderConfiguration, Scalar, ToPosition, ToVector, Vector, Winding,
};

fn s(value: f64) -> Scalar {
    Scalar::new((value * 1_000_000.0).round() as i64)
}

fn p(x: f64, y: f64) -> Position {
    Position::new(s(x), s(y))
}

#[test]
fn winding_follows_the_sign_of_the_shoelace_sum() {
    let positive = [p(0.0, 0.0), p(1.0, 0.0), p(1.0, 1.0), p(0.0, 1.0)];
    assert_eq!(Winding::from_vertices(&positive), Winding::Clockwise);
    let negative = [p(0.0, 1.0), p(1.0, 1.0), p(1.0, 0.0), p(0.0, 0.0)];
    assert_eq!(Winding::from_vertices(&negative), Winding::CounterClockwise);
    let flat = [p(0.0, 0.0), p(1.0, 0.0), p(2.0, 0.0)];
    assert_eq!(Winding::from_vertices(&flat), Winding::CounterClockwise);
    assert_eq!(Winding::from_vertices(&[]), Winding::CounterClockwise);
    assert_eq!(Winding::from_vertices(&[p(3.0, 4.0)]), Winding::CounterClockwise);
}

#[test]
fn winding_of_far_vertices_does_not_overflow() {
    let far = Scalar::max_value();
    let near = Scalar::min_value();
    let square = [
        Position::new(near, near),
        Position::new(far, near),
        Position::new(far, far),
        Position::new(near, far),
    ];
    assert_eq!(Winding::from_vertices(&square), Winding::Clockwise);
}

#[test]
fn convexity() {
    assert!(is_convex(&[]));
    assert!(is_convex(&[p(0.0, 0.0), p(1.0, 0.0)]));
    assert!(is_convex(&[p(0.0, 0.0), p(1.0, 0.0), p(0.0, 1.0)]));
    assert!(is_convex(&[p(0.0, 0.0), p(0.0, 1.0), p(1.0, 0.0)]));
    assert!(is_convex(&[p(0.0, 0.0), p(2.0, 0.0), p(2.0, 2.0), p(0.0, 2.0)]));
    // a dent
    assert!(!is_convex(&[p(0.0, 0.0), p(2.0, 0.0), p(1.0, 1.0), p(2.0, 2.0), p(0.0, 2.0)]));
    // corners on a straight edge do not count, wherever they stand
    assert!(is_convex(&[p(0.0, 0.0), p(1.0, 0.0), p(2.0, 0.0), p(2.0, 2.0), p(0.0, 2.0)]));
    assert!(is_convex(&[p(2.0, 2.0), p(0.0, 2.0), p(0.0, 0.0), p(1.0, 0.0), p(2.0, 0.0)]));
    // all corners straight
    assert!(is_convex(&[p(0.0, 0.0), p(1.0, 0.0), p(2.0, 0.0)]));
}

#[test]
fn new_polygon_orients_and_deduplicates() {
    let polygon = GerberPrimitive::new_polygon(GerberPolygon {
        center: p(5.0, 5.0),
        vertices: vec![p(0.0, 0.0), p(0.0, 0.0), p(1.0, 0.0), p(1.0, 1.0), p(0.0, 1.0)],
        exposure: Exposure::CutOut,
    });
    match polygon {
        GerberPrimitive::Polygon(polygon) => {
            assert_eq!(polygon.center, p(5.0, 5.0));
            assert_eq!(polygon.exposure, Exposure::CutOut);
            assert!(polygon.geometry.is_convex);
            assert_eq!(
                polygon.geometry.relative_vertices,
                vec![p(0.0, 1.0), p(1.0, 1.0), p(1.0, 0.0), p(0.0, 0.0)]
            );
            assert_eq!(
                Winding::from_vertices(&polygon.geometry.relative_vertices),
                Winding::CounterClockwise
            );
        }
        other => panic!("expected a polygon, got {:?}", other),
    }
}

#[test]
fn new_polygon_keeps_a_degenerate_outline() {
    let vertices = vec![p(0.0, 0.0), p(0.0, 0.0), p(1.0, 1.0)];
    let polygon = GerberPrimitive::new_polygon(GerberPolygon {
        center: p(0.0, 0.0),
        vertices: vertices.clone(),
        exposure: Exposure::Add,
    });
    match polygon {
        GerberPrimitive::Polygon(polygon) => {
            assert_eq!(polygon.geometry.relative_vertices, vertices);
        }
        other => panic!("expected a polygon, got {:?}", other),
    }
}

#[test]
fn exposure_from_bool() {
    assert_eq!(Exposure::from(true), Exposure::Add);
    assert_eq!(Exposure::from(false), Exposure::CutOut);
}

#[test]
fn invert_changes_one_sign() {
    assert_eq!(p(1.0, 2.0).invert_x(), p(-1.0, 2.0));
    assert_eq!(p(1.0, 2.0).invert_y(), p(1.0, -2.0));
    assert_eq!(Vector::new(s(-1.5), s(0.0)).invert_x(), Vector::new(s(1.5), s(0.0)));
    assert_eq!(Vector::new(s(-1.5), s(4.0)).invert_y(), Vector::new(s(-1.5), s(-4.0)));
}

#[test]
fn positions_and_vectors_convert() {
    assert_eq!(p(1.0, 2.0).to_vector(), Vector::new(s(1.0), s(2.0)));
    assert_eq!(Vector::new(s(1.0), s(2.0)).to_position(), p(1.0, 2.0));
    assert_eq!(<Position as FromTuple2>::from((s(3.0), s(4.0))), p(3.0, 4.0));
    assert_eq!(Position::from_raw(1, -2), Position::new(Scalar::new(1), Scalar::new(-2)));
    assert_eq!(p(1.0, 2.0).translate(Vector::new(s(0.5), s(-3.0))), p(1.5, -1.0));
    assert_eq!(p(1.0, 2.0).translate_back(Vector::new(s(0.5), s(-3.0))), p(0.5, 5.0));
    assert_eq!(Vector::new(s(1.0), s(2.0)).add(Vector::new(s(0.5), s(-3.0))), Vector::new(s(1.5), s(-1.0)));
    assert_eq!(p(1.0, 2.0).mirror(true, true), p(-1.0, -2.0));
    assert_eq!(p(1.0, 2.0).rotate(s(-90.0)), p(2.0, -1.0));
}

#[test]
fn render_configuration_defaults_to_plain() {
    let configuration = RenderConfiguration::default();
    assert!(!configuration.use_unique_shape_colors);
    assert!(!configuration.use_shape_numbering);
    assert!(!configuration.use_vertex_numbering);
}

#[test]
fn winding_of_a_sum_beyond_one_machine_word() {
    // a square of the whole range run round two hundred thousand times
    let far = Scalar::max_value();
    let near = Scalar::min_value();
    let corners = [
        Position::new(near, near),
        Position::new(far, near),
        Position::new(far, far),
        Position::new(near, far),
    ];
    let mut vertices: Vec<Position> = Vec::new();
    for _ in 0..200_000 {
        vertices.extend_from_slice(&corners);
    }
    assert_eq!(Winding::from_vertices(&vertices), Winding::Clockwise);
    vertices.reverse();
    assert_eq!(Winding::from_vertices(&vertices), Winding::CounterClockwise);
    // a figure of eight of the same size sums to nothing
    let eight = [
        Position::new(near, near),
        Position::new(far, far),
        Position::new(far, near),
        Position::new(near, far),
    ];
    assert_eq!(Winding::from_vertices(&eight), Winding::CounterClockwise);
}
