use gerber_viewer::{BoundingBox, GerberTransform, Mirroring, Position, Scalar, Vector};

fn s(value: f64) -> Scalar {
    Scalar::new((value * 1_000_000.0).round() as i64)
}

fn p(x: f64, y: f64) -> Position {
    Position::new(s(x), s(y))
}

fn v(x: f64, y: f64) -> Vector {
    Vector::new(s(x), s(y))
}

#[test]
pub fn test_apply_rotation_90_degrees_zero_offset() {
    let bbox = BoundingBox { min: p(1.0, 2.0), max: p(3.0, 4.0) };

    let rotated = bbox.apply_rotation(s(90.0), v(0.0, 0.0)); // 90 degrees

    // Expected:
    // Points rotate CCW around origin:
    // (1,2) => (-2,1)
    // (1,4) => (-4,1)
    // (3,2) => (-2,3)
    // (3,4) => (-4,3)
    //
    // So bounds are:
    // min_x = -4, max_x = -2
    // min_y = 1,  max_y = 3

    assert!((rotated.min.x.raw() - -4_000_000).abs() < 1);
    assert!((rotated.max.x.raw() - -2_000_000).abs() < 1);
    assert!((rotated.min.y.raw() - 1_000_000).abs() < 1);
    assert!((rotated.max.y.raw() - 3_000_000).abs() < 1);
}

#[test]
fn apply_rotation_about_a_pivot() {
    let bbox = BoundingBox { min: p(1.0, 2.0), max: p(3.0, 4.0) };
    let rotated = bbox.apply_rotation(s(180.0), v(1.0, 2.0));
    assert_eq!(rotated, BoundingBox { min: p(-1.0, 0.0), max: p(1.0, 2.0) });
    let eighth = BoundingBox { min: p(0.0, 0.0), max: p(1.0, 1.0) }.apply_rotation(s(45.0), v(0.0, 0.0));
    let half_diagonal = 0.5_f64.sqrt();
    assert!((eighth.min.x.raw() as f64 / 1e6 + half_diagonal).abs() < 2e-6);
    assert!((eighth.max.x.raw() as f64 / 1e6 - half_diagonal).abs() < 2e-6);
    assert_eq!(eighth.min.y, s(0.0));
    assert!((eighth.max.y.raw() as f64 / 1e6 - 2.0 * half_diagonal).abs() < 2e-6);
}

#[test]
fn only_the_default_box_is_empty() {
    assert!(BoundingBox::default().is_empty());
    assert!(!BoundingBox { min: p(0.0, 0.0), max: p(0.0, 0.0) }.is_empty());
    assert!(!BoundingBox { min: p(-10.0, -10.0), max: p(10.0, 10.0) }.is_empty());
    let almost = BoundingBox { min: BoundingBox::default().min, max: p(0.0, 0.0) };
    assert!(!almost.is_empty());
    assert_eq!(BoundingBox::default().min, Position::new(Scalar::max_value(), Scalar::max_value()));
    assert_eq!(BoundingBox::default().max, Position::new(Scalar::min_value(), Scalar::min_value()));
    assert!(BoundingBox::from_points(&[]).is_empty());
    assert!(!BoundingBox::from_points(&[p(0.0, 0.0)]).is_empty());
}

#[test]
fn geometric_center() {
    let cases = [
        ((0.0, 0.0), (10.0, 10.0), (5.0, 5.0)),
        ((10.0, 10.0), (10.0, 10.0), (15.0, 15.0)),
        ((0.0, 0.0), (5.0, 10.0), (2.5, 5.0)),
        ((0.0, 0.0), (10.0, 5.0), (5.0, 2.5)),
        ((10.0, 10.0), (5.0, 10.0), (12.5, 15.0)),
        ((10.0, 10.0), (10.0, 5.0), (15.0, 12.5)),
    ];
    for (origin, size, expected) in cases {
        let bbox = BoundingBox { min: p(origin.0, origin.1), max: p(origin.0 + size.0, origin.1 + size.1) };
        assert_eq!(bbox.center(), p(expected.0, expected.1));
        assert_eq!(bbox.width(), s(size.0));
        assert_eq!(bbox.height(), s(size.1));
    }
}

#[test]
fn from_points_takes_the_extremes() {
    let bbox = BoundingBox::from_points(&[p(1.0, -2.0), p(-3.0, 4.0), p(2.0, 2.0)]);
    assert_eq!(bbox, BoundingBox { min: p(-3.0, -2.0), max: p(2.0, 4.0) });
    let single = BoundingBox::from_points(&[p(7.0, 8.0)]);
    assert_eq!(single, BoundingBox { min: p(7.0, 8.0), max: p(7.0, 8.0) });
}

#[test]
fn expand_merges_pointwise() {
    let mut bbox = BoundingBox { min: p(0.0, 0.0), max: p(1.0, 1.0) };
    bbox.expand(&BoundingBox { min: p(-1.0, 0.5), max: p(0.5, 3.0) });
    assert_eq!(bbox, BoundingBox { min: p(-1.0, 0.0), max: p(1.0, 3.0) });
    let mut empty = BoundingBox::default();
    empty.expand(&BoundingBox { min: p(2.0, 2.0), max: p(3.0, 3.0) });
    assert_eq!(empty, BoundingBox { min: p(2.0, 2.0), max: p(3.0, 3.0) });
    let mut unchanged = BoundingBox { min: p(2.0, 2.0), max: p(3.0, 3.0) };
    unchanged.expand(&BoundingBox::default());
    assert_eq!(unchanged, BoundingBox { min: p(2.0, 2.0), max: p(3.0, 3.0) });
}

#[test]
fn vertices_run_round_the_box() {
    let bbox = BoundingBox { min: p(1.0, 2.0), max: p(3.0, 4.0) };
    assert_eq!(bbox.vertices(), vec![p(1.0, 2.0), p(3.0, 2.0), p(3.0, 4.0), p(1.0, 4.0)]);
}

#[test]
fn apply_mirroring_reflects_about_the_offset() {
    let bbox = BoundingBox { min: p(1.0, 2.0), max: p(3.0, 4.0) };
    assert_eq!(
        bbox.apply_mirroring(true, false, v(0.0, 0.0)),
        BoundingBox { min: p(-3.0, 2.0), max: p(-1.0, 4.0) }
    );
    assert_eq!(
        bbox.apply_mirroring(false, true, v(0.0, 1.0)),
        BoundingBox { min: p(1.0, -2.0), max: p(3.0, 0.0) }
    );
    assert_eq!(
        bbox.apply_mirroring(true, true, v(1.0, 2.0)),
        BoundingBox { min: p(-1.0, 0.0), max: p(1.0, 2.0) }
    );
    assert_eq!(bbox.apply_mirroring(false, false, v(5.0, 5.0)), bbox);
}

#[test]
fn transform_mirrors_then_rotates_then_shifts() {
    let transform = GerberTransform {
        rotation: s(90.0),
        mirroring: Mirroring { x: true, y: false },
        origin: v(1.0, 1.0),
        offset: v(10.0, 20.0),
    };
    // (3, 1) is (2, 0) from the pivot; mirrored to (-2, 0); turned to (0, -2); put back to
    // (1, -1); shifted to (11, 19)
    assert_eq!(transform.apply_to_position(p(3.0, 1.0)), p(11.0, 19.0));
    assert_eq!(GerberTransform::identity().apply_to_position(p(3.0, -1.0)), p(3.0, -1.0));

    let bbox = BoundingBox { min: p(1.0, 1.0), max: p(3.0, 2.0) };
    assert_eq!(
        bbox.transform_vertices(&transform),
        vec![p(11.0, 21.0), p(11.0, 19.0), p(10.0, 19.0), p(10.0, 21.0)]
    );
    assert_eq!(bbox.apply_transform(&transform), BoundingBox { min: p(10.0, 19.0), max: p(11.0, 21.0) });
    assert_eq!(
        transform.apply_to_positions(&[p(3.0, 1.0), p(1.0, 1.0)]),
        vec![p(11.0, 19.0), p(11.0, 21.0)]
    );
}
