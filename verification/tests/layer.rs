use gerber_viewer::commands::{
    Aperture, ApertureDefinition, ApertureMacro, CenterLinePrimitive, Circle, CirclePrimitive,
    Command, CoordinateOffset, Coordinates, InterpolationMode, MacroBoolean, MacroContent,
    MacroDecimal, MacroInteger, MacroPair, Operation, OutlinePrimitive, Polygon, PolygonPrimitive,
    QuadrantMode, Rectangular, VariableDefinition, VectorLinePrimitive,
};
use gerber_viewer::{
    ArcGerberPrimitive, BoundingBox, CircleGerberPrimitive, Diagnostic, Exposure,
    ExpressionEvaluationError, GerberLayer, GerberPrimitive, Position, Scalar, WithBoundingBox,
};

const FRAC_PI_2: i64 = 90_000_000;
const PI: i64 = 180_000_000;

fn s(value: f64) -> Scalar {
    Scalar::new((value * 1_000_000.0).round() as i64)
}

fn at(x: f64, y: f64) -> Coordinates {
    Coordinates { x: Some(s(x)), y: Some(s(y)) }
}

fn offset(x: f64, y: f64) -> CoordinateOffset {
    CoordinateOffset { x: Some(s(x)), y: Some(s(y)) }
}

fn point(x: f64, y: f64) -> Position {
    Position::new(s(x), s(y))
}

fn circle_aperture(code: i32, diameter: f64) -> Command {
    Command::ApertureDefinition(ApertureDefinition {
        code,
        aperture: Aperture::Circle(Circle { diameter: s(diameter), hole_diameter: None }),
    })
}

fn flash(x: f64, y: f64) -> Command {
    Command::Operation(Operation::Flash(at(x, y)))
}

fn create_arc_primitive(
    center_x: f64,
    center_y: f64,
    radius: f64,
    width: f64,
    start_angle: i64,
    sweep_angle: i64,
) -> GerberPrimitive {
    GerberPrimitive::Arc(ArcGerberPrimitive {
        center: point(center_x, center_y),
        radius: s(radius),
        width: s(width),
        start_angle: Scalar::new(start_angle),
        sweep_angle: Scalar::new(sweep_angle),
        exposure: Exposure::Add,
    })
}

fn cos_of(angle: i64) -> f64 {
    (angle as f64 / 1_000_000.0).to_radians().cos()
}

fn sin_of(angle: i64) -> f64 {
    (angle as f64 / 1_000_000.0).to_radians().sin()
}

fn value(v: Scalar) -> f64 {
    v.raw() as f64 / 1_000_000.0
}

#[test]
fn test_rounded_rectangle_outline() {
    // Given
    let corner_radius: f64 = 5.0; // mm
    let line_width: f64 = 0.1; // mm

    let mut commands: Vec<Command> = Vec::new();

    // Set unit to millimeters
    commands.push(Command::Other);

    // Define circle aperture for outline
    commands.push(circle_aperture(12, line_width));

    // Format codes
    commands.push(Command::Other);
    commands.push(Command::InterpolationMode(InterpolationMode::Linear));

    // Start at top-left corner
    commands.push(Command::Operation(Operation::Move(at(5.0, 15.0))));

    // Select aperture
    commands.push(Command::SelectAperture(12));

    // Draw top-left corner arc (counterclockwise)
    commands.push(Command::InterpolationMode(InterpolationMode::CounterclockwiseCircular));
    commands.push(Command::Operation(Operation::Interpolate(
        at(0.0, 10.0),
        Some(offset(0.0, -5.0)),
    )));

    // Linear interpolation for left side
    commands.push(Command::InterpolationMode(InterpolationMode::Linear));
    commands.push(Command::Operation(Operation::Interpolate(at(0.0, 5.0), None)));

    // Bottom-left corner arc (counterclockwise)
    commands.push(Command::InterpolationMode(InterpolationMode::CounterclockwiseCircular));
    commands.push(Command::Operation(Operation::Interpolate(
        at(5.0, 0.0),
        Some(offset(5.0, 0.0)),
    )));

    // Linear interpolation for bottom side
    commands.push(Command::InterpolationMode(InterpolationMode::Linear));
    commands.push(Command::Operation(Operation::Interpolate(at(15.0, 0.0), None)));

    // Bottom-right corner arc (counterclockwise)
    commands.push(Command::InterpolationMode(InterpolationMode::CounterclockwiseCircular));
    commands.push(Command::Operation(Operation::Interpolate(
        at(20.0, 5.0),
        Some(offset(0.0, 5.0)),
    )));

    // Linear interpolation for right side
    commands.push(Command::InterpolationMode(InterpolationMode::Linear));
    commands.push(Command::Operation(Operation::Interpolate(at(20.0, 10.0), None)));

    // Top-right corner arc (counterclockwise)
    commands.push(Command::InterpolationMode(InterpolationMode::CounterclockwiseCircular));
    commands.push(Command::Operation(Operation::Interpolate(
        at(15.0, 15.0),
        Some(offset(-5.0, 0.0)),
    )));

    // Linear interpolation for top side (back to start)
    commands.push(Command::InterpolationMode(InterpolationMode::Linear));
    commands.push(Command::Operation(Operation::Interpolate(at(5.0, 15.0), None)));

    // When
    let gerber_layer = GerberLayer::new(commands);
    let primitives = gerber_layer.primitives();
    println!("primitives");
    for primitive in primitives {
        println!("{:?}", primitive);
    }

    // Then
    // Verify primitives count - should have 4 lines and 4 arcs and 8 circles
    assert_eq!(primitives.len(), 16);

    // Verify that we have the required groups
    for i in 0..16 {
        match i % 4 {
            0 => assert!(
                matches!(primitives[i], GerberPrimitive::Circle { .. }),
                "Expected Circle at index {}",
                i
            ),
            1 => assert!(
                matches!(primitives[i], GerberPrimitive::Arc { .. }),
                "Expected Arc at index {}",
                i
            ),
            2 => assert!(
                matches!(primitives[i], GerberPrimitive::Circle { .. }),
                "Expected Circle at index {}",
                i
            ),
            3 => assert!(
                matches!(primitives[i], GerberPrimitive::Line { .. }),
                "Expected Line at index {}",
                i
            ),
            _ => unreachable!(),
        }
    }

    // Define the expected positions for centers and radii first
    let expected_centers = [(5.0, 10.0), (5.0, 5.0), (15.0, 5.0), (15.0, 10.0)];

    // Collect all arcs for property testing
    let mut arcs: Vec<(usize, ArcGerberPrimitive)> = Vec::new();
    for (i, p) in primitives.iter().enumerate() {
        if let GerberPrimitive::Arc(arc) = p {
            arcs.push((i, *arc));
        }
    }

    // Verify we have exactly 4 arcs
    assert_eq!(arcs.len(), 4, "Expected exactly 4 arcs");

    // All sweep angles should be PI/2
    for (i, (arc_index, arc)) in arcs.iter().enumerate() {
        assert!(
            arc.sweep_angle.raw() == FRAC_PI_2,
            "Arc {} at index {} has sweep angle {} which is not PI/2 (expected {})",
            i,
            arc_index,
            arc.sweep_angle.raw(),
            FRAC_PI_2
        );
    }

    // All radii should be equal to corner_radius
    for (i, (arc_index, arc)) in arcs.iter().enumerate() {
        assert_eq!(
            arc.radius,
            s(corner_radius),
            "Arc {} at index {} has radius {:?} which is not equal to corner_radius {}",
            i,
            arc_index,
            arc.radius,
            corner_radius
        );
    }

    // All line widths should be equal to line_width
    for (i, (arc_index, arc)) in arcs.iter().enumerate() {
        assert_eq!(
            arc.width,
            s(line_width),
            "Arc {} at index {} has width {:?} which is not equal to line_width {}",
            i,
            arc_index,
            arc.width,
            line_width
        );
    }

    // All arcs should have Add exposure
    for (i, (arc_index, arc)) in arcs.iter().enumerate() {
        assert!(
            matches!(arc.exposure, Exposure::Add),
            "Arc {} at index {} has exposure {:?} which is not Add",
            i,
            arc_index,
            arc.exposure
        );
    }

    // Centers should match expected positions
    for (center_index, (arc_index, arc)) in arcs.iter().enumerate() {
        let expected_center = expected_centers[center_index];
        let arc_center = (value(arc.center.x), value(arc.center.y));
        assert_eq!(
            arc_center, expected_center,
            "Arc {} at index {} has center {:?} which is not equal to expected {:?}",
            center_index, arc_index, arc_center, expected_center
        );
    }

    // The start angles follow the corners around the outline
    let expected_start_angles = [FRAC_PI_2, PI, -FRAC_PI_2, 0];
    let angle_names = ["PI", "-PI/2", "0", "PI/2"];

    for (idx, ((arc_idx, arc), angle_name)) in arcs.iter().zip(angle_names.iter()).enumerate() {
        assert!(
            arc.start_angle.raw() == expected_start_angles[idx],
            "Arc at index {} has start_angle {} which doesn't match expected {} ({})",
            arc_idx,
            arc.start_angle.raw(),
            angle_name,
            expected_start_angles[idx]
        );
    }
}

#[test]
fn test_circle_with_hole_rendering() {
    // Given: A circle aperture with a hole
    let outer_diameter = 2.5;
    let hole_diameter = 0.5;
    let center = point(0.0, 0.0);

    let aperture = Aperture::Circle(Circle {
        diameter: s(outer_diameter),
        hole_diameter: Some(s(hole_diameter)),
    });

    let commands = vec![
        Command::Other,
        Command::ApertureDefinition(ApertureDefinition { code: 11, aperture }),
        Command::SelectAperture(11),
        flash(0.0, 0.0),
    ];

    // When
    let layer = GerberLayer::new(commands);
    let primitives = layer.primitives();

    // Then
    assert_eq!(primitives.len(), 1);

    match &primitives[0] {
        GerberPrimitive::Arc(ArcGerberPrimitive {
            center: c,
            radius,
            width,
            start_angle,
            sweep_angle,
            exposure,
        }) => {
            assert_eq!(*c, center);

            // The radius should be midway between outer and inner radius
            let expected_radius = (outer_diameter / 2.0 + hole_diameter / 2.0) / 2.0;
            assert_eq!(
                *radius,
                s(expected_radius),
                "Radius should be midway between outer and inner radii ({}), got {:?}",
                expected_radius,
                radius
            );

            // Width should be the difference between outer and inner radius
            let expected_width = outer_diameter / 2.0 - hole_diameter / 2.0;
            assert_eq!(
                *width,
                s(expected_width),
                "Width should equal the difference between outer and inner radii ({}), got {:?}",
                expected_width,
                width
            );

            assert_eq!(start_angle.raw(), 0);
            assert!(
                sweep_angle.raw().abs() == 2 * PI,
                "Sweep angle should be a full turn (full circle)"
            );
            assert_eq!(*exposure, Exposure::Add);
        }
        _ => panic!("Expected an Arc primitive for circle with hole"),
    }
}

#[test]
pub fn test_full_circle() {
    // given
    let arc_primitive = ArcGerberPrimitive {
        center: Position::origin(),
        radius: s(100.0),
        width: s(1.0),
        start_angle: Scalar::zero(),
        sweep_angle: Scalar::zero(),
        exposure: Exposure::Add,
    };

    // when
    let bbox = arc_primitive.bounding_box();

    // then
    println!("bbox: {:?}", bbox);
    // should be the same with as the diameter of the circle + half of the stroke width.
    assert_eq!(bbox.min, point(-100.5, -100.5));
    assert_eq!(bbox.max, point(100.5, 100.5));
}

#[test]
fn test_arc_offset_center() {
    // Test with a non-origin center
    let center_x = 15.0;
    let center_y = -10.0;
    let radius = 5.0;
    let width = 0.3;
    let start_angle = 0;
    let sweep_angle = FRAC_PI_2; // 90° sweep

    let arc = create_arc_primitive(center_x, center_y, radius, width, start_angle, sweep_angle);
    let primitives = vec![arc];

    let bbox = GerberLayer::calculate_bounding_box(&primitives);
    let (min_x, min_y) = (value(bbox.min.x), value(bbox.min.y));
    let (max_x, max_y) = (value(bbox.max.x), value(bbox.max.y));

    // Verify the bounds for offset center
    let half_width = width / 2.0;

    // The bounds must include at least the start and end points
    let start_x = center_x + radius * cos_of(start_angle);
    let start_y = center_y + radius * sin_of(start_angle);
    let end_x = center_x + radius * cos_of(start_angle + sweep_angle);
    let end_y = center_y + radius * sin_of(start_angle + sweep_angle);

    assert!(min_x <= start_x + 0.1);
    assert!(min_y <= start_y + 0.1);
    assert!(max_x >= start_x - 0.1);
    assert!(max_y >= start_y - 0.1);

    assert!(min_x <= end_x + 0.1);
    assert!(min_y <= end_y + 0.1);
    assert!(max_x >= end_x - 0.1);
    assert!(max_y >= end_y - 0.1);

    // For a 90° arc in the first quadrant, we expect:
    assert!(min_x >= center_x - half_width - 0.1); // min X should be near center
    assert!(min_y >= center_y - half_width - 0.1); // min Y should be near center
    assert!(max_x <= center_x + radius + half_width + 0.1); // max X should extend to right
    assert!(max_y <= center_y + radius + half_width + 0.1); // max Y should extend upward
}

#[test]
fn full_circle_bounds_for_zero_and_full_sweep() {
    for (center_y, center_x, sweep) in
        [(0.0, 0.0, 0), (0.0, 0.0, 2 * PI), (10.0, 5.0, 0), (10.0, 5.0, 2 * PI), (10.0, 5.0, -2 * PI)]
    {
        let radius = 100.0;
        let width = 0.5;
        let arc = create_arc_primitive(center_x, center_y, radius, width, 0, sweep);
        let bbox = GerberLayer::calculate_bounding_box(&vec![arc]);
        let half_width = width / 2.0;
        assert_eq!(bbox.min, point(center_x - radius - half_width, center_y - radius - half_width));
        assert_eq!(bbox.max, point(center_x + radius + half_width, center_y + radius + half_width));
    }
}

#[test]
fn full_circle_zero_radius() {
    for (center_y, center_x, expected) in [
        (0.0, 0.0, BoundingBox { min: point(-0.5, -0.5), max: point(0.5, 0.5) }),
        (10.0, 10.0, BoundingBox { min: point(9.5, 9.5), max: point(10.5, 10.5) }),
    ] {
        let arc = ArcGerberPrimitive {
            center: point(center_x, center_y),
            radius: s(0.0),
            width: s(1.0),
            start_angle: Scalar::zero(),
            sweep_angle: Scalar::zero(),
            exposure: Exposure::Add,
        };
        let bbox = arc.bounding_box();
        assert_eq!(bbox.min, expected.min);
        assert_eq!(bbox.max, expected.max);
    }
}

#[test]
fn quarter_and_negative_arc_bounds() {
    let cases = [
        (0, FRAC_PI_2),
        (FRAC_PI_2, FRAC_PI_2),
        (PI, FRAC_PI_2),
        (PI + FRAC_PI_2, FRAC_PI_2),
        (45_000_000, -45_000_000),
        (FRAC_PI_2, -FRAC_PI_2),
        (PI, -PI),
    ];
    for (start_angle, sweep_angle) in cases {
        let center_x = 5.0;
        let center_y = 5.0;
        let radius = 10.0;
        let width = 0.5;
        let arc = create_arc_primitive(center_x, center_y, radius, width, start_angle, sweep_angle);
        let bbox = GerberLayer::calculate_bounding_box(&vec![arc]);
        let (min_x, min_y) = (value(bbox.min.x), value(bbox.min.y));
        let (max_x, max_y) = (value(bbox.max.x), value(bbox.max.y));
        let total_radius = radius + width / 2.0;
        assert!(min_x >= center_x - total_radius - 0.1);
        assert!(min_y >= center_y - total_radius - 0.1);
        assert!(max_x <= center_x + total_radius + 0.1);
        assert!(max_y <= center_y + total_radius + 0.1);
        let start_x = center_x + radius * cos_of(start_angle);
        let start_y = center_y + radius * sin_of(start_angle);
        let end_x = center_x + radius * cos_of(start_angle + sweep_angle);
        let end_y = center_y + radius * sin_of(start_angle + sweep_angle);
        assert!(min_x <= start_x + 0.1 && max_x >= start_x - 0.1);
        assert!(min_y <= start_y + 0.1 && max_y >= start_y - 0.1);
        assert!(min_x <= end_x + 0.1 && max_x >= end_x - 0.1);
        assert!(min_y <= end_y + 0.1 && max_y >= end_y - 0.1);
    }
}

#[test]
fn plain_circle_flash() {
    let commands = vec![circle_aperture(10, 2.5), Command::SelectAperture(10), flash(0.0, 0.0)];
    let layer = GerberLayer::new(commands);
    let primitives = layer.primitives();
    assert_eq!(primitives.len(), 1);
    match &primitives[0] {
        GerberPrimitive::Circle(CircleGerberPrimitive { center, diameter, exposure }) => {
            assert_eq!(*center, point(0.0, 0.0));
            assert_eq!(*diameter, s(2.5));
            assert_eq!(*exposure, Exposure::Add);
        }
        other => panic!("expected a circle, got {:?}", other),
    }
    assert!(layer.diagnostics().is_empty());
    assert!(!layer.is_empty());
    assert_eq!(layer.bounding_box().min, point(-1.25, -1.25));
    assert_eq!(layer.bounding_box().max, point(1.25, 1.25));
}

fn circle_centers(layer: &GerberLayer) -> Vec<(i64, i64)> {
    let mut centers = Vec::new();
    for p in layer.primitives() {
        if let GerberPrimitive::Circle(c) = p {
            centers.push((c.center.x.raw(), c.center.y.raw()));
        }
    }
    centers
}

#[test]
fn step_and_repeat_two_by_two_grid() {
    let commands = vec![
        circle_aperture(10, 1.0),
        Command::SelectAperture(10),
        Command::Operation(Operation::Move(at(1.0, 2.0))),
        Command::StepAndRepeatOpen {
            repeat_x: 2,
            repeat_y: 2,
            distance_x: s(10.0),
            distance_y: s(20.0),
        },
        flash(0.0, 0.0),
        Command::StepAndRepeatClose,
        flash(100.0, 100.0),
    ];
    let layer = GerberLayer::new(commands);
    assert_eq!(
        circle_centers(&layer),
        vec![
            (0, 0),
            (0, 20_000_000),
            (10_000_000, 0),
            (10_000_000, 20_000_000),
            (100_000_000, 100_000_000)
        ]
    );
    assert!(layer.diagnostics().is_empty());
}

#[test]
fn step_and_repeat_restores_the_position() {
    let commands = vec![
        circle_aperture(10, 1.0),
        Command::SelectAperture(10),
        Command::Operation(Operation::Move(at(1.0, 2.0))),
        Command::StepAndRepeatOpen { repeat_x: 1, repeat_y: 3, distance_x: s(0.0), distance_y: s(5.0) },
        Command::Operation(Operation::Flash(Coordinates { x: Some(s(7.0)), y: None })),
        Command::StepAndRepeatClose,
        Command::Operation(Operation::Flash(Coordinates { x: None, y: None })),
    ];
    let layer = GerberLayer::new(commands);
    assert_eq!(
        circle_centers(&layer),
        vec![(7_000_000, 2_000_000), (7_000_000, 2_000_000), (7_000_000, 2_000_000), (1_000_000, 2_000_000)]
    );
}

#[test]
fn step_and_repeat_mismatch_is_reported() {
    let layer = GerberLayer::new(vec![Command::StepAndRepeatClose]);
    assert_eq!(layer.diagnostics(), &[Diagnostic::StepRepeatMismatch { index: 0 }]);
    let nested = GerberLayer::new(vec![
        Command::StepAndRepeatOpen { repeat_x: 1, repeat_y: 1, distance_x: s(0.0), distance_y: s(0.0) },
        Command::StepAndRepeatOpen { repeat_x: 1, repeat_y: 1, distance_x: s(0.0), distance_y: s(0.0) },
        Command::StepAndRepeatClose,
    ]);
    assert_eq!(nested.diagnostics(), &[Diagnostic::StepRepeatMismatch { index: 1 }]);
}

#[test]
fn block_is_drawn_only_when_flashed() {
    let commands = vec![
        circle_aperture(10, 1.0),
        Command::ApertureBlockOpen { code: 100 },
        Command::SelectAperture(10),
        flash(1.0, 1.0),
        flash(2.0, 0.0),
        Command::ApertureBlockClose,
        Command::SelectAperture(100),
        flash(10.0, 10.0),
        flash(20.0, 20.0),
    ];
    let layer = GerberLayer::new(commands);
    assert_eq!(
        circle_centers(&layer),
        vec![
            (11_000_000, 11_000_000),
            (12_000_000, 10_000_000),
            (21_000_000, 21_000_000),
            (22_000_000, 20_000_000)
        ]
    );
    assert!(layer.diagnostics().is_empty());
}

#[test]
fn nested_blocks_add_their_offsets() {
    let commands = vec![
        circle_aperture(10, 1.0),
        Command::ApertureBlockOpen { code: 100 },
        Command::ApertureBlockOpen { code: 101 },
        Command::SelectAperture(10),
        flash(1.0, 0.0),
        Command::ApertureBlockClose,
        Command::SelectAperture(101),
        flash(0.0, 5.0),
        Command::ApertureBlockClose,
        Command::SelectAperture(100),
        flash(100.0, 0.0),
        Command::SelectAperture(10),
        flash(3.0, 3.0),
    ];
    let layer = GerberLayer::new(commands);
    // the inner block is flashed at its own target moved by the offset of the outer block, and
    // its content is drawn about that point
    assert_eq!(circle_centers(&layer), vec![(101_000_000, 5_000_000), (3_000_000, 3_000_000)]);
}

#[test]
fn empty_block_returns_at_once() {
    let commands = vec![
        circle_aperture(10, 1.0),
        Command::ApertureBlockOpen { code: 100 },
        Command::ApertureBlockClose,
        Command::SelectAperture(100),
        flash(5.0, 5.0),
        Command::SelectAperture(10),
        flash(1.0, 1.0),
    ];
    let layer = GerberLayer::new(commands);
    assert_eq!(circle_centers(&layer), vec![(1_000_000, 1_000_000)]);
}

#[test]
fn block_that_flashes_itself_stops_at_the_step_limit() {
    let commands = vec![
        Command::ApertureBlockOpen { code: 100 },
        Command::SelectAperture(100),
        flash(1.0, 0.0),
        Command::ApertureBlockClose,
        Command::SelectAperture(100),
        flash(0.0, 0.0),
    ];
    let layer = GerberLayer::with_step_limit(commands, 1000);
    assert_eq!(layer.diagnostics().last(), Some(&Diagnostic::StepLimitReached));
    assert!(layer.primitives().is_empty());
}

#[test]
fn unbalanced_block_markers_are_reported() {
    let layer = GerberLayer::new(vec![Command::ApertureBlockClose]);
    assert_eq!(
        layer.diagnostics(),
        &[
            Diagnostic::UnmatchedBlockClose { index: 0 },
            Diagnostic::UnexpectedBlockClose { index: 0 }
        ]
    );
    let open = GerberLayer::new(vec![Command::ApertureBlockOpen { code: 5 }]);
    assert_eq!(open.diagnostics(), &[Diagnostic::UnresolvedBlock { index: 0 }]);
}

#[test]
fn undefined_aperture_is_reported_and_draws_nothing() {
    let layer = GerberLayer::new(vec![Command::SelectAperture(42), flash(1.0, 1.0)]);
    assert!(layer.primitives().is_empty());
    assert_eq!(layer.diagnostics(), &[Diagnostic::UndefinedAperture { index: 0, code: 42 }]);
    assert!(layer.is_empty());
    assert!(layer.try_bounding_box().is_none());
    assert_eq!(*layer.bounding_box(), BoundingBox::default());
}

#[test]
fn linear_interpolation_draws_a_line() {
    let commands = vec![
        circle_aperture(10, 0.2),
        Command::SelectAperture(10),
        Command::Operation(Operation::Move(at(1.0, 1.0))),
        Command::Operation(Operation::Interpolate(at(4.0, 5.0), None)),
    ];
    let layer = GerberLayer::new(commands);
    assert_eq!(layer.primitives().len(), 1);
    match &layer.primitives()[0] {
        GerberPrimitive::Line(line) => {
            assert_eq!(line.start, point(1.0, 1.0));
            assert_eq!(line.end, point(4.0, 5.0));
            assert_eq!(line.width, s(0.2));
            assert_eq!(line.exposure, Exposure::Add);
        }
        other => panic!("expected a line, got {:?}", other),
    }
    let bbox = layer.try_bounding_box().unwrap();
    assert_eq!(bbox.min, point(0.9, 0.9));
    assert_eq!(bbox.max, point(4.1, 5.1));
}

#[test]
fn linear_interpolation_needs_a_circle() {
    let commands = vec![
        Command::ApertureDefinition(ApertureDefinition {
            code: 10,
            aperture: Aperture::Rectangle(Rectangular { x: s(1.0), y: s(2.0), hole_diameter: None }),
        }),
        Command::SelectAperture(10),
        Command::Operation(Operation::Interpolate(at(4.0, 5.0), None)),
    ];
    let layer = GerberLayer::new(commands);
    assert!(layer.primitives().is_empty());
    assert_eq!(layer.diagnostics(), &[Diagnostic::UnsupportedInterpolation { index: 2 }]);
}

#[test]
fn clockwise_arc_sweeps_negatively() {
    let commands = vec![
        circle_aperture(10, 0.2),
        Command::SelectAperture(10),
        Command::QuadrantMode(QuadrantMode::Multi),
        Command::InterpolationMode(InterpolationMode::ClockwiseCircular),
        Command::Operation(Operation::Move(at(0.0, 5.0))),
        Command::Operation(Operation::Interpolate(at(0.0, -5.0), Some(offset(0.0, -5.0)))),
    ];
    let layer = GerberLayer::new(commands);
    assert_eq!(layer.primitives().len(), 3);
    match &layer.primitives()[1] {
        GerberPrimitive::Arc(arc) => {
            assert_eq!(arc.center, point(0.0, 0.0));
            assert_eq!(arc.radius, s(5.0));
            assert_eq!(arc.start_angle.raw(), FRAC_PI_2);
            assert_eq!(arc.sweep_angle.raw(), -PI);
        }
        other => panic!("expected an arc, got {:?}", other),
    }
    match (&layer.primitives()[0], &layer.primitives()[2]) {
        (GerberPrimitive::Circle(first), GerberPrimitive::Circle(last)) => {
            assert_eq!(first.center, point(0.0, 5.0));
            assert_eq!(last.center, point(0.0, -5.0));
            assert_eq!(first.diameter, s(0.2));
        }
        other => panic!("expected two circles, got {:?}", other),
    }
}

#[test]
fn single_quadrant_mode_confines_the_sweep() {
    let commands = vec![
        circle_aperture(10, 0.2),
        Command::SelectAperture(10),
        Command::InterpolationMode(InterpolationMode::ClockwiseCircular),
        Command::Operation(Operation::Move(at(0.0, 5.0))),
        Command::Operation(Operation::Interpolate(at(0.0, -5.0), Some(offset(0.0, -5.0)))),
    ];
    let layer = GerberLayer::new(commands);
    match &layer.primitives()[1] {
        GerberPrimitive::Arc(arc) => assert_eq!(arc.sweep_angle.raw(), -FRAC_PI_2),
        other => panic!("expected an arc, got {:?}", other),
    }
}

#[test]
fn arc_back_to_its_start_is_a_full_circle() {
    let commands = vec![
        circle_aperture(10, 0.2),
        Command::SelectAperture(10),
        Command::QuadrantMode(QuadrantMode::Multi),
        Command::InterpolationMode(InterpolationMode::CounterclockwiseCircular),
        Command::Operation(Operation::Move(at(5.0, 0.0))),
        Command::Operation(Operation::Interpolate(at(5.0, 0.0), Some(offset(-5.0, 0.0)))),
    ];
    let layer = GerberLayer::new(commands);
    assert_eq!(layer.primitives().len(), 1);
    match &layer.primitives()[0] {
        GerberPrimitive::Arc(arc) => {
            assert!(arc.is_full_circle());
            assert_eq!(arc.sweep_angle.raw(), 0);
        }
        other => panic!("expected an arc, got {:?}", other),
    }
}

#[test]
fn region_becomes_a_polygon() {
    let commands = vec![
        Command::RegionMode(true),
        Command::Operation(Operation::Move(at(0.0, 0.0))),
        Command::Operation(Operation::Interpolate(at(4.0, 0.0), None)),
        Command::Operation(Operation::Interpolate(at(4.0, 2.0), None)),
        Command::Operation(Operation::Interpolate(at(0.0, 2.0), None)),
        Command::Operation(Operation::Interpolate(at(0.0, 0.0), None)),
        Command::RegionMode(false),
    ];
    let layer = GerberLayer::new(commands);
    assert_eq!(layer.primitives().len(), 1);
    match &layer.primitives()[0] {
        GerberPrimitive::Polygon(polygon) => {
            assert_eq!(polygon.center, point(2.0, 1.0));
            assert_eq!(polygon.exposure, Exposure::Add);
            assert!(polygon.geometry.is_convex);
            // the outline has a positive shoelace sum, so it is stored backwards
            assert_eq!(
                polygon.geometry.relative_vertices,
                vec![point(-2.0, -1.0), point(-2.0, 1.0), point(2.0, 1.0), point(2.0, -1.0)]
            );
        }
        other => panic!("expected a polygon, got {:?}", other),
    }
    assert_eq!(layer.bounding_box().min, point(0.0, 0.0));
    assert_eq!(layer.bounding_box().max, point(4.0, 2.0));
}

#[test]
fn region_with_negative_shoelace_sum_is_stored_as_drawn() {
    let commands = vec![
        Command::RegionMode(true),
        Command::Operation(Operation::Move(at(0.0, 0.0))),
        Command::Operation(Operation::Interpolate(at(0.0, 2.0), None)),
        Command::Operation(Operation::Interpolate(at(4.0, 2.0), None)),
        Command::Operation(Operation::Interpolate(at(4.0, 0.0), None)),
        Command::RegionMode(false),
    ];
    let layer = GerberLayer::new(commands);
    match &layer.primitives()[0] {
        GerberPrimitive::Polygon(polygon) => {
            assert_eq!(
                polygon.geometry.relative_vertices,
                vec![point(-2.0, 1.0), point(2.0, 1.0), point(2.0, -1.0)]
            );
        }
        other => panic!("expected a polygon, got {:?}", other),
    }
}

#[test]
fn region_with_two_vertices_is_discarded() {
    let commands = vec![
        circle_aperture(10, 1.0),
        Command::SelectAperture(10),
        Command::RegionMode(true),
        Command::Operation(Operation::Interpolate(at(4.0, 0.0), None)),
        Command::Operation(Operation::Interpolate(at(4.0, 2.0), None)),
        flash(9.0, 9.0),
        Command::RegionMode(false),
        flash(1.0, 1.0),
    ];
    let layer = GerberLayer::new(commands);
    assert_eq!(circle_centers(&layer), vec![(1_000_000, 1_000_000)]);
    assert_eq!(layer.primitives().len(), 1);
    assert_eq!(layer.diagnostics(), &[Diagnostic::FlashInRegion { index: 5 }]);
}

#[test]
fn rectangle_flash_is_centred() {
    let commands = vec![
        Command::ApertureDefinition(ApertureDefinition {
            code: 10,
            aperture: Aperture::Rectangle(Rectangular { x: s(4.0), y: s(2.0), hole_diameter: None }),
        }),
        Command::SelectAperture(10),
        flash(10.0, 10.0),
    ];
    let layer = GerberLayer::new(commands);
    match &layer.primitives()[0] {
        GerberPrimitive::Rectangle(r) => {
            assert_eq!(r.origin, point(8.0, 9.0));
            assert_eq!(r.width, s(4.0));
            assert_eq!(r.height, s(2.0));
        }
        other => panic!("expected a rectangle, got {:?}", other),
    }
    assert_eq!(layer.bounding_box().min, point(8.0, 9.0));
    assert_eq!(layer.bounding_box().max, point(12.0, 11.0));
}

#[test]
fn obround_flash_is_a_body_and_two_ends() {
    let commands = vec![
        Command::ApertureDefinition(ApertureDefinition {
            code: 10,
            aperture: Aperture::Obround(Rectangular { x: s(6.0), y: s(2.0), hole_diameter: None }),
        }),
        Command::ApertureDefinition(ApertureDefinition {
            code: 11,
            aperture: Aperture::Obround(Rectangular { x: s(2.0), y: s(6.0), hole_diameter: None }),
        }),
        Command::SelectAperture(10),
        flash(0.0, 0.0),
        Command::SelectAperture(11),
        flash(0.0, 0.0),
    ];
    let layer = GerberLayer::new(commands);
    assert_eq!(layer.primitives().len(), 6);
    match &layer.primitives()[0] {
        GerberPrimitive::Rectangle(r) => {
            assert_eq!(r.origin, point(-2.0, -1.0));
            assert_eq!(r.width, s(4.0));
            assert_eq!(r.height, s(2.0));
        }
        other => panic!("expected a rectangle, got {:?}", other),
    }
    assert_eq!(
        circle_centers(&layer),
        vec![(2_000_000, 0), (-2_000_000, 0), (0, 2_000_000), (0, -2_000_000)]
    );
    match &layer.primitives()[1] {
        GerberPrimitive::Circle(c) => assert_eq!(c.diameter, s(2.0)),
        other => panic!("expected a circle, got {:?}", other),
    }
    assert_eq!(layer.bounding_box().min, point(-3.0, -3.0));
    assert_eq!(layer.bounding_box().max, point(3.0, 3.0));
}

#[test]
fn polygon_flash_has_its_vertices_on_the_circle() {
    let commands = vec![
        Command::ApertureDefinition(ApertureDefinition {
            code: 10,
            aperture: Aperture::Polygon(Polygon {
                diameter: s(2.0),
                vertices: 4,
                rotation: None,
                hole_diameter: None,
            }),
        }),
        Command::ApertureDefinition(ApertureDefinition {
            code: 11,
            aperture: Aperture::Polygon(Polygon {
                diameter: s(2.0),
                vertices: 4,
                rotation: Some(s(90.0)),
                hole_diameter: None,
            }),
        }),
        Command::SelectAperture(10),
        flash(5.0, 5.0),
        Command::SelectAperture(11),
        flash(5.0, 5.0),
    ];
    let layer = GerberLayer::new(commands);
    match &layer.primitives()[0] {
        GerberPrimitive::Polygon(polygon) => {
            assert_eq!(polygon.center, point(5.0, 5.0));
            assert!(polygon.geometry.is_convex);
            assert_eq!(
                polygon.geometry.relative_vertices,
                vec![point(0.0, -1.0), point(-1.0, 0.0), point(0.0, 1.0), point(1.0, 0.0)]
            );
        }
        other => panic!("expected a polygon, got {:?}", other),
    }
    match &layer.primitives()[1] {
        GerberPrimitive::Polygon(polygon) => {
            assert_eq!(
                polygon.geometry.relative_vertices,
                vec![point(1.0, 0.0), point(0.0, -1.0), point(-1.0, 0.0), point(0.0, 1.0)]
            );
        }
        other => panic!("expected a polygon, got {:?}", other),
    }
    assert_eq!(layer.bounding_box().min, point(4.0, 4.0));
    assert_eq!(layer.bounding_box().max, point(6.0, 6.0));
}

fn lit(value: f64) -> MacroDecimal {
    MacroDecimal::Value(s(value))
}

fn pair(x: f64, y: f64) -> MacroPair {
    MacroPair { x: lit(x), y: lit(y) }
}

fn macro_aperture(code: i32, name: &str, arguments: Option<Vec<MacroDecimal>>) -> Command {
    Command::ApertureDefinition(ApertureDefinition {
        code,
        aperture: Aperture::Macro(name.to_string(), arguments),
    })
}

#[test]
fn macro_circle_is_flashed_about_the_point() {
    let commands = vec![
        Command::ApertureMacro(ApertureMacro {
            name: "DOT".to_string(),
            content: vec![
                MacroContent::Comment,
                MacroContent::VariableDefinition(VariableDefinition {
                    number: 3,
                    expression: "$1x2".to_string(),
                }),
                MacroContent::Circle(CirclePrimitive {
                    exposure: MacroBoolean::Value(true),
                    diameter: MacroDecimal::Variable(3),
                    center: MacroPair {
                        x: MacroDecimal::Expression("$2+1".to_string()),
                        y: lit(0.0),
                    },
                    angle: Some(lit(90.0)),
                }),
                MacroContent::Circle(CirclePrimitive {
                    exposure: MacroBoolean::Variable(9),
                    diameter: lit(0.5),
                    center: pair(0.0, 0.0),
                    angle: None,
                }),
            ],
        }),
        macro_aperture(20, "DOT", Some(vec![lit(1.5), MacroDecimal::Variable(1)])),
        Command::SelectAperture(20),
        flash(10.0, 20.0),
        flash(0.0, 0.0),
    ];
    let layer = GerberLayer::new(commands);
    assert!(layer.diagnostics().is_empty());
    assert_eq!(layer.primitives().len(), 4);
    match &layer.primitives()[0] {
        GerberPrimitive::Circle(c) => {
            // the centre (2.5, 0) of the template is turned by a quarter turn to (0, 2.5)
            assert_eq!(c.center, point(10.0, 22.5));
            assert_eq!(c.diameter, s(3.0));
            assert_eq!(c.exposure, Exposure::Add);
        }
        other => panic!("expected a circle, got {:?}", other),
    }
    match &layer.primitives()[1] {
        GerberPrimitive::Circle(c) => {
            assert_eq!(c.center, point(10.0, 20.0));
            // variable 9 has no value and reads as zero
            assert_eq!(c.exposure, Exposure::CutOut);
        }
        other => panic!("expected a circle, got {:?}", other),
    }
    match &layer.primitives()[2] {
        GerberPrimitive::Circle(c) => assert_eq!(c.center, point(0.0, 2.5)),
        other => panic!("expected a circle, got {:?}", other),
    }
}

#[test]
fn macro_may_be_defined_after_its_use() {
    let commands = vec![
        macro_aperture(20, "LATE", None),
        Command::ApertureMacro(ApertureMacro {
            name: "LATE".to_string(),
            content: vec![MacroContent::Circle(CirclePrimitive {
                exposure: MacroBoolean::Value(true),
                diameter: lit(1.0),
                center: pair(0.0, 0.0),
                angle: None,
            })],
        }),
        Command::SelectAperture(20),
        flash(1.0, 1.0),
    ];
    let layer = GerberLayer::new(commands);
    assert_eq!(circle_centers(&layer), vec![(1_000_000, 1_000_000)]);
}

#[test]
fn unknown_macro_is_reported() {
    let commands = vec![macro_aperture(20, "NONE", None), Command::SelectAperture(20), flash(1.0, 1.0)];
    let layer = GerberLayer::new(commands);
    assert!(layer.primitives().is_empty());
    assert_eq!(
        layer.diagnostics(),
        &[Diagnostic::UnknownMacro { index: 0 }, Diagnostic::UndefinedAperture { index: 1, code: 20 }]
    );
}

#[test]
fn failing_and_unsupported_macro_entries_are_skipped() {
    let commands = vec![
        Command::ApertureMacro(ApertureMacro {
            name: "MIXED".to_string(),
            content: vec![
                MacroContent::Moire,
                MacroContent::Circle(CirclePrimitive {
                    exposure: MacroBoolean::Value(true),
                    diameter: MacroDecimal::Expression("1/0".to_string()),
                    center: pair(0.0, 0.0),
                    angle: None,
                }),
                MacroContent::Thermal,
                MacroContent::Circle(CirclePrimitive {
                    exposure: MacroBoolean::Value(true),
                    diameter: MacroDecimal::Expression("$7".to_string()),
                    center: pair(0.0, 0.0),
                    angle: None,
                }),
                MacroContent::Circle(CirclePrimitive {
                    exposure: MacroBoolean::Value(true),
                    diameter: MacroDecimal::Expression("(1".to_string()),
                    center: pair(0.0, 0.0),
                    angle: None,
                }),
                MacroContent::Circle(CirclePrimitive {
                    exposure: MacroBoolean::Value(true),
                    diameter: lit(1.0),
                    center: pair(0.0, 0.0),
                    angle: None,
                }),
            ],
        }),
        macro_aperture(20, "MIXED", None),
        Command::SelectAperture(20),
        flash(1.0, 1.0),
    ];
    let layer = GerberLayer::new(commands);
    assert_eq!(layer.primitives().len(), 1);
    assert_eq!(
        layer.diagnostics(),
        &[
            Diagnostic::UnsupportedMacroContent { index: 1, entry: 0 },
            Diagnostic::MacroContentFailed {
                index: 1,
                entry: 1,
                error: ExpressionEvaluationError::DivisionByZero
            },
            Diagnostic::UnsupportedMacroContent { index: 1, entry: 2 },
            Diagnostic::MacroContentFailed {
                index: 1,
                entry: 3,
                error: ExpressionEvaluationError::UnknownVariable(7)
            },
            Diagnostic::MacroContentFailed {
                index: 1,
                entry: 4,
                error: ExpressionEvaluationError::MalformedExpression
            },
        ]
    );
}

fn polygon_of(layer: &GerberLayer, index: usize) -> (Position, Vec<Position>, bool, Exposure) {
    match &layer.primitives()[index] {
        GerberPrimitive::Polygon(p) => {
            (p.center, p.geometry.relative_vertices.clone(), p.geometry.is_convex, p.exposure)
        }
        other => panic!("expected a polygon, got {:?}", other),
    }
}

#[test]
fn macro_lines_outline_and_polygon() {
    let commands = vec![
        Command::ApertureMacro(ApertureMacro {
            name: "SHAPES".to_string(),
            content: vec![
                MacroContent::VectorLine(VectorLinePrimitive {
                    exposure: MacroBoolean::Value(true),
                    width: lit(2.0),
                    start: pair(0.0, 0.0),
                    end: pair(10.0, 0.0),
                    angle: lit(0.0),
                }),
                MacroContent::VectorLine(VectorLinePrimitive {
                    exposure: MacroBoolean::Value(true),
                    width: lit(2.0),
                    start: pair(1.0, 1.0),
                    end: pair(1.0, 1.0),
                    angle: lit(0.0),
                }),
                MacroContent::CenterLine(CenterLinePrimitive {
                    exposure: MacroBoolean::Value(false),
                    dimensions: pair(4.0, 2.0),
                    center: pair(3.0, 3.0),
                    angle: lit(90.0),
                }),
                MacroContent::Outline(OutlinePrimitive {
                    exposure: MacroBoolean::Value(true),
                    points: vec![pair(0.0, 0.0), pair(2.0, 0.0), pair(1.0, 1.0), pair(2.0, 2.0), pair(0.0, 2.0)],
                    angle: lit(0.0),
                }),
                MacroContent::Outline(OutlinePrimitive {
                    exposure: MacroBoolean::Value(true),
                    points: vec![pair(0.0, 0.0), pair(2.0, 0.0)],
                    angle: lit(0.0),
                }),
                MacroContent::Polygon(PolygonPrimitive {
                    exposure: MacroBoolean::Value(true),
                    vertices: MacroInteger::Value(4),
                    center: pair(1.0, 0.0),
                    diameter: lit(2.0),
                    angle: lit(90.0),
                }),
            ],
        }),
        macro_aperture(20, "SHAPES", None),
        Command::SelectAperture(20),
        flash(100.0, 100.0),
    ];
    let layer = GerberLayer::new(commands);
    assert!(layer.diagnostics().is_empty());
    assert_eq!(layer.primitives().len(), 4);

    let (center, vertices, convex, exposure) = polygon_of(&layer, 0);
    assert_eq!(center, point(105.0, 100.0));
    assert_eq!(vertices, vec![point(-5.0, -1.0), point(-5.0, 1.0), point(5.0, 1.0), point(5.0, -1.0)]);
    assert!(convex);
    assert_eq!(exposure, Exposure::Add);

    let (center, vertices, convex, exposure) = polygon_of(&layer, 1);
    assert_eq!(center, point(103.0, 103.0));
    assert_eq!(vertices, vec![point(1.0, 2.0), point(1.0, -2.0), point(-1.0, -2.0), point(-1.0, 2.0)]);
    assert!(convex);
    assert_eq!(exposure, Exposure::CutOut);

    let (center, vertices, convex, _) = polygon_of(&layer, 2);
    assert_eq!(center, point(100.0, 100.0));
    assert_eq!(
        vertices,
        vec![point(0.0, 2.0), point(2.0, 2.0), point(1.0, 1.0), point(2.0, 0.0), point(0.0, 0.0)]
    );
    assert!(!convex);

    let (center, vertices, convex, _) = polygon_of(&layer, 3);
    assert_eq!(center, point(100.0, 101.0));
    assert_eq!(vertices, vec![point(1.0, 0.0), point(0.0, -1.0), point(-1.0, 0.0), point(0.0, 1.0)]);
    assert!(convex);
}

#[test]
fn compiling_twice_gives_the_same_layer() {
    let build = || {
        vec![
            circle_aperture(10, 0.5),
            Command::SelectAperture(10),
            Command::QuadrantMode(QuadrantMode::Multi),
            Command::InterpolationMode(InterpolationMode::CounterclockwiseCircular),
            Command::Operation(Operation::Move(at(3.0, 1.0))),
            Command::Operation(Operation::Interpolate(at(-2.0, 4.0), Some(offset(-1.5, 0.5)))),
            Command::InterpolationMode(InterpolationMode::Linear),
            Command::Operation(Operation::Interpolate(at(7.0, 7.0), None)),
            flash(1.0, 2.0),
        ]
    };
    let first = GerberLayer::new(build());
    let second = GerberLayer::new(build());
    assert_eq!(format!("{:?}", first.primitives()), format!("{:?}", second.primitives()));
    assert_eq!(first.bounding_box(), second.bounding_box());
    assert_eq!(first.diagnostics(), second.diagnostics());
}

#[test]
fn layer_box_contains_every_primitive_box() {
    let commands = vec![
        circle_aperture(10, 0.5),
        Command::ApertureDefinition(ApertureDefinition {
            code: 11,
            aperture: Aperture::Obround(Rectangular { x: s(3.0), y: s(1.0), hole_diameter: None }),
        }),
        Command::SelectAperture(10),
        Command::QuadrantMode(QuadrantMode::Multi),
        Command::InterpolationMode(InterpolationMode::ClockwiseCircular),
        Command::Operation(Operation::Move(at(3.0, 1.0))),
        Command::Operation(Operation::Interpolate(at(-2.0, 4.0), Some(offset(-1.5, 0.5)))),
        Command::InterpolationMode(InterpolationMode::Linear),
        Command::Operation(Operation::Interpolate(at(-7.0, 7.0), None)),
        Command::SelectAperture(11),
        flash(20.0, -30.0),
    ];
    let layer = GerberLayer::new(commands);
    let all = layer.bounding_box();
    assert!(layer.primitives().len() >= 5);
    for primitive in layer.primitives() {
        let own = primitive.bounding_box();
        assert!(all.min.x.raw() <= own.min.x.raw());
        assert!(all.min.y.raw() <= own.min.y.raw());
        assert!(all.max.x.raw() >= own.max.x.raw());
        assert!(all.max.y.raw() >= own.max.y.raw());
    }
}

#[test]
fn arc_sample_points() {
    let quarter = ArcGerberPrimitive {
        center: Position::origin(),
        radius: s(10.0),
        width: s(0.1),
        start_angle: Scalar::zero(),
        sweep_angle: Scalar::new(FRAC_PI_2),
        exposure: Exposure::Add,
    };
    assert!(!quarter.is_full_circle());
    let points = quarter.generate_points();
    assert_eq!(points.len(), 32);
    assert_eq!(points[0], point(10.0, 0.0));
    assert_eq!(points[31], point(0.0, 10.0));
    for (i, p) in points.iter().enumerate() {
        let angle = 90.0_f64 * i as f64 / 31.0;
        assert!((value(p.x) - 10.0 * angle.to_radians().cos()).abs() < 2e-6, "x of sample {}", i);
        assert!((value(p.y) - 10.0 * angle.to_radians().sin()).abs() < 2e-6, "y of sample {}", i);
    }

    for sweep in [0, 2 * PI, -2 * PI] {
        let full = ArcGerberPrimitive { sweep_angle: Scalar::new(sweep), start_angle: s(30.0), ..quarter };
        assert!(full.is_full_circle());
        let points = full.generate_points();
        assert_eq!(points.len(), 33);
        assert_eq!(points[0], points[32]);
        assert_eq!(points[16], Position::new(points[0].x.negate(), points[0].y.negate()));
    }

    let almost = ArcGerberPrimitive { sweep_angle: Scalar::new(2 * PI - 1), ..quarter };
    assert!(!almost.is_full_circle());
    assert_eq!(almost.generate_points().len(), 32);
}

#[test]
fn flashes_of_a_macro_share_the_outline() {
    let commands = vec![
        Command::ApertureMacro(ApertureMacro {
            name: "BOX".to_string(),
            content: vec![MacroContent::CenterLine(CenterLinePrimitive {
                exposure: MacroBoolean::Value(true),
                dimensions: pair(4.0, 2.0),
                center: pair(1.0, 0.0),
                angle: lit(0.0),
            })],
        }),
        macro_aperture(20, "BOX", None),
        Command::SelectAperture(20),
        flash(10.0, 10.0),
        flash(-5.0, 0.0),
    ];
    let layer = GerberLayer::new(commands);
    match (&layer.primitives()[0], &layer.primitives()[1]) {
        (GerberPrimitive::Polygon(first), GerberPrimitive::Polygon(second)) => {
            assert_eq!(first.center, point(11.0, 10.0));
            assert_eq!(second.center, point(-4.0, 0.0));
            assert_eq!(
                first.geometry.relative_vertices,
                vec![point(2.0, -1.0), point(-2.0, -1.0), point(-2.0, 1.0), point(2.0, 1.0)]
            );
            assert_eq!(first.geometry.relative_vertices, second.geometry.relative_vertices);
            assert!(std::sync::Arc::ptr_eq(&first.geometry, &second.geometry));
        }
        other => panic!("expected two polygons, got {:?}", other),
    }
}

#[test]
fn a_clone_shares_the_layer() {
    let layer = GerberLayer::new(vec![circle_aperture(10, 2.5), Command::SelectAperture(42), flash(1.0, 1.0)]);
    let copy = layer.clone();
    assert_eq!(copy.primitives().len(), layer.primitives().len());
    assert_eq!(copy.primitives().as_ptr(), layer.primitives().as_ptr());
    assert_eq!(copy.diagnostics(), layer.diagnostics());
    assert_eq!(copy.bounding_box(), layer.bounding_box());
}

#[test]
fn polygons_of_a_layer_never_run_clockwise() {
    let commands = vec![
        Command::ApertureMacro(ApertureMacro {
            name: "SHAPES".to_string(),
            content: vec![
                MacroContent::Outline(OutlinePrimitive {
                    exposure: MacroBoolean::Value(true),
                    points: vec![pair(0.0, 0.0), pair(2.0, 0.0), pair(1.0, 1.0), pair(2.0, 2.0), pair(0.0, 2.0)],
                    angle: lit(33.0),
                }),
                MacroContent::Polygon(PolygonPrimitive {
                    exposure: MacroBoolean::Value(true),
                    vertices: MacroInteger::Value(7),
                    center: pair(1.0, 0.0),
                    diameter: lit(2.0),
                    angle: lit(12.5),
                }),
            ],
        }),
        macro_aperture(20, "SHAPES", None),
        Command::ApertureDefinition(ApertureDefinition {
            code: 21,
            aperture: Aperture::Polygon(Polygon {
                diameter: s(3.0),
                vertices: 5,
                rotation: Some(s(10.0)),
                hole_diameter: None,
            }),
        }),
        Command::SelectAperture(20),
        flash(1.0, 1.0),
        Command::SelectAperture(21),
        flash(4.0, 4.0),
        Command::RegionMode(true),
        Command::Operation(Operation::Interpolate(at(3.0, 0.0), None)),
        Command::Operation(Operation::Interpolate(at(0.0, 4.0), None)),
        Command::Operation(Operation::Interpolate(at(-1.0, -1.0), None)),
        Command::RegionMode(false),
    ];
    let layer = GerberLayer::new(commands);
    let mut polygons = 0;
    for primitive in layer.primitives() {
        if let GerberPrimitive::Polygon(polygon) = primitive {
            polygons += 1;
            assert!(polygon.geometry.relative_vertices.len() >= 3);
            assert_eq!(
                gerber_viewer::Winding::from_vertices(&polygon.geometry.relative_vertices),
                gerber_viewer::Winding::CounterClockwise
            );
        }
    }
    assert_eq!(polygons, 4);
}

#[test]
fn circular_interpolation_without_a_centre_draws_nothing() {
    let commands = vec![
        circle_aperture(10, 0.2),
        Command::SelectAperture(10),
        Command::InterpolationMode(InterpolationMode::ClockwiseCircular),
        Command::Operation(Operation::Interpolate(at(3.0, 4.0), None)),
        Command::InterpolationMode(InterpolationMode::Linear),
        Command::Operation(Operation::Interpolate(at(3.0, 5.0), None)),
    ];
    let layer = GerberLayer::new(commands);
    assert_eq!(layer.primitives().len(), 1);
    match &layer.primitives()[0] {
        GerberPrimitive::Line(line) => {
            // the interpolation that drew nothing still moved the current point
            assert_eq!(line.start, point(3.0, 4.0));
            assert_eq!(line.end, point(3.0, 5.0));
        }
        other => panic!("expected a line, got {:?}", other),
    }
}

#[test]
fn absent_offset_coordinate_is_zero() {
    let commands = vec![
        circle_aperture(10, 0.2),
        Command::SelectAperture(10),
        Command::InterpolationMode(InterpolationMode::CounterclockwiseCircular),
        Command::Operation(Operation::Move(at(2.0, 0.0))),
        Command::Operation(Operation::Interpolate(
            at(0.0, 2.0),
            Some(CoordinateOffset { x: Some(s(-2.0)), y: None }),
        )),
    ];
    let layer = GerberLayer::new(commands);
    match &layer.primitives()[1] {
        GerberPrimitive::Arc(arc) => {
            assert_eq!(arc.center, point(0.0, 0.0));
            assert_eq!(arc.radius, s(2.0));
            assert_eq!(arc.start_angle.raw(), 0);
            assert_eq!(arc.sweep_angle.raw(), FRAC_PI_2);
        }
        other => panic!("expected an arc, got {:?}", other),
    }
}

#[test]
fn move_inside_a_region_closes_the_path() {
    let commands = vec![
        Command::RegionMode(true),
        Command::Operation(Operation::Move(at(0.0, 0.0))),
        Command::Operation(Operation::Interpolate(at(4.0, 0.0), None)),
        Command::Operation(Operation::Interpolate(at(4.0, 4.0), None)),
        Command::Operation(Operation::Move(at(10.0, 10.0))),
        Command::Operation(Operation::Interpolate(at(0.0, 4.0), None)),
        Command::RegionMode(false),
    ];
    let layer = GerberLayer::new(commands);
    match &layer.primitives()[0] {
        GerberPrimitive::Polygon(polygon) => {
            // the vertices are (4,0), (4,4), (4,0) again and (0,4), about the centre (2,2);
            // their shoelace sum is not positive, so they are stored as drawn
            assert_eq!(polygon.center, point(2.0, 2.0));
            assert_eq!(
                polygon.geometry.relative_vertices,
                vec![point(2.0, -2.0), point(2.0, 2.0), point(2.0, -2.0), point(-2.0, 2.0)]
            );
        }
        other => panic!("expected a polygon, got {:?}", other),
    }
}

#[test]
fn modes_are_restored_after_a_block() {
    let commands = vec![
        circle_aperture(10, 0.2),
        Command::ApertureBlockOpen { code: 100 },
        Command::InterpolationMode(InterpolationMode::ClockwiseCircular),
        Command::QuadrantMode(QuadrantMode::Multi),
        Command::ApertureBlockClose,
        Command::SelectAperture(100),
        flash(5.0, 5.0),
        // the block is the selected aperture again, so this flash calls it once more
        flash(6.0, 6.0),
        Command::SelectAperture(10),
        // back in linear mode, at the point of the last flash
        Command::Operation(Operation::Interpolate(at(7.0, 6.0), None)),
    ];
    let layer = GerberLayer::new(commands);
    assert_eq!(layer.primitives().len(), 1);
    match &layer.primitives()[0] {
        GerberPrimitive::Line(line) => {
            assert_eq!(line.start, point(6.0, 6.0));
            assert_eq!(line.end, point(7.0, 6.0));
        }
        other => panic!("expected a line, got {:?}", other),
    }
    assert!(layer.diagnostics().is_empty());
}
