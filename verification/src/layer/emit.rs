//! What the operations draw: the primitives of a flash, of a stroke and of a region.

use vstd::prelude::*;
use crate::commands::{
    Circle, CoordinateOffset, Coordinates, InterpolationMode, Polygon, QuadrantMode, Rectangular,
};
use crate::fixed::{magnitude, trunc_div, Scalar};
use crate::geometry::bounding_box::{box_of, BoundingBox};
use crate::layer::macros::{regular_vertices, regular_vertices_exec};
use crate::layer::primitives::{
    arc_points, is_full_circle_spec, lemma_models_push, models, polygon_model, ArcGerberPrimitive,
    CircleGerberPrimitive, GerberPolygon, GerberPrimitive, LineGerberPrimitive, PolygonGerberPrimitive,
    PolygonModel, PrimitiveModel, RectangleGerberPrimitive,
};
use crate::spacial::{Position, Vector};
use crate::trig::{atan2, atan2_spec, hypot, hypot_spec, FULL_TURN, QUARTER_TURN};
use crate::types::Exposure;

verus! {

broadcast use crate::fixed::group_scalar;

/// The point an operation goes to: each coordinate that is given is moved by
/// the offset, and each that is absent stays where the current point has it.
pub open spec fn target_position(current: Position, coords: Coordinates, offset: Vector)
    -> Position {
    Position {
        x: match coords.x {
            Some(v) => Scalar::of(v@ + offset.x@),
            None => current.x,
        },
        y: match coords.y {
            Some(v) => Scalar::of(v@ + offset.y@),
            None => current.y,
        },
    }
}

/// Moves `current_pos` to the target of an operation.
pub fn update_position(current_pos: &mut Position, coords: &Coordinates, offset: Vector)
    ensures
        *final(current_pos) == target_position(*old(current_pos), *coords, offset),
{
    let x = match coords.x {
        Some(v) => v.add(offset.x),
        None => current_pos.x,
    };
    let y = match coords.y {
        Some(v) => v.add(offset.y),
        None => current_pos.y,
    };
    *current_pos = Position { x, y };
}

/// The vertices of a region relative to `center`.
pub open spec fn relative_to(vertices: Seq<Position>, center: Position) -> Seq<Position> {
    Seq::new(
        vertices.len(),
        |i: int| vertices[i].translated_back(Vector { x: center.x, y: center.y }),
    )
}

/// The polygon of a region: its centre is the midpoint of the box of its
/// vertices, and its outline is stored relative to that centre.
pub open spec fn region_polygon(vertices: Seq<Position>) -> PrimitiveModel {
    let center = box_of(vertices).midpoint();
    PrimitiveModel::Polygon(polygon_model(center, relative_to(vertices, center), Exposure::Add))
}

/// The polygon of the vertices accumulated in a region.
pub fn region_polygon_exec(vertices: &Vec<Position>) -> (p: GerberPrimitive)
    ensures
        p@ == region_polygon(vertices@),
{
    let bbox = BoundingBox::from_points(vertices.as_slice());
    let center = bbox.center();
    let by = Vector { x: center.x, y: center.y };
    let mut relative: Vec<Position> = Vec::new();
    let mut i: usize = 0;
    while i < vertices.len()
        invariant
            i <= vertices@.len(),
            by == (Vector { x: center.x, y: center.y }),
            relative@.len() == i,
            forall|j: int| 0 <= j < i ==> #[trigger] relative@[j] == vertices@[j].translated_back(by),
        decreases vertices@.len() - i,
    {
        relative.push(vertices[i].translate_back(by));
        i = i + 1;
    }
    proof {
        assert(relative@ =~= relative_to(vertices@, center));
    }
    GerberPrimitive::new_polygon(
        GerberPolygon { center, vertices: relative, exposure: Exposure::Add },
    )
}

/// The sweep from `start` to `end`, both in millionths of a degree: never
/// positive when drawn clockwise, never negative when drawn counter-clockwise.
pub open spec fn sweep_between(start: int, end: int, mode: InterpolationMode) -> int {
    match mode {
        InterpolationMode::ClockwiseCircular => if end > start {
            end - start - FULL_TURN
        } else {
            end - start
        },
        InterpolationMode::CounterclockwiseCircular => if end < start {
            end - start + FULL_TURN
        } else {
            end - start
        },
        InterpolationMode::Linear => 0,
    }
}

/// A sweep confined to a quarter turn in single-quadrant mode.
pub open spec fn confined_sweep(sweep: int, quadrant: QuadrantMode) -> int {
    match quadrant {
        QuadrantMode::Single => if magnitude(sweep) > QUARTER_TURN {
            if sweep > 0 {
                QUARTER_TURN as int
            } else {
                -QUARTER_TURN as int
            }
        } else {
            sweep
        },
        QuadrantMode::Multi => sweep,
    }
}

/// The arc a circular interpolation draws from `current` to `end` about the
/// centre `current + offset`.
pub open spec fn arc_between(
    current: Position,
    end: Position,
    offset: CoordinateOffset,
    mode: InterpolationMode,
    quadrant: QuadrantMode,
    width: Scalar,
) -> ArcGerberPrimitive {
    let i = match offset.x {
        Some(v) => v,
        None => Scalar::of(0),
    };
    let j = match offset.y {
        Some(v) => v,
        None => Scalar::of(0),
    };
    let center = Position { x: Scalar::of(current.x@ + i@), y: Scalar::of(current.y@ + j@) };
    let start_angle = atan2_spec(
        Scalar::of(current.y@ - center.y@)@,
        Scalar::of(current.x@ - center.x@)@,
    );
    let end_angle = atan2_spec(Scalar::of(end.y@ - center.y@)@, Scalar::of(end.x@ - center.x@)@);
    ArcGerberPrimitive {
        center,
        radius: Scalar::of(hypot_spec(i@, j@)),
        width,
        start_angle: Scalar::of(start_angle),
        sweep_angle: Scalar::of(confined_sweep(sweep_between(start_angle, end_angle, mode), quadrant)),
        exposure: Exposure::Add,
    }
}

/// What a circular interpolation draws: the arc alone when it is a whole
/// circle, and otherwise the arc between two discs of the stroke width at its
/// two ends.
pub open spec fn arc_stroke(arc: ArcGerberPrimitive) -> Seq<PrimitiveModel> {
    if is_full_circle_spec(arc.sweep_angle@) {
        seq![PrimitiveModel::Arc(arc)]
    } else {
        let points = arc_points(arc);
        let by = Vector { x: arc.center.x, y: arc.center.y };
        seq![
            PrimitiveModel::Circle(
                CircleGerberPrimitive {
                    center: points.first().translated(by),
                    diameter: arc.width,
                    exposure: Exposure::Add,
                },
            ),
            PrimitiveModel::Arc(arc),
            PrimitiveModel::Circle(
                CircleGerberPrimitive {
                    center: points.last().translated(by),
                    diameter: arc.width,
                    exposure: Exposure::Add,
                },
            ),
        ]
    }
}

/// The arc of a circular interpolation.
pub fn arc_between_exec(
    current: Position,
    end: Position,
    offset: &CoordinateOffset,
    mode: InterpolationMode,
    quadrant: QuadrantMode,
    width: Scalar,
) -> (arc: ArcGerberPrimitive)
    ensures
        arc == arc_between(current, end, *offset, mode, quadrant, width),
{
    let i = match offset.x {
        Some(v) => v,
        None => Scalar::zero(),
    };
    let j = match offset.y {
        Some(v) => v,
        None => Scalar::zero(),
    };
    let center = Position { x: current.x.add(i), y: current.y.add(j) };
    let radius = hypot(i, j);
    let start_angle = atan2(current.y.sub(center.y), current.x.sub(center.x));
    let end_angle = atan2(end.y.sub(center.y), end.x.sub(center.x));
    let s: i64 = start_angle.raw();
    let e: i64 = end_angle.raw();
    let swept: i64 = match mode {
        InterpolationMode::ClockwiseCircular => if e > s {
            e - s - FULL_TURN
        } else {
            e - s
        },
        InterpolationMode::CounterclockwiseCircular => if e < s {
            e - s + FULL_TURN
        } else {
            e - s
        },
        InterpolationMode::Linear => 0,
    };
    let size: i64 = if swept < 0 {
        -swept
    } else {
        swept
    };
    let confined: i64 = match quadrant {
        QuadrantMode::Single => if size > QUARTER_TURN {
            if swept > 0 {
                QUARTER_TURN
            } else {
                -QUARTER_TURN
            }
        } else {
            swept
        },
        QuadrantMode::Multi => swept,
    };
    ArcGerberPrimitive {
        center,
        radius,
        width,
        start_angle,
        sweep_angle: Scalar::new(confined),
        exposure: Exposure::Add,
    }
}

/// Appends what a circular interpolation draws.
pub fn push_arc_stroke(out: &mut Vec<GerberPrimitive>, arc: ArcGerberPrimitive)
    ensures
        models(final(out)@) == models(old(out)@) + arc_stroke(arc),
{
    let ghost before = out@;
    if arc.is_full_circle() {
        proof {
            lemma_models_push(out@, GerberPrimitive::Arc(arc));
            assert(models(before).push(PrimitiveModel::Arc(arc)) =~= models(before) + arc_stroke(
                arc,
            ));
        }
        out.push(GerberPrimitive::Arc(arc));
    } else {
        let points = arc.generate_points();
        let by = Vector { x: arc.center.x, y: arc.center.y };
        let first = CircleGerberPrimitive {
            center: points[0].translate(by),
            diameter: arc.width,
            exposure: Exposure::Add,
        };
        let last = CircleGerberPrimitive {
            center: points[points.len() - 1].translate(by),
            diameter: arc.width,
            exposure: Exposure::Add,
        };
        proof {
            lemma_models_push(out@, GerberPrimitive::Circle(first));
        }
        out.push(GerberPrimitive::Circle(first));
        proof {
            lemma_models_push(out@, GerberPrimitive::Arc(arc));
        }
        out.push(GerberPrimitive::Arc(arc));
        proof {
            lemma_models_push(out@, GerberPrimitive::Circle(last));
        }
        out.push(GerberPrimitive::Circle(last));
        proof {
            assert(models(out@) =~= models(before) + arc_stroke(arc));
        }
    }
}

/// The flash of a circular aperture: a disc, or a ring drawn as a whole-circle
/// arc midway between the hole and the rim when the aperture has a hole.
pub open spec fn circle_flash(aperture: Circle, at: Position) -> PrimitiveModel {
    match aperture.hole_diameter {
        Some(hole) => {
            let outer = Scalar::of(trunc_div(aperture.diameter@, 2));
            let inner = Scalar::of(trunc_div(hole@, 2));
            PrimitiveModel::Arc(
                ArcGerberPrimitive {
                    center: at,
                    radius: Scalar::of(trunc_div(Scalar::of(outer@ + inner@)@, 2)),
                    width: Scalar::of(outer@ - inner@),
                    start_angle: Scalar::of(0),
                    sweep_angle: Scalar::of(FULL_TURN as int),
                    exposure: Exposure::Add,
                },
            )
        },
        None => PrimitiveModel::Circle(
            CircleGerberPrimitive { center: at, diameter: aperture.diameter, exposure: Exposure::Add },
        ),
    }
}

/// The flash of a circular aperture.
pub fn circle_flash_exec(aperture: &Circle, at: Position) -> (p: GerberPrimitive)
    ensures
        p@ == circle_flash(*aperture, at),
{
    match aperture.hole_diameter {
        Some(hole) => {
            let outer = aperture.diameter.half();
            let inner = hole.half();
            GerberPrimitive::Arc(
                ArcGerberPrimitive {
                    center: at,
                    radius: outer.add(inner).half(),
                    width: outer.sub(inner),
                    start_angle: Scalar::zero(),
                    sweep_angle: Scalar::new(FULL_TURN),
                    exposure: Exposure::Add,
                },
            )
        },
        None => GerberPrimitive::Circle(
            CircleGerberPrimitive { center: at, diameter: aperture.diameter, exposure: Exposure::Add },
        ),
    }
}

/// The flash of a rectangular aperture: the rectangle centred at the point.
pub open spec fn rectangle_flash(aperture: Rectangular, at: Position) -> PrimitiveModel {
    PrimitiveModel::Rectangle(
        RectangleGerberPrimitive {
            origin: Position {
                x: Scalar::of(at.x@ - trunc_div(aperture.x@, 2)),
                y: Scalar::of(at.y@ - trunc_div(aperture.y@, 2)),
            },
            width: aperture.x,
            height: aperture.y,
            exposure: Exposure::Add,
        },
    )
}

/// The flash of a rectangular aperture.
pub fn rectangle_flash_exec(aperture: &Rectangular, at: Position) -> (p: GerberPrimitive)
    ensures
        p@ == rectangle_flash(*aperture, at),
{
    GerberPrimitive::Rectangle(
        RectangleGerberPrimitive {
            origin: Position { x: at.x.sub(aperture.x.half()), y: at.y.sub(aperture.y.half()) },
            width: aperture.x,
            height: aperture.y,
            exposure: Exposure::Add,
        },
    )
}

/// The flash of a regular polygon aperture: its vertices lie on the circle of
/// its diameter, the first at its rotation.
pub open spec fn polygon_flash(aperture: Polygon, at: Position) -> PrimitiveModel {
    let rotation = match aperture.rotation {
        Some(r) => r,
        None => Scalar::of(0),
    };
    PrimitiveModel::Polygon(
        polygon_model(
            at,
            regular_vertices(
                Scalar::of(trunc_div(aperture.diameter@, 2)),
                aperture.vertices as int,
                rotation@,
            ),
            Exposure::Add,
        ),
    )
}

/// The flash of a regular polygon aperture.
pub fn polygon_flash_exec(aperture: &Polygon, at: Position) -> (p: GerberPrimitive)
    ensures
        p@ == polygon_flash(*aperture, at),
{
    let rotation = match aperture.rotation {
        Some(r) => r,
        None => Scalar::zero(),
    };
    let vertices = regular_vertices_exec(aperture.diameter.half(), aperture.vertices as u32, rotation);
    GerberPrimitive::new_polygon(GerberPolygon { center: at, vertices, exposure: Exposure::Add })
}

/// The flash of an obround aperture: a rectangle for the body, shortened along
/// the longer side by the shorter one, and a disc of the shorter side at each end.
pub open spec fn obround_flash(aperture: Rectangular, at: Position) -> Seq<PrimitiveModel> {
    let horizontal = aperture.x@ > aperture.y@;
    let width = if horizontal {
        Scalar::of(aperture.x@ - aperture.y@)
    } else {
        aperture.x
    };
    let height = if horizontal {
        aperture.y
    } else {
        Scalar::of(aperture.y@ - aperture.x@)
    };
    let reach = if horizontal {
        Scalar::of(trunc_div(width@, 2))
    } else {
        Scalar::of(trunc_div(height@, 2))
    };
    let diameter = if horizontal {
        aperture.y
    } else {
        aperture.x
    };
    let first = if horizontal {
        Position { x: Scalar::of(at.x@ + reach@), y: at.y }
    } else {
        Position { x: at.x, y: Scalar::of(at.y@ + reach@) }
    };
    let second = if horizontal {
        Position { x: Scalar::of(at.x@ - reach@), y: at.y }
    } else {
        Position { x: at.x, y: Scalar::of(at.y@ - reach@) }
    };
    seq![
        PrimitiveModel::Rectangle(
            RectangleGerberPrimitive {
                origin: Position {
                    x: Scalar::of(at.x@ - trunc_div(width@, 2)),
                    y: Scalar::of(at.y@ - trunc_div(height@, 2)),
                },
                width,
                height,
                exposure: Exposure::Add,
            },
        ),
        PrimitiveModel::Circle(
            CircleGerberPrimitive { center: first, diameter, exposure: Exposure::Add },
        ),
        PrimitiveModel::Circle(
            CircleGerberPrimitive { center: second, diameter, exposure: Exposure::Add },
        ),
    ]
}

/// Appends the flash of an obround aperture.
pub fn push_obround_flash(out: &mut Vec<GerberPrimitive>, aperture: &Rectangular, at: Position)
    ensures
        models(final(out)@) == models(old(out)@) + obround_flash(*aperture, at),
{
    let ghost before = out@;
    let horizontal: bool = aperture.x.raw() > aperture.y.raw();
    let width = if horizontal {
        aperture.x.sub(aperture.y)
    } else {
        aperture.x
    };
    let height = if horizontal {
        aperture.y
    } else {
        aperture.y.sub(aperture.x)
    };
    let reach = if horizontal {
        width.half()
    } else {
        height.half()
    };
    let diameter = if horizontal {
        aperture.y
    } else {
        aperture.x
    };
    let first = if horizontal {
        Position { x: at.x.add(reach), y: at.y }
    } else {
        Position { x: at.x, y: at.y.add(reach) }
    };
    let second = if horizontal {
        Position { x: at.x.sub(reach), y: at.y }
    } else {
        Position { x: at.x, y: at.y.sub(reach) }
    };
    let body = GerberPrimitive::Rectangle(
        RectangleGerberPrimitive {
            origin: Position { x: at.x.sub(width.half()), y: at.y.sub(height.half()) },
            width,
            height,
            exposure: Exposure::Add,
        },
    );
    let a = GerberPrimitive::Circle(
        CircleGerberPrimitive { center: first, diameter, exposure: Exposure::Add },
    );
    let b = GerberPrimitive::Circle(
        CircleGerberPrimitive { center: second, diameter, exposure: Exposure::Add },
    );
    proof {
        lemma_models_push(out@, body);
    }
    out.push(body);
    proof {
        lemma_models_push(out@, a);
    }
    out.push(a);
    proof {
        lemma_models_push(out@, b);
    }
    out.push(b);
    proof {
        assert(models(out@) =~= models(before) + obround_flash(*aperture, at));
    }
}

/// A template primitive moved to the point of a flash: its centre, its origin
/// or its two end points are moved, and nothing else changes.
pub open spec fn placed(template: PrimitiveModel, at: Position) -> PrimitiveModel {
    let by = Vector { x: at.x, y: at.y };
    match template {
        PrimitiveModel::Circle(c) => PrimitiveModel::Circle(
            CircleGerberPrimitive { center: c.center.translated(by), ..c },
        ),
        PrimitiveModel::Rectangle(r) => PrimitiveModel::Rectangle(
            RectangleGerberPrimitive { origin: r.origin.translated(by), ..r },
        ),
        PrimitiveModel::Line(l) => PrimitiveModel::Line(
            LineGerberPrimitive { start: l.start.translated(by), end: l.end.translated(by), ..l },
        ),
        PrimitiveModel::Arc(a) => PrimitiveModel::Arc(
            ArcGerberPrimitive { center: a.center.translated(by), ..a },
        ),
        PrimitiveModel::Polygon(p) => PrimitiveModel::Polygon(
            PolygonModel { center: p.center.translated(by), ..p },
        ),
    }
}

/// The flash of a macro aperture: each of its templates moved to the point, in order.
pub open spec fn macro_flash(templates: Seq<PrimitiveModel>, at: Position) -> Seq<PrimitiveModel> {
    Seq::new(templates.len(), |i: int| placed(templates[i], at))
}

fn place(template: &GerberPrimitive, at: Position) -> (p: GerberPrimitive)
    ensures
        p@ == placed(template@, at),
{
    let by = Vector { x: at.x, y: at.y };
    match template {
        GerberPrimitive::Circle(c) => GerberPrimitive::Circle(
            CircleGerberPrimitive {
                center: c.center.translate(by),
                diameter: c.diameter,
                exposure: c.exposure,
            },
        ),
        GerberPrimitive::Rectangle(r) => GerberPrimitive::Rectangle(
            RectangleGerberPrimitive {
                origin: r.origin.translate(by),
                width: r.width,
                height: r.height,
                exposure: r.exposure,
            },
        ),
        GerberPrimitive::Line(l) => GerberPrimitive::Line(
            LineGerberPrimitive {
                start: l.start.translate(by),
                end: l.end.translate(by),
                width: l.width,
                exposure: l.exposure,
            },
        ),
        GerberPrimitive::Arc(a) => GerberPrimitive::Arc(
            ArcGerberPrimitive {
                center: a.center.translate(by),
                radius: a.radius,
                width: a.width,
                start_angle: a.start_angle,
                sweep_angle: a.sweep_angle,
                exposure: a.exposure,
            },
        ),
        GerberPrimitive::Polygon(p) => GerberPrimitive::Polygon(
            PolygonGerberPrimitive {
                center: p.center.translate(by),
                exposure: p.exposure,
                geometry: crate::layer::primitives::share(&p.geometry),
            },
        ),
    }
}

/// Appends the flash of a macro aperture.
pub fn push_macro_flash(out: &mut Vec<GerberPrimitive>, templates: &Vec<GerberPrimitive>, at: Position)
    ensures
        models(final(out)@) == models(old(out)@) + macro_flash(models(templates@), at),
{
    let ghost before = out@;
    let mut i: usize = 0;
    proof {
        assert(models(out@) =~= models(before) + macro_flash(models(templates@), at).take(0));
    }
    while i < templates.len()
        invariant
            i <= templates@.len(),
            models(out@) == models(before) + macro_flash(models(templates@), at).take(i as int),
        decreases templates@.len() - i,
    {
        let p = place(&templates[i], at);
        proof {
            lemma_models_push(out@, p);
            let all = macro_flash(models(templates@), at);
            assert(models(templates@)[i as int] == templates@[i as int]@);
            assert(all.take(i + 1) =~= all.take(i as int).push(p@));
            assert((models(before) + all.take(i as int)).push(p@) =~= models(before) + all.take(
                i + 1,
            ));
        }
        out.push(p);
        i = i + 1;
    }
    proof {
        let all = macro_flash(models(templates@), at);
        assert(all.take(templates@.len() as int) =~= all);
    }
}

} // verus!
