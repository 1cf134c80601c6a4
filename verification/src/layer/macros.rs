//! Expansion of aperture macros into template primitives.
//!
//! A macro is expanded when an aperture is defined from it. Its entries are read
//! in order against the variables of the instantiation; each drawing entry
//! yields one primitive about the origin of the macro, with its rotation already
//! applied, and each assignment changes a variable for the entries after it.

use vstd::prelude::*;
use crate::commands::{
    CenterLinePrimitive, CirclePrimitive, MacroContent, MacroDecimal, MacroPair, OutlinePrimitive,
    PolygonPrimitive, VariableDefinition, VectorLinePrimitive,
};
use crate::expressions::{
    boolean_value, decimal_value, evaluate_expression, evaluate_spec, integer_value,
    macro_boolean_to_bool, macro_decimal_pair_to_scalars, macro_decimal_to_scalar,
    macro_integer_to_u32, pair_value, text_bytes, ExpressionEvaluationError, MacroContext,
};
use crate::fixed::{signed_div, trunc_div, Scalar};
use crate::layer::primitives::{
    point_at, polygon_model, CircleGerberPrimitive, GerberPolygon, GerberPrimitive, PrimitiveModel,
};
use crate::spacial::Position;
use crate::trig::{floor_sqrt, rotate_xy, FULL_TURN};
use crate::types::Exposure;

verus! {

broadcast use crate::fixed::group_scalar;

/// What reading one macro entry yields: a primitive, nothing, or an error.
pub type ContentOutcome = Result<Option<PrimitiveModel>, ExpressionEvaluationError>;

/// Whether an executable outcome is the outcome `expected` of the specification.
pub open spec fn same_outcome(
    r: Result<Option<GerberPrimitive>, ExpressionEvaluationError>,
    expected: ContentOutcome,
) -> bool {
    match r {
        Ok(Some(p)) => expected == Ok::<Option<PrimitiveModel>, ExpressionEvaluationError>(
            Some(p@),
        ),
        Ok(None) => expected == Ok::<Option<PrimitiveModel>, ExpressionEvaluationError>(None),
        Err(e) => expected == Err::<Option<PrimitiveModel>, ExpressionEvaluationError>(e),
    }
}

/// The exposure a truth value stands for.
pub open spec fn exposure_of(on: bool) -> Exposure {
    if on {
        Exposure::Add
    } else {
        Exposure::CutOut
    }
}

fn exposure_from(on: bool) -> (e: Exposure)
    ensures
        e == exposure_of(on),
{
    if on {
        Exposure::Add
    } else {
        Exposure::CutOut
    }
}

/// The value of an optional angle; an absent angle is zero.
pub open spec fn optional_angle(angle: Option<MacroDecimal>, variables: Map<u32, Scalar>)
    -> Result<Scalar, ExpressionEvaluationError> {
    match angle {
        Some(a) => decimal_value(a, variables),
        None => Ok(Scalar::of(0)),
    }
}

/// The disc of a circle entry: its centre is turned about the origin by the angle.
#[verifier::opaque]
pub open spec fn circle_content(c: CirclePrimitive, variables: Map<u32, Scalar>)
    -> ContentOutcome {
    match decimal_value(c.diameter, variables) {
        Err(e) => Err(e),
        Ok(diameter) => match pair_value(c.center, variables) {
            Err(e) => Err(e),
            Ok((cx, cy)) => match optional_angle(c.angle, variables) {
                Err(e) => Err(e),
                Ok(angle) => match boolean_value(c.exposure, variables) {
                    Err(e) => Err(e),
                    Ok(on) => Ok(
                        Some(
                            PrimitiveModel::Circle(
                                CircleGerberPrimitive {
                                    center: (Position { x: cx, y: cy }).rotated(angle@),
                                    diameter,
                                    exposure: exposure_of(on),
                                },
                            ),
                        ),
                    ),
                },
            },
        },
    }
}

fn process_circle(c: &CirclePrimitive, context: &MacroContext) -> (r: Result<
    Option<GerberPrimitive>,
    ExpressionEvaluationError,
>)
    ensures
        same_outcome(r, circle_content(*c, context@)),
{
    reveal(circle_content);
    let diameter = match macro_decimal_to_scalar(&c.diameter, context) {
        Ok(v) => v,
        Err(e) => {
            return Err(e);
        },
    };
    let (cx, cy) = match macro_decimal_pair_to_scalars(&c.center, context) {
        Ok(v) => v,
        Err(e) => {
            return Err(e);
        },
    };
    let angle = match &c.angle {
        Some(a) => match macro_decimal_to_scalar(a, context) {
            Ok(v) => v,
            Err(e) => {
                return Err(e);
            },
        },
        None => Scalar::zero(),
    };
    let on = match macro_boolean_to_bool(&c.exposure, context) {
        Ok(v) => v,
        Err(e) => {
            return Err(e);
        },
    };
    Ok(
        Some(
            GerberPrimitive::Circle(
                CircleGerberPrimitive {
                    center: Position::new(cx, cy).rotate(angle),
                    diameter,
                    exposure: exposure_from(on),
                },
            ),
        ),
    )
}

/// The midpoint of two points, each coordinate rounded toward zero.
pub open spec fn midpoint_of(a: Position, b: Position) -> Position {
    Position {
        x: Scalar::of(trunc_div(a.x@ + b.x@, 2)),
        y: Scalar::of(trunc_div(a.y@ + b.y@, 2)),
    }
}

fn midpoint_exec(a: Position, b: Position) -> (m: Position)
    ensures
        m == midpoint_of(a, b),
{
    let sx: i64 = a.x.raw() + b.x.raw();
    let sy: i64 = a.y.raw() + b.y.raw();
    Position { x: Scalar::new(sx / 2), y: Scalar::new(sy / 2) }
}

/// The four corners of the rectangle about the segment from `a` to `b` of
/// length `length`, reaching `half_width` to either side, relative to the
/// midpoint of the segment.
pub open spec fn vector_line_corners(a: Position, b: Position, half_width: Scalar, length: Scalar)
    -> Seq<Position> {
    let dx = Scalar::of(b.x@ - a.x@);
    let dy = Scalar::of(b.y@ - a.y@);
    let px = Scalar::of(-Scalar::of(signed_div(dy@ * half_width@, length@))@);
    let py = Scalar::of(signed_div(dx@ * half_width@, length@));
    let m = midpoint_of(a, b);
    seq![
        Position {
            x: Scalar::of(Scalar::of(a.x@ - px@)@ - m.x@),
            y: Scalar::of(Scalar::of(a.y@ - py@)@ - m.y@),
        },
        Position {
            x: Scalar::of(Scalar::of(a.x@ + px@)@ - m.x@),
            y: Scalar::of(Scalar::of(a.y@ + py@)@ - m.y@),
        },
        Position {
            x: Scalar::of(Scalar::of(b.x@ + px@)@ - m.x@),
            y: Scalar::of(Scalar::of(b.y@ + py@)@ - m.y@),
        },
        Position {
            x: Scalar::of(Scalar::of(b.x@ - px@)@ - m.x@),
            y: Scalar::of(Scalar::of(b.y@ - py@)@ - m.y@),
        },
    ]
}

fn vector_line_corners_exec(a: Position, b: Position, half_width: Scalar, length: Scalar) -> (v:
    Vec<Position>)
    requires
        length@ != 0,
    ensures
        v@ == vector_line_corners(a, b, half_width, length),
{
    let dx = b.x.sub(a.x);
    let dy = b.y.sub(a.y);
    let px = match dy.scaled(half_width, length) {
        Some(q) => q.negate(),
        None => Scalar::zero(),
    };
    let py = match dx.scaled(half_width, length) {
        Some(q) => q,
        None => Scalar::zero(),
    };
    let m = midpoint_exec(a, b);
    let mut v: Vec<Position> = Vec::new();
    v.push(Position { x: a.x.sub(px).sub(m.x), y: a.y.sub(py).sub(m.y) });
    v.push(Position { x: a.x.add(px).sub(m.x), y: a.y.add(py).sub(m.y) });
    v.push(Position { x: b.x.add(px).sub(m.x), y: b.y.add(py).sub(m.y) });
    v.push(Position { x: b.x.sub(px).sub(m.x), y: b.y.sub(py).sub(m.y) });
    proof {
        assert(v@ =~= vector_line_corners(a, b, half_width, length));
    }
    v
}

/// The rectangle of a vector-line entry. Its end points are turned about the
/// origin by the angle; a line of no length yields nothing.
#[verifier::opaque]
pub open spec fn vector_line_content(l: VectorLinePrimitive, variables: Map<u32, Scalar>)
    -> ContentOutcome {
    match pair_value(l.start, variables) {
        Err(e) => Err(e),
        Ok((sx, sy)) => match pair_value(l.end, variables) {
            Err(e) => Err(e),
            Ok((ex, ey)) => match decimal_value(l.width, variables) {
                Err(e) => Err(e),
                Ok(width) => match decimal_value(l.angle, variables) {
                    Err(e) => Err(e),
                    Ok(angle) => {
                        let a = (Position { x: sx, y: sy }).rotated(angle@);
                        let b = (Position { x: ex, y: ey }).rotated(angle@);
                        let length = Scalar::of(
                            floor_sqrt((b.x@ - a.x@) * (b.x@ - a.x@) + (b.y@ - a.y@) * (b.y@ - a.y@)),
                        );
                        if length@ == 0 {
                            Ok(None)
                        } else {
                            match boolean_value(l.exposure, variables) {
                                Err(e) => Err(e),
                                Ok(on) => Ok(
                                    Some(
                                        PrimitiveModel::Polygon(
                                            polygon_model(
                                                midpoint_of(a, b),
                                                vector_line_corners(
                                                    a,
                                                    b,
                                                    Scalar::of(trunc_div(width@, 2)),
                                                    length,
                                                ),
                                                exposure_of(on),
                                            ),
                                        ),
                                    ),
                                ),
                            }
                        }
                    },
                },
            },
        },
    }
}

fn process_vector_line(l: &VectorLinePrimitive, context: &MacroContext) -> (r: Result<
    Option<GerberPrimitive>,
    ExpressionEvaluationError,
>)
    ensures
        same_outcome(r, vector_line_content(*l, context@)),
{
    reveal(vector_line_content);
    let (sx, sy) = match macro_decimal_pair_to_scalars(&l.start, context) {
        Ok(v) => v,
        Err(e) => {
            return Err(e);
        },
    };
    let (ex, ey) = match macro_decimal_pair_to_scalars(&l.end, context) {
        Ok(v) => v,
        Err(e) => {
            return Err(e);
        },
    };
    let width = match macro_decimal_to_scalar(&l.width, context) {
        Ok(v) => v,
        Err(e) => {
            return Err(e);
        },
    };
    let angle = match macro_decimal_to_scalar(&l.angle, context) {
        Ok(v) => v,
        Err(e) => {
            return Err(e);
        },
    };
    let a = Position::new(sx, sy).rotate(angle);
    let b = Position::new(ex, ey).rotate(angle);
    let dx: i64 = b.x.raw() - a.x.raw();
    let dy: i64 = b.y.raw() - a.y.raw();
    let length = hypot_wide(dx, dy);
    if length.is_zero() {
        return Ok(None);
    }
    let vertices = vector_line_corners_exec(a, b, width.half(), length);
    let on = match macro_boolean_to_bool(&l.exposure, context) {
        Ok(v) => v,
        Err(e) => {
            return Err(e);
        },
    };
    Ok(
        Some(
            GerberPrimitive::new_polygon(
                GerberPolygon { center: midpoint_exec(a, b), vertices, exposure: exposure_from(on) },
            ),
        ),
    )
}

fn hypot_wide(dx: i64, dy: i64) -> (r: Scalar)
    requires
        -2 * crate::fixed::LIMIT <= dx <= 2 * crate::fixed::LIMIT,
        -2 * crate::fixed::LIMIT <= dy <= 2 * crate::fixed::LIMIT,
    ensures
        r == Scalar::of(floor_sqrt(dx * dx + dy * dy)),
{
    let x: i128 = dx as i128;
    let y: i128 = dy as i128;
    proof {
        crate::fixed::lemma_mul_bounds(x as int, x as int, 2199023255552, 2199023255552);
        crate::fixed::lemma_mul_bounds(y as int, y as int, 2199023255552, 2199023255552);
        assert(x * x >= 0) by (nonlinear_arith);
        assert(y * y >= 0) by (nonlinear_arith);
        assert(2199023255552int * 2199023255552int == 4835703278458516698824704int);
    }
    let n: i128 = x * x + y * y;
    let root: u128 = crate::trig::isqrt(n as u128);
    Scalar::from_wide(root as i128)
}

/// The four corners of a rectangle of the given half sizes about the origin,
/// each turned by `angle`.
pub open spec fn center_line_corners(half_length: Scalar, half_width: Scalar, angle: int) -> Seq<
    Position,
> {
    seq![
        (Position { x: half_length, y: half_width }).rotated(angle),
        (Position { x: Scalar::of(-half_length@), y: half_width }).rotated(angle),
        (Position { x: Scalar::of(-half_length@), y: Scalar::of(-half_width@) }).rotated(angle),
        (Position { x: half_length, y: Scalar::of(-half_width@) }).rotated(angle),
    ]
}

fn center_line_corners_exec(half_length: Scalar, half_width: Scalar, angle: Scalar) -> (v: Vec<
    Position,
>)
    ensures
        v@ == center_line_corners(half_length, half_width, angle@),
{
    let mut v: Vec<Position> = Vec::new();
    v.push(Position::new(half_length, half_width).rotate(angle));
    v.push(Position::new(half_length.negate(), half_width).rotate(angle));
    v.push(Position::new(half_length.negate(), half_width.negate()).rotate(angle));
    v.push(Position::new(half_length, half_width.negate()).rotate(angle));
    proof {
        assert(v@ =~= center_line_corners(half_length, half_width, angle@));
    }
    v
}

/// The rectangle of a centre-line entry: its corners are turned about its own
/// centre by the angle.
#[verifier::opaque]
pub open spec fn center_line_content(l: CenterLinePrimitive, variables: Map<u32, Scalar>)
    -> ContentOutcome {
    match pair_value(l.center, variables) {
        Err(e) => Err(e),
        Ok((cx, cy)) => match pair_value(l.dimensions, variables) {
            Err(e) => Err(e),
            Ok((length, width)) => match decimal_value(l.angle, variables) {
                Err(e) => Err(e),
                Ok(angle) => match boolean_value(l.exposure, variables) {
                    Err(e) => Err(e),
                    Ok(on) => Ok(
                        Some(
                            PrimitiveModel::Polygon(
                                polygon_model(
                                    Position { x: cx, y: cy },
                                    center_line_corners(
                                        Scalar::of(trunc_div(length@, 2)),
                                        Scalar::of(trunc_div(width@, 2)),
                                        angle@,
                                    ),
                                    exposure_of(on),
                                ),
                            ),
                        ),
                    ),
                },
            },
        },
    }
}

fn process_center_line(l: &CenterLinePrimitive, context: &MacroContext) -> (r: Result<
    Option<GerberPrimitive>,
    ExpressionEvaluationError,
>)
    ensures
        same_outcome(r, center_line_content(*l, context@)),
{
    reveal(center_line_content);
    let (cx, cy) = match macro_decimal_pair_to_scalars(&l.center, context) {
        Ok(v) => v,
        Err(e) => {
            return Err(e);
        },
    };
    let (length, width) = match macro_decimal_pair_to_scalars(&l.dimensions, context) {
        Ok(v) => v,
        Err(e) => {
            return Err(e);
        },
    };
    let angle = match macro_decimal_to_scalar(&l.angle, context) {
        Ok(v) => v,
        Err(e) => {
            return Err(e);
        },
    };
    let vertices = center_line_corners_exec(length.half(), width.half(), angle);
    let on = match macro_boolean_to_bool(&l.exposure, context) {
        Ok(v) => v,
        Err(e) => {
            return Err(e);
        },
    };
    Ok(
        Some(
            GerberPrimitive::new_polygon(
                GerberPolygon { center: Position::new(cx, cy), vertices, exposure: exposure_from(on) },
            ),
        ),
    )
}

/// The vertices of the first `k` points of an outline: a point whose
/// coordinates have no value is left out.
pub open spec fn outline_vertices(points: Seq<MacroPair>, variables: Map<u32, Scalar>, k: int)
    -> Seq<Position>
    decreases k,
{
    if k <= 0 {
        Seq::empty()
    } else {
        let before = outline_vertices(points, variables, k - 1);
        match pair_value(points[k - 1], variables) {
            Ok((x, y)) => before.push(Position { x, y }),
            Err(_) => before,
        }
    }
}

/// The points of a list, each turned about the origin by `angle`; a turn of
/// zero leaves the list as it is.
pub open spec fn rotated_all(points: Seq<Position>, angle: int) -> Seq<Position> {
    if angle == 0 {
        points
    } else {
        Seq::new(points.len(), |i: int| points[i].rotated(angle))
    }
}

/// The polygon of an outline entry. Fewer than three points yield nothing.
#[verifier::opaque]
pub open spec fn outline_content(o: OutlinePrimitive, variables: Map<u32, Scalar>)
    -> ContentOutcome {
    if o.points@.len() < 3 {
        Ok(None)
    } else {
        match decimal_value(o.angle, variables) {
            Err(e) => Err(e),
            Ok(angle) => match boolean_value(o.exposure, variables) {
                Err(e) => Err(e),
                Ok(on) => Ok(
                    Some(
                        PrimitiveModel::Polygon(
                            polygon_model(
                                Position { x: Scalar::of(0), y: Scalar::of(0) },
                                rotated_all(
                                    outline_vertices(o.points@, variables, o.points@.len() as int),
                                    angle@,
                                ),
                                exposure_of(on),
                            ),
                        ),
                    ),
                ),
            },
        }
    }
}

fn process_outline(o: &OutlinePrimitive, context: &MacroContext) -> (r: Result<
    Option<GerberPrimitive>,
    ExpressionEvaluationError,
>)
    ensures
        same_outcome(r, outline_content(*o, context@)),
{
    reveal(outline_content);
    let n: usize = o.points.len();
    if n < 3 {
        return Ok(None);
    }
    let mut vertices: Vec<Position> = Vec::new();
    let mut i: usize = 0;
    while i < n
        invariant
            i <= n,
            n == o.points@.len(),
            vertices@ == outline_vertices(o.points@, context@, i as int),
        decreases n - i,
    {
        match macro_decimal_pair_to_scalars(&o.points[i], context) {
            Ok((x, y)) => {
                vertices.push(Position { x, y });
            },
            Err(_) => {},
        }
        i = i + 1;
    }
    let angle = match macro_decimal_to_scalar(&o.angle, context) {
        Ok(v) => v,
        Err(e) => {
            return Err(e);
        },
    };
    if !angle.is_zero() {
        let ghost before = vertices@;
        let m: usize = vertices.len();
        let mut j: usize = 0;
        while j < m
            invariant
                j <= m,
                m == vertices@.len(),
                m == before.len(),
                forall|k: int| 0 <= k < j ==> #[trigger] vertices@[k] == before[k].rotated(angle@),
                forall|k: int| j <= k < m ==> #[trigger] vertices@[k] == before[k],
            decreases m - j,
        {
            let p: Position = vertices[j];
            vertices.set(j, p.rotate(angle));
            j = j + 1;
        }
        proof {
            assert(vertices@ =~= rotated_all(before, angle@));
        }
    }
    let on = match macro_boolean_to_bool(&o.exposure, context) {
        Ok(v) => v,
        Err(e) => {
            return Err(e);
        },
    };
    Ok(
        Some(
            GerberPrimitive::new_polygon(
                GerberPolygon { center: Position::origin(), vertices, exposure: exposure_from(on) },
            ),
        ),
    )
}

/// The angle of vertex `i` of a regular polygon of `count` vertices.
pub open spec fn regular_angle(i: int, count: int) -> int {
    (FULL_TURN * i) / count
}

/// The vertices of a regular polygon of `count` vertices on a circle of the
/// given radius, the first at angle zero, all turned by `rotation`.
pub open spec fn regular_vertices(radius: Scalar, count: int, rotation: int) -> Seq<Position> {
    Seq::new(
        count as nat,
        |i: int| point_at(radius, regular_angle(i, count)).rotated(rotation),
    )
}

/// The vertices of a regular polygon, relative to its centre.
pub fn regular_vertices_exec(radius: Scalar, count: u32, rotation: Scalar) -> (v: Vec<Position>)
    ensures
        v@ == regular_vertices(radius, count as int, rotation@),
{
    let mut v: Vec<Position> = Vec::new();
    let mut i: u32 = 0;
    while i < count
        invariant
            i <= count,
            v@.len() == i,
            forall|k: int|
                0 <= k < i ==> #[trigger] v@[k] == point_at(
                    radius,
                    regular_angle(k, count as int),
                ).rotated(rotation@),
        decreases count - i,
    {
        proof {
            let n = FULL_TURN * i;
            assert(0 <= n <= FULL_TURN * 0xffff_ffff) by (nonlinear_arith)
                requires
                    n == FULL_TURN * i,
                    0 <= i <= 0xffff_ffff,
            ;
            let c = count as int;
            assert(0 <= n / c <= n) by (nonlinear_arith)
                requires
                    n >= 0,
                    c >= 1,
            ;
            assert(n / c <= FULL_TURN) by (nonlinear_arith)
                requires
                    n == FULL_TURN * i,
                    0 <= i < c,
                    c >= 1,
            ;
        }
        let angle: i64 = (((FULL_TURN as i128) * (i as i128)) / (count as i128)) as i64;
        let (x, y) = rotate_xy(radius, Scalar::zero(), Scalar::new(angle));
        v.push(Position { x, y }.rotate(rotation));
        i = i + 1;
    }
    proof {
        assert(v@ =~= regular_vertices(radius, count as int, rotation@));
    }
    v
}

/// The regular polygon of a polygon entry: both its vertices and its centre are
/// turned about the origin by the angle.
#[verifier::opaque]
pub open spec fn polygon_content(p: PolygonPrimitive, variables: Map<u32, Scalar>)
    -> ContentOutcome {
    match pair_value(p.center, variables) {
        Err(e) => Err(e),
        Ok((cx, cy)) => match integer_value(p.vertices, variables) {
            Err(e) => Err(e),
            Ok(count) => match decimal_value(p.diameter, variables) {
                Err(e) => Err(e),
                Ok(diameter) => match decimal_value(p.angle, variables) {
                    Err(e) => Err(e),
                    Ok(angle) => match boolean_value(p.exposure, variables) {
                        Err(e) => Err(e),
                        Ok(on) => Ok(
                            Some(
                                PrimitiveModel::Polygon(
                                    polygon_model(
                                        (Position { x: cx, y: cy }).rotated(angle@),
                                        regular_vertices(
                                            Scalar::of(trunc_div(diameter@, 2)),
                                            count as int,
                                            angle@,
                                        ),
                                        exposure_of(on),
                                    ),
                                ),
                            ),
                        ),
                    },
                },
            },
        },
    }
}

fn process_polygon(p: &PolygonPrimitive, context: &MacroContext) -> (r: Result<
    Option<GerberPrimitive>,
    ExpressionEvaluationError,
>)
    ensures
        same_outcome(r, polygon_content(*p, context@)),
{
    reveal(polygon_content);
    let (cx, cy) = match macro_decimal_pair_to_scalars(&p.center, context) {
        Ok(v) => v,
        Err(e) => {
            return Err(e);
        },
    };
    let count = match macro_integer_to_u32(&p.vertices, context) {
        Ok(v) => v,
        Err(e) => {
            return Err(e);
        },
    };
    let diameter = match macro_decimal_to_scalar(&p.diameter, context) {
        Ok(v) => v,
        Err(e) => {
            return Err(e);
        },
    };
    let angle = match macro_decimal_to_scalar(&p.angle, context) {
        Ok(v) => v,
        Err(e) => {
            return Err(e);
        },
    };
    let vertices = regular_vertices_exec(diameter.half(), count, angle);
    let center = Position::new(cx, cy).rotate(angle);
    let on = match macro_boolean_to_bool(&p.exposure, context) {
        Ok(v) => v,
        Err(e) => {
            return Err(e);
        },
    };
    Ok(
        Some(
            GerberPrimitive::new_polygon(
                GerberPolygon { center, vertices, exposure: exposure_from(on) },
            ),
        ),
    )
}

/// What one macro entry yields under the given variables.
pub open spec fn content_outcome(content: MacroContent, variables: Map<u32, Scalar>)
    -> ContentOutcome {
    match content {
        MacroContent::Circle(c) => circle_content(c, variables),
        MacroContent::VectorLine(l) => vector_line_content(l, variables),
        MacroContent::CenterLine(l) => center_line_content(l, variables),
        MacroContent::Outline(o) => outline_content(o, variables),
        MacroContent::Polygon(p) => polygon_content(p, variables),
        MacroContent::Moire => Ok(None),
        MacroContent::Thermal => Ok(None),
        MacroContent::VariableDefinition(_) => Ok(None),
        MacroContent::Comment => Ok(None),
    }
}

/// The variables after one macro entry: an assignment whose expression has a
/// value gives that value to its variable, and nothing else changes anything.
pub open spec fn content_variables(content: MacroContent, variables: Map<u32, Scalar>) -> Map<
    u32,
    Scalar,
> {
    match content {
        MacroContent::VariableDefinition(d) => match evaluate_spec(
            text_bytes(d.expression@),
            variables,
        ) {
            Ok(v) => if d.number != 0 {
                variables.insert(d.number, v)
            } else {
                variables
            },
            Err(_) => variables,
        },
        _ => variables,
    }
}

/// Reads one macro entry against the variables of `context`.
pub fn process_content(content: &MacroContent, context: &mut MacroContext) -> (r: Result<
    Option<GerberPrimitive>,
    ExpressionEvaluationError,
>)
    ensures
        same_outcome(r, content_outcome(*content, old(context)@)),
        final(context)@ == content_variables(*content, old(context)@),
{
    match content {
        MacroContent::Circle(c) => process_circle(c, context),
        MacroContent::VectorLine(l) => process_vector_line(l, context),
        MacroContent::CenterLine(l) => process_center_line(l, context),
        MacroContent::Outline(o) => process_outline(o, context),
        MacroContent::Polygon(p) => process_polygon(p, context),
        MacroContent::Moire => Ok(None),
        MacroContent::Thermal => Ok(None),
        MacroContent::VariableDefinition(d) => {
            match evaluate_expression(d.expression.as_str(), context) {
                Ok(value) => {
                    let _ = context.put(d.number, value);
                },
                Err(_) => {},
            }
            Ok(None)
        },
        MacroContent::Comment => Ok(None),
    }
}

} // verus!
