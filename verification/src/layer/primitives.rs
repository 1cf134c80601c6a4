//! The primitives a layer is made of, and their bounding boxes.

use std::sync::Arc;
use vstd::prelude::*;
use crate::fixed::{magnitude, saturate, trunc_div, Scalar};
use crate::geometry::bounding_box::{box_of, BoundingBox};
use crate::geometry::shapes::{is_convex, is_convex_spec};
use crate::spacial::deduplicate::{dedup_scan, dedup_spec, dedup_wrap, near, DedupEpsilon};
use crate::spacial::{Position, ToVector, Vector};
use crate::trig::{rotate_xy, rotated_x, rotated_y, FULL_TURN};
use crate::types::{shoelace, shoelace_partial, shoelace_term, winding_of, Exposure, Winding};

verus! {

broadcast use crate::fixed::group_scalar;

/// Two angles closer than this are the same angle (one millionth of a degree).
pub const ANGLE_EPSILON: i64 = 1;

/// Two vertices closer than this in both coordinates are the same vertex
/// (one millionth of the unit of length).
pub const VERTEX_EPSILON: i64 = 1;

/// A disc.
#[derive(Debug, Copy, Clone)]
pub struct CircleGerberPrimitive {
    pub center: Position,
    pub diameter: Scalar,
    pub exposure: Exposure,
}

/// An axis-aligned rectangle, given by its corner of least coordinates.
#[derive(Debug, Copy, Clone)]
pub struct RectangleGerberPrimitive {
    pub origin: Position,
    pub width: Scalar,
    pub height: Scalar,
    pub exposure: Exposure,
}

/// A straight stroke with round ends.
#[derive(Debug, Copy, Clone)]
pub struct LineGerberPrimitive {
    pub start: Position,
    pub end: Position,
    pub width: Scalar,
    pub exposure: Exposure,
}

/// A circular stroke. Angles are in degrees, counter-clockwise positive; a
/// sweep of zero or of a full turn is the whole circle.
#[derive(Debug, Copy, Clone)]
pub struct ArcGerberPrimitive {
    pub center: Position,
    pub radius: Scalar,
    pub width: Scalar,
    pub start_angle: Scalar,
    pub sweep_angle: Scalar,
    pub exposure: Exposure,
}

/// The outline of a polygon, relative to its centre.
#[derive(Debug)]
pub struct PolygonGeometry {
    /// The vertices relative to the centre, counter-clockwise.
    pub relative_vertices: Vec<Position>,
    /// Whether the outline given at construction was convex.
    pub is_convex: bool,
}

/// A filled polygon. The outline is shared between the copies of one template.
#[derive(Debug)]
pub struct PolygonGerberPrimitive {
    pub center: Position,
    pub exposure: Exposure,
    pub geometry: Arc<PolygonGeometry>,
}

/// A primitive of a compiled layer.
#[derive(Debug)]
pub enum GerberPrimitive {
    Circle(CircleGerberPrimitive),
    Rectangle(RectangleGerberPrimitive),
    Line(LineGerberPrimitive),
    Arc(ArcGerberPrimitive),
    Polygon(PolygonGerberPrimitive),
}

/// A polygon as it is handed to [`GerberPrimitive::new_polygon`].
#[derive(Debug)]
pub struct GerberPolygon {
    pub center: Position,
    /// Relative to the centre.
    pub vertices: Vec<Position>,
    pub exposure: Exposure,
}

/// What a polygon primitive is, as a mathematical value.
pub struct PolygonModel {
    pub center: Position,
    pub exposure: Exposure,
    pub vertices: Seq<Position>,
    pub is_convex: bool,
}

/// What a primitive is, as a mathematical value.
pub enum PrimitiveModel {
    Circle(CircleGerberPrimitive),
    Rectangle(RectangleGerberPrimitive),
    Line(LineGerberPrimitive),
    Arc(ArcGerberPrimitive),
    Polygon(PolygonModel),
}

impl View for PolygonGerberPrimitive {
    type V = PolygonModel;

    open spec fn view(&self) -> PolygonModel {
        PolygonModel {
            center: self.center,
            exposure: self.exposure,
            vertices: self.geometry.relative_vertices@,
            is_convex: self.geometry.is_convex,
        }
    }
}

impl View for GerberPrimitive {
    type V = PrimitiveModel;

    open spec fn view(&self) -> PrimitiveModel {
        match self {
            GerberPrimitive::Circle(c) => PrimitiveModel::Circle(*c),
            GerberPrimitive::Rectangle(r) => PrimitiveModel::Rectangle(*r),
            GerberPrimitive::Line(l) => PrimitiveModel::Line(*l),
            GerberPrimitive::Arc(a) => PrimitiveModel::Arc(*a),
            GerberPrimitive::Polygon(p) => PrimitiveModel::Polygon(p@),
        }
    }
}

/// The models of a list of primitives, in order.
pub open spec fn models(primitives: Seq<GerberPrimitive>) -> Seq<PrimitiveModel> {
    Seq::new(primitives.len(), |i: int| primitives[i]@)
}

/// Appending a primitive appends its model.
pub proof fn lemma_models_push(primitives: Seq<GerberPrimitive>, p: GerberPrimitive)
    ensures
        models(primitives.push(p)) == models(primitives).push(p@),
{
    assert(models(primitives.push(p)) =~= models(primitives).push(p@));
}

/// Another handle on the same value: `Arc::clone` of the standard library,
/// which makes a new pointer to the allocation of its argument. What the
/// result points to is therefore what the argument points to.
#[verifier::external_body]
pub(crate) fn share<T>(value: &Arc<T>) -> (shared: Arc<T>)
    ensures
        shared == *value,
{
    Arc::clone(value)
}

/// Whether a sweep describes the whole circle: it is zero, or a full turn in
/// either direction, up to `ANGLE_EPSILON`.
pub open spec fn is_full_circle_spec(sweep: int) -> bool {
    magnitude(sweep) < ANGLE_EPSILON || magnitude(magnitude(sweep) - FULL_TURN) < ANGLE_EPSILON
}

/// The number of points an arc is sampled at.
pub open spec fn arc_steps(sweep: int) -> int {
    if is_full_circle_spec(sweep) {
        33
    } else {
        32
    }
}

/// The sweep that is sampled: a full turn for a whole circle, the sweep itself otherwise.
pub open spec fn effective_sweep(sweep: int) -> int {
    if is_full_circle_spec(sweep) {
        FULL_TURN as int
    } else {
        sweep
    }
}

/// The angle of sample `i`: the samples divide the sweep evenly and follow its direction.
pub open spec fn arc_sample_angle(start: int, sweep: int, i: int) -> int {
    let turn = effective_sweep(sweep);
    let delta = (magnitude(turn) * i) / (arc_steps(sweep) - 1);
    if turn >= 0 {
        saturate(start + delta)
    } else {
        saturate(start - delta)
    }
}

/// The point of a circle of the given radius about the origin at `angle`.
pub open spec fn point_at(radius: Scalar, angle: int) -> Position {
    Position {
        x: Scalar::of(rotated_x(radius@, 0, angle)),
        y: Scalar::of(rotated_y(radius@, 0, angle)),
    }
}

/// The sample points of an arc, relative to its centre. The last point of a
/// whole circle is its first point.
pub open spec fn arc_points(arc: ArcGerberPrimitive) -> Seq<Position> {
    let steps = arc_steps(arc.sweep_angle@);
    Seq::new(
        steps as nat,
        |i: int|
            if is_full_circle_spec(arc.sweep_angle@) && i == steps - 1 {
                point_at(arc.radius, arc_sample_angle(arc.start_angle@, arc.sweep_angle@, 0))
            } else {
                point_at(arc.radius, arc_sample_angle(arc.start_angle@, arc.sweep_angle@, i))
            },
    )
}

/// A sweep of zero and a sweep of a full turn are both the whole circle, and
/// the sample points of a whole circle are thirty-three, the last the same as the first.
pub proof fn lemma_full_circle(arc: ArcGerberPrimitive)
    requires
        arc.sweep_angle@ == 0 || arc.sweep_angle@ == FULL_TURN || arc.sweep_angle@ == -FULL_TURN,
    ensures
        is_full_circle_spec(arc.sweep_angle@),
        arc_points(arc).len() == 33,
        arc_points(arc).first() == arc_points(arc).last(),
{
}

/// The square of half-side `r` about `p`.
pub open spec fn square_around(p: Position, r: Scalar) -> BoundingBox {
    BoundingBox {
        min: Position { x: Scalar::of(p.x@ - r@), y: Scalar::of(p.y@ - r@) },
        max: Position { x: Scalar::of(p.x@ + r@), y: Scalar::of(p.y@ + r@) },
    }
}

/// The points of a list, each moved by `by`.
pub open spec fn shifted(points: Seq<Position>, by: Vector) -> Seq<Position> {
    Seq::new(points.len(), |i: int| points[i].translated(by))
}

/// The union of the stroke squares of the first `k` sample points of an arc.
pub open spec fn arc_box_prefix(center: Position, half_width: Scalar, points: Seq<Position>, k: int)
    -> BoundingBox
    decreases k,
{
    if k <= 0 {
        BoundingBox::empty()
    } else {
        arc_box_prefix(center, half_width, points, k - 1).union(
            square_around(
                center.translated(Vector { x: points[k - 1].x, y: points[k - 1].y }),
                half_width,
            ),
        )
    }
}

/// The box of a disc: its centre plus and minus half its diameter.
pub open spec fn circle_box(c: CircleGerberPrimitive) -> BoundingBox {
    square_around(c.center, Scalar::of(trunc_div(c.diameter@, 2)))
}

/// The box of a rectangle: from its origin to its origin plus its size.
pub open spec fn rectangle_box(r: RectangleGerberPrimitive) -> BoundingBox {
    BoundingBox {
        min: r.origin,
        max: Position {
            x: Scalar::of(r.origin.x@ + r.width@),
            y: Scalar::of(r.origin.y@ + r.height@),
        },
    }
}

/// The box of a line: the union of the squares of half its width about its two ends.
pub open spec fn line_box(l: LineGerberPrimitive) -> BoundingBox {
    let r = Scalar::of(trunc_div(l.width@, 2));
    square_around(l.start, r).union(square_around(l.end, r))
}

/// The box of an arc: the union of the squares of half its width about its sample points.
pub open spec fn arc_box(a: ArcGerberPrimitive) -> BoundingBox {
    let points = arc_points(a);
    arc_box_prefix(a.center, Scalar::of(trunc_div(a.width@, 2)), points, points.len() as int)
}

/// The box of a polygon: the box of its vertices moved to its centre.
pub open spec fn polygon_box(p: PolygonModel) -> BoundingBox {
    box_of(shifted(p.vertices, Vector { x: p.center.x, y: p.center.y }))
}

/// The box of a primitive.
pub open spec fn primitive_box(p: PrimitiveModel) -> BoundingBox {
    match p {
        PrimitiveModel::Circle(c) => circle_box(c),
        PrimitiveModel::Rectangle(r) => rectangle_box(r),
        PrimitiveModel::Line(l) => line_box(l),
        PrimitiveModel::Arc(a) => arc_box(a),
        PrimitiveModel::Polygon(p) => polygon_box(p),
    }
}

/// The union of the boxes of the first `k` primitives of a list.
pub open spec fn boxes_union(primitives: Seq<PrimitiveModel>, k: int) -> BoundingBox
    decreases k,
{
    if k <= 0 {
        BoundingBox::empty()
    } else {
        boxes_union(primitives, k - 1).union(primitive_box(primitives[k - 1]))
    }
}

/// The box of a layer: the union of the boxes of its primitives.
pub open spec fn layer_box(primitives: Seq<PrimitiveModel>) -> BoundingBox {
    boxes_union(primitives, primitives.len() as int)
}

/// The union of the boxes of a prefix contains the box of each primitive of the prefix.
pub proof fn lemma_boxes_union_contains(primitives: Seq<PrimitiveModel>, k: int)
    requires
        0 <= k <= primitives.len(),
    ensures
        forall|i: int|
            0 <= i < k ==> boxes_union(primitives, k).contains(
                primitive_box(#[trigger] primitives[i]),
            ),
    decreases k,
{
    if k > 0 {
        lemma_boxes_union_contains(primitives, k - 1);
        let before = boxes_union(primitives, k - 1);
        let after = boxes_union(primitives, k);
        assert forall|i: int| 0 <= i < k implies after.contains(
            primitive_box(#[trigger] primitives[i]),
        ) by {
            if i < k - 1 {
                assert(before.contains(primitive_box(primitives[i])));
            }
        }
    }
}

/// The box of a layer contains the box of each of its primitives.
pub proof fn lemma_layer_box_contains(primitives: Seq<PrimitiveModel>, i: int)
    requires
        0 <= i < primitives.len(),
    ensures
        layer_box(primitives).contains(primitive_box(primitives[i])),
{
    lemma_boxes_union_contains(primitives, primitives.len() as int);
}

/// The vertex list of a polygon as it is stored: run counter-clockwise, then
/// freed of repeated vertices.
pub open spec fn normalized_vertices(vertices: Seq<Position>) -> Seq<Position> {
    dedup_spec(oriented_vertices(vertices), VERTEX_EPSILON as int)
}

/// The vertex list read backwards if it runs clockwise, and as it is otherwise.
pub open spec fn oriented_vertices(vertices: Seq<Position>) -> Seq<Position> {
    if winding_of(vertices) == Winding::Clockwise {
        vertices.reverse()
    } else {
        vertices
    }
}

/// The polygon primitive made of a centre, an outline and an exposure.
pub open spec fn polygon_model(center: Position, vertices: Seq<Position>, exposure: Exposure)
    -> PolygonModel {
    PolygonModel {
        center,
        exposure,
        vertices: normalized_vertices(vertices),
        is_convex: is_convex_spec(vertices),
    }
}

/// The oriented vertex list never runs clockwise.
pub proof fn lemma_oriented_is_counter_clockwise(vertices: Seq<Position>)
    ensures
        winding_of(oriented_vertices(vertices)) == Winding::CounterClockwise,
{
    if winding_of(vertices) == Winding::Clockwise {
        crate::types::lemma_reverse_fixes_winding(vertices);
    }
}

/// The shoelace sum of an open path: the terms of all edges but the one that closes it.
pub open spec fn path_sum(v: Seq<Position>) -> int {
    shoelace_partial(v, v.len() - 1)
}

/// The shoelace term of the edge from `a` to `b`.
pub open spec fn edge_term(a: Position, b: Position) -> int {
    a.x@ * b.y@ - b.x@ * a.y@
}

/// The partial sums of a list that do not reach its last vertex are those of
/// the list without that vertex.
proof fn lemma_partial_of_extension(w: Seq<Position>, x: Position, k: int)
    requires
        0 <= k <= w.len() - 1,
    ensures
        shoelace_partial(w.push(x), k) == shoelace_partial(w, k),
    decreases k,
{
    if k > 0 {
        lemma_partial_of_extension(w, x, k - 1);
        let v = w.push(x);
        assert(v[k - 1] == w[k - 1]);
        assert(v[k] == w[k]);
        assert(shoelace_term(v, k - 1) == shoelace_term(w, k - 1));
    }
}

/// Appending a vertex to a path adds the term of the edge that leads to it.
proof fn lemma_path_sum_push(w: Seq<Position>, x: Position)
    requires
        w.len() > 0,
    ensures
        path_sum(w.push(x)) == path_sum(w) + edge_term(w.last(), x),
{
    let v = w.push(x);
    let n = w.len() as int;
    lemma_partial_of_extension(w, x, n - 1);
    assert(v[n - 1] == w[n - 1]);
    assert(v[n] == x);
    assert(shoelace_term(v, n - 1) == edge_term(w.last(), x));
    assert(shoelace_partial(v, n) == shoelace_partial(v, n - 1) + shoelace_term(v, n - 1));
}

/// The shoelace sum of a closed list is that of the open path plus the term of
/// the closing edge.
proof fn lemma_shoelace_closes_path(v: Seq<Position>)
    requires
        v.len() > 0,
    ensures
        shoelace(v) == path_sum(v) + edge_term(v.last(), v[0]),
{
    let n = v.len() as int;
    assert(shoelace_term(v, n - 1) == edge_term(v.last(), v[0]));
}

/// Two vertices are within the vertex tolerance only if they are the same vertex.
proof fn lemma_near_is_equal(a: Position, b: Position)
    ensures
        near(a, b, VERTEX_EPSILON as int) <==> a == b,
{
    Scalar::lemma_view_injective(a.x, b.x);
    Scalar::lemma_view_injective(a.y, b.y);
}

/// Scanning for repeated vertices keeps the first vertex, the last vertex and
/// the shoelace sum of the path.
proof fn lemma_scan_keeps_path(v: Seq<Position>)
    requires
        v.len() > 0,
    ensures
        dedup_scan(v, VERTEX_EPSILON as int).len() > 0,
        dedup_scan(v, VERTEX_EPSILON as int)[0] == v[0],
        dedup_scan(v, VERTEX_EPSILON as int).last() == v.last(),
        path_sum(dedup_scan(v, VERTEX_EPSILON as int)) == path_sum(v),
    decreases v.len(),
{
    let w = v.drop_last();
    let x = v.last();
    let before = dedup_scan(w, VERTEX_EPSILON as int);
    assert(w.push(x) =~= v);
    if w.len() > 0 {
        lemma_scan_keeps_path(w);
        lemma_path_sum_push(w, x);
        lemma_near_is_equal(before.last(), x);
        if before.last() == x {
            assert(edge_term(x, x) == 0);
        } else {
            lemma_path_sum_push(before, x);
        }
    } else {
        assert(before.len() == 0);
        assert(before.push(x)[0] == x);
    }
}

/// The removal of repeated vertices leaves the shoelace sum as it is: a
/// repeated vertex spans an edge of no length.
pub proof fn lemma_dedup_keeps_shoelace(v: Seq<Position>)
    ensures
        shoelace(dedup_spec(v, VERTEX_EPSILON as int)) == shoelace(v),
{
    let scanned = dedup_scan(v, VERTEX_EPSILON as int);
    let retained = dedup_wrap(scanned, VERTEX_EPSILON as int);
    if v.len() >= 2 && retained.len() >= 3 {
        lemma_scan_keeps_path(v);
        lemma_shoelace_closes_path(v);
        lemma_shoelace_closes_path(scanned);
        if retained != scanned {
            lemma_near_is_equal(scanned.last(), scanned[0]);
            assert(retained.push(scanned.last()) =~= scanned);
            lemma_path_sum_push(retained, scanned.last());
            lemma_shoelace_closes_path(retained);
            assert(retained[0] == scanned[0]);
            assert(edge_term(scanned[0], scanned[0]) == 0);
        }
    }
}

/// The stored vertices of a polygon never run clockwise.
pub proof fn lemma_stored_winding(vertices: Seq<Position>)
    ensures
        winding_of(normalized_vertices(vertices)) == Winding::CounterClockwise,
{
    lemma_oriented_is_counter_clockwise(vertices);
    lemma_dedup_keeps_shoelace(oriented_vertices(vertices));
}

/// Something that has a bounding box.
pub trait WithBoundingBox {
    /// The bounding box, as a mathematical value.
    spec fn bounds(&self) -> BoundingBox;

    /// The bounding box.
    fn bounding_box(&self) -> (b: BoundingBox)
        ensures
            b == self.bounds(),
    ;
}

fn square_around_exec(p: Position, r: Scalar) -> (b: BoundingBox)
    ensures
        b == square_around(p, r),
{
    BoundingBox {
        min: Position { x: p.x.sub(r), y: p.y.sub(r) },
        max: Position { x: p.x.add(r), y: p.y.add(r) },
    }
}

impl WithBoundingBox for CircleGerberPrimitive {
    open spec fn bounds(&self) -> BoundingBox {
        circle_box(*self)
    }

    fn bounding_box(&self) -> (b: BoundingBox) {
        square_around_exec(self.center, self.diameter.half())
    }
}

impl WithBoundingBox for RectangleGerberPrimitive {
    open spec fn bounds(&self) -> BoundingBox {
        rectangle_box(*self)
    }

    fn bounding_box(&self) -> (b: BoundingBox) {
        BoundingBox {
            min: self.origin,
            max: Position { x: self.origin.x.add(self.width), y: self.origin.y.add(self.height) },
        }
    }
}

impl WithBoundingBox for LineGerberPrimitive {
    open spec fn bounds(&self) -> BoundingBox {
        line_box(*self)
    }

    fn bounding_box(&self) -> (b: BoundingBox) {
        let radius = self.width.half();
        let mut bbox = square_around_exec(self.start, radius);
        let end_bbox = square_around_exec(self.end, radius);
        bbox.expand(&end_bbox);
        bbox
    }
}

impl ArcGerberPrimitive {
    /// Whether the arc is the whole circle.
    pub fn is_full_circle(&self) -> (full: bool)
        ensures
            full == is_full_circle_spec(self.sweep_angle@),
    {
        let sweep: i64 = self.sweep_angle.raw();
        let size: i64 = if sweep < 0 {
            -sweep
        } else {
            sweep
        };
        if size < ANGLE_EPSILON {
            return true;
        }
        let rest: i64 = size - FULL_TURN;
        let gap: i64 = if rest < 0 {
            -rest
        } else {
            rest
        };
        gap < ANGLE_EPSILON
    }

    /// The sample points of the arc, relative to its centre: thirty-three for
    /// the whole circle, closed exactly, and thirty-two otherwise.
    pub fn generate_points(&self) -> (points: Vec<Position>)
        ensures
            points@ == arc_points(*self),
            points@.len() == arc_steps(self.sweep_angle@),
            is_full_circle_spec(self.sweep_angle@) ==> points@.len() == 33 && points@.first()
                == points@.last(),
            !is_full_circle_spec(self.sweep_angle@) ==> points@.len() == 32,
    {
        let full: bool = self.is_full_circle();
        let steps: usize = if full {
            33
        } else {
            32
        };
        let turn: i64 = if full {
            FULL_TURN
        } else {
            self.sweep_angle.raw()
        };
        let size: i128 = if turn < 0 {
            -(turn as i128)
        } else {
            turn as i128
        };
        let start: i64 = self.start_angle.raw();
        let mut points: Vec<Position> = Vec::new();
        let mut i: usize = 0;
        while i < steps
            invariant
                i <= steps,
                steps == arc_steps(self.sweep_angle@),
                full == is_full_circle_spec(self.sweep_angle@),
                turn == effective_sweep(self.sweep_angle@),
                size == magnitude(turn as int),
                0 <= size <= crate::fixed::LIMIT,
                start == self.start_angle@,
                -crate::fixed::LIMIT <= start <= crate::fixed::LIMIT,
                points@.len() == i,
                forall|j: int|
                    0 <= j < i ==> #[trigger] points@[j] == point_at(
                        self.radius,
                        arc_sample_angle(self.start_angle@, self.sweep_angle@, j),
                    ),
            decreases steps - i,
        {
            proof {
                crate::fixed::lemma_mul_bounds(size as int, i as int, crate::fixed::LIMIT as int, 33);
                assert(size * i >= 0) by (nonlinear_arith)
                    requires
                        size >= 0,
                        i >= 0,
                ;
                let n = size * i;
                let d = (steps - 1) as int;
                assert(0 <= n / d <= n) by (nonlinear_arith)
                    requires
                        n >= 0,
                        d >= 1,
                ;
            }
            let delta: i128 = (size * (i as i128)) / ((steps - 1) as i128);
            let angle: Scalar = if turn >= 0 {
                Scalar::from_wide(start as i128 + delta)
            } else {
                Scalar::from_wide(start as i128 - delta)
            };
            let (x, y) = rotate_xy(self.radius, Scalar::zero(), angle);
            points.push(Position { x, y });
            i = i + 1;
        }
        if full {
            let first: Position = points[0];
            points.set(steps - 1, first);
        }
        proof {
            assert(points@ =~= arc_points(*self));
        }
        points
    }
}

impl WithBoundingBox for ArcGerberPrimitive {
    open spec fn bounds(&self) -> BoundingBox {
        arc_box(*self)
    }

    fn bounding_box(&self) -> (b: BoundingBox) {
        let half_width = self.width.half();
        let points = self.generate_points();
        let mut bbox = BoundingBox::default();
        let mut i: usize = 0;
        while i < points.len()
            invariant
                i <= points.len(),
                half_width == Scalar::of(trunc_div(self.width@, 2)),
                bbox == arc_box_prefix(self.center, half_width, points@, i as int),
            decreases points.len() - i,
        {
            let point: Position = points[i];
            let center_point = self.center.translate(point.to_vector());
            let stroke_bbox = square_around_exec(center_point, half_width);
            bbox.expand(&stroke_bbox);
            i = i + 1;
        }
        bbox
    }
}

impl WithBoundingBox for PolygonGerberPrimitive {
    open spec fn bounds(&self) -> BoundingBox {
        polygon_box(self@)
    }

    fn bounding_box(&self) -> (b: BoundingBox) {
        let center: Vector = self.center.to_vector();
        let mut points: Vec<Position> = Vec::new();
        let mut i: usize = 0;
        while i < self.geometry.relative_vertices.len()
            invariant
                i <= self.geometry.relative_vertices.len(),
                center == (Vector { x: self.center.x, y: self.center.y }),
                points@ == shifted(self.geometry.relative_vertices@.take(i as int), center),
            decreases self.geometry.relative_vertices.len() - i,
        {
            points.push(self.geometry.relative_vertices[i].translate(center));
            proof {
                assert(points@ =~= shifted(self.geometry.relative_vertices@.take(i + 1), center));
            }
            i = i + 1;
        }
        proof {
            let all = self.geometry.relative_vertices@;
            assert(all.take(all.len() as int) == all);
        }
        BoundingBox::from_points(points.as_slice())
    }
}

impl WithBoundingBox for GerberPrimitive {
    open spec fn bounds(&self) -> BoundingBox {
        primitive_box(self@)
    }

    fn bounding_box(&self) -> (b: BoundingBox) {
        match self {
            GerberPrimitive::Circle(primitive) => primitive.bounding_box(),
            GerberPrimitive::Arc(primitive) => primitive.bounding_box(),
            GerberPrimitive::Rectangle(primitive) => primitive.bounding_box(),
            GerberPrimitive::Line(primitive) => primitive.bounding_box(),
            GerberPrimitive::Polygon(primitive) => primitive.bounding_box(),
        }
    }
}

impl GerberPolygon {
    /// Whether the outline is convex: its corners do not turn both ways.
    pub fn is_convex(&self) -> (convex: bool)
        ensures
            convex == is_convex_spec(self.vertices@),
    {
        is_convex(self.vertices.as_slice())
    }
}

fn reversed(vertices: &Vec<Position>) -> (r: Vec<Position>)
    ensures
        r@ == vertices@.reverse(),
{
    let n: usize = vertices.len();
    let mut r: Vec<Position> = Vec::new();
    let mut i: usize = 0;
    while i < n
        invariant
            i <= n,
            n == vertices.len(),
            r@.len() == i,
            forall|j: int| 0 <= j < i ==> #[trigger] r@[j] == vertices@[n - 1 - j],
        decreases n - i,
    {
        r.push(vertices[n - 1 - i]);
        i = i + 1;
    }
    proof {
        assert(r@ =~= vertices@.reverse());
    }
    r
}

impl GerberPrimitive {
    /// The polygon primitive of an outline: the convexity of the outline is
    /// recorded, and its vertices are stored counter-clockwise and without
    /// repeated vertices.
    pub fn new_polygon(polygon: GerberPolygon) -> (p: GerberPrimitive)
        ensures
            p@ == PrimitiveModel::Polygon(
                polygon_model(polygon.center, polygon.vertices@, polygon.exposure),
            ),
            p@ matches PrimitiveModel::Polygon(m) && winding_of(m.vertices)
                == Winding::CounterClockwise,
    {
        proof {
            lemma_stored_winding(polygon.vertices@);
        }
        let is_convex = polygon.is_convex();
        let winding = Winding::from_vertices(polygon.vertices.as_slice());
        let relative_vertices = match winding {
            Winding::Clockwise => reversed(&polygon.vertices),
            Winding::CounterClockwise => polygon.vertices,
        };
        let relative_vertices = relative_vertices.dedup_with_epsilon(Scalar::new(VERTEX_EPSILON));
        GerberPrimitive::Polygon(
            PolygonGerberPrimitive {
                center: polygon.center,
                exposure: polygon.exposure,
                geometry: Arc::new(PolygonGeometry { relative_vertices, is_convex }),
            },
        )
    }
}

} // verus!
