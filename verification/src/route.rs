//! Edge routing: a relationship kind plus two node anchor points become an
//! orthogonal centerline, and the centerline becomes a closed, filled arrow
//! polygon with the stroke width baked in.

use vstd::prelude::*;

use crate::geometry::bounds_ok;
use crate::geometry::coord_within;
use crate::geometry::div_trunc;
use crate::geometry::point_ok;
use crate::geometry::point_within;
use crate::geometry::Bounds;
use crate::geometry::Point;
use crate::geometry::COORD_LIMIT;

verus! {

/// Widest stroke a route may be drawn with.
pub const STROKE_LIMIT: i64 = 10_000;

/// Denominator of the `mid` routing fraction: `mid` is given in thousandths.
pub const MID_SCALE: u32 = 1000;

/// How an edge relates its source to its target; each kind has a fixed
/// display color.
#[derive(Clone, Copy, Debug, PartialEq, Eq, Structural)]
pub enum EdgeKind {
    Take,
    NoTake,
    Fallthrough,
    Switch,
}

/// A display color in HSLA form; every channel is in thousandths, the hue as
/// a fraction of a full turn.
#[derive(Clone, Copy, Debug, PartialEq, Eq, Structural)]
pub struct Color {
    pub hue: u32,
    pub saturation: u32,
    pub lightness: u32,
    pub alpha: u32,
}

/// The fixed palette: one color per edge kind.
pub open spec fn color_spec(kind: EdgeKind) -> Color {
    match kind {
        EdgeKind::Take => Color { hue: 333, saturation: 1000, lightness: 250, alpha: 1000 },
        EdgeKind::NoTake => Color { hue: 0, saturation: 1000, lightness: 250, alpha: 1000 },
        EdgeKind::Fallthrough => Color { hue: 0, saturation: 0, lightness: 200, alpha: 1000 },
        EdgeKind::Switch => Color { hue: 667, saturation: 1000, lightness: 250, alpha: 1000 },
    }
}

/// Color mapping is a pure function of the kind and is not configurable.
pub fn edge_color(kind: EdgeKind) -> (c: Color)
    ensures
        c == color_spec(kind),
{
    match kind {
        EdgeKind::Take => Color { hue: 333, saturation: 1000, lightness: 250, alpha: 1000 },
        EdgeKind::NoTake => Color { hue: 0, saturation: 1000, lightness: 250, alpha: 1000 },
        EdgeKind::Fallthrough => Color { hue: 0, saturation: 0, lightness: 200, alpha: 1000 },
        EdgeKind::Switch => Color { hue: 667, saturation: 1000, lightness: 250, alpha: 1000 },
    }
}

/// The warm off-white used as the canvas background.
pub fn cream() -> (c: Color)
    ensures
        c == (Color { hue: 97, saturation: 950, lightness: 950, alpha: 1000 }),
{
    Color { hue: 97, saturation: 950, lightness: 950, alpha: 1000 }
}

/// Everything the router needs for one edge: resolved endpoints, the kind,
/// the jog fraction, and the optional box a back route must clear.
#[derive(Clone, Copy, Debug)]
pub struct Edge {
    pub kind: EdgeKind,
    pub start: Point,
    pub mid: u32,
    pub around: Option<Bounds>,
    pub end: Point,
}

pub open spec fn edge_ok(e: Edge) -> bool {
    &&& point_ok(e.start)
    &&& point_ok(e.end)
    &&& e.mid <= MID_SCALE
    &&& (e.around matches Some(b) ==> bounds_ok(b))
}

/// An edge leaves its source at the bottom-center of the source box and
/// enters its target at the top-center of the target box.
pub fn create_edge(
    src: Bounds,
    sink: Bounds,
    kind: EdgeKind,
    mid: u32,
    around: Option<Bounds>,
) -> (e: Edge)
    requires
        bounds_ok(src),
        bounds_ok(sink),
        mid <= MID_SCALE,
        (around matches Some(b) ==> bounds_ok(b)),
    ensures
        e.kind == kind,
        e.mid == mid,
        e.around == around,
        e.start.x == src.origin.x + src.size.width / 2,
        e.start.y == src.origin.y + src.size.height,
        e.end.x == sink.origin.x + sink.size.width / 2,
        e.end.y == sink.origin.y,
        edge_ok(e),
{
    Edge { kind, start: src.bottom_center(), mid, around, end: sink.top_center() }
}

/// Linear interpolation from `v0` to `v1` by `t` thousandths, truncating
/// toward `v0`.
pub open spec fn lerp_spec(v0: int, v1: int, t: int) -> int {
    if v1 >= v0 {
        v0 + ((v1 - v0) * t) / (MID_SCALE as int)
    } else {
        v0 - ((v0 - v1) * t) / (MID_SCALE as int)
    }
}

/// The interpolant stays between its two endpoints.
pub proof fn lemma_lerp_within(v0: int, v1: int, t: int)
    requires
        0 <= t <= MID_SCALE,
    ensures
        v1 >= v0 ==> v0 <= lerp_spec(v0, v1, t) <= v1,
        v1 < v0 ==> v1 <= lerp_spec(v0, v1, t) <= v0,
{
    let d = if v1 >= v0 {
        v1 - v0
    } else {
        v0 - v1
    };
    assert(0 <= (d * t) / (MID_SCALE as int) <= d) by (nonlinear_arith)
        requires
            d >= 0,
            0 <= t <= MID_SCALE,
    ;
}

pub fn lerp(v0: i64, v1: i64, t: u32) -> (r: i64)
    requires
        coord_within(v0 as int, COORD_LIMIT as int),
        coord_within(v1 as int, COORD_LIMIT as int),
        t <= MID_SCALE,
    ensures
        r == lerp_spec(v0 as int, v1 as int, t as int),
        coord_within(r as int, COORD_LIMIT as int),
{
    proof {
        lemma_lerp_within(v0 as int, v1 as int, t as int);
    }
    if v1 >= v0 {
        let d = (v1 - v0) as u64;
        let scaled = ((d * (t as u64)) / (MID_SCALE as u64)) as i64;
        proof {
            assert(d * (t as u64) <= 2_000_000_000 * 1000) by (nonlinear_arith)
                requires
                    0 <= d <= 2_000_000_000u64,
                    0 <= t <= 1000u32,
            ;
        }
        v0 + scaled
    } else {
        let d = (v0 - v1) as u64;
        let scaled = ((d * (t as u64)) / (MID_SCALE as u64)) as i64;
        proof {
            assert(d * (t as u64) <= 2_000_000_000 * 1000) by (nonlinear_arith)
                requires
                    0 <= d <= 2_000_000_000u64,
                    0 <= t <= 1000u32,
            ;
        }
        v0 - scaled
    }
}

/// A point built in a specification from exact integer coordinates.
pub open spec fn pt(x: int, y: int) -> Point {
    Point { x: x as i64, y: y as i64 }
}

/// `p` translated by `(dx, dy)`.
pub open spec fn offset_pt(p: Point, dx: int, dy: int) -> Point {
    pt(p.x + dx, p.y + dy)
}

pub open spec fn neg_pt(p: Point) -> Point {
    pt(-p.x, -p.y)
}

/// Half the stroke width: each trace of the centerline is offset by this.
pub open spec fn half_width(stroke: int) -> int {
    stroke / 2
}

/// Side of the arrowhead triangle notched into the polygon's end.
pub open spec fn triangle_size(stroke: int) -> int {
    (3 * stroke) / 2
}

/// The corner-offset truth table. For the corner at `b`, reached from `a`
/// and left toward `c`, the vertical direction of travel (`a.y < c.y`:
/// downward) and the horizontal one (`a.x < c.x`: toward the right) pick one
/// of four signed half-stroke offsets; the same table serves vertical and
/// horizontal approaches.
pub open spec fn corner_offset(a: Point, b: Point, c: Point, half: int) -> (int, int) {
    if a.y < c.y {
        if a.x < c.x {
            (half, -half)
        } else {
            (half, half)
        }
    } else {
        if a.x < c.x {
            (-half, -half)
        } else {
            (-half, half)
        }
    }
}

fn corner_offset_exec(a: Point, b: Point, c: Point, half: i64) -> (r: (i64, i64))
    requires
        0 <= half <= STROKE_LIMIT,
    ensures
        (r.0 as int, r.1 as int) == corner_offset(a, b, c, half as int),
        -STROKE_LIMIT <= r.0 <= STROKE_LIMIT,
        -STROKE_LIMIT <= r.1 <= STROKE_LIMIT,
{
    if a.y < c.y {
        if a.x < c.x {
            (half, -half)
        } else {
            (half, half)
        }
    } else {
        if a.x < c.x {
            (-half, -half)
        } else {
            (-half, half)
        }
    }
}

/// Vertex pushed by the forward trace for the corner at `pts[i + 1]`.
pub open spec fn fwd_vertex(pts: Seq<Point>, half: int, i: int) -> Point {
    let o = corner_offset(pts[i], pts[i + 1], pts[i + 2], half);
    offset_pt(pts[i + 1], o.0, o.1)
}

/// Vertex pushed by the reverse trace for the corner at `pts[i + 1]`: the
/// offset is computed on the negated corner, walked in the other direction,
/// and applied with its sign flipped.
pub open spec fn bwd_vertex(pts: Seq<Point>, half: int, i: int) -> Point {
    let o = corner_offset(neg_pt(pts[i + 2]), neg_pt(pts[i + 1]), neg_pt(pts[i]), half);
    offset_pt(pts[i + 1], -o.0, -o.1)
}

/// The first two polygon vertices: the centerline start and its right-hand
/// offset.
pub open spec fn polygon_head(pts: Seq<Point>, half: int) -> Seq<Point> {
    seq![pts[0], offset_pt(pts[0], half, 0)]
}

/// The arrowhead: a triangular protrusion notched into the polygon at the
/// centerline's last point.
pub open spec fn polygon_arrowhead(pts: Seq<Point>, half: int, tri: int) -> Seq<Point> {
    let last = pts[pts.len() - 1];
    seq![
        offset_pt(last, half, -tri),
        offset_pt(last, half + tri, -tri),
        last,
        offset_pt(last, -half - tri, -tri),
        offset_pt(last, -half, -tri),
    ]
}

/// The last two polygon vertices: the left-hand offset of the centerline
/// start, then the start itself, closing the polygon.
pub open spec fn polygon_tail(pts: Seq<Point>, half: int) -> Seq<Point> {
    seq![offset_pt(pts[0], -half, 0), pts[0]]
}

/// The closed filled polygon wrapped around a right-angled centerline:
/// forward trace, arrowhead, reverse trace, closed back at the start.
pub open spec fn arrow_polygon_spec(pts: Seq<Point>, stroke: int) -> Seq<Point> {
    let half = half_width(stroke);
    let tri = triangle_size(stroke);
    let corners = (pts.len() - 2) as nat;
    polygon_head(pts, half) + Seq::new(corners, |i: int| fwd_vertex(pts, half, i))
        + polygon_arrowhead(pts, half, tri) + Seq::new(
        corners,
        |i: int| bwd_vertex(pts, half, pts.len() - 3 - i),
    ) + polygon_tail(pts, half)
}

/// The emitted polygon is always closed: it begins and ends at the
/// centerline's first point.
pub proof fn lemma_polygon_closed(pts: Seq<Point>, stroke: int)
    requires
        pts.len() >= 2,
    ensures
        arrow_polygon_spec(pts, stroke).len() == 2 * pts.len() + 5,
        arrow_polygon_spec(pts, stroke)[0] == pts[0],
        arrow_polygon_spec(pts, stroke).last() == pts[0],
{
    let poly = arrow_polygon_spec(pts, stroke);
    assert(poly.len() == 2 * pts.len() + 5);
    assert(poly[0] == pts[0]);
    assert(poly[poly.len() - 1] == pts[0]);
}

/// Bound on every coordinate of a centerline produced by `centerline`;
/// leaves room for the half-stroke and arrowhead offsets on top of it.
pub const CENTER_LIMIT: i64 = 1_000_200_000;

pub open spec fn points_within(pts: Seq<Point>, limit: int) -> bool {
    forall|i: int| 0 <= i < pts.len() ==> point_within(#[trigger] pts[i], limit)
}

/// Wrap a right-angled centerline of at least two points into the closed
/// arrow polygon.
pub fn arrow_polygon(pts: &Vec<Point>, stroke: i64) -> (poly: Vec<Point>)
    requires
        pts@.len() >= 2,
        1 <= stroke <= STROKE_LIMIT,
        points_within(pts@, CENTER_LIMIT as int),
    ensures
        poly@ == arrow_polygon_spec(pts@, stroke as int),
        poly@.len() == 2 * pts@.len() + 5,
        poly@[0] == pts@[0],
        poly@.last() == pts@[0],
{
    let ghost gpts = pts@;
    let half = div_trunc(stroke, 2);
    let tri = div_trunc(3 * stroke, 2);
    proof {
        assert(half == half_width(stroke as int));
        assert(tri == triangle_size(stroke as int));
        assert(0 <= half <= stroke);
        assert(0 <= tri <= 3 * stroke);
    }
    let n = pts.len();
    let mut poly: Vec<Point> = Vec::new();

    let p0 = pts[0];
    poly.push(p0);
    poly.push(Point { x: p0.x + half, y: p0.y });
    proof {
        assert(poly@ =~= polygon_head(gpts, half as int));
    }

    let mut i: usize = 0;
    while i < n - 2
        invariant
            2 <= n == gpts.len(),
            0 <= i <= n - 2,
            1 <= stroke <= STROKE_LIMIT,
            0 <= half <= stroke,
            half == half_width(stroke as int),
            points_within(gpts, CENTER_LIMIT as int),
            pts@ == gpts,
            poly@ == polygon_head(gpts, half as int) + Seq::new(
                i as nat,
                |k: int| fwd_vertex(gpts, half as int, k),
            ),
        decreases n - 2 - i,
    {
        let o = corner_offset_exec(pts[i], pts[i + 1], pts[i + 2], half);
        let b = pts[i + 1];
        poly.push(Point { x: b.x + o.0, y: b.y + o.1 });
        proof {
            assert(poly@.last() == fwd_vertex(gpts, half as int, i as int));
            assert(poly@ =~= polygon_head(gpts, half as int) + Seq::new(
                (i + 1) as nat,
                |k: int| fwd_vertex(gpts, half as int, k),
            ));
        }
        i = i + 1;
    }

    let ghost fwd_done = polygon_head(gpts, half as int) + Seq::new(
        (n - 2) as nat,
        |k: int| fwd_vertex(gpts, half as int, k),
    );
    let last = pts[n - 1];
    poly.push(Point { x: last.x + half, y: last.y - tri });
    poly.push(Point { x: last.x + half + tri, y: last.y - tri });
    poly.push(last);
    poly.push(Point { x: last.x - half - tri, y: last.y - tri });
    poly.push(Point { x: last.x - half, y: last.y - tri });
    proof {
        assert(poly@ =~= fwd_done + polygon_arrowhead(gpts, half as int, tri as int));
    }

    let ghost head_done = fwd_done + polygon_arrowhead(gpts, half as int, tri as int);
    let mut j: usize = 0;
    while j < n - 2
        invariant
            2 <= n == gpts.len(),
            0 <= j <= n - 2,
            1 <= stroke <= STROKE_LIMIT,
            0 <= half <= stroke,
            half == half_width(stroke as int),
            points_within(gpts, CENTER_LIMIT as int),
            pts@ == gpts,
            poly@ == head_done + Seq::new(
                j as nat,
                |k: int| bwd_vertex(gpts, half as int, gpts.len() - 3 - k),
            ),
        decreases n - 2 - j,
    {
        let idx = n - 3 - j;
        let a = pts[idx];
        let b = pts[idx + 1];
        let c = pts[idx + 2];
        let o = corner_offset_exec(
            Point { x: -c.x, y: -c.y },
            Point { x: -b.x, y: -b.y },
            Point { x: -a.x, y: -a.y },
            half,
        );
        poly.push(Point { x: b.x - o.0, y: b.y - o.1 });
        proof {
            assert(poly@.last() == bwd_vertex(gpts, half as int, idx as int));
            assert(poly@ =~= head_done + Seq::new(
                (j + 1) as nat,
                |k: int| bwd_vertex(gpts, half as int, gpts.len() - 3 - k),
            ));
        }
        j = j + 1;
    }

    poly.push(Point { x: p0.x - half, y: p0.y });
    poly.push(p0);
    proof {
        assert(poly@ =~= arrow_polygon_spec(gpts, stroke as int));
        lemma_polygon_closed(gpts, stroke as int);
    }
    poly
}

/// Offset by which a back route steps away from its endpoints and clears
/// the detour box.
pub open spec fn back_offset(stroke: int) -> int {
    stroke * 10
}

/// The x lane a back route travels along: past the detour box when one is
/// given, otherwise past the start point, on the side away from the target.
pub open spec fn back_outer_x(start: Point, end: Point, around: Option<Bounds>, off: int) -> int {
    if start.x < end.x {
        match around {
            Some(b) => b.origin.x - off,
            None => start.x - off,
        }
    } else {
        match around {
            Some(b) => b.origin.x + b.size.width + off,
            None => start.x + off,
        }
    }
}

/// The centerline of a route. A forward edge (start not below end) takes a
/// single horizontal jog at the `mid` fraction of the vertical span; a back
/// edge steps away from both endpoints and loops around the outer lane.
pub open spec fn centerline_spec(
    start: Point,
    end: Point,
    mid: int,
    around: Option<Bounds>,
    stroke: int,
) -> Seq<Point> {
    if start.y > end.y {
        let off = back_offset(stroke);
        let outer_x = back_outer_x(start, end, around, off);
        seq![
            start,
            pt(start.x as int, start.y + off),
            pt(outer_x, start.y + off),
            pt(outer_x, end.y - off),
            pt(end.x as int, end.y - off),
            end,
        ]
    } else {
        let jog = lerp_spec(start.y as int, end.y as int, mid);
        seq![start, pt(start.x as int, jog), pt(end.x as int, jog), end]
    }
}

pub open spec fn route_inputs_ok(
    start: Point,
    end: Point,
    mid: u32,
    around: Option<Bounds>,
    stroke: i64,
) -> bool {
    &&& point_ok(start)
    &&& point_ok(end)
    &&& mid <= MID_SCALE
    &&& 1 <= stroke <= STROKE_LIMIT
    &&& (around matches Some(b) ==> bounds_ok(b))
}

/// Forward edges route through exactly 4 centerline points (3 segments),
/// back edges through exactly 6.
pub proof fn lemma_centerline_classification(
    start: Point,
    end: Point,
    mid: int,
    around: Option<Bounds>,
    stroke: int,
)
    ensures
        start.y <= end.y ==> centerline_spec(start, end, mid, around, stroke).len() == 4,
        start.y > end.y ==> centerline_spec(start, end, mid, around, stroke).len() == 6,
{
}

/// Compute the centerline of a route.
pub fn centerline(
    start: Point,
    end: Point,
    mid: u32,
    around: Option<Bounds>,
    stroke: i64,
) -> (pts: Vec<Point>)
    requires
        route_inputs_ok(start, end, mid, around, stroke),
    ensures
        pts@ == centerline_spec(start, end, mid as int, around, stroke as int),
        start.y <= end.y ==> pts@.len() == 4,
        start.y > end.y ==> pts@.len() == 6,
        points_within(pts@, CENTER_LIMIT as int),
        pts@[0] == start,
        pts@.last() == end,
{
    let mut pts: Vec<Point> = Vec::new();
    if start.y > end.y {
        let off = stroke * 10;
        let outer_x = match around {
            Some(b) => {
                if start.x < end.x {
                    b.origin.x - off
                } else {
                    b.right_x() + off
                }
            },
            None => {
                if start.x < end.x {
                    start.x - off
                } else {
                    start.x + off
                }
            },
        };
        pts.push(start);
        pts.push(Point { x: start.x, y: start.y + off });
        pts.push(Point { x: outer_x, y: start.y + off });
        pts.push(Point { x: outer_x, y: end.y - off });
        pts.push(Point { x: end.x, y: end.y - off });
        pts.push(end);
        proof {
            assert(pts@ =~= centerline_spec(start, end, mid as int, around, stroke as int));
        }
    } else {
        let jog = lerp(start.y, end.y, mid);
        pts.push(start);
        pts.push(Point { x: start.x, y: jog });
        pts.push(Point { x: end.x, y: jog });
        pts.push(end);
        proof {
            assert(pts@ =~= centerline_spec(start, end, mid as int, around, stroke as int));
        }
    }
    pts
}

/// The polygon a route emits: the arrow wrap of its centerline.
pub open spec fn route_polygon_spec(
    start: Point,
    end: Point,
    mid: int,
    around: Option<Bounds>,
    stroke: int,
) -> Seq<Point> {
    arrow_polygon_spec(centerline_spec(start, end, mid, around, stroke), stroke)
}

/// Route one edge: turn its endpoints, kind, jog fraction and optional
/// detour box into the closed arrow polygon and the kind's display color.
pub fn route(
    start: Point,
    end: Point,
    kind: EdgeKind,
    mid: u32,
    around: Option<Bounds>,
    stroke: i64,
) -> (r: (Vec<Point>, Color))
    requires
        route_inputs_ok(start, end, mid, around, stroke),
    ensures
        r.0@ == route_polygon_spec(start, end, mid as int, around, stroke as int),
        r.1 == color_spec(kind),
        r.0@.len() >= 1,
        r.0@[0] == start,
        r.0@.last() == start,
        start.y <= end.y ==> r.0@.len() == 2 * 4 + 5,
        start.y > end.y ==> r.0@.len() == 2 * 6 + 5,
{
    let color = edge_color(kind);
    let pts = centerline(start, end, mid, around, stroke);
    let poly = arrow_polygon(&pts, stroke);
    (poly, color)
}

/// Route one prepared edge.
pub fn route_edge(edge: &Edge, stroke: i64) -> (r: (Vec<Point>, Color))
    requires
        edge_ok(*edge),
        1 <= stroke <= STROKE_LIMIT,
    ensures
        r.0@ == route_polygon_spec(edge.start, edge.end, edge.mid as int, edge.around, stroke as int),
        r.1 == color_spec(edge.kind),
        r.0@.len() >= 1,
        r.0@[0] == edge.start,
        r.0@.last() == edge.start,
{
    route(edge.start, edge.end, edge.kind, edge.mid, edge.around, stroke)
}

/// Routing is a pure function of its inputs: two results that both satisfy
/// `route`'s contract for the same arguments are identical.
pub proof fn lemma_route_deterministic(
    start: Point,
    end: Point,
    kind: EdgeKind,
    mid: int,
    around: Option<Bounds>,
    stroke: int,
    poly_a: Seq<Point>,
    color_a: Color,
    poly_b: Seq<Point>,
    color_b: Color,
)
    requires
        poly_a == route_polygon_spec(start, end, mid, around, stroke),
        color_a == color_spec(kind),
        poly_b == route_polygon_spec(start, end, mid, around, stroke),
        color_b == color_spec(kind),
    ensures
        poly_a == poly_b,
        color_a == color_b,
{
}

} // verus!
