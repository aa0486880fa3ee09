//! The force-directed layout engine. One physical body per node moves under
//! four forces — a constant vertical bias, pairwise repulsion, pairwise
//! collision keeping centers a radius-sum apart, and spring attraction along
//! every edge — for a fixed number of damped steps. The designated entry
//! node is pinned at the origin throughout and never moves.
//!
//! The simulation works in thousandths of a canvas unit and reads final
//! positions back out in whole units. Initial placement is deterministic (a
//! fixed hash of the node index), so a layout is a pure function of the
//! graph and the entry node.

use vstd::prelude::*;

use crate::geometry::clamp;
use crate::geometry::div_trunc;
use crate::geometry::isqrt;
use crate::geometry::mul_div;
use crate::geometry::point_within;
use crate::geometry::Point;
use crate::geometry::Size;
use crate::graph::Graph;
use crate::graph::GraphNode;

verus! {

/// Largest collision radius a body may report, in canvas units.
pub const RADIUS_LIMIT: i64 = 500_000;

/// Thousandths of a canvas unit per unit: the simulation's fixed-point scale.
pub const SIM_SCALE: i64 = 1000;

/// Simulation-space position bound (scaled units).
pub const SIM_POS_LIMIT: i64 = 1_000_000_000;

/// Simulation-space velocity bound (scaled units per step).
pub const SIM_VEL_LIMIT: i64 = 100_000_000;

/// Canvas-space bound on every position the layout hands back.
pub const LAYOUT_LIMIT: i64 = 1_000_000;

/// Number of discrete time steps the simulation runs for.
pub const SIM_STEPS: usize = 300;

/// Rest length of the spring on every edge, in scaled units (60 units).
pub const LINK_DISTANCE: i64 = 60_000;

/// Constant downward-bias pull per step, in scaled units.
pub const GRAVITY_PULL: i64 = 20;

/// Charge coefficient of the pairwise repulsion.
pub const CHARGE_STRENGTH: i64 = 60_000_000;

/// Anything that exposes a positive, bounded collision radius.
pub trait Radius {
    fn radius(&self) -> (r: i64)
        ensures
            1 <= r <= RADIUS_LIMIT,
    ;
}

impl Radius for GraphNode {
    /// Half of the larger bounding-box dimension, rounded up so the radius
    /// stays positive.
    fn radius(&self) -> (r: i64)
        ensures
            1 <= r <= RADIUS_LIMIT,
            crate::geometry::size_ok(self.size) ==> r == radius_spec(self.size),
    {
        let larger = if self.size.width >= self.size.height {
            self.size.width
        } else {
            self.size.height
        };
        if larger < 1 {
            1
        } else if larger > 999_999 {
            500_000
        } else {
            div_trunc(larger + 1, 2)
        }
    }
}

/// Half of the larger dimension, rounded up.
pub open spec fn radius_spec(s: Size) -> int {
    let larger = if s.width >= s.height {
        s.width
    } else {
        s.height
    };
    (larger + 1) / 2
}

/// Whether a body rides the forces or sits pinned at a fixed position.
#[derive(Clone, Copy, Debug, PartialEq, Eq, Structural)]
pub enum Anchor {
    Free,
    Fixed(Point),
}

/// One node's physical representation: position and velocity in scaled
/// units, plus its anchor.
#[derive(Clone, Copy, Debug)]
pub struct Body {
    pub x: i64,
    pub y: i64,
    pub vx: i64,
    pub vy: i64,
    pub anchor: Anchor,
}

pub open spec fn body_ok(b: Body) -> bool {
    &&& -SIM_POS_LIMIT <= b.x <= SIM_POS_LIMIT
    &&& -SIM_POS_LIMIT <= b.y <= SIM_POS_LIMIT
    &&& -SIM_VEL_LIMIT <= b.vx <= SIM_VEL_LIMIT
    &&& -SIM_VEL_LIMIT <= b.vy <= SIM_VEL_LIMIT
    &&& (b.anchor matches Anchor::Fixed(p) ==> b.x == p.x && b.y == p.y && b.vx == 0 && b.vy
        == 0)
}

pub open spec fn bodies_ok(bs: Seq<Body>) -> bool {
    forall|i: int| 0 <= i < bs.len() ==> body_ok(#[trigger] bs[i])
}

/// A simulation phase may move free bodies anywhere within bounds but keeps
/// every anchor, and leaves pinned bodies entirely alone.
pub open spec fn phase_ok(before: Seq<Body>, after: Seq<Body>) -> bool {
    &&& after.len() == before.len()
    &&& bodies_ok(after)
    &&& (forall|i: int|
        0 <= i < before.len() ==> (#[trigger] after[i]).anchor == before[i].anchor)
    &&& (forall|i: int|
        0 <= i < before.len() ==> ((#[trigger] before[i]).anchor matches Anchor::Fixed(_)
            ==> after[i] == before[i]))
}

proof fn lemma_phase_trans(a: Seq<Body>, b: Seq<Body>, c: Seq<Body>)
    requires
        phase_ok(a, b),
        phase_ok(b, c),
    ensures
        phase_ok(a, c),
{
    assert forall|i: int| 0 <= i < a.len() implies ((#[trigger] a[i]).anchor matches Anchor::Fixed(
        _,
    ) ==> c[i] == a[i]) by {
        if a[i].anchor matches Anchor::Fixed(_) {
            assert(b[i] == a[i]);
            assert(b[i].anchor matches Anchor::Fixed(_));
        }
    }
}

/// Add to a free body's velocity, clamped; a pinned body is untouched.
fn push_vel_at(bodies: &mut Vec<Body>, idx: usize, dvx: i64, dvy: i64)
    requires
        bodies_ok(old(bodies)@),
        idx < old(bodies)@.len(),
        -SIM_VEL_LIMIT <= dvx <= SIM_VEL_LIMIT,
        -SIM_VEL_LIMIT <= dvy <= SIM_VEL_LIMIT,
    ensures
        phase_ok(old(bodies)@, final (bodies)@),
{
    let b = bodies[idx];
    match b.anchor {
        Anchor::Fixed(_) => {
        },
        Anchor::Free => {
            let nvx = clamp(b.vx + dvx, SIM_VEL_LIMIT);
            let nvy = clamp(b.vy + dvy, SIM_VEL_LIMIT);
            bodies[idx] = Body { vx: nvx, vy: nvy, ..b };
        },
    }
}

/// Shift a free body's position, clamped; a pinned body is untouched.
fn push_pos_at(bodies: &mut Vec<Body>, idx: usize, dx: i64, dy: i64)
    requires
        bodies_ok(old(bodies)@),
        idx < old(bodies)@.len(),
        -SIM_POS_LIMIT <= dx <= SIM_POS_LIMIT,
        -SIM_POS_LIMIT <= dy <= SIM_POS_LIMIT,
    ensures
        phase_ok(old(bodies)@, final (bodies)@),
{
    let b = bodies[idx];
    match b.anchor {
        Anchor::Fixed(_) => {
        },
        Anchor::Free => {
            let nx = clamp(b.x + dx, SIM_POS_LIMIT);
            let ny = clamp(b.y + dy, SIM_POS_LIMIT);
            bodies[idx] = Body { x: nx, y: ny, ..b };
        },
    }
}

/// Distance between two simulation positions, at least 1 to keep divisions
/// defined.
fn distance_between(ax: i64, ay: i64, bx: i64, by: i64) -> (d: i64)
    requires
        -SIM_POS_LIMIT <= ax <= SIM_POS_LIMIT,
        -SIM_POS_LIMIT <= ay <= SIM_POS_LIMIT,
        -SIM_POS_LIMIT <= bx <= SIM_POS_LIMIT,
        -SIM_POS_LIMIT <= by <= SIM_POS_LIMIT,
    ensures
        1 <= d <= 3_000_000_000,
{
    let dx = bx - ax;
    let dy = by - ay;
    let dxa: u64 = if dx >= 0 {
        dx as u64
    } else {
        (-dx) as u64
    };
    let dya: u64 = if dy >= 0 {
        dy as u64
    } else {
        (-dy) as u64
    };
    proof {
        assert(dxa * dxa <= 4_000_000_000_000_000_000 && dya * dya <= 4_000_000_000_000_000_000)
            by (nonlinear_arith)
            requires
                0 <= dxa <= 2_000_000_000u64,
                0 <= dya <= 2_000_000_000u64,
        ;
    }
    let d2 = dxa * dxa + dya * dya;
    let d = isqrt(d2);
    if d == 0 {
        1
    } else {
        d as i64
    }
}

/// Spring attraction along every edge, toward the rest distance.
fn apply_links(bodies: &mut Vec<Body>, graph: &Graph)
    requires
        graph.wf(),
        bodies_ok(old(bodies)@),
        old(bodies)@.len() == graph.nodes@.len(),
    ensures
        phase_ok(old(bodies)@, final (bodies)@),
{
    let ghost orig = bodies@;
    let mut e: usize = 0;
    while e < graph.edges.len()
        invariant
            graph.wf(),
            phase_ok(orig, bodies@),
            bodies@.len() == graph.nodes@.len(),
        decreases graph.edges@.len() - e,
    {
        let s = graph.edges[e].source;
        let t = graph.edges[e].target;
        let bs = bodies[s];
        let bt = bodies[t];
        let d = distance_between(bs.x, bs.y, bt.x, bt.y);
        let diff = d - LINK_DISTANCE;
        let dx = bt.x - bs.x;
        let dy = bt.y - bs.y;
        proof {
            lemma_mul_div_bounded(diff, dx, 3_000_000_000, 2_000_000_000);
            lemma_mul_div_bounded(diff, dy, 3_000_000_000, 2_000_000_000);
        }
        let adj_x = clamp(mul_div(diff, dx, 2 * d), SIM_VEL_LIMIT);
        let adj_y = clamp(mul_div(diff, dy, 2 * d), SIM_VEL_LIMIT);
        let ghost mid = bodies@;
        push_vel_at(bodies, s, adj_x, adj_y);
        proof {
            lemma_phase_trans(orig, mid, bodies@);
        }
        let ghost mid2 = bodies@;
        push_vel_at(bodies, t, -adj_x, -adj_y);
        proof {
            lemma_phase_trans(orig, mid2, bodies@);
        }
        e = e + 1;
    }
}

/// The product `a * b` of two bounded factors fits in `i64`.
proof fn lemma_mul_div_bounded(a: i64, b: i64, abound: int, bbound: int)
    requires
        crate::geometry::abs_spec(a as int) <= abound,
        crate::geometry::abs_spec(b as int) <= bbound,
        abound * bbound <= i64::MAX,
        abound >= 0,
        bbound >= 0,
    ensures
        crate::geometry::abs_spec(a as int) * crate::geometry::abs_spec(b as int) <= i64::MAX,
{
    let aa = crate::geometry::abs_spec(a as int);
    let ab = crate::geometry::abs_spec(b as int);
    assert(aa * ab <= abound * bbound) by (nonlinear_arith)
        requires
            0 <= aa <= abound,
            0 <= ab <= bbound,
    ;
}

/// Inverse-distance repulsion between every pair of bodies.
fn apply_charge(bodies: &mut Vec<Body>)
    requires
        bodies_ok(old(bodies)@),
    ensures
        phase_ok(old(bodies)@, final (bodies)@),
{
    let ghost orig = bodies@;
    let n = bodies.len();
    let mut i: usize = 0;
    while i < n
        invariant
            phase_ok(orig, bodies@),
            bodies@.len() == n,
        decreases n - i,
    {
        let mut j: usize = i + 1;
        while j < n
            invariant
                i < j || j == n || n == 0,
                i < n,
                phase_ok(orig, bodies@),
                bodies@.len() == n,
            decreases n - j,
        {
            let bi = bodies[i];
            let bj = bodies[j];
            let d = distance_between(bi.x, bi.y, bj.x, bj.y);
            proof {
                crate::geometry::lemma_div_shrinks(CHARGE_STRENGTH as int, d as int);
            }
            let mag = ((CHARGE_STRENGTH as u64) / (d as u64)) as i64;
            let dx = bj.x - bi.x;
            let dy = bj.y - bi.y;
            proof {
                lemma_mul_div_bounded(mag, dx, CHARGE_STRENGTH as int, 2_000_000_000);
                lemma_mul_div_bounded(mag, dy, CHARGE_STRENGTH as int, 2_000_000_000);
            }
            let adj_x = clamp(mul_div(mag, dx, d), SIM_VEL_LIMIT);
            let adj_y = clamp(mul_div(mag, dy, d), SIM_VEL_LIMIT);
            let ghost mid = bodies@;
            push_vel_at(bodies, i, -adj_x, -adj_y);
            proof {
                lemma_phase_trans(orig, mid, bodies@);
            }
            let ghost mid2 = bodies@;
            push_vel_at(bodies, j, adj_x, adj_y);
            proof {
                lemma_phase_trans(orig, mid2, bodies@);
            }
            j = j + 1;
        }
        i = i + 1;
    }
}

pub open spec fn radii_ok(radii: Seq<i64>) -> bool {
    forall|i: int| 0 <= i < radii.len() ==> 1 <= #[trigger] radii[i] <= RADIUS_LIMIT
}

/// Keep every two centers at least the sum of their radii apart: overlapping
/// pairs are pushed apart positionally, half the overlap each.
fn apply_collide(bodies: &mut Vec<Body>, radii: &Vec<i64>)
    requires
        bodies_ok(old(bodies)@),
        radii_ok(radii@),
        radii@.len() == old(bodies)@.len(),
    ensures
        phase_ok(old(bodies)@, final (bodies)@),
{
    let ghost orig = bodies@;
    let n = bodies.len();
    let mut i: usize = 0;
    while i < n
        invariant
            phase_ok(orig, bodies@),
            bodies@.len() == n,
            radii_ok(radii@),
            radii@.len() == n,
        decreases n - i,
    {
        let mut j: usize = i + 1;
        while j < n
            invariant
                i < j || j == n || n == 0,
                i < n,
                phase_ok(orig, bodies@),
                bodies@.len() == n,
                radii_ok(radii@),
                radii@.len() == n,
            decreases n - j,
        {
            let bi = bodies[i];
            let bj = bodies[j];
            let d = distance_between(bi.x, bi.y, bj.x, bj.y);
            let r_sum = (radii[i] + radii[j]) * SIM_SCALE;
            if d < r_sum {
                let overlap = r_sum - d;
                let shift = div_trunc(overlap, 2);
                let mut dx = bj.x - bi.x;
                let mut dy = bj.y - bi.y;
                if dx == 0 && dy == 0 {
                    dx = 1;
                }
                proof {
                    lemma_mul_div_bounded(shift, dx, SIM_POS_LIMIT as int, 2_000_000_000);
                    lemma_mul_div_bounded(shift, dy, SIM_POS_LIMIT as int, 2_000_000_000);
                }
                let sx = clamp(mul_div(shift, dx, d), SIM_POS_LIMIT);
                let sy = clamp(mul_div(shift, dy, d), SIM_POS_LIMIT);
                let ghost mid = bodies@;
                push_pos_at(bodies, i, -sx, -sy);
                proof {
                    lemma_phase_trans(orig, mid, bodies@);
                }
                let ghost mid2 = bodies@;
                push_pos_at(bodies, j, sx, sy);
                proof {
                    lemma_phase_trans(orig, mid2, bodies@);
                }
            }
            j = j + 1;
        }
        i = i + 1;
    }
}

/// Constant vertical bias: every free body is pulled toward decreasing y.
fn apply_gravity(bodies: &mut Vec<Body>)
    requires
        bodies_ok(old(bodies)@),
    ensures
        phase_ok(old(bodies)@, final (bodies)@),
{
    let ghost orig = bodies@;
    let n = bodies.len();
    let mut i: usize = 0;
    while i < n
        invariant
            phase_ok(orig, bodies@),
            bodies@.len() == n,
        decreases n - i,
    {
        let ghost mid = bodies@;
        push_vel_at(bodies, i, 0, -GRAVITY_PULL);
        proof {
            lemma_phase_trans(orig, mid, bodies@);
        }
        i = i + 1;
    }
}

/// Damp every velocity and step every free position forward by it.
fn integrate(bodies: &mut Vec<Body>)
    requires
        bodies_ok(old(bodies)@),
    ensures
        phase_ok(old(bodies)@, final (bodies)@),
{
    let ghost orig = bodies@;
    let n = bodies.len();
    let mut i: usize = 0;
    while i < n
        invariant
            phase_ok(orig, bodies@),
            bodies@.len() == n,
        decreases n - i,
    {
        let b = bodies[i];
        match b.anchor {
            Anchor::Fixed(_) => {
            },
            Anchor::Free => {
                proof {
                    lemma_mul_div_bounded(b.vx, 9, SIM_VEL_LIMIT as int, 9);
                    lemma_mul_div_bounded(b.vy, 9, SIM_VEL_LIMIT as int, 9);
                }
                let nvx = mul_div(b.vx, 9, 10);
                let nvy = mul_div(b.vy, 9, 10);
                let nx = clamp(b.x + nvx, SIM_POS_LIMIT);
                let ny = clamp(b.y + nvy, SIM_POS_LIMIT);
                bodies[i] = Body { x: nx, y: ny, vx: nvx, vy: nvy, anchor: Anchor::Free };
            },
        }
        i = i + 1;
    }
}

/// Pseudo-random but deterministic initial coordinate for node `i`, within
/// 100 units of the origin.
fn initial_coord(h: u64) -> (c: i64)
    ensures
        -100_000 <= c <= 100_000,
{
    ((h % 200_001) as i64) - 100_000
}

/// One body per node: the entry pinned at the origin, the rest spread
/// deterministically around it.
fn init_bodies(count: usize, entry: usize) -> (bodies: Vec<Body>)
    requires
        entry < count,
    ensures
        bodies@.len() == count,
        bodies_ok(bodies@),
        bodies@[entry as int].anchor == Anchor::Fixed(Point { x: 0, y: 0 }),
        bodies@[entry as int].x == 0,
        bodies@[entry as int].y == 0,
{
    let mut bodies: Vec<Body> = Vec::new();
    let mut i: usize = 0;
    while i < count
        invariant
            bodies@.len() == i,
            i <= count,
            entry < count,
            bodies_ok(bodies@),
            i > entry ==> bodies@[entry as int].anchor == Anchor::Fixed(Point { x: 0, y: 0 })
                && bodies@[entry as int].x == 0 && bodies@[entry as int].y == 0,
        decreases count - i,
    {
        if i == entry {
            bodies.push(
                Body { x: 0, y: 0, vx: 0, vy: 0, anchor: Anchor::Fixed(Point { x: 0, y: 0 }) },
            );
        } else {
            let h = (i as u64).wrapping_add(1).wrapping_mul(6_364_136_223_846_793_005).wrapping_add(
                1_442_695_040_888_963_407,
            );
            let x = initial_coord(h);
            let y = initial_coord(h >> 17);
            bodies.push(Body { x, y, vx: 0, vy: 0, anchor: Anchor::Free });
        }
        i = i + 1;
    }
    bodies
}

/// A computed layout: the graph it was computed for, its entry node, and
/// one resolved position per node.
#[derive(Clone, Debug)]
pub struct GraphLayout {
    pub graph: Graph,
    pub entry: usize,
    pub node_positions: Vec<Point>,
}

impl GraphLayout {
    /// The layout is total over the graph's nodes, keeps every position
    /// bounded, and pins the entry node at the origin.
    pub open spec fn wf(self) -> bool {
        &&& self.graph.wf()
        &&& self.entry < self.graph.nodes@.len()
        &&& self.node_positions@.len() == self.graph.nodes@.len()
        &&& self.node_positions@[self.entry as int] == (Point { x: 0, y: 0 })
        &&& (forall|i: int|
            0 <= i < self.node_positions@.len() ==> point_within(
                #[trigger] self.node_positions@[i],
                LAYOUT_LIMIT as int,
            ))
    }

    /// Run the simulation to completion and read out every node's position.
    /// The entry node ends at exactly the origin, whatever the graph.
    pub fn new(graph: Graph, entry: usize) -> (layout: GraphLayout)
        requires
            graph.wf(),
            graph.nodes@.len() >= 1,
            entry < graph.nodes@.len(),
        ensures
            layout.wf(),
            layout.graph == graph,
            layout.entry == entry,
            layout.node_positions@.len() == graph.nodes@.len(),
            layout.node_positions@[entry as int] == (Point { x: 0, y: 0 }),
    {
        let n = graph.node_count();
        let mut radii: Vec<i64> = Vec::new();
        let mut k: usize = 0;
        while k < n
            invariant
                graph.wf(),
                n == graph.nodes@.len(),
                radii@.len() == k,
                k <= n,
                radii_ok(radii@),
            decreases n - k,
        {
            radii.push(graph.nodes[k].radius());
            k = k + 1;
        }

        let mut bodies = init_bodies(n, entry);
        let ghost init = bodies@;
        let mut step: usize = 0;
        while step < SIM_STEPS
            invariant
                graph.wf(),
                n == graph.nodes@.len(),
                entry < n,
                radii@.len() == n,
                radii_ok(radii@),
                phase_ok(init, bodies@),
                init.len() == n,
                init[entry as int].anchor == Anchor::Fixed(Point { x: 0, y: 0 }),
                init[entry as int].x == 0,
                init[entry as int].y == 0,
            decreases SIM_STEPS - step,
        {
            let ghost before = bodies@;
            apply_gravity(&mut bodies);
            proof {
                lemma_phase_trans(init, before, bodies@);
            }
            let ghost b1 = bodies@;
            apply_charge(&mut bodies);
            proof {
                lemma_phase_trans(init, b1, bodies@);
            }
            let ghost b2 = bodies@;
            apply_links(&mut bodies, &graph);
            proof {
                lemma_phase_trans(init, b2, bodies@);
            }
            let ghost b3 = bodies@;
            apply_collide(&mut bodies, &radii);
            proof {
                lemma_phase_trans(init, b3, bodies@);
            }
            let ghost b4 = bodies@;
            integrate(&mut bodies);
            proof {
                lemma_phase_trans(init, b4, bodies@);
            }
            step = step + 1;
        }

        proof {
            assert(bodies@[entry as int] == init[entry as int]);
        }
        let mut node_positions: Vec<Point> = Vec::new();
        let mut i: usize = 0;
        while i < n
            invariant
                bodies@.len() == n,
                bodies_ok(bodies@),
                node_positions@.len() == i,
                i <= n,
                entry < n,
                bodies@[entry as int].x == 0,
                bodies@[entry as int].y == 0,
                i > entry ==> node_positions@[entry as int] == (Point { x: 0, y: 0 }),
                forall|m: int|
                    0 <= m < i ==> point_within(
                        #[trigger] node_positions@[m],
                        LAYOUT_LIMIT as int,
                    ),
            decreases n - i,
        {
            let b = bodies[i];
            let px = clamp(div_trunc(b.x, SIM_SCALE), LAYOUT_LIMIT);
            let py = clamp(div_trunc(b.y, SIM_SCALE), LAYOUT_LIMIT);
            node_positions.push(Point { x: px, y: py });
            i = i + 1;
        }

        GraphLayout { graph, entry, node_positions }
    }

    /// The resolved position of one node.
    pub fn position(&self, i: usize) -> (p: Point)
        requires
            i < self.node_positions@.len(),
        ensures
            p == self.node_positions@[i as int],
    {
        self.node_positions[i]
    }
}

} // verus!
