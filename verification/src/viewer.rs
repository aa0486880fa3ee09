//! The viewer: laid-out data ready to paint, a queued relayout request, and
//! the pannable viewport. The viewport keeps a single 2-D offset, moved by
//! pointer drags (incremental, against the last recorded position) and by
//! scroll input; at most one logical drag is active at a time.

use vstd::prelude::*;

use crate::geometry::bounds_ok;
use crate::geometry::clamp;
use crate::geometry::clamp_spec;
use crate::geometry::point_ok;
use crate::geometry::point_within;
use crate::geometry::Bounds;
use crate::geometry::Point;
use crate::geometry::Size;
use crate::graph::Graph;
use crate::layout::GraphLayout;
use crate::layout::Radius;
use crate::layout::RADIUS_LIMIT;
use crate::route::create_edge;
use crate::route::edge_ok;
use crate::route::Edge;
use crate::route::EdgeKind;

verus! {

/// Magnitude the pan offset is clamped to; far beyond any canvas, so the
/// clamp only ever guards the arithmetic.
pub const OFFSET_LIMIT: i64 = 1_000_000_000_000_000;

/// Pixels of pan per line of discrete scroll, applied with a sign flip.
pub const LINE_SCROLL_FACTOR: i64 = 10;

/// A request sent to the viewer from outside.
pub enum Message {
    LayoutRequest { graph: Graph, entry: usize },
}

#[derive(Clone, Copy, Debug, PartialEq, Eq, Structural)]
pub enum MouseButton {
    Left,
    Middle,
    Right,
}

/// Scroll input in one of two physical units: a direct pixel delta, or a
/// line count to be converted.
#[derive(Clone, Copy, Debug)]
pub enum ScrollDelta {
    Pixels(Point),
    Lines(Point),
}

/// A laid-out node, ready to paint: its box on the canvas and its label.
#[derive(Clone, Debug)]
pub struct Node {
    pub bounds: Bounds,
    pub text: String,
}

impl Radius for Node {
    /// Half of the larger bounding-box dimension, rounded up so the radius
    /// stays positive.
    fn radius(&self) -> (r: i64)
        ensures
            1 <= r <= RADIUS_LIMIT,
            crate::geometry::size_ok(self.bounds.size) ==> r == crate::layout::radius_spec(
                self.bounds.size,
            ),
    {
        let larger = if self.bounds.size.width >= self.bounds.size.height {
            self.bounds.size.width
        } else {
            self.bounds.size.height
        };
        if larger < 1 {
            1
        } else if larger > 999_999 {
            500_000
        } else {
            crate::geometry::div_trunc(larger + 1, 2)
        }
    }
}

/// Everything one render pass needs: node boxes and resolved edges.
#[derive(Clone, Debug)]
pub struct LayoutData {
    pub nodes: Vec<Node>,
    pub edges: Vec<Edge>,
}

pub open spec fn layout_data_ok(d: LayoutData) -> bool {
    &&& (forall|i: int| 0 <= i < d.nodes@.len() ==> bounds_ok((#[trigger] d.nodes@[i]).bounds))
    &&& (forall|i: int| 0 <= i < d.edges@.len() ==> edge_ok(#[trigger] d.edges@[i]))
}

/// A box resolved from a layout: the graph node's size and label, centered
/// on the position the layout assigned (up to the rounding of odd extents).
pub open spec fn node_resolved(n: Node, gn: crate::graph::GraphNode, center: Point) -> bool {
    &&& n.bounds.size == gn.size
    &&& n.text == gn.label
    &&& n.bounds.origin.x == center.x - gn.size.width / 2
    &&& n.bounds.origin.y == center.y - gn.size.height / 2
}

/// The edge a relayout resolves for one graph edge: anchored bottom-center
/// of the source box to top-center of the target box, jogging halfway, with
/// the source box as the detour of a back edge.
pub open spec fn resolved_edge(nodes: Seq<Node>, ge: crate::graph::GraphEdge) -> Edge {
    let sb = nodes[ge.source as int].bounds;
    let tb = nodes[ge.target as int].bounds;
    let start = Point {
        x: (sb.origin.x + sb.size.width / 2) as i64,
        y: (sb.origin.y + sb.size.height) as i64,
    };
    let end = Point { x: (tb.origin.x + tb.size.width / 2) as i64, y: tb.origin.y };
    Edge {
        kind: ge.kind,
        start,
        mid: 500u32,
        around: if start.y > end.y {
            Some(sb)
        } else {
            None
        },
        end,
    }
}

/// What a successful relayout shows for its graph: one sized, labeled box
/// per node and one resolved edge per graph edge.
pub open spec fn data_matches_graph(d: LayoutData, graph: Graph) -> bool {
    &&& d.nodes@.len() == graph.nodes@.len()
    &&& d.edges@.len() == graph.edges@.len()
    &&& (forall|k: int|
        0 <= k < graph.nodes@.len() ==> ((#[trigger] d.nodes@[k]).bounds.size
            == graph.nodes@[k].size && d.nodes@[k].text == graph.nodes@[k].label))
    &&& (forall|k: int|
        0 <= k < graph.edges@.len() ==> #[trigger] d.edges@[k] == resolved_edge(
            d.nodes@,
            graph.edges@[k],
        ))
}

/// The viewport model: the pan offset and the drag state, as the pure
/// values the transition functions below step through.
pub ghost struct PanState {
    pub offset_x: int,
    pub offset_y: int,
    pub drag: Option<(int, int)>,
}

/// A pan drag begins on a designated trigger, and only when no drag is
/// already active: a second trigger never stacks.
pub open spec fn pan_down(s: PanState, trigger: bool, x: int, y: int) -> PanState {
    if trigger && s.drag is None {
        PanState { drag: Some((x, y)), ..s }
    } else {
        s
    }
}

/// While a drag is active, each move shifts the offset by the delta since
/// the last recorded position and re-records the position.
pub open spec fn pan_move(s: PanState, x: int, y: int) -> PanState {
    match s.drag {
        Some(last) => PanState {
            offset_x: clamp_spec(s.offset_x + (x - last.0), OFFSET_LIMIT as int),
            offset_y: clamp_spec(s.offset_y + (y - last.1), OFFSET_LIMIT as int),
            drag: Some((x, y)),
        },
        None => s,
    }
}

/// Release applies the final delta and unconditionally ends the drag.
pub open spec fn pan_up(s: PanState, x: int, y: int) -> PanState {
    match s.drag {
        Some(last) => PanState {
            offset_x: clamp_spec(s.offset_x + (x - last.0), OFFSET_LIMIT as int),
            offset_y: clamp_spec(s.offset_y + (y - last.1), OFFSET_LIMIT as int),
            drag: None,
        },
        None => s,
    }
}

/// Scroll input as a pixel delta: direct pixels pass through, line counts
/// are scaled by the per-line factor and flipped.
pub open spec fn scroll_pixels(delta: ScrollDelta) -> (int, int) {
    match delta {
        ScrollDelta::Pixels(p) => (p.x as int, p.y as int),
        ScrollDelta::Lines(p) => (-LINE_SCROLL_FACTOR * p.x, -LINE_SCROLL_FACTOR * p.y),
    }
}

/// Scrolling pans directly, but is suppressed while a drag is active.
pub open spec fn pan_scroll(s: PanState, dx: int, dy: int) -> PanState {
    if s.drag is Some {
        s
    } else {
        PanState {
            offset_x: clamp_spec(s.offset_x + dx, OFFSET_LIMIT as int),
            offset_y: clamp_spec(s.offset_y + dy, OFFSET_LIMIT as int),
            drag: None,
        }
    }
}

/// Which pointer-downs begin a pan: the middle button, or the left button
/// with the control modifier held.
pub open spec fn pan_trigger(button: MouseButton, control: bool) -> bool {
    button == MouseButton::Middle || (button == MouseButton::Left && control)
}

pub open spec fn scroll_delta_ok(delta: ScrollDelta) -> bool {
    match delta {
        ScrollDelta::Pixels(p) => point_ok(p),
        ScrollDelta::Lines(p) => point_ok(p),
    }
}

/// Horizontal and vertical inset of a node's text from its box corner.
pub const TEXT_INSET: i64 = 5;

/// Height of one shaped text line.
pub const TEXT_HEIGHT: i64 = 18;

/// Vertical gap between consecutive text lines.
pub const TEXT_SPACING: i64 = 2;

/// Where line `i` of a node's text is painted: the box corner, shifted by
/// the viewport offset and the text inset, then one line height plus
/// spacing down per preceding line.
pub open spec fn text_line_origin_spec(bounds: Bounds, offset: Point, i: int) -> Point {
    Point {
        x: (bounds.origin.x + offset.x + TEXT_INSET) as i64,
        y: (bounds.origin.y + offset.y + TEXT_INSET + i * (TEXT_HEIGHT + TEXT_SPACING)) as i64,
    }
}

/// The paint origin of every line of a node's shaped text, in order.
pub fn text_line_origins(bounds: Bounds, offset: Point, line_count: usize) -> (origins: Vec<
    Point,
>)
    requires
        bounds_ok(bounds),
        point_within(offset, OFFSET_LIMIT as int),
        line_count <= 100_000,
    ensures
        origins@.len() == line_count,
        forall|i: int|
            0 <= i < line_count ==> #[trigger] origins@[i] == text_line_origin_spec(
                bounds,
                offset,
                i,
            ),
{
    let x = bounds.origin.x + offset.x + TEXT_INSET;
    let mut origins: Vec<Point> = Vec::new();
    let mut i: usize = 0;
    while i < line_count
        invariant
            origins@.len() == i,
            i <= line_count <= 100_000,
            bounds_ok(bounds),
            point_within(offset, OFFSET_LIMIT as int),
            x == bounds.origin.x + offset.x + TEXT_INSET,
            forall|k: int|
                0 <= k < i ==> #[trigger] origins@[k] == text_line_origin_spec(
                    bounds,
                    offset,
                    k,
                ),
        decreases line_count - i,
    {
        let step = (i as i64) * (TEXT_HEIGHT + TEXT_SPACING);
        let y = bounds.origin.y + offset.y + TEXT_INSET + step;
        origins.push(Point { x, y });
        i = i + 1;
    }
    origins
}

/// A box given by corner and extent; shorthand for the demonstration scene.
pub open spec fn demo_bounds(x: i64, y: i64, width: i64, height: i64) -> Bounds {
    Bounds { origin: Point { x, y }, size: Size { width, height } }
}

/// The interactive graph view: current pan offset, drag state, the data
/// being shown, and the most recent queued request.
pub struct GraphViewer {
    pub start: Point,
    pub last_pos: Option<Point>,
    pub layout_data: Option<LayoutData>,
    pub pending_message: Option<Message>,
}

impl GraphViewer {
    /// The viewport model this viewer is in.
    pub open spec fn pan(self) -> PanState {
        PanState {
            offset_x: self.start.x as int,
            offset_y: self.start.y as int,
            drag: match self.last_pos {
                Some(p) => Some((p.x as int, p.y as int)),
                None => None,
            },
        }
    }

    pub open spec fn ok(self) -> bool {
        &&& point_within(self.start, OFFSET_LIMIT as int)
        &&& (self.last_pos matches Some(p) ==> point_ok(p))
        &&& (self.layout_data matches Some(d) ==> layout_data_ok(d))
    }

    /// A fresh viewer, showing a small fixed demonstration graph, with the
    /// viewport at the origin and nothing queued.
    pub fn new() -> (v: GraphViewer)
        ensures
            v.ok(),
            v.start == (Point { x: 0, y: 0 }),
            v.last_pos is None,
            v.pending_message is None,
            v.layout_data matches Some(d) && d.nodes@.len() == 3 && d.edges@.len() == 4
                && d.nodes@[0].bounds == demo_bounds(450, 100, 200, 200) && d.nodes@[1].bounds
                == demo_bounds(250, 400, 200, 300) && d.nodes@[2].bounds == demo_bounds(
                550,
                400,
                200,
                100,
            ) && d.edges@[0] == (Edge {
                kind: EdgeKind::Take,
                start: Point { x: 535, y: 300 },
                mid: 500u32,
                around: None,
                end: Point { x: 350, y: 400 },
            }) && d.edges@[1] == (Edge {
                kind: EdgeKind::NoTake,
                start: Point { x: 550, y: 300 },
                mid: 300u32,
                around: None,
                end: Point { x: 650, y: 400 },
            }) && d.edges@[2] == (Edge {
                kind: EdgeKind::Fallthrough,
                start: Point { x: 650, y: 500 },
                mid: 500u32,
                around: Some(demo_bounds(550, 400, 200, 100)),
                end: Point { x: 550, y: 100 },
            }) && d.edges@[3] == (Edge {
                kind: EdgeKind::Fallthrough,
                start: Point { x: 350, y: 700 },
                mid: 500u32,
                around: Some(demo_bounds(250, 400, 200, 300)),
                end: Point { x: 535, y: 100 },
            }),
    {
        let b0 = Bounds {
            origin: Point { x: 450, y: 100 },
            size: Size { width: 200, height: 200 },
        };
        let b1 = Bounds {
            origin: Point { x: 250, y: 400 },
            size: Size { width: 200, height: 300 },
        };
        let b2 = Bounds {
            origin: Point { x: 550, y: 400 },
            size: Size { width: 200, height: 100 },
        };
        let b0_left = Bounds { origin: Point { x: 435, y: 100 }, size: b0.size };

        let mut nodes: Vec<Node> = Vec::new();
        nodes.push(Node { bounds: b0, text: "Hello, World!\ntest123".to_owned() });
        nodes.push(Node { bounds: b1, text: "xor eax, eax\npop edi\nret".to_owned() });
        nodes.push(Node { bounds: b2, text: "inc rax\njmp .LOOP_START".to_owned() });

        let mut edges: Vec<Edge> = Vec::new();
        edges.push(create_edge(b0_left, b1, EdgeKind::Take, 500, None));
        edges.push(create_edge(b0, b2, EdgeKind::NoTake, 300, None));
        edges.push(create_edge(b2, b0, EdgeKind::Fallthrough, 500, Some(b2)));
        edges.push(create_edge(b1, b0_left, EdgeKind::Fallthrough, 500, Some(b1)));

        let data = LayoutData { nodes, edges };
        proof {
            assert(layout_data_ok(data));
        }
        GraphViewer {
            start: Point { x: 0, y: 0 },
            last_pos: None,
            layout_data: Some(data),
            pending_message: None,
        }
    }

    /// Queue a request; a newer request replaces an older one wholesale.
    pub fn handle_message(&mut self, message: Message)
        ensures
            final (self).pending_message is Some,
            final (self).start == old(self).start,
            final (self).last_pos == old(self).last_pos,
            final (self).layout_data == old(self).layout_data,
            (final (self).pending_message matches Some(m) && m == message),
    {
        self.pending_message = Some(message);
    }

    /// Apply the queued request, if any: compute a fresh layout for its
    /// graph and replace the shown data wholesale, one positioned box per
    /// node and one resolved edge per graph edge. A request naming no node
    /// of a non-empty graph as its entry is discarded. The viewport is
    /// never reset by a relayout.
    pub fn process_pending(&mut self)
        requires
            old(self).ok(),
            (old(self).pending_message matches Some(Message::LayoutRequest { graph, entry })
                ==> graph.wf()),
        ensures
            final (self).ok(),
            final (self).pending_message is None,
            final (self).start == old(self).start,
            final (self).last_pos == old(self).last_pos,
            old(self).pending_message is None ==> final (self).layout_data == old(
                self,
            ).layout_data,
            (old(self).pending_message matches Some(Message::LayoutRequest { graph, entry })
                ==> (graph.nodes@.len() >= 1 && entry < graph.nodes@.len() ==> (final (
            self).layout_data matches Some(d) && data_matches_graph(d, graph)
                && d.nodes@[entry as int].bounds.origin.x == 0 - graph.nodes@[
                entry as int].size.width / 2 && d.nodes@[entry as int].bounds.origin.y == 0
                - graph.nodes@[entry as int].size.height / 2))),
    {
        let pending = self.pending_message.take();
        match pending {
            None => {
            },
            Some(Message::LayoutRequest { graph, entry }) => {
                let n = graph.node_count();
                if n == 0 || entry >= n {
                    return ;
                }
                let layout = GraphLayout::new(graph, entry);
                let m = layout.graph.edge_count();

                let mut nodes: Vec<Node> = Vec::new();
                let mut i: usize = 0;
                while i < n
                    invariant
                        layout.wf(),
                        n == layout.graph.nodes@.len(),
                        nodes@.len() == i,
                        i <= n,
                        forall|k: int|
                            0 <= k < i ==> bounds_ok((#[trigger] nodes@[k]).bounds),
                        forall|k: int|
                            0 <= k < i ==> node_resolved(
                                #[trigger] nodes@[k],
                                layout.graph.nodes@[k],
                                layout.node_positions@[k],
                            ),
                    decreases n - i,
                {
                    let center = layout.position(i);
                    let sz = layout.graph.nodes[i].size;
                    let text = layout.graph.nodes[i].label.clone();
                    let b = Bounds::centered_at(center, sz);
                    nodes.push(Node { bounds: b, text });
                    i = i + 1;
                }

                let mut edges: Vec<Edge> = Vec::new();
                let mut e: usize = 0;
                while e < m
                    invariant
                        layout.wf(),
                        n == layout.graph.nodes@.len(),
                        m == layout.graph.edges@.len(),
                        nodes@.len() == n,
                        forall|k: int|
                            0 <= k < n ==> bounds_ok((#[trigger] nodes@[k]).bounds),
                        edges@.len() == e,
                        e <= m,
                        forall|k: int| 0 <= k < e ==> edge_ok(#[trigger] edges@[k]),
                        forall|k: int|
                            0 <= k < e ==> #[trigger] edges@[k] == resolved_edge(
                                nodes@,
                                layout.graph.edges@[k],
                            ),
                    decreases m - e,
                {
                    let ge = layout.graph.edges[e];
                    let sb = nodes[ge.source].bounds;
                    let tb = nodes[ge.target].bounds;
                    let start_y = sb.origin.y + sb.size.height;
                    let around = if start_y > tb.origin.y {
                        Some(sb)
                    } else {
                        None
                    };
                    let resolved = create_edge(sb, tb, ge.kind, 500, around);
                    proof {
                        assert(resolved == resolved_edge(nodes@, layout.graph.edges@[e as int]));
                    }
                    edges.push(resolved);
                    e = e + 1;
                }

                self.layout_data = Some(LayoutData { nodes, edges });
            },
        }
    }

    /// A pointer-down on a pan trigger begins a drag at the pointer's
    /// position — unless a drag is already active, in which case it is
    /// ignored.
    pub fn pointer_down(&mut self, button: MouseButton, control: bool, pos: Point)
        requires
            old(self).ok(),
            point_ok(pos),
        ensures
            final (self).ok(),
            final (self).pan() == pan_down(
                old(self).pan(),
                pan_trigger(button, control),
                pos.x as int,
                pos.y as int,
            ),
            final (self).layout_data == old(self).layout_data,
            final (self).pending_message == old(self).pending_message,
    {
        let trigger = match button {
            MouseButton::Middle => true,
            MouseButton::Left => control,
            MouseButton::Right => false,
        };
        if trigger && self.last_pos.is_none() {
            self.last_pos = Some(pos);
        }
    }

    /// While a drag is active, pan by the delta since the last recorded
    /// position and re-record it; otherwise do nothing.
    pub fn pointer_move(&mut self, pos: Point)
        requires
            old(self).ok(),
            point_ok(pos),
        ensures
            final (self).ok(),
            final (self).pan() == pan_move(old(self).pan(), pos.x as int, pos.y as int),
            final (self).layout_data == old(self).layout_data,
            final (self).pending_message == old(self).pending_message,
    {
        match self.last_pos {
            None => {
            },
            Some(last) => {
                let nx = clamp(self.start.x + (pos.x - last.x), OFFSET_LIMIT);
                let ny = clamp(self.start.y + (pos.y - last.y), OFFSET_LIMIT);
                self.start = Point { x: nx, y: ny };
                self.last_pos = Some(pos);
            },
        }
    }

    /// A pointer-up applies the final delta and unconditionally ends the
    /// drag.
    pub fn pointer_up(&mut self, pos: Point)
        requires
            old(self).ok(),
            point_ok(pos),
        ensures
            final (self).ok(),
            final (self).pan() == pan_up(old(self).pan(), pos.x as int, pos.y as int),
            final (self).layout_data == old(self).layout_data,
            final (self).pending_message == old(self).pending_message,
    {
        match self.last_pos {
            None => {
            },
            Some(last) => {
                let nx = clamp(self.start.x + (pos.x - last.x), OFFSET_LIMIT);
                let ny = clamp(self.start.y + (pos.y - last.y), OFFSET_LIMIT);
                self.start = Point { x: nx, y: ny };
                self.last_pos = None;
            },
        }
    }

    /// Scroll pans the viewport directly; it is suppressed while a drag is
    /// active.
    pub fn scroll(&mut self, delta: ScrollDelta)
        requires
            old(self).ok(),
            scroll_delta_ok(delta),
        ensures
            final (self).ok(),
            final (self).pan() == pan_scroll(
                old(self).pan(),
                scroll_pixels(delta).0,
                scroll_pixels(delta).1,
            ),
            final (self).layout_data == old(self).layout_data,
            final (self).pending_message == old(self).pending_message,
    {
        if self.last_pos.is_some() {
            return ;
        }
        let d: Point;
        match delta {
            ScrollDelta::Pixels(p) => {
                d = p;
            },
            ScrollDelta::Lines(p) => {
                assert(point_ok(p));
                let tx = p.x * 10;
                let ty = p.y * 10;
                d = Point { x: -tx, y: -ty };
            },
        }
        let nx = clamp(self.start.x + d.x, OFFSET_LIMIT);
        let ny = clamp(self.start.y + d.y, OFFSET_LIMIT);
        self.start = Point { x: nx, y: ny };
    }
}

/// A full drag — down at one point, move to a second, release there —
/// changes the offset by exactly the difference of the two points; and a
/// down/up pair with no intervening move leaves the offset unchanged.
pub proof fn lemma_drag_pans_by_delta(s: PanState, x1: int, y1: int, x2: int, y2: int)
    requires
        s.drag is None,
        -OFFSET_LIMIT + 2_000_000_000 <= s.offset_x <= OFFSET_LIMIT - 2_000_000_000,
        -OFFSET_LIMIT + 2_000_000_000 <= s.offset_y <= OFFSET_LIMIT - 2_000_000_000,
        -1_000_000_000 <= x1 <= 1_000_000_000,
        -1_000_000_000 <= y1 <= 1_000_000_000,
        -1_000_000_000 <= x2 <= 1_000_000_000,
        -1_000_000_000 <= y2 <= 1_000_000_000,
    ensures
        pan_up(pan_move(pan_down(s, true, x1, y1), x2, y2), x2, y2).offset_x == s.offset_x + (x2
            - x1),
        pan_up(pan_move(pan_down(s, true, x1, y1), x2, y2), x2, y2).offset_y == s.offset_y + (y2
            - y1),
        pan_up(pan_move(pan_down(s, true, x1, y1), x2, y2), x2, y2).drag is None,
        pan_up(pan_down(s, true, x1, y1), x1, y1).offset_x == s.offset_x,
        pan_up(pan_down(s, true, x1, y1), x1, y1).offset_y == s.offset_y,
        pan_up(pan_down(s, true, x1, y1), x1, y1).drag is None,
{
}

} // verus!
