use graphic::geometry::Point;
use graphic::geometry::Size;
use graphic::graph::Graph;
use graphic::graph::GraphNode;
use graphic::layout::GraphLayout;
use graphic::layout::Radius;
use graphic::route::EdgeKind;

fn square(side: i64) -> Size {
    Size { width: side, height: side }
}

fn dist(a: Point, b: Point) -> f64 {
    let dx = (a.x - b.x) as f64;
    let dy = (a.y - b.y) as f64;
    (dx * dx + dy * dy).sqrt()
}

#[test]
fn entry_node_is_pinned_at_origin() {
    let mut g = Graph::new();
    g.add_node(square(20), String::from("a"));
    let layout = GraphLayout::new(g, 0);
    assert_eq!(layout.position(0), Point { x: 0, y: 0 });
}

#[test]
fn entry_node_stays_at_origin_whatever_the_topology() {
    let mut g = Graph::new();
    for i in 0..6 {
        g.add_node(square(30 + i), String::from("n"));
    }
    g.add_edge(1, 2, EdgeKind::Take);
    g.add_edge(2, 3, EdgeKind::NoTake);
    g.add_edge(3, 1, EdgeKind::Fallthrough);
    g.add_edge(4, 5, EdgeKind::Switch);
    let layout = GraphLayout::new(g, 1);
    assert_eq!(layout.position(1), Point { x: 0, y: 0 });
    assert_eq!(layout.node_positions.len(), 6);
}

#[test]
fn linked_node_settles_near_the_rest_distance() {
    // Three nodes, entry 0, one edge 0 -> 1: node 1 ends roughly one link
    // rest distance (60 units) from the pinned entry.
    let mut g = Graph::new();
    g.add_node(square(20), String::from("entry"));
    g.add_node(square(20), String::from("linked"));
    g.add_node(square(20), String::from("loose"));
    g.add_edge(0, 1, EdgeKind::Take);
    let layout = GraphLayout::new(g, 0);
    assert_eq!(layout.position(0), Point { x: 0, y: 0 });
    let d = dist(layout.position(1), layout.position(0));
    assert!(d > 50.0 && d < 72.0, "distance to linked node was {}", d);
}

#[test]
fn layout_is_deterministic() {
    let build = || {
        let mut g = Graph::new();
        g.add_node(square(20), String::from("a"));
        g.add_node(square(20), String::from("b"));
        g.add_node(square(20), String::from("c"));
        g.add_edge(0, 1, EdgeKind::Take);
        g.add_edge(0, 2, EdgeKind::NoTake);
        g
    };
    let first = GraphLayout::new(build(), 0);
    let second = GraphLayout::new(build(), 0);
    assert_eq!(first.node_positions, second.node_positions);
}

#[test]
fn final_positions_respect_collision_radii() {
    // No two centers end closer than the sum of their radii, within the
    // simulation's convergence tolerance.
    let mut g = Graph::new();
    for _ in 0..4 {
        g.add_node(square(20), String::from("n"));
    }
    g.add_edge(0, 1, EdgeKind::Take);
    g.add_edge(0, 2, EdgeKind::NoTake);
    g.add_edge(0, 3, EdgeKind::Switch);
    let layout = GraphLayout::new(g, 0);
    let tolerance = 5.0;
    for i in 0..4 {
        for j in (i + 1)..4 {
            let d = dist(layout.position(i), layout.position(j));
            // radius of a 20 x 20 box is 10, so the required gap is 20
            assert!(d >= 20.0 - tolerance, "nodes {} and {} are {} apart", i, j, d);
        }
    }
}

#[test]
fn radius_is_half_the_larger_dimension_and_positive() {
    let n = GraphNode { size: Size { width: 200, height: 300 }, label: String::from("x") };
    assert_eq!(n.radius(), 150);
    let wide = GraphNode { size: Size { width: 300, height: 200 }, label: String::from("y") };
    assert_eq!(wide.radius(), 150);
    let tiny = GraphNode { size: Size { width: 1, height: 1 }, label: String::from("z") };
    assert_eq!(tiny.radius(), 1);
    assert!(tiny.radius() > 0);
}

