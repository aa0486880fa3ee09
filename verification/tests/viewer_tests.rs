use graphic::geometry::Point;
use graphic::geometry::Size;
use graphic::graph::Graph;
use graphic::route::EdgeKind;
use graphic::viewer::GraphViewer;
use graphic::viewer::Message;
use graphic::viewer::MouseButton;
use graphic::viewer::ScrollDelta;

fn pt(x: i64, y: i64) -> Point {
    Point { x, y }
}

#[test]
fn new_viewer_shows_the_demonstration_graph() {
    let v = GraphViewer::new();
    assert_eq!(v.start, pt(0, 0));
    assert!(v.last_pos.is_none());
    assert!(v.pending_message.is_none());
    let data = v.layout_data.as_ref().unwrap();
    assert_eq!(data.nodes.len(), 3);
    assert_eq!(data.edges.len(), 4);
    assert_eq!(data.nodes[0].bounds.origin, pt(450, 100));
    assert_eq!(data.nodes[0].bounds.size, Size { width: 200, height: 200 });
    assert_eq!(data.nodes[1].bounds.origin, pt(250, 400));
    assert_eq!(data.nodes[1].bounds.size, Size { width: 200, height: 300 });
    assert_eq!(data.nodes[2].bounds.origin, pt(550, 400));
    assert_eq!(data.nodes[2].bounds.size, Size { width: 200, height: 100 });
    assert!(matches!(data.edges[0].kind, EdgeKind::Take));
    assert!(matches!(data.edges[1].kind, EdgeKind::NoTake));
    assert!(matches!(data.edges[2].kind, EdgeKind::Fallthrough));
    assert!(matches!(data.edges[3].kind, EdgeKind::Fallthrough));
    assert_eq!(data.edges[0].mid, 500);
    assert_eq!(data.edges[1].mid, 300);
    assert!(data.edges[0].around.is_none());
    assert!(data.edges[1].around.is_none());
    assert!(data.edges[2].around.is_some());
    assert!(data.edges[3].around.is_some());
}

#[test]
fn drag_pans_by_exactly_the_pointer_delta() {
    let mut v = GraphViewer::new();
    v.pointer_down(MouseButton::Middle, false, pt(10, 20));
    v.pointer_move(pt(25, 5));
    v.pointer_up(pt(25, 5));
    assert_eq!(v.start, pt(15, -15));
    assert!(v.last_pos.is_none());
}

#[test]
fn down_then_up_without_a_move_leaves_the_offset_unchanged() {
    let mut v = GraphViewer::new();
    v.pointer_down(MouseButton::Middle, false, pt(10, 20));
    v.pointer_up(pt(10, 20));
    assert_eq!(v.start, pt(0, 0));
    assert!(v.last_pos.is_none());
}

#[test]
fn panning_is_incremental_across_moves() {
    let mut v = GraphViewer::new();
    v.pointer_down(MouseButton::Middle, false, pt(0, 0));
    v.pointer_move(pt(10, 0));
    v.pointer_move(pt(10, 7));
    v.pointer_up(pt(13, 7));
    assert_eq!(v.start, pt(13, 7));
}

#[test]
fn control_left_click_also_starts_a_pan() {
    let mut v = GraphViewer::new();
    v.pointer_down(MouseButton::Left, true, pt(1, 2));
    v.pointer_move(pt(4, 6));
    v.pointer_up(pt(4, 6));
    assert_eq!(v.start, pt(3, 4));
}

#[test]
fn non_trigger_buttons_do_not_start_a_pan() {
    let mut v = GraphViewer::new();
    v.pointer_down(MouseButton::Left, false, pt(1, 2));
    assert!(v.last_pos.is_none());
    v.pointer_down(MouseButton::Right, false, pt(1, 2));
    assert!(v.last_pos.is_none());
    v.pointer_move(pt(50, 50));
    assert_eq!(v.start, pt(0, 0));
}

#[test]
fn a_second_down_during_a_drag_is_ignored() {
    let mut v = GraphViewer::new();
    v.pointer_down(MouseButton::Middle, false, pt(0, 0));
    v.pointer_down(MouseButton::Left, true, pt(100, 100));
    assert_eq!(v.last_pos, Some(pt(0, 0)));
    v.pointer_move(pt(10, 10));
    assert_eq!(v.start, pt(10, 10));
}

#[test]
fn scroll_pans_by_pixels_directly() {
    let mut v = GraphViewer::new();
    v.scroll(ScrollDelta::Pixels(pt(7, -3)));
    assert_eq!(v.start, pt(7, -3));
}

#[test]
fn scroll_lines_are_scaled_and_flipped() {
    let mut v = GraphViewer::new();
    v.scroll(ScrollDelta::Lines(pt(1, -2)));
    assert_eq!(v.start, pt(-10, 20));
}

#[test]
fn scroll_is_suppressed_while_dragging() {
    let mut v = GraphViewer::new();
    v.pointer_down(MouseButton::Middle, false, pt(0, 0));
    v.scroll(ScrollDelta::Pixels(pt(7, -3)));
    assert_eq!(v.start, pt(0, 0));
    v.pointer_up(pt(0, 0));
    assert_eq!(v.start, pt(0, 0));
}

#[test]
fn handle_message_queues_the_latest_request() {
    let mut v = GraphViewer::new();
    let mut g = Graph::new();
    g.add_node(Size { width: 10, height: 10 }, String::from("only"));
    v.handle_message(Message::LayoutRequest { graph: g, entry: 0 });
    assert!(v.pending_message.is_some());
    assert_eq!(v.start, pt(0, 0));
}

#[test]
fn process_pending_recomputes_the_layout() {
    let mut v = GraphViewer::new();
    let mut g = Graph::new();
    g.add_node(Size { width: 40, height: 20 }, String::from("entry"));
    g.add_node(Size { width: 30, height: 30 }, String::from("other"));
    g.add_edge(0, 1, EdgeKind::Take);
    v.handle_message(Message::LayoutRequest { graph: g, entry: 0 });
    v.process_pending();
    assert!(v.pending_message.is_none());
    let data = v.layout_data.as_ref().unwrap();
    assert_eq!(data.nodes.len(), 2);
    assert_eq!(data.edges.len(), 1);
    // the entry node's box is centered on the origin
    assert_eq!(data.nodes[0].bounds.origin, pt(-20, -10));
    assert_eq!(data.nodes[0].text, "entry");
    assert!(matches!(data.edges[0].kind, EdgeKind::Take));
}

#[test]
fn process_pending_discards_an_invalid_request() {
    let mut v = GraphViewer::new();
    let mut g = Graph::new();
    g.add_node(Size { width: 10, height: 10 }, String::from("only"));
    v.handle_message(Message::LayoutRequest { graph: g, entry: 5 });
    v.process_pending();
    assert!(v.pending_message.is_none());
    // the demonstration data is still shown
    assert_eq!(v.layout_data.as_ref().unwrap().nodes.len(), 3);
}

#[test]
fn process_pending_without_a_request_changes_nothing() {
    let mut v = GraphViewer::new();
    v.process_pending();
    assert!(v.pending_message.is_none());
    assert_eq!(v.layout_data.as_ref().unwrap().nodes.len(), 3);
}

#[test]
fn viewport_offset_survives_a_relayout() {
    let mut v = GraphViewer::new();
    v.scroll(ScrollDelta::Pixels(pt(40, 50)));
    let mut g = Graph::new();
    g.add_node(Size { width: 10, height: 10 }, String::from("only"));
    v.handle_message(Message::LayoutRequest { graph: g, entry: 0 });
    v.process_pending();
    assert_eq!(v.start, pt(40, 50));
}

#[test]
fn text_lines_step_down_by_height_plus_spacing() {
    let v = GraphViewer::new();
    let bounds = v.layout_data.as_ref().unwrap().nodes[0].bounds;
    let origins = graphic::viewer::text_line_origins(bounds, pt(100, 10), 3);
    assert_eq!(origins.len(), 3);
    assert_eq!(origins[0], pt(555, 115));
    assert_eq!(origins[1], pt(555, 135));
    assert_eq!(origins[2], pt(555, 155));
}
