use graphic::geometry::Bounds;
use graphic::geometry::Point;
use graphic::geometry::Size;
use graphic::route::arrow_polygon;
use graphic::route::centerline;
use graphic::route::create_edge;
use graphic::route::cream;
use graphic::route::edge_color;
use graphic::route::lerp;
use graphic::route::route;
use graphic::route::Color;
use graphic::route::EdgeKind;

fn pt(x: i64, y: i64) -> Point {
    Point { x, y }
}

#[test]
fn forward_route_has_three_segments_with_jog_at_mid() {
    // A forward edge (start not below end) jogs at the mid fraction of the
    // vertical span: here halfway between 100 and 200.
    let pts = centerline(pt(100, 100), pt(100, 200), 500, None, 3);
    assert_eq!(pts.len(), 4);
    assert_eq!(pts[0], pt(100, 100));
    assert_eq!(pts[1], pt(100, 150));
    assert_eq!(pts[2], pt(100, 150));
    assert_eq!(pts[3], pt(100, 200));
}

#[test]
fn forward_route_jog_uses_mid_fraction() {
    let pts = centerline(pt(0, 0), pt(50, 100), 250, None, 3);
    assert_eq!(pts.len(), 4);
    assert_eq!(pts[0], pt(0, 0));
    assert_eq!(pts[1], pt(0, 25));
    assert_eq!(pts[2], pt(50, 25));
    assert_eq!(pts[3], pt(50, 100));
}

#[test]
fn back_route_clears_detour_box_by_ten_strokes() {
    // A back edge (start strictly below end) with a detour box around the
    // source must travel a lane exactly stroke * 10 outside the box.
    let detour = Bounds { origin: pt(50, 150), size: Size { width: 100, height: 100 } };
    let pts = centerline(pt(100, 200), pt(100, 100), 500, Some(detour), 3);
    assert_eq!(pts.len(), 6);
    assert_eq!(pts[0], pt(100, 200));
    assert_eq!(pts[1], pt(100, 230));
    // start.x is not left of end.x, so the lane runs right of the box:
    // box right edge 150, plus 30.
    assert_eq!(pts[2], pt(180, 230));
    assert_eq!(pts[3], pt(180, 70));
    assert_eq!(pts[4], pt(100, 70));
    assert_eq!(pts[5], pt(100, 100));
}

#[test]
fn back_route_without_detour_clears_start_by_ten_strokes() {
    let pts = centerline(pt(100, 200), pt(200, 100), 500, None, 2);
    assert_eq!(pts.len(), 6);
    // start.x < end.x, so the lane runs left of the start point by 20.
    assert_eq!(pts[2], pt(80, 220));
    assert_eq!(pts[3], pt(80, 80));
}

#[test]
fn route_polygon_is_closed() {
    let (poly, _) = route(pt(100, 100), pt(100, 200), EdgeKind::Take, 500, None, 3);
    assert!(poly.len() >= 2);
    assert_eq!(poly[0], *poly.last().unwrap());
    assert_eq!(poly[0], pt(100, 100));
    assert_eq!(poly.len(), 2 * 4 + 5);

    let (poly_back, _) = route(pt(100, 200), pt(100, 100), EdgeKind::Switch, 500, None, 3);
    assert_eq!(poly_back[0], *poly_back.last().unwrap());
    assert_eq!(poly_back.len(), 2 * 6 + 5);
}

#[test]
fn route_is_a_pure_function_of_its_inputs() {
    let detour = Bounds { origin: pt(50, 150), size: Size { width: 100, height: 100 } };
    let a = route(pt(100, 200), pt(100, 100), EdgeKind::Fallthrough, 500, Some(detour), 3);
    let b = route(pt(100, 200), pt(100, 100), EdgeKind::Fallthrough, 500, Some(detour), 3);
    assert_eq!(a.0, b.0);
    assert_eq!(a.1, b.1);
}

#[test]
fn arrow_polygon_offsets_follow_the_corner_table() {
    // Centerline (0,0) -> (0,50) -> (50,50) -> (50,100), stroke 4:
    // half-width 2, arrowhead side 6; both corners turn down-and-right.
    let pts = vec![pt(0, 0), pt(0, 50), pt(50, 50), pt(50, 100)];
    let poly = arrow_polygon(&pts, 4);
    let expected = vec![
        pt(0, 0),
        pt(2, 0),
        pt(2, 48),
        pt(52, 48),
        pt(52, 94),
        pt(58, 94),
        pt(50, 100),
        pt(42, 94),
        pt(48, 94),
        pt(48, 52),
        pt(-2, 52),
        pt(-2, 0),
        pt(0, 0),
    ];
    assert_eq!(poly, expected);
}

#[test]
fn colors_are_fixed_per_kind() {
    assert_eq!(
        edge_color(EdgeKind::Take),
        Color { hue: 333, saturation: 1000, lightness: 250, alpha: 1000 }
    );
    assert_eq!(
        edge_color(EdgeKind::NoTake),
        Color { hue: 0, saturation: 1000, lightness: 250, alpha: 1000 }
    );
    assert_eq!(
        edge_color(EdgeKind::Fallthrough),
        Color { hue: 0, saturation: 0, lightness: 200, alpha: 1000 }
    );
    assert_eq!(
        edge_color(EdgeKind::Switch),
        Color { hue: 667, saturation: 1000, lightness: 250, alpha: 1000 }
    );
    let (_, take_color) = route(pt(0, 0), pt(0, 10), EdgeKind::Take, 500, None, 3);
    assert_eq!(take_color, edge_color(EdgeKind::Take));
    assert_eq!(cream(), Color { hue: 97, saturation: 950, lightness: 950, alpha: 1000 });
}

#[test]
fn create_edge_anchors_bottom_center_to_top_center() {
    let src = Bounds { origin: pt(450, 100), size: Size { width: 200, height: 200 } };
    let sink = Bounds { origin: pt(250, 400), size: Size { width: 200, height: 300 } };
    let e = create_edge(src, sink, EdgeKind::Take, 500, None);
    assert_eq!(e.start, pt(550, 300));
    assert_eq!(e.end, pt(350, 400));
    assert_eq!(e.mid, 500);
    assert!(e.around.is_none());
}

#[test]
fn lerp_interpolates_in_thousandths() {
    assert_eq!(lerp(100, 200, 300), 130);
    assert_eq!(lerp(100, 200, 0), 100);
    assert_eq!(lerp(100, 200, 1000), 200);
    assert_eq!(lerp(200, 100, 500), 150);
    assert_eq!(lerp(-100, 100, 500), 0);
}
