use rustwlc::render::calculate_stride;
use rustwlc::types::{Geometry, KeyModifier, Point, ResizeEdge, Size, ViewState};

#[test]
fn point_constructors() {
    assert_eq!(Point::origin(), Point { x: 0, y: 0 });
    assert_eq!(Point::new(-3, 7), Point { x: -3, y: 7 });
}

#[test]
fn point_min_max_coords() {
    let a = Point::new(0i32, 12i32);
    let b = Point::new(12i32, 0i32);
    assert_eq!(Point::from_min_coords(a, b), Point::new(0, 0));
    assert_eq!(Point::from_max_coords(a, b), Point::new(12i32, 12i32));
}

#[test]
fn size_min_max_dimensions() {
    let a = Size::new(0u32, 12u32);
    let b = Size::new(12u32, 0u32);
    assert_eq!(Size::from_min_dimensions(a, b), Size::new(0u32, 0u32));
    assert_eq!(Size::from_max_dimensions(a, b), Size::new(12u32, 12u32));
    assert_eq!(Size::zero(), Size { w: 0, h: 0 });
}

#[test]
fn geometry_contains_point() {
    let g = Geometry::new(Point::new(10, 10), Size::new(100, 50));
    assert!(g.contains_point(Point::new(50, 30)));
    // The borders themselves count as contained.
    assert!(g.contains_point(Point::new(110, 60)));
    assert!(!g.contains_point(Point::new(111, 30)));
    assert!(!g.contains_point(Point::new(50, 61)));
    // Only the far borders are checked: points left of or above the origin pass.
    assert!(g.contains_point(Point::new(-100, -100)));
}

#[test]
fn geometry_contains_geometry() {
    let outer = Geometry::new(Point::new(0, 0), Size::new(100, 100));
    let inner = Geometry::new(Point::new(10, 10), Size::new(50, 50));
    assert!(outer.contains_geometry(inner));
    assert!(!inner.contains_geometry(outer));
    assert!(outer.contains_geometry(outer));
    let overlapping = Geometry::new(Point::new(60, 60), Size::new(50, 50));
    assert!(!outer.contains_geometry(overlapping));
}

#[test]
fn resize_edge_operations() {
    let empty = ResizeEdge::empty();
    assert!(empty.is_empty());
    let left = ResizeEdge::new(false, false, true, false);
    assert!(!left.is_empty());
    let top = ResizeEdge::new(true, false, false, false);
    let top_left = top.union(left);
    assert!(top_left.top && top_left.left && !top_left.bottom && !top_left.right);
    assert!(top_left.contains(left));
    assert!(top_left.contains(top));
    assert!(!left.contains(top_left));
    assert!(top_left.contains(empty));
}

#[test]
fn view_state_apply() {
    let s = ViewState::empty();
    let resizing = s.apply(ViewState::resizing_flag(), true);
    assert!(resizing.resizing);
    assert!(!resizing.activated && !resizing.maximized && !resizing.moving && !resizing.fullscreen);
    let both = resizing.apply(ViewState::activated_flag(), true);
    assert!(both.resizing && both.activated);
    let cleared = both.apply(ViewState::resizing_flag(), false);
    assert!(!cleared.resizing && cleared.activated);
}

#[test]
fn key_modifier_contains() {
    let ctrl = KeyModifier::ctrl();
    assert!(ctrl.contains(KeyModifier::ctrl()));
    assert!(ctrl.contains(KeyModifier::empty()));
    assert!(!KeyModifier::empty().contains(ctrl));
    let mut ctrl_shift = KeyModifier::ctrl();
    ctrl_shift.shift = true;
    assert!(ctrl_shift.contains(ctrl));
    assert_ne!(ctrl_shift, ctrl);
}

#[test]
fn stride_is_four_bytes_per_pixel() {
    assert_eq!(calculate_stride(0), 0);
    assert_eq!(calculate_stride(1), 4);
    assert_eq!(calculate_stride(100), 400);
    assert_eq!(calculate_stride(133), 532);
    assert_eq!(calculate_stride(1920), 7680);
}

#[test]
fn backend_without_native_library_is_unknown() {
    assert_eq!(
        rustwlc::get_backend_type(),
        rustwlc::types::BackendType::Unknown
    );
}

#[test]
fn pointer_position_without_backend() {
    assert_eq!(
        rustwlc::input::pointer::get_position(),
        Point { x: 0, y: 0 }
    );
    // Repositioning is a request to the (absent) backend; it must be callable.
    rustwlc::input::pointer::set_position(Point { x: 5, y: 6 });
}
