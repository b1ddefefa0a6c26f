use clubhouse::geometry::{Edges, Rectangle};

#[test]
fn bounds_of_an_ordinary_window() {
    let edges = Edges { left: 100, top: 50, right: 900, bottom: 650 };
    assert_eq!(edges.width(), 800);
    assert_eq!(edges.height(), 600);
    assert!(!edges.is_degenerate());
    assert_eq!(edges.bounds(), Rectangle { left: 100, top: 50, width: 800, height: 600 });
}

#[test]
fn bounds_of_a_window_left_of_the_origin() {
    let edges = Edges { left: -1920, top: -10, right: -1000, bottom: 1070 };
    assert_eq!(edges.bounds(), Rectangle { left: -1920, top: -10, width: 920, height: 1080 });
}

#[test]
fn zero_width_is_degenerate() {
    let edges = Edges { left: 10, top: 0, right: 10, bottom: 100 };
    assert_eq!(edges.width(), 0);
    assert_eq!(edges.height(), 100);
    assert!(edges.is_degenerate());
}

#[test]
fn zero_height_is_degenerate() {
    let edges = Edges { left: 0, top: 7, right: 100, bottom: 7 };
    assert_eq!(edges.width(), 100);
    assert_eq!(edges.height(), 0);
    assert!(edges.is_degenerate());
}

#[test]
fn edges_all_zero_are_degenerate() {
    assert!(Edges { left: 0, top: 0, right: 0, bottom: 0 }.is_degenerate());
}

#[test]
fn reversed_edges_wrap_around() {
    let edges = Edges { left: 10, top: 3, right: 5, bottom: 2 };
    assert_eq!(edges.width(), 4294967291);
    assert_eq!(edges.height(), 4294967295);
    assert!(!edges.is_degenerate());
}

#[test]
fn widest_span_fits() {
    let edges = Edges { left: i32::MIN, top: i32::MIN, right: i32::MAX, bottom: i32::MAX };
    assert_eq!(edges.width(), u32::MAX);
    assert_eq!(edges.height(), u32::MAX);
    let back = Edges { left: i32::MAX, top: 0, right: i32::MIN, bottom: 1 };
    assert_eq!(back.width(), 1);
    assert_eq!(back.height(), 1);
}
