//! Rectangle containment and clamped repositioning.

use arcaders::phi::data::Rectangle;

fn rect(x: i64, y: i64, w: i64, h: i64) -> Rectangle {
    Rectangle { x, y, w, h }
}

#[test]
fn contains_accepts_fully_inside() {
    let outer = rect(0, 0, 100_000, 100_000);
    assert!(outer.contains(rect(10_000, 10_000, 50_000, 50_000)));
    assert!(outer.contains(rect(0, 0, 100_000, 100_000)));
}

#[test]
fn contains_rejects_overhang() {
    let outer = rect(0, 0, 100_000, 100_000);
    assert!(!outer.contains(rect(60_000, 0, 50_000, 10_000)));
    assert!(!outer.contains(rect(-1, 0, 10_000, 10_000)));
    assert!(!outer.contains(rect(0, 99_000, 10_000, 2_000)));
}

#[test]
fn move_inside_keeps_fitting_rectangle() {
    let bound = rect(0, 0, 100_000, 100_000);
    let moved = rect(20_000, 30_000, 10_000, 10_000).move_inside(bound).unwrap();
    assert_eq!(moved, rect(20_000, 30_000, 10_000, 10_000));
}

#[test]
fn move_inside_clamps_each_axis() {
    let bound = rect(0, 0, 100_000, 100_000);
    let moved = rect(-5_000, 95_000, 10_000, 10_000).move_inside(bound).unwrap();
    assert_eq!(moved, rect(0, 90_000, 10_000, 10_000));
    assert!(bound.contains(moved));
}

#[test]
fn move_inside_fails_iff_too_large() {
    let bound = rect(0, 0, 100_000, 100_000);
    assert!(rect(0, 0, 100_001, 10_000).move_inside(bound).is_none());
    assert!(rect(0, 0, 10_000, 100_001).move_inside(bound).is_none());
    assert!(rect(0, 0, 100_000, 100_000).move_inside(bound).is_some());
}
