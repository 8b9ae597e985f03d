use maze_core::geometry::{overlaps, resolve, Aabb, Correction, Vec2};

fn boxed(cx: i64, cy: i64, w: i64, h: i64) -> Aabb {
    Aabb { center: Vec2 { x: cx, y: cy }, size: Vec2 { x: w, y: h } }
}

#[test]
fn overlap_symmetry_holds_on_samples() {
    let samples = vec![
        (boxed(0, 0, 10, 10), boxed(5, 5, 10, 10)),
        (boxed(0, 0, 10, 10), boxed(100, 0, 10, 10)),
        (boxed(-3, 7, 6, 2), boxed(0, 7, 4, 4)),
        (boxed(0, 0, 0, 0), boxed(0, 0, 0, 0)),
    ];
    for (a, b) in samples {
        assert_eq!(overlaps(&a, &b), overlaps(&b, &a));
    }
}

#[test]
fn touching_edges_do_not_overlap() {
    let a = boxed(0, 0, 10, 10);
    let b = boxed(10, 0, 10, 10);
    assert!(!overlaps(&a, &b));
    let below = boxed(0, -10, 10, 10);
    assert!(!overlaps(&a, &below));
}

#[test]
fn overlapping_boxes_are_detected() {
    let a = boxed(0, 0, 10, 10);
    let b = boxed(9, 0, 10, 10);
    assert!(overlaps(&a, &b));
    let nested = boxed(1, 1, 2, 2);
    assert!(overlaps(&a, &nested));
}

#[test]
fn zero_size_box_overlaps_nothing() {
    let point = boxed(0, 0, 0, 0);
    let a = boxed(0, 0, 10, 10);
    assert!(!overlaps(&point, &point));
    assert!(overlaps(&a, &point));
}

#[test]
fn resolve_returns_none_when_separate() {
    let a = boxed(0, 0, 10, 10);
    let b = boxed(10, 0, 10, 10);
    assert_eq!(resolve(&a, &b), None);
    assert_eq!(resolve(&a, &boxed(50, 50, 10, 10)), None);
}

#[test]
fn resolve_picks_smaller_penetration_axis() {
    // Deep vertical wall to the right of the moving box: x penetration is
    // smaller, so the correction is horizontal.
    let moving = boxed(2, 0, 20, 20);
    let wall = boxed(15, 0, 10, 350);
    assert_eq!(resolve(&moving, &wall), Some(Correction { x: 2, y: 0 }));
    // Moving box poking up into a wide shelf: y penetration (6) is smaller
    // than x, so the mover is pushed straight down.
    let floor = boxed(0, 12, 350, 10);
    let mover = boxed(0, 3, 20, 20);
    assert_eq!(resolve(&mover, &floor), Some(Correction { x: 0, y: 6 }));
}

#[test]
fn resolve_correction_eliminates_overlap() {
    let cases = vec![
        (boxed(2, 0, 20, 20), boxed(15, 0, 10, 350)),
        (boxed(0, 3, 20, 20), boxed(0, 12, 350, 10)),
        (boxed(1, 1, 10, 10), boxed(0, 0, 10, 10)),
        (boxed(0, 0, 10, 10), boxed(0, 0, 10, 10)),
        (boxed(-4, -3, 8, 8), boxed(0, 0, 10, 12)),
    ];
    for (moving, fixed) in cases {
        assert!(overlaps(&moving, &fixed));
        let c = resolve(&moving, &fixed).unwrap();
        let shifted = Aabb {
            center: Vec2 { x: moving.center.x - c.x, y: moving.center.y - c.y },
            size: moving.size,
        };
        assert!(!overlaps(&shifted, &fixed));
    }
}

#[test]
fn resolve_is_exact_on_even_sizes() {
    // The corrected box ends flush against the fixed one: the shared edge
    // touches exactly.
    let moving = boxed(2, 0, 20, 20);
    let wall = boxed(15, 0, 10, 350);
    let c = resolve(&moving, &wall).unwrap();
    let new_right = moving.center.x - c.x + moving.size.x / 2;
    let wall_left = wall.center.x - wall.size.x / 2;
    assert_eq!(new_right, wall_left);
}
