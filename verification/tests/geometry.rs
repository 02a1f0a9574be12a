use game_core::{circles_overlap, clamp_to_rect, Circle, Point, Rect};

fn rect(min_x: i64, min_y: i64, max_x: i64, max_y: i64) -> Rect {
    Rect::new(min_x, min_y, max_x, max_y)
}

#[test]
fn contains_is_inclusive_of_edges() {
    let r = rect(-1200, -640, 1200, 640);
    assert!(r.contains(Point::new(0, 0)));
    assert!(r.contains(Point::new(-1200, -640)));
    assert!(r.contains(Point::new(1200, 640)));
    assert!(!r.contains(Point::new(1201, 0)));
    assert!(!r.contains(Point::new(0, -641)));
}

#[test]
fn corners_read_off_the_bounds() {
    let r = rect(-10, -20, 30, 40);
    let (left_top, left_bottom, right_top, right_bottom) = r.corners();
    assert_eq!((left_top.x, left_top.y), (-10, 40));
    assert_eq!((left_bottom.x, left_bottom.y), (-10, -20));
    assert_eq!((right_top.x, right_top.y), (30, 40));
    assert_eq!((right_bottom.x, right_bottom.y), (30, -20));
}

#[test]
fn clamp_keeps_inside_points_and_pulls_back_outside_ones() {
    let play = rect(-600, -320, 600, 320);
    let inside = clamp_to_rect(Point::new(100, -200), &play);
    assert_eq!((inside.x, inside.y), (100, -200));
    let outside = clamp_to_rect(Point::new(700, -400), &play);
    assert_eq!((outside.x, outside.y), (600, -320));
}

#[test]
fn circles_overlap_strictly_below_radius_sum() {
    let player = Circle::new(Point::new(0, 0), 25);
    let near_rock = Circle::new(Point::new(30, 0), 10);
    let touching = Circle::new(Point::new(35, 0), 10);
    let far = Circle::new(Point::new(100, 100), 10);
    assert!(circles_overlap(&player, &near_rock));
    // tangent circles do not count as overlapping
    assert!(!circles_overlap(&player, &touching));
    assert!(!circles_overlap(&player, &far));
}

#[test]
fn overlap_is_symmetric() {
    let a = Circle::new(Point::new(3, 4), 7);
    let b = Circle::new(Point::new(-2, 9), 5);
    assert_eq!(circles_overlap(&a, &b), circles_overlap(&b, &a));
}
