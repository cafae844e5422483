use arcade::collision::{can_resolve, resolve_collision, try_resolve_collision};
use arcade::geometry::{Rect, Velocity};

#[test]
fn separated_rectangles_are_left_alone() {
    let mut a = Rect::new(0, 0, 10, 10);
    let mut v = Velocity::new(3, -4);
    let b = Rect::new(50, 50, 10, 10);
    assert!(!resolve_collision(&mut a, &mut v, &b));
    assert_eq!(a, Rect::new(0, 0, 10, 10));
    assert_eq!(v, Velocity::new(3, -4));
    assert_eq!(b, Rect::new(50, 50, 10, 10));
}

#[test]
fn overlap_on_one_axis_only_is_no_collision() {
    let mut a = Rect::new(0, 0, 10, 10);
    let mut v = Velocity::new(1, 1);
    let b = Rect::new(5, 40, 10, 10);
    assert!(!resolve_collision(&mut a, &mut v, &b));
    assert_eq!(a, Rect::new(0, 0, 10, 10));
    assert_eq!(v, Velocity::new(1, 1));
}

#[test]
fn falling_onto_a_platform_lands_on_top() {
    let mut a = Rect::new(45, 90, 15, 15);
    let mut v = Velocity::new(0, 5);
    let b = Rect::new(40, 100, 100, 20);
    assert!(resolve_collision(&mut a, &mut v, &b));
    assert_eq!(a.y, 85);
    assert_eq!(a.y + a.h, b.y);
    assert_eq!(a.x, 45);
    assert_eq!((a.w, a.h), (15, 15));
    assert_eq!(v, Velocity::new(0, -5));
    assert_eq!(b, Rect::new(40, 100, 100, 20));
}

#[test]
fn rising_into_a_ceiling_stops_below() {
    let mut a = Rect::new(50, 115, 15, 15);
    let mut v = Velocity::new(2, -5);
    let b = Rect::new(40, 100, 100, 20);
    assert!(resolve_collision(&mut a, &mut v, &b));
    assert_eq!(a.y, 120);
    assert_eq!(a.x, 50);
    assert_eq!(v, Velocity::new(2, 5));
}

#[test]
fn resting_rectangle_in_vertical_contact_is_pushed_below() {
    let mut a = Rect::new(50, 95, 15, 15);
    let mut v = Velocity::new(0, 0);
    let b = Rect::new(40, 100, 100, 20);
    assert!(resolve_collision(&mut a, &mut v, &b));
    assert_eq!(a.y, 120);
    assert_eq!(v, Velocity::new(0, 0));
}

#[test]
fn running_into_a_wall_from_the_left_stops_at_its_left_side() {
    let mut a = Rect::new(92, 40, 10, 10);
    let mut v = Velocity::new(4, 1);
    let b = Rect::new(100, 0, 20, 100);
    assert!(resolve_collision(&mut a, &mut v, &b));
    assert_eq!(a.x, 90);
    assert_eq!(a.x + a.w, b.x);
    assert_eq!(a.y, 40);
    assert_eq!(v, Velocity::new(-4, 1));
}

#[test]
fn running_into_a_wall_from_the_right_stops_at_its_right_side() {
    let mut a = Rect::new(118, 40, 10, 10);
    let mut v = Velocity::new(-4, 1);
    let b = Rect::new(100, 0, 20, 100);
    assert!(resolve_collision(&mut a, &mut v, &b));
    assert_eq!(a.x, 120);
    assert_eq!(a.y, 40);
    assert_eq!(v, Velocity::new(4, 1));
}

#[test]
fn resolving_twice_finds_nothing_the_second_time() {
    let mut a = Rect::new(45, 90, 15, 15);
    let mut v = Velocity::new(0, 5);
    let b = Rect::new(40, 100, 100, 20);
    assert!(resolve_collision(&mut a, &mut v, &b));
    let (a1, v1) = (a, v);
    assert!(!resolve_collision(&mut a, &mut v, &b));
    assert_eq!(a, a1);
    assert_eq!(v, v1);

    let mut c = Rect::new(92, 40, 10, 10);
    let mut w = Velocity::new(4, 1);
    let wall = Rect::new(100, 0, 20, 100);
    assert!(resolve_collision(&mut c, &mut w, &wall));
    assert!(!resolve_collision(&mut c, &mut w, &wall));
}

#[test]
fn sharing_only_an_edge_is_no_collision() {
    let b = Rect::new(40, 100, 100, 20);

    let mut above = Rect::new(45, 85, 15, 15);
    let mut v = Velocity::new(0, 5);
    assert!(!resolve_collision(&mut above, &mut v, &b));
    assert_eq!(above, Rect::new(45, 85, 15, 15));
    assert_eq!(v, Velocity::new(0, 5));

    let mut left = Rect::new(25, 100, 15, 15);
    let mut v = Velocity::new(5, 0);
    assert!(!resolve_collision(&mut left, &mut v, &b));
    assert_eq!(left, Rect::new(25, 100, 15, 15));

    let mut right = Rect::new(140, 105, 15, 15);
    assert!(!resolve_collision(&mut right, &mut v, &b));

    let mut below = Rect::new(45, 120, 15, 15);
    assert!(!resolve_collision(&mut below, &mut v, &b));
}

#[test]
fn sharing_only_a_corner_is_no_collision() {
    let b = Rect::new(40, 100, 100, 20);
    let mut a = Rect::new(25, 85, 15, 15);
    let mut v = Velocity::new(5, 5);
    assert!(!resolve_collision(&mut a, &mut v, &b));
    assert_eq!(a, Rect::new(25, 85, 15, 15));
    assert_eq!(v, Velocity::new(5, 5));
}

#[test]
fn square_overlap_at_a_corner_is_corrected_horizontally() {
    // The shared region is 5 by 5: not wider than tall, so the correction
    // is horizontal although the rectangle is falling.
    let mut a = Rect::new(30, 90, 15, 15);
    let mut v = Velocity::new(3, 3);
    let b = Rect::new(40, 100, 100, 20);
    assert!(resolve_collision(&mut a, &mut v, &b));
    assert_eq!(a, Rect::new(25, 90, 15, 15));
    assert_eq!(v, Velocity::new(-3, 3));
}

#[test]
fn corner_overlap_follows_the_larger_extent_of_the_shared_region() {
    let b = Rect::new(40, 100, 100, 20);

    // Shared region 6 wide, 5 tall: vertical.
    let mut a = Rect::new(31, 90, 15, 15);
    let mut v = Velocity::new(3, 3);
    assert!(resolve_collision(&mut a, &mut v, &b));
    assert_eq!(a, Rect::new(31, 85, 15, 15));
    assert_eq!(v, Velocity::new(3, -3));

    // Shared region 5 wide, 6 tall: horizontal.
    let mut a = Rect::new(30, 91, 15, 15);
    let mut v = Velocity::new(3, 3);
    assert!(resolve_collision(&mut a, &mut v, &b));
    assert_eq!(a, Rect::new(25, 91, 15, 15));
    assert_eq!(v, Velocity::new(-3, 3));
}

#[test]
fn fast_rectangle_passes_a_thin_obstacle_between_steps() {
    let wall = Rect::new(100, 0, 2, 100);
    let mut a = Rect::new(80, 40, 10, 10);
    let mut v = Velocity::new(30, 0);
    assert!(!resolve_collision(&mut a, &mut v, &wall));
    a.x += v.x;
    assert!(!resolve_collision(&mut a, &mut v, &wall));
    assert_eq!(a, Rect::new(110, 40, 10, 10));
    assert_eq!(v, Velocity::new(30, 0));
}

#[test]
fn two_targets_are_resolved_one_after_the_other() {
    // Resolving against the second target pushes the rectangle back into
    // the first one: nothing is promised about both at once.
    let first = Rect::new(0, 20, 100, 20);
    let second = Rect::new(20, 0, 50, 15);
    let mut a = Rect::new(30, 12, 12, 10);
    let mut v = Velocity::new(2, 2);
    assert!(resolve_collision(&mut a, &mut v, &first));
    assert_eq!(a, Rect::new(30, 10, 12, 10));
    assert_eq!(v, Velocity::new(2, -2));
    assert!(resolve_collision(&mut a, &mut v, &second));
    assert_eq!(a, Rect::new(30, 15, 12, 10));
    assert_eq!(v, Velocity::new(2, 2));
    assert!(!a.overlaps(&second));
    assert!(a.overlaps(&first));
}

#[test]
fn rectangle_without_area_collides_with_nothing() {
    let b = Rect::new(0, 0, 100, 100);
    let mut a = Rect { x: 10, y: 10, w: 0, h: 20 };
    let mut v = Velocity::new(1, 1);
    assert!(!a.is_wf());
    assert!(!resolve_collision(&mut a, &mut v, &b));
    assert_eq!(a, Rect { x: 10, y: 10, w: 0, h: 20 });
    let mut a = Rect { x: 10, y: 10, w: 20, h: -5 };
    assert!(!resolve_collision(&mut a, &mut v, &b));
    assert_eq!(a, Rect { x: 10, y: 10, w: 20, h: -5 });
    assert_eq!(v, Velocity::new(1, 1));
}

#[test]
fn outcome_that_cannot_be_stored_is_refused() {
    let b = Rect::new(0, i32::MIN + 5, 100, 100);
    let mut a = Rect::new(10, i32::MIN, 15, 15);
    let mut v = Velocity::new(0, 5);
    assert!(!can_resolve(&a, &v, &b));
    assert_eq!(try_resolve_collision(&mut a, &mut v, &b), None);
    assert_eq!(a, Rect::new(10, i32::MIN, 15, 15));
    assert_eq!(v, Velocity::new(0, 5));

    let b = Rect::new(0, 0, 100, 100);
    let mut a = Rect::new(10, -5, 15, 15);
    let mut v = Velocity::new(0, i32::MIN);
    assert!(!can_resolve(&a, &v, &b));
    assert_eq!(try_resolve_collision(&mut a, &mut v, &b), None);

    let mut v = Velocity::new(i32::MIN, 5);
    assert!(can_resolve(&a, &v, &b));
    assert_eq!(try_resolve_collision(&mut a, &mut v, &b), Some(true));
    assert_eq!(a, Rect::new(10, -15, 15, 15));
    assert_eq!(v, Velocity::new(i32::MIN, -5));
}

#[test]
fn checked_resolution_agrees_with_the_plain_one() {
    let b = Rect::new(40, 100, 100, 20);
    let mut a = Rect::new(45, 90, 15, 15);
    let mut v = Velocity::new(0, 5);
    assert!(can_resolve(&a, &v, &b));
    assert_eq!(try_resolve_collision(&mut a, &mut v, &b), Some(true));
    assert_eq!(a, Rect::new(45, 85, 15, 15));
    assert_eq!(v, Velocity::new(0, -5));
    assert_eq!(try_resolve_collision(&mut a, &mut v, &b), Some(false));
    assert_eq!(a, Rect::new(45, 85, 15, 15));
}

#[test]
fn extreme_coordinates_do_not_overflow() {
    let b = Rect::new(i32::MAX - 10, i32::MAX - 10, 10, 10);
    let mut a = Rect::new(i32::MAX - 15, i32::MAX - 12, 10, 4);
    let mut v = Velocity::new(1, 0);
    assert_eq!(try_resolve_collision(&mut a, &mut v, &b), Some(true));
    assert_eq!(a, Rect::new(i32::MAX - 15, i32::MAX, 10, 4));
    assert_eq!(v, Velocity::new(1, 0));
}
