use arcade::geometry::{div_toward_zero, Rect, Velocity};

#[test]
fn intersection_of_overlapping_rectangles() {
    let a = Rect::new(45, 90, 15, 15);
    let b = Rect::new(40, 100, 100, 20);
    assert_eq!(a.intersect(&b), Some(Rect::new(45, 100, 15, 5)));
    assert_eq!(b.intersect(&a), Some(Rect::new(45, 100, 15, 5)));
    assert!(a.overlaps(&b));
    assert!(b.overlaps(&a));
}

#[test]
fn intersection_of_nested_rectangles_is_the_inner_one() {
    let outer = Rect::new(-10, -10, 100, 100);
    let inner = Rect::new(5, 6, 7, 8);
    assert_eq!(outer.intersect(&inner), Some(inner));
    assert_eq!(inner.intersect(&outer), Some(inner));
    assert_eq!(inner.intersect(&inner), Some(inner));
}

#[test]
fn touching_rectangles_do_not_intersect() {
    let a = Rect::new(0, 0, 10, 10);
    assert_eq!(a.intersect(&Rect::new(10, 0, 10, 10)), None);
    assert_eq!(a.intersect(&Rect::new(0, 10, 10, 10)), None);
    assert_eq!(a.intersect(&Rect::new(-10, 0, 10, 10)), None);
    assert_eq!(a.intersect(&Rect::new(0, -10, 10, 10)), None);
    assert_eq!(a.intersect(&Rect::new(10, 10, 10, 10)), None);
    assert!(!a.overlaps(&Rect::new(10, 0, 10, 10)));
}

#[test]
fn distant_rectangles_do_not_intersect() {
    let a = Rect::new(0, 0, 10, 10);
    assert_eq!(a.intersect(&Rect::new(11, 0, 10, 10)), None);
    assert_eq!(a.intersect(&Rect::new(0, 500, 10, 10)), None);
    assert_eq!(a.intersect(&Rect::new(i32::MIN, i32::MIN, 10, 10)), None);
}

#[test]
fn overlap_by_one_unit_is_an_intersection() {
    let a = Rect::new(0, 0, 10, 10);
    assert_eq!(a.intersect(&Rect::new(9, 9, 10, 10)), Some(Rect::new(9, 9, 1, 1)));
}

#[test]
fn intersection_at_the_limits_of_the_coordinates() {
    let a = Rect::new(i32::MIN, i32::MIN, i32::MAX, i32::MAX);
    let b = Rect::new(-2, -2, i32::MAX, i32::MAX);
    assert_eq!(a.intersect(&b), Some(Rect::new(-2, -2, 1, 1)));
    let c = Rect::new(i32::MAX, i32::MAX, i32::MAX, i32::MAX);
    assert_eq!(c.intersect(&c), Some(c));
    assert_eq!(a.intersect(&c), None);
}

#[test]
fn well_formed_means_positive_sizes() {
    assert!(Rect::new(0, 0, 1, 1).is_wf());
    assert!(Rect::new(-5, -5, 3, 4).is_wf());
    assert!(!Rect { x: 0, y: 0, w: 0, h: 1 }.is_wf());
    assert!(!Rect { x: 0, y: 0, w: 1, h: 0 }.is_wf());
    assert!(!Rect { x: 0, y: 0, w: -1, h: 5 }.is_wf());
}

#[test]
fn constructors_keep_their_arguments() {
    let r = Rect::new(1, 2, 3, 4);
    assert_eq!((r.x, r.y, r.w, r.h), (1, 2, 3, 4));
    let v = Velocity::new(-7, 9);
    assert_eq!((v.x, v.y), (-7, 9));
}

#[test]
fn division_rounds_toward_zero() {
    assert_eq!(div_toward_zero(7, 2), 3);
    assert_eq!(div_toward_zero(-7, 2), -3);
    assert_eq!(div_toward_zero(6, 3), 2);
    assert_eq!(div_toward_zero(-6, 3), -2);
    assert_eq!(div_toward_zero(0, 5), 0);
    assert_eq!(div_toward_zero(-1, 5), 0);
    assert_eq!(div_toward_zero(1, 5), 0);
    assert_eq!(div_toward_zero(i64::MAX, 1), i64::MAX);
    assert_eq!(div_toward_zero(i64::MIN + 1, i64::MAX), -1);
}
