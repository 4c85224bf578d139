use global_input::position::{axis_distance_between, is_farther_than, Point};

#[test]
fn origin_is_zero_zero() {
    assert_eq!(Point::origin(), Point { x: 0, y: 0 });
    assert_eq!(Point::new(3, -4), Point { x: 3, y: -4 });
}

#[test]
fn axis_distance_is_absolute_difference() {
    assert_eq!(axis_distance_between(10, 3), 7);
    assert_eq!(axis_distance_between(3, 10), 7);
    assert_eq!(axis_distance_between(-5, 5), 10);
    assert_eq!(axis_distance_between(7, 7), 0);
}

#[test]
fn axis_distance_spans_the_whole_range() {
    assert_eq!(axis_distance_between(i64::MIN, i64::MAX), u64::MAX);
    assert_eq!(axis_distance_between(i64::MAX, i64::MIN), u64::MAX);
    assert_eq!(axis_distance_between(i64::MIN, 0), 1u64 << 63);
}

#[test]
fn three_four_five_triangle_is_not_farther_than_five() {
    let a = Point::new(0, 0);
    let b = Point::new(3, 4);
    assert!(!is_farther_than(a, b, 5));
    assert!(is_farther_than(a, b, 4));
    assert!(!is_farther_than(a, b, 6));
}

#[test]
fn distance_just_past_the_limit_counts() {
    // The squared distance is 26, the squared limit 25.
    assert!(is_farther_than(Point::new(0, 0), Point::new(5, 1), 5));
    // The squared distance is 25: not strictly farther.
    assert!(!is_farther_than(Point::new(0, 0), Point::new(5, 0), 5));
    assert!(!is_farther_than(Point::new(0, 0), Point::new(0, -5), 5));
}

#[test]
fn distance_test_is_symmetric() {
    let a = Point::new(-7, 12);
    let b = Point::new(40, -3);
    for limit in [0u64, 10, 49, 50, 1000] {
        assert_eq!(is_farther_than(a, b, limit), is_farther_than(b, a, limit));
    }
}

#[test]
fn a_point_is_never_farther_than_itself() {
    let a = Point::new(123, -456);
    assert!(!is_farther_than(a, a, 0));
    assert!(!is_farther_than(a, a, 1));
    assert!(!is_farther_than(a, a, u64::MAX));
}

#[test]
fn zero_limit_separates_distinct_points() {
    let a = Point::new(1, 1);
    assert!(is_farther_than(a, Point::new(1, 2), 0));
    assert!(is_farther_than(a, Point::new(0, 1), 0));
    assert!(!is_farther_than(a, Point::new(1, 1), 0));
}

#[test]
fn extreme_coordinates_do_not_overflow() {
    let low = Point::new(i64::MIN, i64::MIN);
    let high = Point::new(i64::MAX, i64::MAX);
    // The distance is (2^64 - 1) * sqrt(2), which is more than 2^64 - 1.
    assert!(is_farther_than(low, high, u64::MAX));
    // Along one axis only, the distance is exactly 2^64 - 1.
    let right = Point::new(i64::MAX, i64::MIN);
    assert!(!is_farther_than(low, right, u64::MAX));
    assert!(is_farther_than(low, right, u64::MAX - 1));
}
