use lowpoly::geometry::{circumcircle_sign, doubled_area, Point, Triangle, MAX_COORDINATE};

fn point(x: u32, y: u32) -> Point {
    Point { x, y }
}

#[test]
fn triangle_is_made_of_its_corners() {
    let triangle = Triangle::new((1, 2), (3, 4), (5, 6));
    assert_eq!(triangle.a, point(1, 2));
    assert_eq!(triangle.b, point(3, 4));
    assert_eq!(triangle.c, point(5, 6));
}

#[test]
fn center_is_the_mean_rounded_down() {
    assert_eq!(Triangle::new((0, 0), (10, 0), (10, 10)).center(), point(6, 3));
    assert_eq!(Triangle::new((3, 3), (3, 3), (3, 3)).center(), point(3, 3));
    assert_eq!(Triangle::new((0, 0), (0, 0), (2, 1)).center(), point(0, 0));
    assert_eq!(Triangle::new((300, 0), (600, 0), (300, 600)).center(), point(400, 200));
}

#[test]
fn center_of_the_largest_coordinates() {
    let far = u32::MAX;
    assert_eq!(Triangle::new((far, far), (far, far), (far, far)).center(), point(far, far));
    assert_eq!(Triangle::new((far, 0), (far, 1), (far - 1, 2)).center(), point(far - 1, 1));
}

#[test]
fn doubled_area_is_positive_counter_clockwise_on_the_canvas() {
    assert_eq!(doubled_area(point(0, 0), point(10, 10), point(10, 0)), 100);
    assert_eq!(doubled_area(point(10, 10), point(10, 0), point(0, 0)), 100);
}

#[test]
fn doubled_area_is_negative_clockwise_on_the_canvas() {
    assert_eq!(doubled_area(point(0, 0), point(10, 0), point(10, 10)), -100);
}

#[test]
fn doubled_area_of_points_on_a_line_is_zero() {
    assert_eq!(doubled_area(point(0, 0), point(5, 5), point(10, 10)), 0);
    assert_eq!(doubled_area(point(1, 7), point(1, 7), point(4, 2)), 0);
    assert_eq!(doubled_area(point(3, 3), point(3, 3), point(3, 3)), 0);
}

#[test]
fn doubled_area_of_the_largest_triangle() {
    let far = u32::MAX;
    let side = far as i128;
    assert_eq!(doubled_area(point(0, 0), point(far, far), point(far, 0)), side * side);
    assert_eq!(doubled_area(point(0, 0), point(far, 0), point(far, far)), -side * side);
}

#[test]
fn circumcircle_sign_tells_inside_from_outside() {
    let (a, b, c) = (point(0, 0), point(10, 10), point(10, 0));
    assert!(doubled_area(a, b, c) > 0);
    assert!(circumcircle_sign(a, b, c, point(5, 5)) < 0);
    assert!(circumcircle_sign(a, b, c, point(9, 1)) < 0);
    assert!(circumcircle_sign(a, b, c, point(20, 20)) > 0);
    assert!(circumcircle_sign(a, b, c, point(5, 13)) > 0);
}

#[test]
fn circumcircle_sign_is_zero_on_the_circle() {
    let (a, b, c) = (point(0, 0), point(10, 10), point(10, 0));
    assert_eq!(circumcircle_sign(a, b, c, point(0, 10)), 0);
    assert_eq!(circumcircle_sign(a, b, c, a), 0);
    assert_eq!(circumcircle_sign(a, b, c, b), 0);
    assert_eq!(circumcircle_sign(a, b, c, c), 0);
}

#[test]
fn circumcircle_sign_exact_value() {
    // rows (a - p, |a - p|^2) for p = (1, 1): (-1, -1, 2), (1, 1, 2), (1, -1, 2)
    let (a, b, c) = (point(0, 0), point(2, 2), point(2, 0));
    assert_eq!(circumcircle_sign(a, b, c, point(1, 1)), -8);
}

#[test]
fn circumcircle_sign_at_the_coordinate_limit() {
    let far = MAX_COORDINATE;
    let (a, b, c) = (point(0, 0), point(far, far), point(far, 0));
    assert_eq!(circumcircle_sign(a, b, c, point(0, far)), 0);
    assert!(circumcircle_sign(a, b, c, point(1, far - 1)) < 0);
    assert!(circumcircle_sign(a, b, c, point(far / 2, far / 2)) < 0);
}
