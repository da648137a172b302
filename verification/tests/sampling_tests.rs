use lowpoly::geometry::Point;
use lowpoly::sampling::{generate_points, DEFAULT_POINT_COUNT};
use rand::rngs::StdRng;
use rand::SeedableRng;

#[test]
fn points_lie_on_the_canvas() {
    let mut rng = StdRng::seed_from_u64(1);
    let points = generate_points(&mut rng, 800, 600, DEFAULT_POINT_COUNT);
    assert_eq!(points.len(), 100);
    for point in points.iter() {
        assert!(point.x < 800);
        assert!(point.y < 600);
    }
}

#[test]
fn as_many_points_as_asked_for() {
    let mut rng = StdRng::seed_from_u64(2);
    assert!(generate_points(&mut rng, 800, 600, 0).is_empty());
    assert_eq!(generate_points(&mut rng, 800, 600, 1).len(), 1);
    assert_eq!(generate_points(&mut rng, 3, 2, 1000).len(), 1000);
}

#[test]
fn smallest_canvas_has_one_point() {
    let mut rng = StdRng::seed_from_u64(3);
    let points = generate_points(&mut rng, 1, 1, 10);
    assert_eq!(points, vec![Point { x: 0, y: 0 }; 10]);
}

#[test]
fn narrow_canvas_keeps_each_coordinate_in_its_own_range() {
    let mut rng = StdRng::seed_from_u64(4);
    for point in generate_points(&mut rng, 1, 1000, 200) {
        assert_eq!(point.x, 0);
        assert!(point.y < 1000);
    }
    for point in generate_points(&mut rng, 1000, 1, 200) {
        assert!(point.x < 1000);
        assert_eq!(point.y, 0);
    }
}

#[test]
fn points_are_spread_over_the_canvas() {
    let mut rng = StdRng::seed_from_u64(5);
    let points = generate_points(&mut rng, 800, 600, 1000);
    assert!(points.iter().any(|p| p.x < 400 && p.y < 300));
    assert!(points.iter().any(|p| p.x >= 400 && p.y < 300));
    assert!(points.iter().any(|p| p.x < 400 && p.y >= 300));
    assert!(points.iter().any(|p| p.x >= 400 && p.y >= 300));
}

#[test]
fn same_seed_gives_the_same_points() {
    let mut first = StdRng::seed_from_u64(6);
    let mut second = StdRng::seed_from_u64(6);
    assert_eq!(
        generate_points(&mut first, 800, 600, 100),
        generate_points(&mut second, 800, 600, 100)
    );
}
