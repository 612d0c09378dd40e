use flappy_core::geom::oriented_box;
use flappy_core::geom::test_collision;
use flappy_core::geom::CollisionPolygon;
use flappy_core::geom::Vec2;

fn triangle(points: [(i64, i64); 3]) -> CollisionPolygon {
    let pts = points.iter().map(|&(x, y)| Vec2::new(x, y)).collect();
    CollisionPolygon::try_new(pts).expect("fixed template must be convex")
}

#[test]
fn rectangle_inside_polygon_collides() {
    // A large triangle and the player's rectangle well inside it.
    let tri = triangle([(-300_000_000, -200_000_000), (300_000_000, -200_000_000), (0, 250_000_000)]);
    let rect = oriented_box(0, -20_000_000, 22_000, 18_250, 0);
    assert!(test_collision(&rect, Vec2::new(0, 0), &tri, Vec2::new(0, 0)));
}

#[test]
fn distant_rectangle_does_not_collide() {
    let tri = triangle([(-300_000_000, -200_000_000), (300_000_000, -200_000_000), (0, 250_000_000)]);
    let rect = oriented_box(900_000_000, 0, 22_000, 18_250, 0);
    assert!(!test_collision(&rect, Vec2::new(0, 0), &tri, Vec2::new(0, 0)));
}

#[test]
fn edge_touching_is_not_a_collision() {
    // The rectangle's right edge sits exactly on the triangle's vertical
    // left edge: distance zero, no overlap — must not count.
    let rect = oriented_box(0, 0, 22_000, 18_250, 0);
    let tri = triangle([(22_000_000, -50_000_000), (122_000_000, 0), (22_000_000, 50_000_000)]);
    assert!(!test_collision(&rect, Vec2::new(0, 0), &tri, Vec2::new(0, 0)));
    // One micro-unit of overlap flips the answer.
    assert!(test_collision(&rect, Vec2::new(0, 0), &tri, Vec2::new(-1, 0)));
}

#[test]
fn rotation_affects_collision() {
    // A tall thin box near a triangle: upright it misses, turned on its
    // side it reaches far enough to overlap.
    let tri = triangle([(60_000_000, -50_000_000), (160_000_000, 0), (60_000_000, 50_000_000)]);
    let upright = oriented_box(0, 0, 10_000, 70_000, 0);
    assert!(!test_collision(&upright, Vec2::new(0, 0), &tri, Vec2::new(0, 0)));
    let sideways = oriented_box(0, 0, 10_000, 70_000, 90_000);
    assert!(test_collision(&sideways, Vec2::new(0, 0), &tri, Vec2::new(0, 0)));
}

#[test]
fn polygon_construction_rejects_bad_point_sets() {
    // Fewer than three points.
    let two = vec![Vec2::new(0, 0), Vec2::new(1_000, 0)];
    assert!(CollisionPolygon::try_new(two).is_none());
    // Collinear (degenerate) points.
    let line = vec![Vec2::new(0, 0), Vec2::new(1_000, 0), Vec2::new(2_000, 0)];
    assert!(CollisionPolygon::try_new(line).is_none());
    // A non-convex quadrilateral.
    let dent = vec![
        Vec2::new(0, 0),
        Vec2::new(100_000, 0),
        Vec2::new(10_000, 10_000),
        Vec2::new(0, 100_000),
    ];
    assert!(CollisionPolygon::try_new(dent).is_none());
    // A proper convex quadrilateral passes.
    let quad = vec![
        Vec2::new(0, 0),
        Vec2::new(100_000, 0),
        Vec2::new(100_000, 100_000),
        Vec2::new(0, 100_000),
    ];
    assert!(CollisionPolygon::try_new(quad).is_some());
}
