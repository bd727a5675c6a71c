use smart_road::geometry::{FRect, Vec2};

#[test]
fn intersect_returns_overlap() {
    let a = FRect::new(0, 0, 10, 10);
    let b = FRect::new(5, 5, 10, 10);
    assert_eq!(a.intersect(b), Some(FRect::new(5, 5, 5, 5)));
    assert_eq!(b.intersect(a), Some(FRect::new(5, 5, 5, 5)));
}

#[test]
fn intersect_edge_touching_is_none() {
    let a = FRect::new(0, 0, 10, 10);
    assert_eq!(a.intersect(FRect::new(10, 0, 10, 10)), None);
    assert_eq!(a.intersect(FRect::new(0, 10, 10, 10)), None);
    assert_eq!(a.intersect(FRect::new(30, 30, 5, 5)), None);
}

#[test]
fn intersect_contained_rectangle() {
    let a = FRect::new(-100, -100, 400, 400);
    let b = FRect::new(10, 20, 30, 40);
    assert_eq!(a.intersect(b), Some(b));
}

#[test]
fn distance_is_euclidean_rounded_down() {
    assert_eq!(Vec2::new(0, 0).distance(Vec2::new(300, 400)), 500);
    assert_eq!(Vec2::new(10, 10).distance(Vec2::new(11, 11)), 1);
    assert_eq!(Vec2::new(5, -7).distance(Vec2::new(5, -7)), 0);
    assert_eq!(Vec2::new(0, 0).distance(Vec2::new(1999, 0)), 1999);
    assert_eq!(Vec2::new(-3, 0).distance(Vec2::new(0, -4)), 5);
}
