use smart_road::direction::Direction;
use smart_road::geometry::FRect;
use smart_road::grid::{calculate_coordinates, intersection_cells, CalculatedCoordinates, IntersectionCell};

#[test]
fn coordinates_of_turning_routes() {
    assert_eq!(
        calculate_coordinates(Direction::Up, Direction::Left),
        CalculatedCoordinates { starting_x: 228, starting_y: -57, turn_x: None, turn_y: Some(228) }
    );
    assert_eq!(
        calculate_coordinates(Direction::Right, Direction::Up),
        CalculatedCoordinates { starting_x: 800, starting_y: 228, turn_x: Some(513), turn_y: None }
    );
    assert_eq!(
        calculate_coordinates(Direction::Left, Direction::Down),
        CalculatedCoordinates { starting_x: -57, starting_y: 513, turn_x: Some(228), turn_y: None }
    );
}

#[test]
fn coordinates_of_straight_routes() {
    assert_eq!(
        calculate_coordinates(Direction::Down, Direction::Up),
        CalculatedCoordinates { starting_x: 456, starting_y: 800, turn_x: None, turn_y: None }
    );
    assert_eq!(
        calculate_coordinates(Direction::Right, Direction::Left),
        CalculatedCoordinates { starting_x: 800, starting_y: 285, turn_x: None, turn_y: None }
    );
}

#[test]
fn cells_cover_the_intersection() {
    let cells = intersection_cells();
    assert_eq!(cells.len(), 16);
    assert_eq!(cells[0], IntersectionCell { x: 285, y: 285, width: 57, height: 57 });
    assert_eq!(cells[1], IntersectionCell { x: 285, y: 342, width: 57, height: 57 });
    assert_eq!(cells[15], IntersectionCell { x: 456, y: 456, width: 57, height: 57 });
}

#[test]
fn cell_contains_by_centre() {
    let cell = IntersectionCell { x: 285, y: 285, width: 57, height: 57 };
    assert!(cell.contains(&FRect::new(280, 280, 20, 20)));
    assert!(cell.contains(&FRect::new(322, 322, 40, 40)));
    assert!(!cell.contains(&FRect::new(324, 280, 40, 20)));
    assert!(!cell.contains(&FRect::new(200, 200, 20, 20)));
}

#[test]
fn direction_opposite_and_pick() {
    assert_eq!(Direction::Up.opposite(), Direction::Down);
    assert_eq!(Direction::Left.opposite(), Direction::Right);
    assert_eq!(Direction::pick(0, None), Direction::Up);
    assert_eq!(Direction::pick(3, None), Direction::Right);
    assert_eq!(Direction::pick(0, Some(Direction::Up)), Direction::Left);
    assert_eq!(Direction::pick(1, Some(Direction::Left)), Direction::Down);
    assert_eq!(Direction::pick(2, Some(Direction::Left)), Direction::Right);
    assert_eq!(Direction::pick(2, Some(Direction::Right)), Direction::Down);
}

#[test]
fn random_direction_avoids_exclusion() {
    for _ in 0..200 {
        assert_ne!(Direction::new(Some(Direction::Down)), Direction::Down);
        assert_ne!(Direction::new(Some(Direction::Up)), Direction::Up);
    }
    let mut seen_right = false;
    for _ in 0..400 {
        if Direction::new(None) == Direction::Right {
            seen_right = true;
        }
    }
    assert!(seen_right);
}
