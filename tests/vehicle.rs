use smart_road::car::{check_perpendicular_and_move_back, Car, IntersectionState};
use smart_road::geometry::{FRect, Vec2};
use smart_road::lanes::{Behavior, Heading};
use smart_road::sim::core_intersection;

fn car_at(id: u32, b: Behavior, h: Heading, rect: FRect, base: i64) -> Car {
    let mut c = Car::with_base_speed(id, b, h, base, 0);
    c.car_rect = rect;
    c
}

fn horizontal(x: i64, y: i64) -> FRect {
    FRect::new(x, y, 4300, 3300)
}

fn vertical(x: i64, y: i64) -> FRect {
    FRect::new(x, y, 3300, 4300)
}

#[test]
fn spawn_fields_follow_behavior() {
    let c = Car::with_base_speed(1, Behavior::RU, Heading::West, 100, 42);
    assert_eq!(c.spawn_point, Vec2::new(85000, 24450));
    assert_eq!(c.car_rect, FRect::new(85000, 24450, 4300, 3300));
    assert_eq!(c.radar, FRect::new(80700, 24450, 4300, 3300));
    assert_eq!(c.dest_point, Vec2::new(39900, -5000));
    assert_eq!((c.current_speed, c.randomized_initial_speed), (100, 100));
    assert_eq!(c.creation_ms, 42);
    assert!(!c.has_turned && !c.waiting_flag);
    assert_eq!(c.intersection_state, IntersectionState::Before);

    let d = Car::with_base_speed(2, Behavior::UD, Heading::South, 90, 0);
    assert_eq!(d.car_rect, FRect::new(29786, -5000, 3300, 4300));
    assert_eq!(d.dest_point, Vec2::new(29786, 80000));
}

#[test]
fn random_base_speed_in_range() {
    for id in 0..300 {
        let c = Car::new(id, Behavior::LR, Heading::East, 0);
        assert!(c.randomized_initial_speed >= 80 && c.randomized_initial_speed < 200);
        assert_eq!(c.current_speed, c.randomized_initial_speed);
        assert_eq!(c.car_rect, FRect::new(-5000, 47250, 4300, 3300));
    }
}

#[test]
fn radar_clips_to_nearest_obstruction() {
    let mut a = car_at(1, Behavior::LR, Heading::East, horizontal(0, 0), 100);
    let far = car_at(2, Behavior::LR, Heading::East, horizontal(7000, 0), 100);
    let near = car_at(3, Behavior::LR, Heading::East, horizontal(6000, 0), 100);
    let cars = vec![a, far, near];
    a.update_radar(0, &cars);
    assert_eq!(a.radar, FRect::new(4300, 0, 1700, 3300));
    a.adjust_current_speed();
    assert_eq!(a.current_speed, 25);
}

#[test]
fn radar_full_length_when_clear() {
    let mut a = car_at(1, Behavior::RL, Heading::West, horizontal(50000, 30150), 100);
    let behind = car_at(2, Behavior::RL, Heading::West, horizontal(56000, 30150), 100);
    let cars = vec![a, behind];
    a.update_radar(0, &cars);
    assert_eq!(a.radar, FRect::new(45700, 30150, 4300, 3300));
    a.adjust_current_speed();
    assert_eq!(a.current_speed, 100);
}

#[test]
fn vertical_radar_is_narrow_and_thresholds_differ() {
    let mut a = car_at(1, Behavior::DU, Heading::North, vertical(0, 10000), 100);
    let ahead = car_at(2, Behavior::DU, Heading::North, vertical(0, 3200), 100);
    let cars = vec![a, ahead];
    a.update_radar(0, &cars);
    assert_eq!(a.radar, FRect::new(150, 7500, 3000, 2500));
    a.adjust_current_speed();
    assert_eq!(a.current_speed, 50);

    let mut b = car_at(3, Behavior::LR, Heading::East, horizontal(0, 0), 100);
    b.radar = FRect::new(4300, 0, 2500, 3300);
    b.adjust_current_speed();
    assert_eq!(b.current_speed, 25);
}

#[test]
fn speed_tiers_horizontal() {
    let mut c = car_at(1, Behavior::LR, Heading::East, horizontal(0, 0), 100);
    for (w, expected) in [(0, 0), (300, 0), (301, 25), (3000, 25), (3001, 50), (3900, 50), (3901, 100), (4300, 100)] {
        c.radar = FRect::new(4300, 0, w, 3300);
        c.adjust_current_speed();
        assert_eq!(c.current_speed, expected, "gap {}", w);
    }
}

#[test]
fn speed_tiers_vertical() {
    let mut c = car_at(1, Behavior::UD, Heading::South, vertical(0, 0), 150);
    for (h, expected) in [(300, 0), (301, 37), (2000, 37), (2001, 75), (3900, 75), (3901, 150)] {
        c.radar = FRect::new(150, 4300, 3000, h);
        c.adjust_current_speed();
        assert_eq!(c.current_speed, expected, "gap {}", h);
    }
}

#[test]
fn turn_commits_when_clear() {
    let mut c = car_at(1, Behavior::RU, Heading::West, horizontal(51300, 24450), 100);
    let cars = vec![c];
    c.turn_if_can(&cars);
    assert_eq!(c.car_rect, FRect::new(51300, 23450, 3300, 4300));
    assert_eq!(c.current_direction, Heading::North);
    assert!(c.has_turned);
    assert!(!c.waiting_flag);
}

#[test]
fn turn_waits_when_blocked() {
    let mut c = car_at(1, Behavior::RU, Heading::West, horizontal(51300, 24450), 100);
    let blocker = car_at(2, Behavior::DU, Heading::North, vertical(52000, 20000), 100);
    let cars = vec![c, blocker];
    c.turn_if_can(&cars);
    assert_eq!(c.car_rect, FRect::new(51300, 24450, 4300, 3300));
    assert_eq!(c.current_direction, Heading::West);
    assert!(!c.has_turned);
    assert!(c.waiting_flag);
}

#[test]
fn turn_waits_for_trigger_and_happens_once() {
    let mut c = car_at(1, Behavior::LD, Heading::East, horizontal(20000, 52950), 100);
    let cars = vec![c];
    c.turn_if_can(&cars);
    assert_eq!(c.current_direction, Heading::East);
    assert!(!c.waiting_flag);
    c.car_rect = horizontal(24450, 52950);
    c.turn_if_can(&cars);
    assert_eq!(c.car_rect, FRect::new(24450, 52950, 3300, 4300));
    assert_eq!(c.current_direction, Heading::South);
    let after = c;
    c.turn_if_can(&cars);
    assert_eq!(c, after);
}

#[test]
fn straight_behavior_never_turns() {
    let mut c = car_at(1, Behavior::LR, Heading::East, horizontal(45000, 47250), 100);
    let before = c;
    c.turn_if_can(&vec![before]);
    assert_eq!(c, before);
}

#[test]
fn move_advances_when_clear() {
    let mut c = car_at(1, Behavior::LR, Heading::East, horizontal(0, 0), 100);
    let touching_after_move = car_at(2, Behavior::LR, Heading::East, horizontal(4400, 0), 100);
    let cars = vec![c, touching_after_move];
    c.move_one_step_if_no_collide(&cars, &core_intersection());
    assert_eq!(c.car_rect, horizontal(100, 0));
}

#[test]
fn move_blocked_by_overlap() {
    let mut c = car_at(1, Behavior::LR, Heading::East, horizontal(0, 0), 100);
    let other = car_at(2, Behavior::LR, Heading::East, horizontal(4350, 0), 100);
    let cars = vec![c, other];
    c.move_one_step_if_no_collide(&cars, &core_intersection());
    assert_eq!(c.car_rect, horizontal(0, 0));
}

#[test]
fn blocked_step_inside_core_marks_inside() {
    let core = core_intersection();
    let mut c = car_at(1, Behavior::LR, Heading::East, horizontal(30000, 47250), 100);
    let other = car_at(2, Behavior::LR, Heading::East, horizontal(34350, 47250), 100);
    let cars = vec![c, other];
    c.move_one_step_if_no_collide(&cars, &core);
    assert_eq!(c.car_rect, horizontal(30000, 47250));
    assert_eq!(c.intersection_state, IntersectionState::Inside);
}

#[test]
fn waiting_vehicle_does_not_move() {
    let mut c = car_at(1, Behavior::UD, Heading::South, vertical(29786, 0), 100);
    c.waiting_flag = true;
    let before = c;
    c.move_one_step_if_no_collide(&vec![before], &core_intersection());
    assert_eq!(c, before);
}

#[test]
fn phase_enters_and_leaves_core() {
    let core = core_intersection();
    let mut c = car_at(1, Behavior::LR, Heading::East, horizontal(18500, 47250), 100);
    c.move_one_step_if_no_collide(&vec![c], &core);
    assert_eq!(c.car_rect.x, 18600);
    assert_eq!(c.intersection_state, IntersectionState::Inside);
    c.car_rect = horizontal(56950, 47250);
    c.move_one_step_if_no_collide(&vec![c], &core);
    assert_eq!(c.car_rect.x, 57050);
    assert_eq!(c.intersection_state, IntersectionState::After);
    c.car_rect = horizontal(40000, 47250);
    c.move_one_step_if_no_collide(&vec![c], &core);
    assert_eq!(c.intersection_state, IntersectionState::After);
}

fn approaching(id: u32, b: Behavior) -> Car {
    let mut c = car_at(id, b, Heading::East, horizontal(18000, 41550), 100);
    c.radar = FRect::new(22300, 41550, 4300, 3300);
    c
}

fn inside(id: u32, b: Behavior, x: i64, y: i64) -> Car {
    car_at(id, b, Heading::East, horizontal(x, y), 100)
}

#[test]
fn arbiter_holds_for_same_code_inside() {
    let core = core_intersection();
    let mut c = approaching(1, Behavior::LU);
    let cars = vec![c, inside(2, Behavior::LU, 30000, 30000)];
    c.communicate_with_intersection(&cars, &core);
    assert!(c.waiting_flag);

    let mut d = approaching(1, Behavior::LU);
    d.waiting_flag = true;
    let cars = vec![d, inside(2, Behavior::RD, 30000, 30000)];
    d.communicate_with_intersection(&cars, &core);
    assert!(!d.waiting_flag);
}

#[test]
fn arbiter_cross_conflicts() {
    let core = core_intersection();
    let mut c = approaching(1, Behavior::UD);
    let cars = vec![c, inside(2, Behavior::RL, 30000, 30000)];
    c.communicate_with_intersection(&cars, &core);
    assert!(c.waiting_flag);

    let mut d = approaching(1, Behavior::DU);
    let cars = vec![d, inside(2, Behavior::UD, 30000, 30000)];
    d.communicate_with_intersection(&cars, &core);
    assert!(!d.waiting_flag);
}

#[test]
fn arbiter_ignores_vehicles_not_approaching() {
    let core = core_intersection();
    let mut c = car_at(1, Behavior::LU, Heading::East, horizontal(0, 41550), 100);
    c.radar = FRect::new(4300, 41550, 4300, 3300);
    c.waiting_flag = true;
    let cars = vec![c, inside(2, Behavior::LU, 30000, 30000)];
    c.communicate_with_intersection(&cars, &core);
    assert!(c.waiting_flag);
}

#[test]
fn arbiter_holds_right_turns_for_same_code() {
    let core = core_intersection();
    for b in [Behavior::RU, Behavior::LD, Behavior::UL, Behavior::DR] {
        let mut r = approaching(1, b);
        let cars = vec![r, inside(2, b, 30000, 30000)];
        r.communicate_with_intersection(&cars, &core);
        assert!(r.waiting_flag);
    }
    let mut r = approaching(1, Behavior::DR);
    r.waiting_flag = true;
    let cars = vec![r, inside(2, Behavior::UL, 30000, 30000)];
    r.communicate_with_intersection(&cars, &core);
    assert!(!r.waiting_flag);
}

#[test]
fn congestion_cap_holds_fifth_vehicle() {
    let core = core_intersection();
    let mut c = approaching(1, Behavior::LR);
    let cars = vec![
        c,
        inside(2, Behavior::UR, 25000, 25000),
        inside(3, Behavior::UR, 35000, 25000),
        inside(4, Behavior::DR, 25000, 35000),
        inside(5, Behavior::DR, 35000, 35000),
    ];
    c.communicate_with_intersection(&cars, &core);
    assert!(c.waiting_flag);

    let mut d = approaching(1, Behavior::LR);
    let cars = vec![d, inside(2, Behavior::DR, 25000, 35000), inside(3, Behavior::DR, 35000, 35000)];
    d.communicate_with_intersection(&cars, &core);
    assert!(!d.waiting_flag);
}

#[test]
fn deadlock_nudges_lower_index_back() {
    let mut a = car_at(1, Behavior::LU, Heading::East, horizontal(30000, 41550), 100);
    let mut b = car_at(2, Behavior::DL, Heading::North, vertical(34300, 38000), 100);
    for c in [&mut a, &mut b] {
        c.current_speed = 0;
        c.intersection_state = IntersectionState::Inside;
    }
    let mut cars = vec![a, b];
    check_perpendicular_and_move_back(&mut cars, 0, 1);
    assert_eq!(cars[0].car_rect, horizontal(29900, 41550));
    assert_eq!(cars[1], b);

    let mut cars = vec![a, b];
    check_perpendicular_and_move_back(&mut cars, 1, 0);
    assert_eq!(cars[0].car_rect, horizontal(29900, 41550));

    let mut cars = vec![b, a];
    check_perpendicular_and_move_back(&mut cars, 0, 1);
    assert_eq!(cars[0].car_rect, vertical(34300, 38100));
}

#[test]
fn no_nudge_unless_deadlocked() {
    let mut a = car_at(1, Behavior::LU, Heading::East, horizontal(30000, 41550), 100);
    let mut b = car_at(2, Behavior::DL, Heading::North, vertical(34300, 38000), 100);
    a.current_speed = 0;
    b.current_speed = 0;
    a.intersection_state = IntersectionState::Inside;
    let mut cars = vec![a, b];
    check_perpendicular_and_move_back(&mut cars, 0, 1);
    assert_eq!(cars, vec![a, b]);

    b.intersection_state = IntersectionState::After;
    b.current_speed = 25;
    let mut cars = vec![a, b];
    check_perpendicular_and_move_back(&mut cars, 0, 1);
    assert_eq!(cars, vec![a, b]);
}
