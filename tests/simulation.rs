use smart_road::car::{Car, IntersectionState};
use smart_road::geometry::FRect;
use smart_road::lanes::{Behavior, Heading};
use smart_road::metrics::Metrics;
use smart_road::sim::{core_intersection, get_random_behavior_for_direction, spawn_random_car, tick};

fn overlapping_pairs(cars: &[Car]) -> usize {
    let mut n = 0;
    for i in 0..cars.len() {
        for j in (i + 1)..cars.len() {
            if cars[i].car_rect.intersect(cars[j].car_rect).is_some() {
                n += 1;
            }
        }
    }
    n
}

fn lane_queue() -> Vec<Car> {
    let mut cars = Vec::new();
    let mut m = Metrics::new();
    let mut a = Car::with_base_speed(0, Behavior::LR, Heading::East, 80, 0);
    a.car_rect.x = 6000;
    assert!(Car::join(&mut cars, a, &mut m));
    let mut b = Car::with_base_speed(1, Behavior::LR, Heading::East, 190, 0);
    b.car_rect.x = 1000;
    assert!(Car::join(&mut cars, b, &mut m));
    let c = Car::with_base_speed(2, Behavior::LR, Heading::East, 150, 0);
    assert!(Car::join(&mut cars, c, &mut m));
    cars
}

#[test]
fn spawn_rejects_coinciding_body() {
    let mut cars = Vec::new();
    let mut m = Metrics::new();
    let c = Car::with_base_speed(0, Behavior::RU, Heading::West, 100, 0);
    assert!(Car::join(&mut cars, c, &mut m));
    let twin = Car::with_base_speed(1, Behavior::RU, Heading::West, 150, 0);
    assert!(!Car::join(&mut cars, twin, &mut m));
    assert_eq!(cars.len(), 1);
    assert!(!Car::spawn_if_can(&mut cars, 2, Behavior::RU, Heading::West, 0, &mut m));
    assert_eq!(cars.len(), 1);
    assert_eq!(m.cars_spawned, 1);
    assert!(Car::spawn_if_can(&mut cars, 3, Behavior::RL, Heading::West, 0, &mut m));
    assert_eq!(cars.len(), 2);
    assert_eq!(cars[1].id, 3);
    assert_eq!(m.cars_spawned, 2);
}

#[test]
fn spawn_refused_at_capacity() {
    let mut cars = Vec::new();
    let mut m = Metrics::new();
    for k in 0..9999i64 {
        let mut c = Car::with_base_speed(k as u32, Behavior::LR, Heading::East, 100, 0);
        c.car_rect.x = k * 5000;
        c.car_rect.y = 1_000_000;
        cars.push(c);
    }
    assert!(!Car::spawn_if_can(&mut cars, 10000, Behavior::UD, Heading::South, 0, &mut m));
    assert_eq!(cars.len(), 9999);
    cars.pop();
    assert!(Car::spawn_if_can(&mut cars, 10000, Behavior::UD, Heading::South, 0, &mut m));
    assert_eq!(cars.len(), 9999);
}

#[test]
fn random_spawns_enter_along_their_side() {
    let mut cars = Vec::new();
    let mut m = Metrics::new();
    for id in 0..40 {
        spawn_random_car(&mut cars, id, 0, &mut m);
    }
    assert!(!cars.is_empty() && cars.len() <= 12);
    for c in &cars {
        assert_eq!(c.current_direction, c.behavior_code.entry_heading());
    }
    for h in [Heading::North, Heading::South, Heading::East, Heading::West] {
        for _ in 0..30 {
            assert_eq!(get_random_behavior_for_direction(h).entry_heading(), h);
        }
    }
}

#[test]
fn tick_is_deterministic() {
    let core = core_intersection();
    let mut first = lane_queue();
    let mut second = first.clone();
    let mut m1 = Metrics::new();
    let mut m2 = Metrics::new();
    for t in 0..300 {
        tick(&mut first, &core, t * 16, &mut m1);
        tick(&mut second, &core, t * 16, &mut m2);
        assert_eq!(first, second);
        assert_eq!(m1, m2);
    }
}

#[test]
fn queue_never_overlaps_and_speeds_stay_bounded() {
    let core = core_intersection();
    let mut cars = lane_queue();
    let mut m = Metrics::new();
    for t in 0..3000 {
        tick(&mut cars, &core, t * 16, &mut m);
        assert_eq!(overlapping_pairs(&cars), 0, "tick {}", t);
        for c in &cars {
            assert!(0 <= c.current_speed && c.current_speed <= c.randomized_initial_speed);
        }
    }
    assert!(m.max_vehicle_speed <= 190);
}

#[test]
fn follower_slows_behind_leader() {
    let core = core_intersection();
    let mut cars = lane_queue();
    let mut m = Metrics::new();
    tick(&mut cars, &core, 0, &mut m);
    assert_eq!(cars[0].current_speed, 80);
    assert_eq!(cars[1].current_speed, 190 / 4);
    assert_eq!(cars[2].current_speed, 150 / 4);
    assert_eq!(cars[0].car_rect.x, 6080);
    assert_eq!(cars[1].car_rect.x, 1047);
    assert_eq!(cars[2].car_rect.x, -4963);
    assert_eq!(m.close_call_count, 2);
}

#[test]
fn turning_vehicle_turns_once() {
    let core = core_intersection();
    let mut cars = Vec::new();
    let mut m = Metrics::new();
    assert!(Car::spawn_if_can(&mut cars, 7, Behavior::LU, Heading::East, 0, &mut m));
    let mut headings = vec![cars[0].current_direction];
    let mut t = 0u64;
    while !cars.is_empty() && t < 5000 {
        tick(&mut cars, &core, t * 16, &mut m);
        if let Some(c) = cars.first() {
            if *headings.last().unwrap() != c.current_direction {
                headings.push(c.current_direction);
            }
            if c.current_direction == Heading::North {
                assert!(c.has_turned);
            }
        }
        t += 1;
    }
    assert_eq!(headings, vec![Heading::East, Heading::North]);
    assert!(cars.is_empty());
    assert_eq!(m.vehicle_count, 1);
}

#[test]
fn arrival_retires_and_reports_trip() {
    let core = core_intersection();
    let mut c = Car::with_base_speed(5, Behavior::RU, Heading::North, 100, 1000);
    c.has_turned = true;
    c.waiting_flag = true;
    c.car_rect = FRect::new(39900, -5000 + 1900, 3300, 4300);
    let mut far = c;
    far.id = 6;
    far.car_rect = FRect::new(39900 - 2000, -5000 - 20000, 3300, 4300);
    let mut cars = vec![c, far];
    let mut m = Metrics::new();
    tick(&mut cars, &core, 4500, &mut m);
    assert_eq!(cars.len(), 1);
    assert_eq!(cars[0].id, 6);
    assert_eq!(m.vehicle_count, 1);
    assert_eq!(m.min_intersection_pass_time, 3500);
    assert_eq!(m.max_intersection_pass_time, 3500);
}

#[test]
fn arrival_radius_is_strict() {
    let core = core_intersection();
    let mut c = Car::with_base_speed(5, Behavior::RU, Heading::North, 100, 0);
    c.has_turned = true;
    c.waiting_flag = true;
    c.car_rect = FRect::new(39900 + 1200, -5000 + 1600, 3300, 4300);
    let mut cars = vec![c];
    let mut m = Metrics::new();
    tick(&mut cars, &core, 10, &mut m);
    assert_eq!(cars.len(), 1);
    assert_eq!(m.vehicle_count, 0);
}

#[test]
fn deadlock_breaker_runs_in_tick() {
    let core = core_intersection();
    let mut a = Car::with_base_speed(1, Behavior::LU, Heading::East, 100, 0);
    a.car_rect = FRect::new(30000, 41550, 4300, 3300);
    a.current_speed = 0;
    a.intersection_state = IntersectionState::Inside;
    a.has_turned = true;
    let mut b = Car::with_base_speed(2, Behavior::DL, Heading::North, 100, 0);
    b.car_rect = FRect::new(34300, 43000, 3300, 4300);
    b.intersection_state = IntersectionState::Inside;
    b.has_turned = true;
    let blocker = {
        let mut k = Car::with_base_speed(3, Behavior::RL, Heading::West, 100, 0);
        k.car_rect = FRect::new(34350, 39400, 4300, 3300);
        k.intersection_state = IntersectionState::Inside;
        k.has_turned = true;
        k.waiting_flag = true;
        k
    };
    let mut cars = vec![a, b, blocker];
    let mut m = Metrics::new();
    tick(&mut cars, &core, 0, &mut m);
    assert_eq!(cars[1].current_speed, 0);
    assert_eq!(cars[0].current_speed, 0);
    assert_eq!(cars[0].car_rect.x, 29900);
    assert_eq!(cars[1].car_rect.y, 43100);
}
