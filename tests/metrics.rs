use smart_road::metrics::{
    get_metrics_display, increment_close_call_count, increment_spawn_count,
    increment_vehicle_count, update_intersection_time, update_vehicle_speed, Metrics,
};

#[test]
fn counters_increment_and_saturate() {
    let mut m = Metrics::new();
    increment_vehicle_count(&mut m);
    increment_vehicle_count(&mut m);
    increment_close_call_count(&mut m);
    increment_spawn_count(&mut m);
    assert_eq!(m.vehicle_count, 2);
    assert_eq!(m.close_call_count, 1);
    assert_eq!(m.cars_spawned, 1);
    m.vehicle_count = u32::MAX;
    increment_vehicle_count(&mut m);
    assert_eq!(m.vehicle_count, u32::MAX);
}

#[test]
fn extremes_track_samples() {
    let mut m = Metrics::new();
    update_vehicle_speed(&mut m, 120);
    update_vehicle_speed(&mut m, 30);
    update_vehicle_speed(&mut m, 90);
    assert_eq!((m.min_vehicle_speed, m.max_vehicle_speed), (30, 120));
    update_intersection_time(&mut m, 5000);
    update_intersection_time(&mut m, 7000);
    update_intersection_time(&mut m, 6000);
    assert_eq!((m.min_intersection_pass_time, m.max_intersection_pass_time), (5000, 7000));
}

#[test]
fn display_without_spawns() {
    let (title, stats) = get_metrics_display(&Metrics::new());
    assert_eq!(title, "No Cars Were Spawned");
    assert_eq!(
        stats,
        vec![
            "Total Cars Spawned: 0".to_string(),
            "Cars Completed Journey: 0".to_string(),
            "Max Time to Pass: No completions".to_string(),
            "Min Time to Pass: No completions".to_string(),
            "Close Calls: 0".to_string(),
        ]
    );
}

#[test]
fn display_with_samples() {
    let mut m = Metrics::new();
    m.cars_spawned = 3;
    m.vehicle_count = 2;
    m.close_call_count = 17;
    m.max_vehicle_speed = 150;
    m.min_vehicle_speed = 25;
    m.max_intersection_pass_time = 12345;
    m.min_intersection_pass_time = 999;
    let (title, stats) = get_metrics_display(&m);
    assert_eq!(title, "Simulation Stopped");
    assert_eq!(
        stats,
        vec![
            "Total Cars Spawned: 3".to_string(),
            "Cars Completed Journey: 2".to_string(),
            "Max Vehicle Velocity: 1.50".to_string(),
            "Min Vehicle Velocity: 0.25".to_string(),
            "Max Time to Pass: 12.34s".to_string(),
            "Min Time to Pass: 0.99s".to_string(),
            "Close Calls: 17".to_string(),
        ]
    );
}

#[test]
fn display_spawned_but_no_speed() {
    let mut m = Metrics::new();
    m.cars_spawned = 1;
    let (_, stats) = get_metrics_display(&m);
    assert_eq!(stats[2], "Max Vehicle Velocity: None");
    assert_eq!(stats[3], "Min Vehicle Velocity: None");
    assert_eq!(stats.len(), 7);
}
