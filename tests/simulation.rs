use smart_road::cars::Car;
use smart_road::report::safety_rating;
use smart_road::traffic::Traffic;
use smart_road::types::{Airt, Dimensions, Speed};

fn dims() -> Dimensions {
    Dimensions {
        window_width: 800,
        window_height: 600,
        half_width: 400,
        half_height: 300,
        lane_width: 16,
        speed: Speed { fast: 12, default: 8, slow: 4 },
    }
}

fn out_of_bounds(car: &Car, d: &Dimensions) -> bool {
    car.x < 0 || car.x + d.lane_width > d.window_width || car.y < 0 || car.y + d.lane_width > d.window_height
}

#[test]
fn spawn_table_matches_lanes() {
    let d = dims();
    let expected = [
        (Airt::Up, 0, 400, 584, Airt::Left, 8),
        (Airt::Up, 1, 416, 584, Airt::Up, 12),
        (Airt::Up, 2, 432, 584, Airt::Right, 4),
        (Airt::Down, 0, 352, 0, Airt::Left, 4),
        (Airt::Down, 1, 368, 0, Airt::Down, 12),
        (Airt::Down, 2, 384, 0, Airt::Right, 8),
        (Airt::Right, 0, 0, 300, Airt::Up, 8),
        (Airt::Right, 1, 0, 316, Airt::Right, 12),
        (Airt::Right, 2, 0, 332, Airt::Down, 4),
        (Airt::Left, 0, 784, 252, Airt::Up, 4),
        (Airt::Left, 1, 784, 268, Airt::Left, 12),
        (Airt::Left, 2, 784, 284, Airt::Down, 8),
    ];
    for (entry, lane, x, y, exit, speed) in expected {
        let car = Car::spawn_in_lane(entry, lane, 7, &d, 55);
        assert_eq!((car.x, car.y), (x, y));
        assert_eq!(car.direction.start, entry);
        assert_eq!(car.direction.end, exit);
        assert_eq!(car.speed, speed);
        assert_eq!(car.target_speed, speed);
        assert_eq!(car.index, 7);
        assert_eq!(car.birthday, 55);
        assert!(!car.gone);
        assert!(!car.in_turn);
    }
}

#[test]
fn spawn_sets_heading_colour_and_axis() {
    let d = dims();
    let cases = [
        (Airt::Up, 0, 0, true),
        (Airt::Down, 180, 1, true),
        (Airt::Right, 90, 2, false),
        (Airt::Left, -90, 3, false),
    ];
    for (entry, angle, colour, vertical) in cases {
        let car = Car::spawn_in_lane(entry, 1, 0, &d, 0);
        assert_eq!(car.current_angle, angle);
        assert_eq!(car.target_angle, angle);
        assert_eq!(car.color_code, colour);
        assert_eq!(car.vertical, vertical);
    }
}

#[test]
fn random_spawns_use_every_lane() {
    let d = dims();
    let mut exits = Vec::new();
    for i in 0..300 {
        let car = Car::spawn(Airt::Up, i, &d, 0);
        assert!(matches!(car.direction.end, Airt::Left | Airt::Up | Airt::Right));
        exits.push(car.direction.end);
    }
    assert!(exits.contains(&Airt::Left));
    assert!(exits.contains(&Airt::Up));
    assert!(exits.contains(&Airt::Right));
}

#[test]
fn random_pushes_use_every_entry() {
    let d = dims();
    let mut traffic = Traffic::new();
    for _ in 0..300 {
        traffic.push_random(&d);
    }
    assert_eq!(traffic.cars.len(), 300);
    for entry in [Airt::Up, Airt::Down, Airt::Left, Airt::Right] {
        assert!(traffic.cars.iter().any(|c| c.direction.start == entry));
    }
    for (i, car) in traffic.cars.iter().enumerate() {
        assert_eq!(car.index, i);
    }
}

#[test]
fn push_appends_with_next_index() {
    let d = dims();
    let mut traffic = Traffic::new();
    traffic.push(Airt::Left, &d);
    traffic.push(Airt::Down, &d);
    assert_eq!(traffic.cars.len(), 2);
    assert_eq!(traffic.cars[0].direction.start, Airt::Left);
    assert_eq!(traffic.cars[1].direction.start, Airt::Down);
    assert_eq!(traffic.cars[1].index, 1);
}

#[test]
fn update_moves_a_vehicle_by_its_speed() {
    let d = dims();
    let mut traffic = Traffic::new();
    traffic.push_in_lane(Airt::Up, 1, &d, 0);
    traffic.update(&d);
    assert_eq!(traffic.cars[0].y, 584 - 12);
    assert_eq!(traffic.cars[0].x, 416);
    assert_eq!(traffic.max_velocity, 12);
    assert_eq!(traffic.min_velocity, 12);
    assert_eq!(traffic.give_ways, 0);
}

#[test]
fn indices_match_positions_after_update() {
    let d = dims();
    let mut traffic = Traffic::new();
    traffic.push_in_lane(Airt::Right, 1, &d, 0);
    traffic.push_in_lane(Airt::Left, 1, &d, 0);
    traffic.push_in_lane(Airt::Down, 0, &d, 0);
    // The middle vehicle is pushed outside the window, so it leaves first.
    traffic.cars[1].x = 790;
    traffic.update_at(&d, 10);
    assert_eq!(traffic.cars.len(), 2);
    assert_eq!(traffic.cars_passed, 1);
    for (i, car) in traffic.cars.iter().enumerate() {
        assert_eq!(car.index, i);
    }
    assert_eq!(traffic.cars[1].direction.start, Airt::Down);
    for tick in 0..200u64 {
        traffic.update_at(&d, 20 + tick);
        for (i, car) in traffic.cars.iter().enumerate() {
            assert_eq!(car.index, i);
        }
    }
}

#[test]
fn lower_index_moves_first_on_conflict() {
    let d = dims();
    let mut traffic = Traffic::new();
    traffic.push_in_lane(Airt::Right, 1, &d, 0);
    traffic.push_in_lane(Airt::Left, 1, &d, 0);
    traffic.cars[0].x = 0;
    traffic.cars[0].y = 316;
    traffic.cars[1].x = 36;
    traffic.cars[1].y = 316;
    traffic.update_at(&d, 1);
    assert_eq!(traffic.cars[0].x, 12);
    assert_eq!(traffic.cars[1].x, 36);
    assert_eq!(traffic.give_ways, 1);
    assert_eq!(traffic.close_calls, 0);
}

#[test]
fn no_overlap_after_conflicting_ticks() {
    let d = dims();
    let mut traffic = Traffic::new();
    traffic.push_in_lane(Airt::Right, 1, &d, 0);
    traffic.push_in_lane(Airt::Left, 1, &d, 0);
    traffic.cars[1].y = 316;
    for tick in 0..100u64 {
        traffic.update_at(&d, tick);
        let cars = &traffic.cars;
        for a in 0..cars.len() {
            for b in 0..cars.len() {
                if a != b {
                    let lw = d.lane_width;
                    let overlap = cars[a].x < cars[b].x + lw
                        && cars[a].x + lw > cars[b].x
                        && cars[a].y < cars[b].y + lw
                        && cars[a].y + lw > cars[b].y;
                    assert!(!overlap);
                }
            }
        }
    }
    assert!(traffic.give_ways > 0);
}

fn close_calls_at(dx: i32, dy: i32) -> u64 {
    let d = dims();
    let mut traffic = Traffic::new();
    traffic.push_in_lane(Airt::Right, 1, &d, 0);
    traffic.push_in_lane(Airt::Right, 1, &d, 0);
    traffic.cars[0].x = 100;
    traffic.cars[0].y = 316;
    traffic.cars[1].x = 100 + dx;
    traffic.cars[1].y = 316 + dy;
    traffic.update_at(&d, 1);
    traffic.close_calls
}

#[test]
fn close_call_counted_only_between_thresholds() {
    assert_eq!(close_calls_at(20, 0), 1);
    assert_eq!(close_calls_at(0, 23), 1);
    assert_eq!(close_calls_at(16, 0), 0);
    assert_eq!(close_calls_at(24, 0), 0);
    assert_eq!(close_calls_at(10, 0), 0);
    assert_eq!(close_calls_at(40, 0), 0);
}

#[test]
fn close_call_uses_exact_distance() {
    // sqrt(16^2 + 1^2) is just above one lane width.
    assert_eq!(close_calls_at(16, 1), 1);
    // sqrt(23^2 + 7^2) is just above one and a half lane widths.
    assert_eq!(close_calls_at(23, 7), 0);
}

#[test]
fn close_calls_count_every_pair() {
    let d = dims();
    let mut traffic = Traffic::new();
    for _ in 0..3 {
        traffic.push_in_lane(Airt::Right, 1, &d, 0);
    }
    traffic.cars[0].x = 100;
    traffic.cars[1].x = 120;
    traffic.cars[2].x = 140;
    traffic.update_at(&d, 1);
    // (0, 1) and (1, 2) are 20 apart; (0, 2) is 40 apart.
    assert_eq!(traffic.close_calls, 2);
}

#[test]
fn straight_vehicle_never_turns() {
    let d = dims();
    let mut traffic = Traffic::new();
    traffic.push_in_lane(Airt::Up, 1, &d, 0);
    traffic.push_in_lane(Airt::Right, 1, &d, 0);
    for tick in 0..100u64 {
        traffic.update_at(&d, tick);
        for car in &traffic.cars {
            assert_eq!(car.vertical, car.direction.start == Airt::Up);
            assert!(!car.in_turn);
        }
    }
    assert_eq!(traffic.cars_passed, 2);
}

#[test]
fn left_turn_from_up_switches_axis_once() {
    let d = dims();
    let mut traffic = Traffic::new();
    traffic.push_in_lane(Airt::Up, 0, &d, 0);
    for tick in 0..38u64 {
        traffic.update_at(&d, tick);
    }
    assert_eq!(traffic.cars[0].y, 280);
    assert!(traffic.cars[0].vertical);
    assert!(!traffic.cars[0].in_turn);
    traffic.update_at(&d, 38);
    let car = traffic.cars[0];
    assert_eq!((car.x, car.y), (392, 284));
    assert!(!car.vertical);
    assert!(car.in_turn);
    assert_eq!(car.target_angle, -90);
    assert_eq!(car.current_angle, 0);
    traffic.update_at(&d, 39);
    let car = traffic.cars[0];
    assert_eq!((car.x, car.y), (384, 284));
    assert_eq!(car.current_angle, 352);
    traffic.update_at(&d, 40);
    assert_eq!(traffic.cars[0].current_angle, 344);
    for tick in 41..52u64 {
        traffic.update_at(&d, tick);
    }
    assert_eq!(traffic.cars[0].current_angle, 270);
    assert_eq!(traffic.cars[0].y, 284);
}

#[test]
fn right_turn_from_left_heads_down() {
    let d = dims();
    let mut traffic = Traffic::new();
    traffic.push_in_lane(Airt::Left, 2, &d, 0);
    // Turn line for this route is half_width - lane_width = 384.
    traffic.cars[0].x = 384;
    traffic.update_at(&d, 0);
    let car = traffic.cars[0];
    assert_eq!((car.x, car.y), (384, 284 + 8));
    assert!(car.vertical);
    assert_eq!(car.target_angle, 180);
    traffic.update_at(&d, 1);
    // The first tick brought -90 into range as 270; 180 lies 90 below it.
    assert_eq!(traffic.cars[0].current_angle, 262);
}

#[test]
fn speed_eases_one_step_per_tick() {
    let d = dims();
    let mut traffic = Traffic::new();
    traffic.push_in_lane(Airt::Down, 1, &d, 0);
    traffic.cars[0].target_speed = 9;
    traffic.update_at(&d, 0);
    assert_eq!(traffic.cars[0].speed, 11);
    assert_eq!(traffic.cars[0].y, 11);
    traffic.update_at(&d, 1);
    traffic.update_at(&d, 2);
    traffic.update_at(&d, 3);
    assert_eq!(traffic.cars[0].speed, 9);
    // The speed extremes take each vehicle's speed at the start of a tick.
    assert_eq!(traffic.max_velocity, 12);
    assert_eq!(traffic.min_velocity, 9);
}

#[test]
fn exit_is_recorded_on_the_same_tick() {
    let d = dims();
    let mut traffic = Traffic::new();
    traffic.push_in_lane(Airt::Down, 1, &d, 0);
    for tick in 0..49u64 {
        assert!(!out_of_bounds(&traffic.cars[0], &d));
        traffic.update_at(&d, tick);
    }
    assert_eq!(traffic.cars.len(), 1);
    assert_eq!(traffic.cars[0].y, 588);
    assert!(out_of_bounds(&traffic.cars[0], &d));
    assert_eq!(traffic.cars_passed, 0);
    traffic.update_at(&d, 49);
    assert!(traffic.cars.is_empty());
    assert_eq!(traffic.cars_passed, 1);
}

#[test]
fn transit_time_round_trip() {
    let d = dims();
    let mut traffic = Traffic::new();
    let start: u64 = 1_000_000;
    traffic.push_in_lane(Airt::Down, 1, &d, start);
    let mut tick: u64 = 0;
    while !traffic.cars.is_empty() {
        tick += 1;
        traffic.update_at(&d, start + tick * 16_000);
    }
    assert_eq!(tick, 50);
    assert_eq!(traffic.max_time, 800_000);
    assert_eq!(traffic.min_time, 800_000);
    assert!(traffic.format().contains("• Max time: 0.80s\n• Min time: 0.80s"));
}

#[test]
fn transit_extremes_track_each_exit() {
    let d = dims();
    let mut traffic = Traffic::new();
    traffic.push_in_lane(Airt::Down, 1, &d, 0);
    traffic.push_in_lane(Airt::Down, 1, &d, 300);
    traffic.cars[0].y = 700;
    traffic.cars[1].y = 700;
    traffic.update_at(&d, 1_000);
    assert_eq!(traffic.max_time, 1_000);
    assert_eq!(traffic.min_time, 700);
    assert_eq!(traffic.cars_passed, 2);
}

#[test]
fn report_without_data() {
    let traffic = Traffic::new();
    let text = traffic.format();
    assert_eq!(
        text,
        "=== SMART ROAD STATISTICS ===\n\nCars passed: 0\nGive ways: 0\nClose calls: 0\n\nVelocity Stats:\n• Max velocity: N/A\n• Min velocity: N/A\n\nTime Stats:\n• Max time: N/A\n• Min time: N/A\n\nStatus: No data collected yet"
    );
    assert!(text.contains("No data collected yet"));
    assert!(!text.contains("Safety Rating"));
}

#[test]
fn report_without_data_hides_counters() {
    let mut traffic = Traffic::new();
    traffic.give_ways = 3;
    traffic.close_calls = 2;
    let text = traffic.format();
    assert!(text.contains("Give ways: 0\n"));
    assert!(text.contains("Status: No data collected yet"));
}

#[test]
fn report_with_data() {
    let mut traffic = Traffic::new();
    traffic.cars_passed = 3;
    traffic.give_ways = 12;
    traffic.close_calls = 1;
    traffic.max_velocity = 12;
    traffic.min_velocity = 4;
    traffic.max_time = 1_234_567;
    traffic.min_time = 5_000;
    assert_eq!(
        traffic.format(),
        "=== SMART ROAD STATISTICS ===\n\nTraffic Summary:\n• Cars passed: 3\n• Give ways: 12\n• Close calls: 1\n\nVelocity Stats:\n• Max velocity: 12px/s\n• Min velocity: 4px/s\n\nTime Stats:\n• Max time: 1.23s\n• Min time: 0.01s\n\nSafety Rating: ⚠ GOOD (Few close calls)"
    );
}

#[test]
fn report_rounds_seconds_and_marks_missing_minimum() {
    let mut traffic = Traffic::new();
    traffic.cars_passed = 1;
    traffic.max_time = 12_345_000;
    traffic.min_time = 4_999;
    traffic.min_velocity = i32::MAX;
    traffic.max_velocity = 0;
    let text = traffic.format();
    assert!(text.contains("• Max time: 12.35s\n"));
    assert!(text.contains("• Min time: 0.00s\n"));
    assert!(text.contains("• Min velocity: N/A\n"));
    assert!(text.contains("• Max velocity: 0px/s\n"));
}

#[test]
fn safety_rating_boundaries() {
    assert_eq!(safety_rating(0), "✓ EXCELLENT (No close calls)");
    assert_eq!(safety_rating(1), "⚠ GOOD (Few close calls)");
    assert_eq!(safety_rating(4), "⚠ GOOD (Few close calls)");
    assert_eq!(safety_rating(5), "✗ NEEDS IMPROVEMENT (Many close calls)");
    let mut traffic = Traffic::new();
    traffic.cars_passed = 1;
    traffic.close_calls = 4;
    assert!(traffic.format().ends_with("Safety Rating: ⚠ GOOD (Few close calls)"));
    traffic.close_calls = 5;
    assert!(traffic.format().ends_with("Safety Rating: ✗ NEEDS IMPROVEMENT (Many close calls)"));
    traffic.close_calls = 0;
    assert!(traffic.format().ends_with("Safety Rating: ✓ EXCELLENT (No close calls)"));
}

#[test]
fn new_traffic_starts_empty() {
    let traffic = Traffic::new();
    assert!(traffic.cars.is_empty());
    assert_eq!(traffic.cars_passed, 0);
    assert_eq!(traffic.give_ways, 0);
    assert_eq!(traffic.close_calls, 0);
    assert_eq!(traffic.max_time, 0);
    assert_eq!(traffic.min_time, u64::MAX);
    assert_eq!(traffic.max_velocity, 0);
    assert_eq!(traffic.min_velocity, i32::MAX);
}

#[test]
fn current_direction_follows_the_turn() {
    let d = dims();
    let mut traffic = Traffic::new();
    traffic.push_in_lane(Airt::Right, 0, &d, 0);
    assert_eq!(traffic.cars[0].get_current_direction(), Airt::Right);
    // Turn line for this route is half_width = 400.
    traffic.cars[0].x = 400;
    traffic.update_at(&d, 0);
    assert_eq!((traffic.cars[0].x, traffic.cars[0].y), (400, 292));
    assert_eq!(traffic.cars[0].get_current_direction(), Airt::Up);
}

#[test]
fn dimensions_validity() {
    let d = dims();
    assert!(d.is_valid());
    let mut zero_lane = d;
    zero_lane.lane_width = 0;
    assert!(!zero_lane.is_valid());
    let mut slow_above_fast = d;
    slow_above_fast.speed.slow = 20;
    assert!(!slow_above_fast.is_valid());
    let mut huge = d;
    huge.window_width = 2_000_000;
    assert!(!huge.is_valid());
}
