use timetable::carriers::CarrierLifecycle;
use timetable::carriers::CarrierToken;
use timetable::carriers::CARRIER_ACCELERATION;
use timetable::carriers::CARRIER_MAX_SPEED;
use timetable::carriers::MAX_CARRIERS;

#[test]
fn new_lifecycle_has_no_carriers_and_draws_them() {
    let lifecycle = CarrierLifecycle::new();
    assert_eq!(lifecycle.count(), 0);
    assert!(lifecycle.draw_carriers());
}

#[test]
fn carrier_is_created_with_the_configured_parameters() {
    let mut lifecycle = CarrierLifecycle::new();
    assert_eq!(lifecycle.add_one_carrier(960, 540), 0);
    assert_eq!(lifecycle.spawn_carrier(960, -75), Some(1));
    assert_eq!(lifecycle.count(), 2);
    assert_eq!(
        lifecycle.carrier(0),
        CarrierToken { x: 960, y: 540, acceleration: 16, max_speed: 2400, payload: None }
    );
    assert_eq!(
        lifecycle.carrier(1),
        CarrierToken {
            x: 960,
            y: -75,
            acceleration: CARRIER_ACCELERATION,
            max_speed: CARRIER_MAX_SPEED,
            payload: None
        }
    );
}

#[test]
fn one_request_more_than_the_cap_leaves_the_cap() {
    assert_eq!(MAX_CARRIERS, 100);
    let mut lifecycle = CarrierLifecycle::new();
    for n in 0..MAX_CARRIERS {
        assert_eq!(lifecycle.spawn_carrier(n as i32, 0), Some(n));
    }
    assert_eq!(lifecycle.count(), MAX_CARRIERS);
    assert_eq!(lifecycle.spawn_carrier(7, 7), None);
    assert_eq!(lifecycle.count(), MAX_CARRIERS);
    assert_eq!(lifecycle.carrier(MAX_CARRIERS - 1).x, 99);
    assert_eq!(lifecycle.spawn_carrier(8, 8), None);
    assert_eq!(lifecycle.count(), MAX_CARRIERS);
}

#[test]
fn switch_for_drawing_leaves_the_carriers_alone() {
    let mut lifecycle = CarrierLifecycle::new();
    lifecycle.spawn_carrier(1, 2);
    lifecycle.toggle_draw_carriers();
    assert!(!lifecycle.draw_carriers());
    assert_eq!(lifecycle.count(), 1);
    assert_eq!(lifecycle.spawn_carrier(3, 4), Some(1));
    assert!(!lifecycle.draw_carriers());
    lifecycle.toggle_draw_carriers();
    assert!(lifecycle.draw_carriers());
    assert_eq!(lifecycle.count(), 2);
}
