use robot_bin::runtime::chassis::{
    Chassis, DriverEvent, Event, Telemetry, Wheels, RETRY_PERIOD,
};
use robot_bin::{Physical, Status, Trajectory};

fn physical(speed: f32, rudder: f32) -> Physical {
    Physical { speed: speed.to_bits(), rudder: rudder.to_bits() }
}

fn status(speed: f32) -> Status {
    Status { battery_percent: 80, power_switch: true, physical: physical(speed, 0.0) }
}

fn opened(speed: f32) -> DriverEvent<String> {
    DriverEvent::Connected {
        status: status(speed),
        predictor: Trajectory {
            current: physical(speed, 0.0),
            target: Physical::released(),
            kinematics: "model".to_string(),
        },
    }
}

fn read(telemetry: Option<(u64, Telemetry)>) -> DriverEvent<String> {
    DriverEvent::Event { status: status(0.25), telemetry }
}

#[test]
fn a_new_chassis_is_released_and_blind() {
    let chassis: Chassis<u32, String> = Chassis::new(5);
    assert_eq!(chassis.target, (5, Physical::released()));
    assert_eq!(chassis.raw_target, Physical::released().pack());
    assert!(chassis.model.is_none());
    assert!(chassis.predictor.is_none());
    assert!(chassis.predict().is_none());
}

#[test]
fn opening_the_chassis_tells_the_clients_and_keeps_the_predictor() {
    let mut chassis: Chassis<u32, String> = Chassis::new(0);
    chassis.update_model(7);
    let r = chassis.supervisor(opened(0.1));
    assert_eq!(r.events, vec![Event::Connected, Event::StatusUpdated(status(0.1))]);
    assert_eq!(r.target, None);
    assert_eq!(r.model, Some(7));
    assert_eq!(r.sleep, None);
    assert!(chassis.model.is_none());
    chassis.store_raw_target(physical(0.5, 0.2));
    let copy = chassis.predict().unwrap();
    assert_eq!(copy.current, physical(0.1, 0.0));
    assert_eq!(copy.target, physical(0.5, 0.2));
    assert_eq!(copy.kinematics, "model");
    assert_eq!(chassis.predictor.as_ref().unwrap().target, Physical::released());
}

#[test]
fn losing_the_chassis_drops_the_predictor() {
    let mut chassis: Chassis<u32, String> = Chassis::new(0);
    chassis.supervisor(opened(0.1));
    chassis.update_model(3);
    let r = chassis.supervisor(DriverEvent::Disconnected);
    assert_eq!(r.events, vec![Event::Disconnected]);
    assert_eq!(r.target, None);
    assert_eq!(r.model, None);
    assert_eq!(r.sleep, None);
    assert!(chassis.predict().is_none());
    assert_eq!(chassis.model, Some(3));
    let r = chassis.supervisor(DriverEvent::ConnectFailed);
    assert!(r.events.is_empty());
    assert_eq!(r.sleep, Some(RETRY_PERIOD));
    assert_eq!(RETRY_PERIOD, 1_000_000_000);
    assert_eq!(r.model, None);
    assert_eq!(chassis.model, Some(3));
}

#[test]
fn every_event_of_the_device_pushes_the_target_and_the_model() {
    let mut chassis: Chassis<u32, String> = Chassis::new(1);
    chassis.supervisor(opened(0.0));
    let r = chassis.supervisor(read(None));
    assert_eq!(r.target, Some((1, Physical::released())));
    assert!(r.events.is_empty());
    assert_eq!(r.model, None);
    chassis.update_model(1);
    chassis.update_model(2);
    let wheels = Wheels { left: 1.0f32.to_bits(), right: 2.0f32.to_bits() };
    let r = chassis.supervisor(read(Some((9, Telemetry::Wheels(wheels)))));
    assert_eq!(r.events, vec![Event::WheelsUpdated(9, wheels)]);
    assert_eq!(r.model, Some(2));
    assert_eq!(chassis.predictor.as_ref().unwrap().current, physical(0.0, 0.0));
    let r = chassis.supervisor(read(Some((10, Telemetry::Other))));
    assert_eq!(r.events, vec![Event::StatusUpdated(status(0.25))]);
    assert_eq!(r.model, None);
    assert_eq!(chassis.predictor.as_ref().unwrap().current, physical(0.25, 0.0));
}

#[test]
fn the_hardware_sees_the_last_drive() {
    let mut chassis: Chassis<u32, String> = Chassis::new(0);
    let slow = physical(0.1, 0.0);
    let turn = physical(0.2, 0.5);
    let back = physical(0.0, -0.5);
    assert_eq!(chassis.supervisor(read(None)).target, Some((0, Physical::released())));
    chassis.drive(10, slow);
    assert_eq!(chassis.supervisor(read(None)).target, Some((10, slow)));
    assert_eq!(chassis.supervisor(read(Some((11, Telemetry::Other)))).target, Some((10, slow)));
    chassis.supervisor(DriverEvent::Disconnected);
    chassis.supervisor(DriverEvent::ConnectFailed);
    chassis.drive(20, turn);
    chassis.store_raw_target(slow);
    chassis.drive(30, back);
    chassis.supervisor(opened(0.0));
    assert_eq!(chassis.supervisor(read(None)).target, Some((30, back)));
    assert_eq!(chassis.supervisor(read(None)).target, Some((30, back)));
}

#[test]
fn copies_of_the_predictor_stand_alone() {
    let mut chassis: Chassis<u32, String> = Chassis::new(0);
    chassis.supervisor(opened(0.1));
    chassis.store_raw_target(physical(0.5, 0.0));
    let mut first = chassis.predict().unwrap();
    let second = chassis.predict().unwrap();
    first.current = physical(0.4, 0.0);
    first.kinematics.push_str(" advanced");
    assert_eq!(second.current, physical(0.1, 0.0));
    assert_eq!(second.kinematics, "model");
    let third = chassis.predict().unwrap();
    assert_eq!(third.current, physical(0.1, 0.0));
    assert_eq!(third.kinematics, "model");
    chassis.supervisor(read(Some((1, Telemetry::Other))));
    assert_eq!(second.current, physical(0.1, 0.0));
    assert_eq!(chassis.predict().unwrap().current, physical(0.25, 0.0));
}
