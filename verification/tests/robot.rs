use robot_bin::runtime::chassis::{self, DriverEvent, Wheels};
use robot_bin::runtime::lidar::group::Spot;
use robot_bin::runtime::rtk::{self, GpggaStatus};
use robot_bin::runtime::{
    avoid, chassis_link, lidar, lidar_event, rtk_link, Avoidance, Duty, News, Pace, Step,
    EMERGENCY_A, EMERGENCY_S, JOYSTICK_PERIOD, JOYSTICK_REST, RUDDER_MAX, RUDDER_MIN,
};
use robot_bin::device_code::Link;
use robot_bin::{
    CollisionInfo, DeviceCode, Event, Odometry, Physical, Pose, Robot, Status, Task, Trajectory,
};

const MS: u64 = 1_000_000;

type TestRobot = Robot<u32, String, Vec<u32>, String>;

fn physical(speed: f32, rudder: f32) -> Physical {
    Physical { speed: speed.to_bits(), rudder: rudder.to_bits() }
}

fn connected(robot: &mut TestRobot) {
    robot.chassis.supervisor(DriverEvent::Connected {
        status: Status { battery_percent: 50, power_switch: true, physical: physical(0.0, 0.0) },
        predictor: Trajectory {
            current: physical(0.0, 0.0),
            target: Physical::released(),
            kinematics: "pm1".to_string(),
        },
    });
}

fn collision(ms: u64, s: f32, a: f32, force_y: f32) -> CollisionInfo {
    CollisionInfo {
        time: ms * MS,
        pose: Odometry { s: s.to_bits(), a: a.to_bits(), pose: Pose::zero() },
        risk: (1.0f32 / (1.0 + s)).to_bits(),
        force: Spot { x: 0.0f32.to_bits(), y: force_y.to_bits() },
    }
}

fn way(p: Physical, c: &CollisionInfo) -> Avoidance {
    let sec = std::time::Duration::from_nanos(c.time).as_secs_f32();
    let modifier = -f32::from_bits(c.force.y).atan2(2.5);
    Avoidance {
        speed: (f32::from_bits(p.speed) * (sec / 2.0)).to_bits(),
        modifier: modifier.to_bits(),
        rudder: (f32::from_bits(p.rudder) + modifier).to_bits(),
        risk: ((2.0 - sec) * f32::from_bits(c.risk)).to_bits(),
    }
}

fn found(p: Physical, c: CollisionInfo) -> Option<(CollisionInfo, Avoidance)> {
    Some((c, way(p, &c)))
}

#[test]
fn robot_constants() {
    assert_eq!(EMERGENCY_S, 0.2f32.to_bits());
    assert_eq!(EMERGENCY_A, std::f32::consts::FRAC_PI_8.to_bits());
    assert_eq!(RUDDER_MAX, std::f32::consts::FRAC_PI_2.to_bits());
    assert_eq!(RUDDER_MIN, (-std::f32::consts::FRAC_PI_2).to_bits());
    assert_eq!(JOYSTICK_PERIOD, 50 * MS);
    assert_eq!(JOYSTICK_REST, 400 * MS);
}

#[test]
fn a_new_robot_is_idle_and_released() {
    let robot = TestRobot::spawn(3);
    assert_eq!(robot.chassis.target, (3, Physical::released()));
    assert!(matches!(robot.task, Task::Idle));
    assert_eq!(robot.tracking_speed, 0.0f32.to_bits());
    assert_eq!(robot.rtk_status, GpggaStatus::Invalid);
    assert_eq!(robot.drive_blocking.joystick_deadline, 3);
    assert!(robot.predict().is_none());
    assert_eq!(robot.automatic(4), Duty::Rest);
}

#[test]
fn stop_command_is_transparent() {
    let mut robot = TestRobot::spawn(0);
    connected(&mut robot);
    let p = physical(0.0, 0.0);
    let step = robot.drive(10, p);
    assert!(matches!(step, Step::Issued(Event::CollisionDetected(0))));
    assert_eq!(robot.chassis.target, (10, p));
    assert_eq!(robot.chassis.raw_target, p.pack());
    let turned = physical(-0.0, 0.7);
    let mut away = TestRobot::spawn(0);
    let step = away.check_and_drive(11, turned);
    assert!(matches!(step, Step::Issued(Event::CollisionDetected(0))));
    assert_eq!(away.chassis.target, (11, turned));
}

#[test]
fn a_moving_target_waits_for_the_check() {
    let mut robot = TestRobot::spawn(0);
    let p = physical(0.5, 0.0);
    assert!(matches!(robot.drive(10, p), Step::Away));
    assert_eq!(robot.chassis.target, (0, Physical::released()));
    assert_eq!(robot.chassis.raw_target, p.pack());
    connected(&mut robot);
    match robot.drive(20, p) {
        Step::Check(copy) => {
            assert_eq!(copy.target, p);
            assert_eq!(copy.current, physical(0.0, 0.0));
            assert_eq!(copy.kinematics, "pm1");
        }
        _ => panic!("no check"),
    }
    assert_eq!(robot.chassis.target, (0, Physical::released()));
    assert_eq!(robot.drive_blocking.artificial_deadline, 20 + 500 * MS);
    let e = robot.resolve(21, p, None);
    assert_eq!(e, Event::CollisionDetected(0.0f32.to_bits()));
    assert_eq!(robot.chassis.target, (21, p));
}

#[test]
fn head_on_obstacle() {
    let mut robot = TestRobot::spawn(0);
    connected(&mut robot);
    let p = physical(0.5, 0.0);
    assert!(matches!(robot.drive(0, p), Step::Check(_)));
    let c = collision(600, 0.25, 0.0, -3.0);
    let e = robot.resolve(1, p, found(p, c));
    let (at, target) = robot.chassis.target;
    assert_eq!(at, 1);
    assert_eq!(f32::from_bits(target.speed), 0.15);
    assert_eq!(f32::from_bits(target.rudder), 3.0f32.atan2(2.5));
    assert!(f32::from_bits(target.rudder) > 0.0);
    match e {
        Event::CollisionDetected(risk) => {
            let risk = f32::from_bits(risk);
            assert_eq!(risk, f32::min(1.0, (2.0 - 0.6) * (1.0 / 1.25)));
            assert!(risk > 0.0 && risk <= 1.0);
        }
        _ => panic!("no risk"),
    }
    let c = collision(600, 0.25, 0.0, 3.0);
    robot.resolve(2, p, found(p, c));
    assert_eq!(f32::from_bits(robot.chassis.target.1.rudder), -(3.0f32.atan2(2.5)));
    let c = collision(600, 0.25, 0.0, 0.0);
    robot.resolve(3, p, found(p, c));
    assert_eq!(f32::from_bits(robot.chassis.target.1.rudder), 0.0);
    assert_eq!(f32::from_bits(robot.chassis.target.1.speed), 0.15);
}

#[test]
fn emergency_release() {
    let mut robot = TestRobot::spawn(0);
    connected(&mut robot);
    let p = physical(0.5, 0.0);
    assert!(matches!(robot.drive(0, p), Step::Check(_)));
    let c = collision(80, 0.05, 0.0, -1.0);
    let e = robot.resolve(1, p, found(p, c));
    assert_eq!(robot.chassis.target, (1, Physical::released()));
    assert_eq!(e, Event::CollisionDetected(1.0f32.to_bits()));
}

#[test]
fn a_collision_is_an_emergency_only_if_near_and_straight() {
    let p = physical(0.5, 0.1);
    let released = |s: f32, a: f32| avoid(p, found(p, collision(500, s, a, 0.5))).0.is_released();
    assert!(released(0.0, 0.0));
    assert!(released(0.19, 0.39));
    assert!(!released(0.2, 0.0));
    assert!(!released(0.0, std::f32::consts::FRAC_PI_8));
    assert!(!released(0.19, 0.4));
    assert!(!released(0.3, 0.0));
    assert!(!released(f32::NAN, 0.0));
    assert_eq!(avoid(p, None), (p, 0));
}

#[test]
fn the_rudder_stays_within_a_quarter_turn_and_the_risk_within_one() {
    let left = physical(0.5, 1.5);
    let c = collision(100, 0.5, 0.0, -50.0);
    let (target, risk) = avoid(left, found(left, c));
    assert_eq!(target.rudder, RUDDER_MAX);
    assert_eq!(f32::from_bits(risk), 1.0);
    assert_eq!(f32::from_bits(target.speed), 0.5 * (0.1 / 2.0));
    let right = physical(0.5, -1.5);
    let c = collision(1900, 0.5, 0.0, 50.0);
    let (target, risk) = avoid(right, found(right, c));
    assert_eq!(target.rudder, RUDDER_MIN);
    assert_eq!(f32::from_bits(risk), (2.0f32 - 1.9) * (1.0 / 1.5));
    let c = collision(1900, 0.5, 0.0, 50.0);
    let (target, _) = avoid(left, found(left, c));
    assert_eq!(f32::from_bits(target.rudder), 1.5 - 50.0f32.atan2(2.5));
}

#[test]
fn joystick_preempts_manual_at_the_chassis() {
    let mut robot = TestRobot::spawn(0);
    connected(&mut robot);
    let stick = physical(0.3, 0.2);
    let pace = robot.joystick(0, stick);
    assert_eq!(pace.event, Some(Event::CollisionDetected(0)));
    assert_eq!(pace.sleep, 50 * MS);
    assert_eq!(robot.chassis.target, (0, stick));
    let p = physical(0.0, 0.0);
    assert!(matches!(robot.drive(100 * MS, p), Step::Held));
    assert!(matches!(robot.drive(499 * MS, physical(0.5, 0.0)), Step::Held));
    assert_eq!(robot.chassis.target, (0, stick));
    assert_eq!(robot.chassis.raw_target, Physical::released().pack());
    assert!(matches!(robot.drive(500 * MS, p), Step::Issued(_)));
    assert_eq!(robot.chassis.target, (500 * MS, p));
}

#[test]
fn a_released_joystick_changes_nothing() {
    let mut robot = TestRobot::spawn(0);
    let Pace { event, sleep } = robot.joystick(10, Physical::released());
    assert_eq!(event, None);
    assert_eq!(sleep, 400 * MS);
    assert_eq!(robot.chassis.target, (0, Physical::released()));
    assert_eq!(robot.drive_blocking.joystick_deadline, 0);
    assert!(matches!(robot.drive(11, physical(0.0, 0.0)), Step::Issued(_)));
}

#[test]
fn record_then_track_walks_through_the_tasks() {
    let mut robot = TestRobot::spawn(0);
    robot.set_tracking_speed(0.4f32.to_bits());
    assert_eq!(robot.tracking_speed, 0.4f32.to_bits());
    robot.record();
    assert!(matches!(robot.task, Task::WaitingPose));
    assert_eq!(robot.automatic(1), Duty::Open);
    robot.opened(Some(vec![]));
    for pose in 0..4 {
        assert_eq!(robot.automatic(2 + pose), Duty::Append);
        match &mut robot.task {
            Task::Record(file) => file.push(pose as u32),
            _ => panic!("no record"),
        }
    }
    let recorded = match &robot.task {
        Task::Record(file) => file.clone(),
        _ => panic!("no record"),
    };
    assert_eq!(recorded, vec![0, 1, 2, 3]);
    robot.stop();
    assert!(matches!(robot.task, Task::Idle));
    assert_eq!(robot.automatic(9), Duty::Rest);
    assert_eq!(robot.track::<String>(Ok("path".to_string())), Ok(()));
    assert!(matches!(&robot.task, Task::Track(path) if path == "path"));
    assert_eq!(robot.automatic(10), Duty::Track);
    robot.stop();
    assert_eq!(robot.automatic(11), Duty::Rest);
}

#[test]
fn tracking_waits_for_the_manual_sources() {
    let mut robot = TestRobot::spawn(0);
    connected(&mut robot);
    assert_eq!(robot.track::<u8>(Ok("path".to_string())), Ok(()));
    assert_eq!(robot.automatic(0), Duty::Rest);
    assert_eq!(robot.automatic(1), Duty::Track);
    assert!(matches!(robot.drive(100 * MS, physical(0.0, 0.0)), Step::Issued(_)));
    assert_eq!(robot.automatic(600 * MS), Duty::Rest);
    assert_eq!(robot.automatic(600 * MS + 1), Duty::Track);
    robot.joystick(700 * MS, physical(0.1, 0.0));
    assert_eq!(robot.automatic(1200 * MS), Duty::Rest);
    assert_eq!(robot.automatic(1200 * MS + 1), Duty::Track);
    let target = physical(0.4 * 0.5, 0.1);
    assert!(matches!(robot.check_and_drive(1300 * MS, target), Step::Check(_)));
    assert_eq!(robot.drive_blocking.artificial_deadline, 600 * MS);
}

#[test]
fn a_path_that_does_not_open_leaves_the_task_alone() {
    let mut robot = TestRobot::spawn(0);
    robot.record();
    assert_eq!(robot.track(Err("no such file")), Err("no such file"));
    assert!(matches!(robot.task, Task::WaitingPose));
    robot.opened(None);
    assert!(matches!(robot.task, Task::Idle));
    robot.opened(Some(vec![1]));
    assert!(matches!(robot.task, Task::Idle));
    robot.failed();
    assert!(matches!(robot.task, Task::Idle));
    robot.record();
    robot.opened(Some(vec![1]));
    robot.failed();
    assert!(matches!(robot.task, Task::Idle));
    assert_eq!(robot.track::<u8>(Ok("p".to_string())), Ok(()));
    robot.failed();
    robot.opened(Some(vec![]));
    assert!(matches!(robot.task, Task::Track(_)));
}

#[test]
fn chassis_events_become_news() {
    let robot = TestRobot::spawn(0);
    let on = Status { battery_percent: 9, power_switch: true, physical: physical(0.0, 0.0) };
    let off = Status { power_switch: false, ..on };
    let news = robot.chassis_event(chassis::Event::Connected);
    assert_eq!(news, News { chassis: None, rtk: None, connection: Some(DeviceCode(0b01)) });
    assert_eq!(news.events(), vec![Event::ConnectionModified(DeviceCode(0b01))]);
    assert_eq!(robot.chassis_event(chassis::Event::Connected).events(), vec![]);
    let news = robot.chassis_event(chassis::Event::StatusUpdated(on));
    assert_eq!(
        news.events(),
        vec![Event::ChassisStatusUpdated(on), Event::ConnectionModified(DeviceCode(0b11))]
    );
    let news = robot.chassis_event(chassis::Event::StatusUpdated(on));
    assert_eq!(news.events(), vec![Event::ChassisStatusUpdated(on)]);
    let wheels = Wheels { left: 0, right: 0 };
    assert!(robot.chassis_event(chassis::Event::WheelsUpdated(1, wheels)).events().is_empty());
    let news = robot.chassis_event(chassis::Event::Disconnected);
    assert_eq!(news.events(), vec![Event::ConnectionModified(DeviceCode(0))]);
    let news = robot.chassis_event(chassis::Event::StatusUpdated(off));
    assert_eq!(news.events(), vec![Event::ChassisStatusUpdated(off)]);
}

#[test]
fn rtk_events_become_news() {
    let mut robot = TestRobot::spawn(0);
    let (news, fuse) = robot.rtk_event(rtk::Event::SerialConnected);
    assert_eq!(news.events(), vec![Event::ConnectionModified(DeviceCode(0b00100))]);
    assert!(!fuse);
    let (news, _) = robot.rtk_event(rtk::Event::TcpConnected);
    assert_eq!(news.events(), vec![Event::ConnectionModified(DeviceCode(0b01100))]);
    let (news, fuse) = robot.rtk_event(rtk::Event::Gpgga(1, GpggaStatus::Invalid));
    assert!(news.events().is_empty());
    assert!(!fuse);
    let (news, fuse) = robot.rtk_event(rtk::Event::Gpgga(2, GpggaStatus::Single));
    assert_eq!(news.events(), vec![Event::RtkStatusUpdated(GpggaStatus::Single)]);
    assert!(!fuse);
    let (news, fuse) = robot.rtk_event(rtk::Event::Gpgga(3, GpggaStatus::Fixed));
    assert_eq!(
        news.events(),
        vec![
            Event::RtkStatusUpdated(GpggaStatus::Fixed),
            Event::ConnectionModified(DeviceCode(0b11100)),
        ]
    );
    assert!(fuse);
    assert_eq!(robot.rtk_status, GpggaStatus::Fixed);
    let (news, fuse) = robot.rtk_event(rtk::Event::Gpgga(4, GpggaStatus::Fixed));
    assert!(news.events().is_empty());
    assert!(fuse);
    let (news, fuse) = robot.rtk_event(rtk::Event::Gpgga(5, GpggaStatus::Float));
    assert_eq!(news.events(), vec![Event::RtkStatusUpdated(GpggaStatus::Float)]);
    assert!(fuse);
    let (news, _) = robot.rtk_event(rtk::Event::TcpDisconnected);
    assert_eq!(news.events(), vec![Event::ConnectionModified(DeviceCode(0b10100))]);
    let (news, _) = robot.rtk_event(rtk::Event::SerialDisconnected);
    assert_eq!(news.events(), vec![Event::ConnectionModified(DeviceCode(0))]);
    assert_eq!(robot.rtk_status, GpggaStatus::Float);
}

#[test]
fn links_of_events() {
    let on = Status { battery_percent: 9, power_switch: true, physical: physical(0.0, 0.0) };
    assert_eq!(chassis_link(chassis::Event::Connected), Some(Link::Chassis(true)));
    assert_eq!(chassis_link(chassis::Event::Disconnected), Some(Link::Chassis(false)));
    assert_eq!(chassis_link(chassis::Event::StatusUpdated(on)), Some(Link::PowerSwitch(true)));
    assert_eq!(
        chassis_link(chassis::Event::WheelsUpdated(0, Wheels { left: 1, right: 2 })),
        None
    );
    assert_eq!(rtk_link(rtk::Event::SerialConnected), Link::RtkSerial(true));
    assert_eq!(rtk_link(rtk::Event::SerialDisconnected), Link::RtkSerial(false));
    assert_eq!(rtk_link(rtk::Event::TcpConnected), Link::RtkNetwork(true));
    assert_eq!(rtk_link(rtk::Event::TcpDisconnected), Link::RtkNetwork(false));
    assert_eq!(rtk_link(rtk::Event::Gpgga(0, GpggaStatus::Float)), Link::RtkFix(true));
    assert_eq!(rtk_link(rtk::Event::Gpgga(0, GpggaStatus::Ppp)), Link::RtkFix(false));
}

#[test]
fn only_frames_of_the_range_finders_reach_the_clients() {
    assert_eq!(lidar_event(lidar::Event::Connected), None);
    assert_eq!(lidar_event(lidar::Event::Disconnected), None);
    assert_eq!(
        lidar_event(lidar::Event::FrameEncoded(vec![0, 0, 1])),
        Some(Event::LidarFrameEncoded(vec![0, 0, 1]))
    );
}

#[test]
fn drive_and_warn_sets_the_target_and_tells_the_risk() {
    let mut robot = TestRobot::spawn(0);
    let p = physical(0.3, -0.3);
    let e = robot.drive_and_warn(8, p, 0.5f32.to_bits());
    assert_eq!(e, Event::CollisionDetected(0.5f32.to_bits()));
    assert_eq!(robot.chassis.target, (8, p));
    assert_eq!(robot.chassis.raw_target, Physical::released().pack());
}
