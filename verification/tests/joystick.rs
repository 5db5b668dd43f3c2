use robot_bin::runtime::joystick::{Joystick, DEAD_ZONE};
use robot_bin::Physical;

fn sample(rho: f32, level: u8, theta: f32) -> Joystick {
    let half = std::f32::consts::FRAC_PI_2;
    Joystick::new(
        rho.to_bits(),
        Physical {
            speed: (rho * (level as f32) / 5.0).to_bits(),
            rudder: (theta.signum() * (theta / half).powi(2) * half).to_bits(),
        },
    )
}

#[test]
fn the_dead_zone_is_half_a_percent() {
    assert_eq!(DEAD_ZONE, 0.005f32.to_bits());
}

#[test]
fn a_stick_at_rest_lets_the_wheels_go() {
    assert_eq!(sample(0.0, 3, 0.0).get(), Physical::released());
    assert_eq!(sample(0.0049, 5, 1.0).get(), Physical::released());
    assert!(sample(-0.5, 5, 1.0).get().is_released());
}

#[test]
fn a_deflected_stick_gives_its_setpoint() {
    let s = sample(0.005, 5, 0.0);
    assert_eq!(s.get(), s.scaled);
    let s = sample(1.0, 2, -std::f32::consts::FRAC_PI_2);
    assert_eq!(f32::from_bits(s.get().speed), 0.4);
    assert_eq!(f32::from_bits(s.get().rudder), -std::f32::consts::FRAC_PI_2);
    let s = sample(f32::NAN, 2, 0.5);
    assert_eq!(s.get(), s.scaled);
}
