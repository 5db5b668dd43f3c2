use robot_bin::device_code::{
    Link, BITS, CHASSIS, POWER_SWITCH, RTK_FIX, RTK_NETWORK, RTK_SERIAL,
};
use robot_bin::{AtomicDeviceCode, DeviceCode};

#[test]
fn flag_positions_are_fixed() {
    assert_eq!(
        (CHASSIS, POWER_SWITCH, RTK_SERIAL, RTK_NETWORK, RTK_FIX, BITS),
        (0, 1, 2, 3, 4, 32)
    );
}

#[test]
fn chassis_going_down_takes_the_power_switch_along() {
    let mut code = DeviceCode(0);
    assert_eq!(code.switch(Link::Chassis(true)), Some(0b01));
    assert_eq!(code.switch(Link::PowerSwitch(true)), Some(0b11));
    assert_eq!(code.switch(Link::PowerSwitch(true)), None);
    assert_eq!(code.switch(Link::Chassis(false)), Some(0));
    assert_eq!(code.switch(Link::Chassis(false)), None);
    assert_eq!(code.switch(Link::PowerSwitch(false)), None);
}

#[test]
fn board_going_down_takes_the_fix_along() {
    let mut code = DeviceCode(0);
    assert_eq!(code.switch(Link::RtkSerial(true)), Some(0b00100));
    assert_eq!(code.switch(Link::RtkNetwork(true)), Some(0b01100));
    assert_eq!(code.switch(Link::RtkFix(true)), Some(0b11100));
    assert_eq!(code.switch(Link::RtkFix(true)), None);
    assert_eq!(code.switch(Link::RtkSerial(false)), Some(0b01000));
    assert_eq!(code.switch(Link::RtkFix(false)), None);
    assert_eq!(code.switch(Link::RtkNetwork(false)), Some(0));
}

#[test]
fn shared_code_switches_like_a_plain_one() {
    let shared = AtomicDeviceCode::default();
    let mut plain = DeviceCode::default();
    let links = [
        Link::Chassis(true),
        Link::PowerSwitch(true),
        Link::RtkSerial(true),
        Link::RtkFix(true),
        Link::RtkFix(true),
        Link::RtkNetwork(false),
        Link::RtkSerial(false),
        Link::Chassis(false),
        Link::PowerSwitch(false),
    ];
    for link in links {
        assert_eq!(shared.switch(link).map(|c| c.0), plain.switch(link));
    }
    assert_eq!(plain, DeviceCode(0));
}
