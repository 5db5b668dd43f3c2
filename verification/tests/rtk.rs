use robot_bin::reauth;
use robot_bin::runtime::rtk::{
    route, Event, GpggaStatus, Parsed, Routing, Session, NETWORK_RETRY_PERIOD,
    SERIAL_RETRY_PERIOD, SESSION_SPAN,
};

fn all() -> [GpggaStatus; 9] {
    [
        GpggaStatus::Invalid,
        GpggaStatus::Single,
        GpggaStatus::Differential,
        GpggaStatus::Pps,
        GpggaStatus::Fixed,
        GpggaStatus::Float,
        GpggaStatus::DeadReckoning,
        GpggaStatus::UserInput,
        GpggaStatus::Ppp,
    ]
}

#[test]
fn only_carrier_phase_fixes_are_adequate() {
    let adequate: Vec<GpggaStatus> = all().into_iter().filter(|s| s.adequate()).collect();
    assert_eq!(adequate, vec![GpggaStatus::Fixed, GpggaStatus::Float]);
}

#[test]
fn four_qualities_are_drawn() {
    let levels: Vec<Option<u8>> = all().into_iter().map(|s| s.level()).collect();
    assert_eq!(
        levels,
        vec![None, Some(0), Some(1), None, Some(3), Some(2), None, None, None]
    );
}

#[test]
fn a_fix_goes_to_the_runtime_and_every_sentence_to_the_service() {
    assert_eq!(
        route(5, Parsed::Fix(GpggaStatus::Float)),
        Routing { event: Some(Event::Gpgga(5, GpggaStatus::Float)), forward: true }
    );
    assert_eq!(route(5, Parsed::WrongHead), Routing { event: None, forward: true });
    assert_eq!(route(5, Parsed::Broken), Routing { event: None, forward: false });
}

#[test]
fn rtk_constants() {
    assert_eq!(SERIAL_RETRY_PERIOD, 1_000_000_000);
    assert_eq!(NETWORK_RETRY_PERIOD, 3_000_000_000);
    assert_eq!(SESSION_SPAN, 300_000_000_000);
}

#[test]
fn reauth_ends_the_sessions_begun_before() {
    let mut session = Session::new(100);
    assert!(!session.keeps(100, 150));
    assert!(session.keeps(101, 150));
    assert!(session.keeps(101, 0));
    reauth(&mut session, 200);
    assert_eq!(session, Session { update_time: 200 });
    assert!(!session.keeps(101, 250));
    assert!(!session.keeps(200, 250));
    assert!(session.keeps(201, 250));
    assert!(!session.keeps(250 + SESSION_SPAN, 250));
    assert!(session.keeps(249 + SESSION_SPAN, 250));
    assert!(session.keeps(u64::MAX - 1, u64::MAX));
}
