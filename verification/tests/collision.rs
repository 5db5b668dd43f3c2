use robot_bin::runtime::lidar::collision::{
    evadable, side, Side, Verdict, Walk, HORIZON, STEP_A, STEP_S,
};

const MS: u64 = 1_000_000;

fn bits(x: f32) -> u32 {
    x.to_bits()
}

#[test]
fn collision_constants() {
    assert_eq!(HORIZON, 2000 * MS);
    assert_eq!(STEP_S, 0.05f32.to_bits());
    assert_eq!(STEP_A, (std::f32::consts::PI / 18.0).to_bits());
}

#[test]
fn a_walk_of_forty_milliseconds_takes_fifty_samples() {
    let mut walk = Walk::begin(40 * MS);
    let mut taken = 0;
    loop {
        match walk.advance(bits(1.0), bits(0.0)) {
            Verdict::Beyond => break,
            v => {
                assert_eq!(v, Verdict::Test);
                taken += 1;
            }
        }
    }
    assert_eq!(taken, 50);
    assert_eq!(walk.time, 2040 * MS);
    assert_eq!(walk.advance(bits(1.0), bits(1.0)), Verdict::Beyond);
}

#[test]
fn the_sample_at_the_horizon_is_still_taken() {
    let mut walk = Walk::begin(1000 * MS);
    assert_eq!(walk.advance(bits(0.0), bits(0.0)), Verdict::Skip);
    assert_eq!(walk.advance(bits(0.1), bits(0.0)), Verdict::Test);
    assert_eq!(walk.time, HORIZON);
    assert_eq!(walk.advance(bits(0.1), bits(0.0)), Verdict::Beyond);
    let mut far = Walk::begin(HORIZON + 1);
    assert_eq!(far.advance(bits(9.0), bits(9.0)), Verdict::Beyond);
    let mut still = Walk::begin(0);
    for _ in 0..100 {
        assert_eq!(still.advance(bits(0.0), bits(0.0)), Verdict::Skip);
    }
    assert_eq!(still.time, 0);
}

#[test]
fn a_sample_is_tested_once_enough_has_moved() {
    let verdict = |s: f32, a: f32| Walk::begin(40 * MS).advance(bits(s), bits(a));
    assert_eq!(verdict(0.0, 0.0), Verdict::Skip);
    assert_eq!(verdict(0.049, 0.17), Verdict::Skip);
    assert_eq!(verdict(0.05, 0.0), Verdict::Test);
    assert_eq!(verdict(0.0, std::f32::consts::PI / 18.0), Verdict::Test);
    assert_eq!(verdict(0.06, 0.2), Verdict::Test);
    assert_eq!(verdict(f32::NAN, 0.0), Verdict::Test);
    assert_eq!(verdict(0.0, f32::NAN), Verdict::Test);
    for s in [0.0f32, 0.01, 0.049999, 0.05, 0.050001, 1.0] {
        for a in [0.0f32, 0.1, 0.17453, 0.1746, 3.0] {
            let skip = s < 0.05 && a < std::f32::consts::PI / 18.0;
            assert_eq!(verdict(s, a) == Verdict::Skip, skip);
        }
    }
}

#[test]
fn a_walk_saturates_at_the_end_of_the_clock() {
    let mut walk = Walk { period: u64::MAX, time: 5 };
    assert_eq!(walk.advance(0, 0), Verdict::Beyond);
    assert_eq!(walk.time, u64::MAX);
}

#[test]
fn points_push_from_their_side_within_a_metre() {
    assert_eq!(side(bits(0.5), bits(0.1)), Some(Side::Left));
    assert_eq!(side(bits(0.5), bits(-0.1)), Some(Side::Right));
    assert_eq!(side(bits(0.5), bits(0.0)), Some(Side::Right));
    assert_eq!(side(bits(0.5), bits(-0.0)), Some(Side::Right));
    assert_eq!(side(bits(0.999), bits(0.9)), Some(Side::Left));
    assert_eq!(side(bits(1.0), bits(0.9)), None);
    assert_eq!(side(bits(4.0), bits(-0.9)), None);
    assert_eq!(side(bits(f32::NAN), bits(0.9)), None);
    assert_eq!(side(bits(0.5), bits(f32::NAN)), Some(Side::Right));
}

#[test]
fn a_hit_is_evadable_below_risk_one() {
    assert!(evadable(bits(0.5)));
    assert!(evadable(bits(1.0 / 1.3)));
    assert!(!evadable(bits(1.0)));
    assert!(!evadable(bits(f32::NAN)));
}
