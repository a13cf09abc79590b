use dashi::volume::{channel_peak, channels_percent, DashiVolume, NATIVE_NORMAL};

#[test]
fn add_saturates_at_upper_bound() {
    assert_eq!(DashiVolume(148).add(DashiVolume(10)), DashiVolume(150));
}

#[test]
fn sub_saturates_at_zero() {
    assert_eq!(DashiVolume(3).sub(DashiVolume(10)), DashiVolume(0));
}

#[test]
fn add_and_sub_within_range_are_exact() {
    assert_eq!(DashiVolume(40).add(DashiVolume(5)), DashiVolume(45));
    assert_eq!(DashiVolume(40).sub(DashiVolume(15)), DashiVolume(25));
}

#[test]
fn arithmetic_never_overflows() {
    assert_eq!(DashiVolume(i32::MAX).add(DashiVolume(i32::MAX)), DashiVolume(150));
    assert_eq!(DashiVolume(i32::MIN).sub(DashiVolume(i32::MAX)), DashiVolume(0));
}

#[test]
fn clamp_limits_both_ends() {
    assert_eq!(DashiVolume(-7).clamp(), DashiVolume(0));
    assert_eq!(DashiVolume(151).clamp(), DashiVolume(150));
    assert_eq!(DashiVolume(77).clamp(), DashiVolume(77));
}

#[test]
fn from_percent_clamps_user_input() {
    assert_eq!(DashiVolume::from_percent(40), DashiVolume(40));
    assert_eq!(DashiVolume::from_percent(400), DashiVolume(150));
    assert_eq!(DashiVolume::from_percent(u32::MAX), DashiVolume(150));
}

#[test]
fn twelve_and_a_half_percent_rounds_down_to_ten() {
    // 8192 / 65536 is exactly 12.5%: truncated to 12, then (12 + 2) / 5 * 5.
    assert_eq!(DashiVolume::from_native(8192), DashiVolume(10));
}

#[test]
fn from_native_rounds_to_multiples_of_five() {
    assert_eq!(DashiVolume::from_native(0), DashiVolume(0));
    assert_eq!(DashiVolume::from_native(NATIVE_NORMAL), DashiVolume(100));
    // 30000 is 45.77%: truncated to 45.
    assert_eq!(DashiVolume::from_native(30000), DashiVolume(45));
    // 31000 is 47.30%: truncated to 47, rounds down to 45.
    assert_eq!(DashiVolume::from_native(31000), DashiVolume(45));
    // 31500 is 48.06%: truncated to 48, rounds up to 50.
    assert_eq!(DashiVolume::from_native(31500), DashiVolume(50));
}

#[test]
fn from_native_never_reports_above_one_hundred() {
    assert_eq!(DashiVolume::from_native(NATIVE_NORMAL * 3 / 2), DashiVolume(100));
    assert_eq!(DashiVolume::from_native(u32::MAX), DashiVolume(100));
}

#[test]
fn to_native_truncates() {
    assert_eq!(DashiVolume(40).to_native(), 26214);
    assert_eq!(DashiVolume(100).to_native(), 65536);
    assert_eq!(DashiVolume(150).to_native(), 98304);
    assert_eq!(DashiVolume(0).to_native(), 0);
    assert_eq!(DashiVolume(-5).to_native(), 0);
}

#[test]
fn round_trip_stays_within_half_a_step() {
    let half_step = NATIVE_NORMAL as i64 / 40;
    for raw in [0u32, 1000, 30000, 31000, 50000, NATIVE_NORMAL] {
        let back = DashiVolume::from_native(raw).to_native() as i64;
        assert!((back - raw as i64).abs() <= half_step, "raw {}", raw);
    }
}

#[test]
fn round_trip_can_exceed_half_a_step_two_above_a_multiple_of_five() {
    // 5177 is 7.9%: truncated to 7, rounded down to 5, which lies 2.9 points away.
    let back = DashiVolume::from_native(5177).to_native() as i64;
    assert_eq!(DashiVolume::from_native(5177), DashiVolume(5));
    assert!(5177 - back > NATIVE_NORMAL as i64 / 40);
}

#[test]
fn set_overwrites_every_channel() {
    let mut channels = vec![1u32, 2, 3];
    DashiVolume(40).set(&mut channels);
    assert_eq!(channels, vec![26214, 26214, 26214]);
    let mut empty: Vec<u32> = Vec::new();
    DashiVolume(40).set(&mut empty);
    assert!(empty.is_empty());
}

#[test]
fn peak_is_the_loudest_channel() {
    assert_eq!(channel_peak(&vec![100, 30000, 2000]), 30000);
    assert_eq!(channel_peak(&Vec::new()), 0);
    assert_eq!(channels_percent(&vec![8192, 30000]), DashiVolume(45));
}

#[test]
fn multiples_of_five_read_back_exactly() {
    for n in (0..=100).step_by(5) {
        assert_eq!(DashiVolume::from_native(DashiVolume(n).to_native()), DashiVolume(n));
    }
}
