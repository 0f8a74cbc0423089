use led_dimmer::brightness::{correct_gamma, scale};
use led_dimmer::dither::dither;
use led_dimmer::pwm::{invert, InvertedPwm};
use led_dimmer::tracker::update;

#[test]
fn tracker_absorbs_equal_sample() {
    assert_eq!(update(500, 500), 500);
}

#[test]
fn tracker_absorbs_one_above() {
    assert_eq!(update(501, 500), 500);
}

#[test]
fn tracker_adopts_rising_one_below() {
    assert_eq!(update(700, 500), 699);
    assert_eq!(update(502, 500), 501);
}

#[test]
fn tracker_adopts_falling_exactly() {
    assert_eq!(update(499, 500), 499);
    assert_eq!(update(0, 1023), 0);
}

#[test]
fn tracker_at_range_ends() {
    assert_eq!(update(0, 0), 0);
    assert_eq!(update(1023, 0), 1022);
    assert_eq!(update(1023, 1022), 1022);
    assert_eq!(update(1023, 1023), 1023);
}

#[test]
fn gamma_of_zero_is_zero() {
    assert_eq!(correct_gamma(0, 1023), 0);
    assert_eq!(correct_gamma(0, 255), 0);
}

#[test]
fn gamma_of_max_is_max() {
    assert_eq!(correct_gamma(1023, 1023), 1023);
    assert_eq!(correct_gamma(255, 255), 255);
}

#[test]
fn gamma_exact_values() {
    // 512 * 512 / 1023 = 262144 / 1023, rounded down.
    assert_eq!(correct_gamma(512, 1023), 256);
    // 32 * 32 = 1024, one past the maximum, so the quotient is 1.
    assert_eq!(correct_gamma(32, 1023), 1);
    assert_eq!(correct_gamma(1, 1023), 0);
}

#[test]
fn gamma_clamps_inputs_past_max() {
    // 2000 * 2000 / 1023 is far above the range maximum.
    assert_eq!(correct_gamma(2000, 1023), 1023);
    assert_eq!(correct_gamma(65535, 1023), 1023);
}

#[test]
fn gamma_monotonic_over_full_range() {
    let mut last = 0u16;
    for input in 0..=1023u16 {
        let corrected = correct_gamma(input, 1023);
        assert!(corrected >= last);
        assert!(corrected <= 1023);
        last = corrected;
    }
}

#[test]
fn scale_full_cap_is_identity() {
    assert_eq!(scale(818, 100), 818);
    assert_eq!(scale(0, 100), 0);
    assert_eq!(scale(1023, 100), 1023);
}

#[test]
fn scale_zero_cap_is_zero() {
    assert_eq!(scale(1023, 0), 0);
    assert_eq!(scale(771, 0), 0);
}

#[test]
fn scale_exact_value_at_eighty_percent() {
    // 1023 * 80 / 100 = 818, rounded down.
    assert_eq!(scale(1023, 80), 818);
    assert_eq!(scale(1, 80), 0);
}

#[test]
fn scale_never_amplifies() {
    for value in 0..=1023u16 {
        for percent in [0u8, 1, 50, 80, 99, 100] {
            assert!(scale(value, percent) <= value);
        }
    }
}

#[test]
fn dither_remainder_zero_never_boosts() {
    // 816 = 4 * 204: base duty 204, remainder 0.
    let mut phase = 0u8;
    for _ in 0..4 {
        let (duty, next) = dither(816, phase);
        assert_eq!(duty, 204);
        phase = next;
    }
    assert_eq!(phase, 0);
}

#[test]
fn dither_remainder_rows_match_table() {
    // Remainder 1: boosted on the first frame only.
    let duties: Vec<u8> = (0..4u8).map(|p| dither(817, p).0).collect();
    assert_eq!(duties, vec![205, 204, 204, 204]);
    // Remainder 2: boosted on two frames, evenly spread.
    let duties: Vec<u8> = (0..4u8).map(|p| dither(818, p).0).collect();
    assert_eq!(duties, vec![205, 204, 205, 204]);
    // Remainder 3: boosted on all but the last frame.
    let duties: Vec<u8> = (0..4u8).map(|p| dither(819, p).0).collect();
    assert_eq!(duties, vec![205, 205, 205, 204]);
}

#[test]
fn dither_cycle_sum_reconstructs_value() {
    for value in [0u16, 1, 2, 3, 4, 17, 511, 816, 817, 818, 819] {
        let sum: u32 = (0..4u8).map(|p| dither(value, p).0 as u32).sum();
        assert_eq!(sum, 4 * (value as u32 >> 2) + (value as u32 % 4));
    }
}

#[test]
fn dither_phase_wraps_around() {
    assert_eq!(dither(0, 0).1, 1);
    assert_eq!(dither(0, 1).1, 2);
    assert_eq!(dither(0, 2).1, 3);
    assert_eq!(dither(0, 3).1, 0);
}

#[test]
fn invert_maps_extremes() {
    assert_eq!(invert(0), 255);
    assert_eq!(invert(255), 0);
    assert_eq!(invert(100), 155);
}

#[test]
fn invert_is_an_involution() {
    for value in 0..=255u8 {
        assert_eq!(invert(invert(value)), value);
    }
}

#[test]
fn pwm_starts_constantly_low() {
    let pwm = InvertedPwm::new();
    assert_eq!(pwm.register(), 255);
}

#[test]
fn pwm_duty_zero_writes_register_255() {
    let mut pwm = InvertedPwm::new();
    pwm.set_duty(100);
    pwm.set_duty(0);
    assert_eq!(pwm.register(), 255);
}

#[test]
fn pwm_duty_255_writes_register_0() {
    let mut pwm = InvertedPwm::new();
    pwm.set_duty(255);
    assert_eq!(pwm.register(), 0);
}
