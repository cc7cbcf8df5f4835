use ble_lock::config::DUTY_RESOLUTION_BITS;
use ble_lock::duty::duty_for_degree;

// Full-scale duty value of the configured duty register resolution.
const FULL_SCALE: u32 = (1 << DUTY_RESOLUTION_BITS) - 1;

#[test]
fn duty_at_rest() {
    // (0/1800 + 0.025) * 16383 = 409.575, rounded to 410.
    assert_eq!(duty_for_degree(0, FULL_SCALE), 410);
}

#[test]
fn duty_at_90() {
    // (90/1800 + 0.025) * 16383 = 1229.225, rounded to 1229.
    assert_eq!(duty_for_degree(90, FULL_SCALE), 1229);
}

#[test]
fn duty_at_45() {
    // (45/1800 + 0.025) * 16383 = 819.65, rounded to 819.
    assert_eq!(duty_for_degree(45, FULL_SCALE), 819);
}

#[test]
fn duty_at_full_travel() {
    // (180/1800 + 0.025) * 16383 = 2047.875, rounded to 2048.
    assert_eq!(duty_for_degree(180, FULL_SCALE), 2048);
}

#[test]
fn duty_with_zero_full_scale() {
    assert_eq!(duty_for_degree(90, 0), 0);
}

#[test]
fn duty_with_largest_full_scale() {
    // ((180 + 45) * 4294967295 + 900) / 1800, exactly.
    assert_eq!(duty_for_degree(180, u32::MAX), 536870912);
}

#[test]
fn duty_matches_rounded_linear_map() {
    for d in 0u8..=180 {
        let expected = ((d as f64 / 1800.0 + 0.025) * FULL_SCALE as f64).round() as u32;
        assert_eq!(duty_for_degree(d, FULL_SCALE), expected, "degree {}", d);
    }
}

#[test]
fn duty_monotone_over_full_sweep() {
    let mut previous = duty_for_degree(0, FULL_SCALE);
    for d in 1u8..=180 {
        let duty = duty_for_degree(d, FULL_SCALE);
        assert!(duty >= previous, "degree {}", d);
        previous = duty;
    }
}
