use cedar_display::trig::cos_milli;
use cedar_display::trig::norm_angle;
use cedar_display::trig::sin_milli;

#[test]
fn sine_is_exact_at_quarter_turns() {
    assert_eq!(sin_milli(0), 0);
    assert_eq!(sin_milli(90_000), 1000);
    assert_eq!(sin_milli(180_000), 0);
    assert_eq!(sin_milli(270_000), -1000);
    assert_eq!(sin_milli(360_000), 0);
    assert_eq!(sin_milli(450_000), 1000);
}

#[test]
fn cosine_is_the_sine_a_quarter_turn_ahead() {
    assert_eq!(cos_milli(0), 1000);
    assert_eq!(cos_milli(90_000), 0);
    assert_eq!(cos_milli(180_000), -1000);
    assert_eq!(cos_milli(270_000), 0);
}

#[test]
fn half_wave_approximation_hits_known_points() {
    // sin 30 degrees is exactly one half under this approximation
    assert_eq!(sin_milli(30_000), 500);
    assert_eq!(sin_milli(150_000), 500);
    assert_eq!(sin_milli(210_000), -500);
    // symmetry of the wave
    assert_eq!(sin_milli(45_000), sin_milli(135_000));
    assert_eq!(sin_milli(60_000), -sin_milli(240_000));
}

#[test]
fn sine_stays_within_scale() {
    let mut a: u64 = 0;
    while a < 720_000 {
        let s = sin_milli(a);
        assert!((-1000..=1000).contains(&s));
        a += 1500;
    }
}

#[test]
fn negative_angles_normalize_into_one_revolution() {
    assert_eq!(norm_angle(0), 0);
    assert_eq!(norm_angle(360_000), 0);
    assert_eq!(norm_angle(-90_000), 270_000);
    assert_eq!(norm_angle(-360_000), 0);
    assert_eq!(norm_angle(-450_000), 270_000);
    assert_eq!(norm_angle(725_000), 5_000);
}
