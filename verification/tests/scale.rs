use windows_dpi::{ScaleFactor, REFERENCE_DPI};

fn factor(scale: ScaleFactor) -> f32 {
    scale.dpi() as f32 / REFERENCE_DPI as f32
}

#[test]
fn reference_density_is_ninety_six() {
    assert_eq!(REFERENCE_DPI, 96);
}

#[test]
fn standard_is_exactly_one() {
    let scale = ScaleFactor::standard();
    assert_eq!(scale.dpi(), 96);
    assert_eq!(factor(scale), 1.0);
}

#[test]
fn reading_is_kept_as_it_was_read() {
    assert_eq!(ScaleFactor::from_reading(96).dpi(), 96);
    assert_eq!(ScaleFactor::from_reading(120).dpi(), 120);
    assert_eq!(ScaleFactor::from_reading(144).dpi(), 144);
    assert_eq!(ScaleFactor::from_reading(192).dpi(), 192);
    assert_eq!(ScaleFactor::from_reading(1).dpi(), 1);
}

#[test]
fn reading_over_reference_is_the_factor() {
    assert_eq!(factor(ScaleFactor::from_reading(96)), 1.0);
    assert_eq!(factor(ScaleFactor::from_reading(120)), 1.25);
    assert_eq!(factor(ScaleFactor::from_reading(144)), 1.5);
    assert_eq!(factor(ScaleFactor::from_reading(192)), 2.0);
    assert_eq!(factor(ScaleFactor::from_reading(48)), 0.5);
}

#[test]
fn failed_reading_degrades_to_standard() {
    assert_eq!(ScaleFactor::from_reading(0), ScaleFactor::standard());
    assert_eq!(ScaleFactor::from_reading(-1), ScaleFactor::standard());
    assert_eq!(ScaleFactor::from_reading(i64::MIN), ScaleFactor::standard());
    assert_eq!(factor(ScaleFactor::from_reading(0)), 1.0);
}

#[test]
fn largest_readings_fit() {
    assert_eq!(ScaleFactor::from_reading(i64::from(u32::MAX)).dpi(), 4_294_967_295);
    assert_eq!(ScaleFactor::from_reading(i64::from(i32::MAX)).dpi(), 2_147_483_647);
    assert_eq!(ScaleFactor::from_reading(i64::MAX).dpi(), 9_223_372_036_854_775_807);
}

#[test]
fn every_factor_is_finite_and_positive() {
    let readings: [i64; 9] = [i64::MIN, -96, -1, 0, 1, 96, 144, 4_294_967_295, i64::MAX];
    for reading in readings {
        let scale = ScaleFactor::from_reading(reading);
        assert!(scale.dpi() > 0);
        let value = factor(scale);
        assert!(value.is_finite());
        assert!(value > 0.0);
    }
}

#[test]
fn equal_readings_give_equal_factors() {
    assert_eq!(ScaleFactor::from_reading(144), ScaleFactor::from_reading(144));
    assert_ne!(ScaleFactor::from_reading(144), ScaleFactor::from_reading(145));
}
