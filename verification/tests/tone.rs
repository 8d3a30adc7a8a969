use ascii_art::tone::{glyph_index, Contrast, Sample, LEVEL_MAX, LEVEL_MID, LEVEL_SCALE};

fn ratio(numer: i64, denom: u32) -> Contrast {
    Contrast::new(numer, denom).unwrap()
}

fn gray(value: u8) -> u32 {
    Sample::Luma { value }.level()
}

#[test]
fn contrast_needs_a_denominator() {
    assert_eq!(Contrast::new(3, 0), None);
    assert_eq!(Contrast::new(3, 2), Some(Contrast { numer: 3, denom: 2 }));
    assert_eq!(Contrast::neutral(), Contrast { numer: 1, denom: 1 });
}

#[test]
fn level_of_a_luminance_sample_is_its_value_scaled() {
    assert_eq!(gray(0), 0);
    assert_eq!(gray(1), LEVEL_SCALE);
    assert_eq!(gray(128), LEVEL_MID);
    assert_eq!(gray(255), LEVEL_MAX);
}

#[test]
fn level_of_a_colour_sample_is_the_weighted_sum() {
    assert_eq!(Sample::Rgb { r: 255, g: 0, b: 0 }.level(), 542_130);
    assert_eq!(Sample::Rgb { r: 0, g: 255, b: 0 }.level(), 1_823_760);
    assert_eq!(Sample::Rgb { r: 0, g: 0, b: 255 }.level(), 184_110);
    assert_eq!(Sample::Rgb { r: 255, g: 255, b: 255 }.level(), LEVEL_MAX);
    assert_eq!(Sample::Rgb { r: 10, g: 20, b: 30 }.level(), 21_260 + 143_040 + 21_660);
}

#[test]
fn neutral_contrast_maps_luminance_to_the_nearest_position() {
    let one = Contrast::neutral();
    assert_eq!(glyph_index(gray(0), one, false, 10), 0);
    assert_eq!(glyph_index(gray(14), one, false, 10), 0);
    assert_eq!(glyph_index(gray(15), one, false, 10), 1);
    assert_eq!(glyph_index(gray(127), one, false, 10), 4);
    assert_eq!(glyph_index(gray(128), one, false, 10), 5);
    assert_eq!(glyph_index(gray(240), one, false, 10), 8);
    assert_eq!(glyph_index(gray(241), one, false, 10), 9);
    assert_eq!(glyph_index(gray(255), one, false, 10), 9);
}

#[test]
fn colour_levels_are_not_rounded_before_the_glyph_is_picked() {
    let one = Contrast::neutral();
    let blue = Sample::Rgb { r: 0, g: 0, b: 200 }.level();
    assert_eq!(blue, 144_400);
    assert_eq!(glyph_index(blue, one, false, 10), 1);
    assert_eq!(glyph_index(gray(14), one, false, 10), 0);
}

#[test]
fn contrast_stretches_around_the_midpoint_and_clamps() {
    assert_eq!(glyph_index(gray(100), ratio(2, 1), false, 10), 3);
    assert_eq!(glyph_index(gray(200), ratio(2, 1), false, 10), 9);
    assert_eq!(glyph_index(gray(10), ratio(2, 1), false, 10), 0);
    assert_eq!(glyph_index(gray(0), ratio(1, 2), false, 10), 2);
    assert_eq!(glyph_index(gray(255), ratio(1, 2), false, 10), 7);
    assert_eq!(glyph_index(gray(128), ratio(7, 3), false, 10), 5);
    assert_eq!(glyph_index(gray(0), ratio(0, 1), false, 10), 5);
    assert_eq!(glyph_index(gray(0), ratio(-1, 1), false, 10), 9);
    assert_eq!(glyph_index(gray(255), ratio(-1, 1), false, 10), 0);
}

#[test]
fn equal_fractions_are_the_same_contrast() {
    for value in 0..=255u8 {
        let a = glyph_index(gray(value), ratio(3, 2), false, 10);
        let b = glyph_index(gray(value), ratio(6, 4), false, 10);
        let c = glyph_index(gray(value), ratio(1_500_000, 1_000_000), false, 10);
        assert_eq!(a, b);
        assert_eq!(a, c);
    }
}

#[test]
fn inversion_at_neutral_contrast_mirrors_the_luminance() {
    let one = Contrast::neutral();
    for value in 0..=255u8 {
        let inverted = glyph_index(gray(value), one, true, 10);
        let mirrored = glyph_index(gray(255 - value), one, false, 10);
        assert_eq!(inverted, mirrored);
    }
    assert_eq!(glyph_index(gray(0), one, true, 10), 9);
    assert_eq!(glyph_index(gray(255), one, true, 10), 0);
    assert_eq!(glyph_index(gray(100), one, true, 10), 5);
}

#[test]
fn brighter_never_gets_an_earlier_glyph() {
    let one = Contrast::neutral();
    let mut previous = 0;
    for value in 0..=255u8 {
        let index = glyph_index(gray(value), one, false, 10);
        assert!(index >= previous);
        previous = index;
    }
    assert_eq!(previous, 9);
}

#[test]
fn index_stays_in_the_ramp_for_every_setting() {
    let factors = [
        ratio(-5, 1),
        ratio(-1, 3),
        ratio(0, 1),
        ratio(1, 10),
        ratio(1, 1),
        ratio(3, 2),
        ratio(100, 1),
        ratio(i64::MAX, 1),
        ratio(i64::MIN, 1),
        ratio(1, u32::MAX),
    ];
    for factor in factors {
        for invert in [false, true] {
            for value in 0..=255u8 {
                for ramp_len in [1usize, 2, 10, 70] {
                    assert!(glyph_index(gray(value), factor, invert, ramp_len) < ramp_len);
                }
            }
        }
    }
}

#[test]
fn levels_beyond_full_brightness_are_clamped() {
    let one = Contrast::neutral();
    assert_eq!(glyph_index(u32::MAX, one, false, 10), 9);
    assert_eq!(glyph_index(u32::MAX, one, true, 10), 0);
    assert_eq!(glyph_index(LEVEL_MAX + 1, one, false, usize::MAX), usize::MAX - 1);
}

#[test]
fn a_ramp_of_one_glyph_always_gives_that_glyph() {
    assert_eq!(glyph_index(gray(0), Contrast::neutral(), false, 1), 0);
    assert_eq!(glyph_index(gray(255), Contrast::neutral(), true, 1), 0);
}
