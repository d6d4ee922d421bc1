use buzzer::{hsv_to_rgb, Rgb};

fn rgb(r: u8, g: u8, b: u8) -> Rgb {
    Rgb { r, g, b }
}

#[test]
fn primary_hues() {
    assert_eq!(hsv_to_rgb(0, 1000, 1000), rgb(255, 0, 0));
    assert_eq!(hsv_to_rgb(120_000, 1000, 1000), rgb(0, 255, 0));
    assert_eq!(hsv_to_rgb(240_000, 1000, 1000), rgb(0, 0, 255));
}

#[test]
fn secondary_hues() {
    assert_eq!(hsv_to_rgb(60_000, 1000, 1000), rgb(255, 255, 0));
    assert_eq!(hsv_to_rgb(180_000, 1000, 1000), rgb(0, 255, 255));
    assert_eq!(hsv_to_rgb(300_000, 1000, 1000), rgb(255, 0, 255));
}

#[test]
fn intermediate_hue_rounds_half_up() {
    // x = 0.5 of the chroma: 127.5 rounds to 128.
    assert_eq!(hsv_to_rgb(30_000, 1000, 1000), rgb(255, 128, 0));
    assert_eq!(hsv_to_rgb(210_000, 1000, 1000), rgb(0, 128, 255));
}

#[test]
fn zero_saturation_is_grey_for_any_hue() {
    for h in [-720_000i64, -30_000, 0, 45_000, 200_000, 359_999, 1_000_000] {
        assert_eq!(hsv_to_rgb(h, 0, 1000), rgb(255, 255, 255));
        assert_eq!(hsv_to_rgb(h, 0, 500), rgb(128, 128, 128));
        assert_eq!(hsv_to_rgb(h, 0, 200), rgb(51, 51, 51));
        assert_eq!(hsv_to_rgb(h, 0, 0), rgb(0, 0, 0));
    }
}

#[test]
fn negative_hue_wraps_around() {
    assert_eq!(hsv_to_rgb(-30_000, 1000, 1000), hsv_to_rgb(330_000, 1000, 1000));
    assert_eq!(hsv_to_rgb(-30_000, 1000, 1000), rgb(255, 0, 128));
    assert_eq!(hsv_to_rgb(-400_000, 700, 900), hsv_to_rgb(320_000, 700, 900));
    assert_eq!(hsv_to_rgb(720_000, 1000, 1000), rgb(255, 0, 0));
    assert_eq!(hsv_to_rgb(i64::MIN, 1000, 1000), hsv_to_rgb(i64::MIN % 360_000 + 360_000, 1000, 1000));
}

#[test]
fn out_of_range_components_are_held_to_bounds() {
    assert_eq!(hsv_to_rgb(0, 2000, 1000), rgb(255, 0, 0));
    assert_eq!(hsv_to_rgb(0, 1000, 5000), rgb(255, 0, 0));
    assert_eq!(hsv_to_rgb(0, -10, 1000), rgb(255, 255, 255));
    assert_eq!(hsv_to_rgb(0, 1000, -10), rgb(0, 0, 0));
}

#[test]
fn partial_saturation_and_value() {
    // h = 0, s = 0.5, v = 0.8: c = 0.4, m = 0.4 -> (204, 102, 102).
    assert_eq!(hsv_to_rgb(0, 500, 800), rgb(204, 102, 102));
}
