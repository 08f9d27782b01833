use waow::CHANNEL_ONE;
use waow::Color;

#[test]
fn int8_round_trip_zero() {
    let c = Color::from_rgba_int(0, 0, 0, 0, false);
    assert_eq!(c.as_bytes(), [0, 0, 0, 0]);
}

#[test]
fn int8_round_trip_full() {
    let c = Color::from_rgba_int(255, 255, 255, 255, true);
    assert_eq!(c.as_bytes(), [255, 255, 255, 255]);
}

#[test]
fn int8_round_trip_mixed() {
    let c = Color::from_rgba_int(128, 200, 64, 255, false);
    assert_eq!(c.as_bytes(), [128, 200, 64, 255]);
}

#[test]
fn int8_round_trip_small() {
    let c = Color::from_rgba_int(1, 2, 3, 4, true);
    assert_eq!(c.as_bytes(), [1, 2, 3, 4]);
}

#[test]
fn int8_round_trip_every_value() {
    for v in 0..=255u8 {
        let c = Color::from_rgba_int(v, v, v, v, false);
        assert_eq!(c.as_bytes(), [v, v, v, v]);
    }
}

#[test]
fn from_rgba_keeps_channels() {
    let c = Color::from_rgba(32640, 0, CHANNEL_ONE, CHANNEL_ONE, true);
    assert_eq!(c.r, 32640);
    assert_eq!(c.g, 0);
    assert_eq!(c.b, CHANNEL_ONE);
    assert_eq!(c.a, CHANNEL_ONE);
    assert!(c.blending);
}

#[test]
fn as_bytes_truncates_toward_zero() {
    // 32640 / 65280 is exactly one half: 0.5 * 255 = 127.5 truncates to 127.
    let c = Color::from_rgba(32640, 0, 0, CHANNEL_ONE, false);
    assert_eq!(c.as_bytes(), [127, 0, 0, 255]);
    // One fixed-point step below a full channel still truncates down.
    let d = Color::from_rgba(CHANNEL_ONE - 1, 0, 0, CHANNEL_ONE, false);
    assert_eq!(d.as_bytes()[0], 254);
}

#[test]
fn composite_overlay_not_blending_overwrites() {
    let mut base = Color::from_rgba_int(10, 20, 30, 255, true);
    let over = Color::from_rgba_int(200, 100, 50, 255, false);
    base.composite_over(over);
    assert_eq!(base, over);
}

#[test]
fn composite_base_not_blending_overwrites() {
    let mut base = Color::from_rgba_int(10, 20, 30, 255, false);
    let over = Color::from_rgba_int(200, 100, 50, 128, true);
    base.composite_over(over);
    assert_eq!(base, over);
}

#[test]
fn composite_equal_alpha_mixes_half_and_half() {
    // Both alphas 0.5; red channels 1.0 and 0.0 mix to exactly 0.5.
    let mut base = Color::from_rgba(CHANNEL_ONE, 0, 0, 32640, true);
    let over = Color::from_rgba(0, 0, 0, 32640, true);
    base.composite_over(over);
    assert_eq!(base.r, 32640);
    assert_eq!(base.g, 0);
    assert_eq!(base.b, 0);
    // The output alpha is the sum of the input alphas.
    assert_eq!(base.a, CHANNEL_ONE);
    assert!(base.blending);
}

#[test]
fn composite_alpha_sum_is_clamped() {
    let mut base = Color::from_rgba(0, 0, 0, CHANNEL_ONE, true);
    let over = Color::from_rgba(0, 0, 0, CHANNEL_ONE, true);
    base.composite_over(over);
    assert_eq!(base.a, CHANNEL_ONE);
}

#[test]
fn composite_blue_mixes_base_green() {
    // Kept from the reference behavior: the blue output mixes the *green*
    // channel of the base with the blue channel of the overlay.
    let mut base = Color::from_rgba(0, 40000, 0, 32640, true);
    let over = Color::from_rgba(0, 0, 0, 32640, true);
    base.composite_over(over);
    assert_eq!(base.g, 20000);
    assert_eq!(base.b, 20000);
}

#[test]
fn composite_both_alphas_zero_takes_overlay_channels() {
    let mut base = Color::from_rgba(100, 200, 300, 0, true);
    let over = Color::from_rgba(5, 6, 7, 0, true);
    base.composite_over(over);
    assert_eq!(base, Color::from_rgba(5, 6, 7, 0, true));
}

#[test]
fn composite_weights_follow_alphas() {
    // Base alpha 0.75, overlay alpha 0.25: the base channel gets weight
    // 0.75 / (0.75 + 0.25) = 3/4. With base r = 1.0 and overlay r = 0.0 the
    // mix is (65280 * 48960 + 0 * 16320) / 65280 = 48960.
    let mut base = Color::from_rgba(CHANNEL_ONE, 0, 0, 48960, true);
    let over = Color::from_rgba(0, 0, 0, 16320, true);
    base.composite_over(over);
    assert_eq!(base.r, 48960);
    assert_eq!(base.a, CHANNEL_ONE);
}
