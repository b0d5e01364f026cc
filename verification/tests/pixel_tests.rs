//! The pixel and blend model, exercised on concrete values.

use pixel_game_engine::pixel::Pixel;

#[test]
fn pack_unpack_round_trips_every_channel() {
    let samples = vec![
        Pixel::rgba(0, 0, 0, 0),
        Pixel::rgba(255, 255, 255, 255),
        Pixel::rgba(1, 2, 3, 4),
        Pixel::rgba(200, 100, 50, 25),
        Pixel::rgba(0, 255, 0, 128),
        Pixel::rgba(255, 0, 255, 1),
    ];
    for p in samples {
        assert_eq!(Pixel::unpack(p.pack()), p);
    }
}

#[test]
fn pack_layout_alpha_high_blue_low() {
    let p = Pixel::rgba(0x22, 0x33, 0x44, 0x11);
    assert_eq!(p.pack(), 0x1122_3344);
    let q = Pixel::unpack(0xAABB_CCDD);
    assert_eq!(q.a, 0xAA);
    assert_eq!(q.r, 0xBB);
    assert_eq!(q.g, 0xCC);
    assert_eq!(q.b, 0xDD);
}

#[test]
fn rgb_is_fully_opaque() {
    let p = Pixel::rgb(10, 20, 30);
    assert_eq!(p.a, 255);
    assert_eq!((p.r, p.g, p.b), (10, 20, 30));
}

#[test]
fn default_pixel_is_transparent_black() {
    let p = Pixel::default();
    assert_eq!(p, Pixel::rgba(0, 0, 0, 0));
}

#[test]
fn blended_over_matches_linear_formula() {
    // alpha 128 at full blend factor over a known destination:
    // t = 128 * 255 / 255 = 128; out = (t * src + (255 - t) * dst) / 255.
    let src = Pixel::rgba(200, 60, 0, 128);
    let dst = Pixel::rgb(100, 200, 255);
    let out = src.blended_over(dst, 255);
    assert_eq!(out.a, 255);
    assert_eq!(out.r as u32, (128 * 200 + 127 * 100) / 255);
    assert_eq!(out.g as u32, (128 * 60 + 127 * 200) / 255);
    assert_eq!(out.b as u32, (128 * 0 + 127 * 255) / 255);
}

#[test]
fn blend_factor_zero_keeps_destination_colors() {
    let src = Pixel::rgba(250, 250, 250, 255);
    let dst = Pixel::rgb(1, 2, 3);
    let out = src.blended_over(dst, 0);
    assert_eq!((out.r, out.g, out.b), (1, 2, 3));
    assert_eq!(out.a, 255);
}
