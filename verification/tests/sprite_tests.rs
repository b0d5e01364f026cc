//! The framebuffer's bounds-checked accessors, exercised exactly at the
//! boundaries.

use pixel_game_engine::pixel::Pixel;
use pixel_game_engine::sprite::{Sprite, SpriteMode};

#[test]
fn new_sprite_is_zeroed() {
    let s = Sprite::new(3, 2);
    assert_eq!(s.width(), 3);
    assert_eq!(s.height(), 2);
    assert_eq!(s.get_data(), &[0u32; 6]);
}

#[test]
fn set_pixel_bounds_checked_at_every_edge() {
    let w = 3;
    let h = 2;
    let mut s = Sprite::new(w, h);
    let p = Pixel::rgb(1, 2, 3);
    // x boundary cases at a valid row
    assert!(!s.set_pixel(-1, 0, p));
    assert!(s.set_pixel(0, 0, p));
    assert!(s.set_pixel(w as i32 - 1, 0, p));
    assert!(!s.set_pixel(w as i32, 0, p));
    // y boundary cases at a valid column
    assert!(!s.set_pixel(0, -1, p));
    assert!(s.set_pixel(0, h as i32 - 1, p));
    assert!(!s.set_pixel(0, h as i32, p));
}

#[test]
fn out_of_range_write_never_mutates_backing_array() {
    let mut s = Sprite::new(2, 2);
    let before: Vec<u32> = s.get_data().to_vec();
    let p = Pixel::rgb(9, 9, 9);
    assert!(!s.set_pixel(-1, 0, p));
    assert!(!s.set_pixel(0, -1, p));
    assert!(!s.set_pixel(2, 0, p));
    assert!(!s.set_pixel(0, 2, p));
    assert!(!s.set_pixel(i32::MIN, i32::MAX, p));
    assert_eq!(s.get_data(), before.as_slice());
}

#[test]
fn get_pixel_returns_transparent_black_outside_in_normal_mode() {
    let mut s = Sprite::new(2, 2);
    let p = Pixel::rgb(5, 6, 7);
    assert!(s.set_pixel(1, 1, p));
    assert_eq!(s.get_pixel(1, 1), p);
    let default = Pixel::rgba(0, 0, 0, 0);
    assert_eq!(s.get_pixel(-1, 0), default);
    assert_eq!(s.get_pixel(0, -1), default);
    assert_eq!(s.get_pixel(2, 0), default);
    assert_eq!(s.get_pixel(0, 2), default);
}

#[test]
fn periodic_mode_wraps_out_of_range_reads() {
    let mut s = Sprite::new(3, 2);
    let p = Pixel::rgb(42, 0, 0);
    assert!(s.set_pixel(1, 1, p));
    s.set_sample_mode(SpriteMode::Periodic);
    // 4 mod 3 = 1 and 3 mod 2 = 1
    assert_eq!(s.get_pixel(4, 3), p);
    // negative coordinates wrap by the non-negative mathematical modulo:
    // -2 mod 3 = 1, -1 mod 2 = 1
    assert_eq!(s.get_pixel(-2, -1), p);
    // the texture tiles seamlessly: -1 and 2 address the same column
    let q = Pixel::rgb(0, 42, 0);
    assert!(s.set_pixel(2, 1, q));
    assert_eq!(s.get_pixel(-1, 1), s.get_pixel(2, 1));
    assert_eq!(s.get_pixel(-1, 1), q);
}

#[test]
fn from_bgra_data_reorders_channels() {
    // two pixels in blue, green, red, alpha order
    let bytes: Vec<u8> = vec![10, 20, 30, 40, 50, 60, 70, 80];
    let s = Sprite::from_bgra_data(2, 1, &bytes);
    assert_eq!(s.get_pixel(0, 0), Pixel::rgba(30, 20, 10, 40));
    assert_eq!(s.get_pixel(1, 0), Pixel::rgba(70, 60, 50, 80));
}

#[test]
fn fill_overwrites_every_cell() {
    let mut s = Sprite::new(4, 3);
    let p = Pixel::rgb(1, 2, 3);
    s.fill(p);
    for y in 0..3 {
        for x in 0..4 {
            assert_eq!(s.get_pixel(x, y), p);
        }
    }
}

#[test]
fn default_sprite_is_empty() {
    let s = Sprite::default();
    assert_eq!(s.width(), 0);
    assert_eq!(s.height(), 0);
    assert_eq!(s.get_data().len(), 0);
}
