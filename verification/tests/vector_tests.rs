//! The 2D vector convenience type.

use pixel_game_engine::pixel::Pixel;
use pixel_game_engine::vector::{V2d, Vi2d};
use pixel_game_engine::PixelGameEngine;

#[test]
fn new_stores_the_pair() {
    let v = Vi2d::new(3, -4);
    assert_eq!(v.x, 3);
    assert_eq!(v.y, -4);
}

#[test]
fn mag2_dot_cross_perp() {
    let a = V2d::new(3, 4);
    let b = V2d::new(-2, 5);
    assert_eq!(a.mag2(), 25);
    assert_eq!(a.dot(&b), 3 * -2 + 4 * 5);
    assert_eq!(a.cross(&b), 3 * -2 - 4 * 5);
    assert_eq!(a.perp(), V2d::new(-4, 3));
}

#[test]
fn vector_draw_forms_match_scalar_forms() {
    let mut a = PixelGameEngine::new(8, 8, 1, 1);
    let mut b = PixelGameEngine::new(8, 8, 1, 1);
    let p = Pixel::rgb(200, 10, 10);
    a.draw_v(Vi2d::new(1, 1), p);
    a.draw_line_v(Vi2d::new(0, 7), Vi2d::new(7, 0), p);
    a.fill_rect_v(Vi2d::new(4, 4), Vi2d::new(2, 3), p);
    b.draw(1, 1, p);
    b.draw_line(0, 7, 7, 0, p);
    b.fill_rect(4, 4, 2, 3, p);
    assert_eq!(a.get_sprite(0).get_data(), b.get_sprite(0).get_data());
}

#[test]
fn arithmetic_operators() {
    let a = V2d::new(3, 4);
    let b = V2d::new(1, -2);
    assert_eq!(a + b, V2d::new(4, 2));
    assert_eq!(a - b, V2d::new(2, 6));
    assert_eq!(-b, V2d::new(-1, 2));
    assert_eq!(a * 3, V2d::new(9, 12));
    assert_eq!(V2d::new(9, -7) / 2, V2d::new(4, -3));
}
