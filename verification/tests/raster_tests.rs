//! The rasterizer, exercised end to end through the engine.

use pixel_game_engine::pixel::{Pixel, PixelMode};
use pixel_game_engine::PixelGameEngine;

fn white() -> Pixel {
    Pixel::rgb(255, 255, 255)
}

fn black() -> Pixel {
    Pixel::rgb(0, 0, 0)
}

fn engine(w: usize, h: usize) -> PixelGameEngine {
    PixelGameEngine::new(w, h, 1, 1)
}

fn cell(e: &PixelGameEngine, x: i32, y: i32) -> Pixel {
    e.get_sprite(0).get_pixel(x, y)
}

fn count_matching(e: &PixelGameEngine, w: i32, h: i32, p: Pixel) -> usize {
    let mut n = 0;
    for y in 0..h {
        for x in 0..w {
            if cell(e, x, y) == p {
                n += 1;
            }
        }
    }
    n
}

#[test]
fn draw_writes_one_in_bounds_cell() {
    let mut e = engine(4, 4);
    assert!(e.draw(2, 1, white()));
    assert_eq!(cell(&e, 2, 1), white());
    assert_eq!(count_matching(&e, 4, 4, white()), 1);
    assert!(!e.draw(-1, 0, white()));
    assert!(!e.draw(4, 0, white()));
    assert_eq!(count_matching(&e, 4, 4, white()), 1);
}

#[test]
fn mask_mode_never_writes_translucent_sources() {
    let mut e = engine(2, 2);
    e.set_pixel_mode(PixelMode::Mask);
    assert!(!e.draw(0, 0, Pixel::rgba(9, 9, 9, 254)));
    assert_eq!(cell(&e, 0, 0), Pixel::unpack(0));
    assert!(e.draw(0, 0, Pixel::rgba(9, 9, 9, 255)));
    assert_eq!(cell(&e, 0, 0), Pixel::rgba(9, 9, 9, 255));
}

#[test]
fn opaque_mode_overwrites_regardless_of_alpha() {
    let mut e = engine(2, 2);
    let translucent = Pixel::rgba(9, 9, 9, 3);
    assert!(e.draw(1, 1, translucent));
    assert_eq!(cell(&e, 1, 1), translucent);
}

#[test]
fn alpha_mode_blends_half_over_destination() {
    let mut e = engine(1, 1);
    e.fill_rect(0, 0, 1, 1, Pixel::rgb(100, 200, 50));
    e.set_pixel_mode(PixelMode::Alpha);
    let src = Pixel::rgba(200, 0, 150, 128);
    assert!(e.draw(0, 0, src));
    let out = cell(&e, 0, 0);
    assert_eq!(out.a, 255);
    assert_eq!(out.r as u32, (128 * 200 + 127 * 100) / 255);
    assert_eq!(out.g as u32, (128 * 0 + 127 * 200) / 255);
    assert_eq!(out.b as u32, (128 * 150 + 127 * 50) / 255);
}

#[test]
fn fill_rect_touches_exactly_its_cells() {
    let mut e = engine(6, 6);
    e.fill_rect(1, 2, 3, 2, white());
    assert_eq!(count_matching(&e, 6, 6, white()), 6);
    for y in 0..6 {
        for x in 0..6 {
            let inside = (1..4).contains(&x) && (2..4).contains(&y);
            assert_eq!(cell(&e, x, y) == white(), inside, "cell ({}, {})", x, y);
        }
    }
}

#[test]
fn fill_rect_clips_to_the_target() {
    let mut e = engine(3, 3);
    e.fill_rect(-2, -2, 4, 4, white());
    // only the overlap [0,2) x [0,2) is written
    assert_eq!(count_matching(&e, 3, 3, white()), 4);
    assert_eq!(cell(&e, 0, 0), white());
    assert_eq!(cell(&e, 1, 1), white());
    assert_ne!(cell(&e, 2, 2), white());
}

#[test]
fn clear_overwrites_every_cell_bypassing_the_mode() {
    let mut e = engine(3, 2);
    e.set_pixel_mode(PixelMode::Mask);
    let translucent = Pixel::rgba(7, 8, 9, 0);
    e.clear(translucent);
    assert_eq!(count_matching(&e, 3, 2, translucent), 6);
}

#[test]
fn diagonal_line_over_filled_square() {
    let mut e = engine(4, 4);
    e.fill_rect(0, 0, 4, 4, white());
    e.draw_line(0, 0, 3, 3, black());
    for y in 0..4 {
        for x in 0..4 {
            if x == y {
                assert_eq!(cell(&e, x, y), black(), "diagonal ({}, {})", x, y);
            } else {
                assert_eq!(cell(&e, x, y), white(), "off-diagonal ({}, {})", x, y);
            }
        }
    }
}

#[test]
fn zero_pattern_plots_nothing() {
    let mut e = engine(8, 8);
    e.draw_line_pattern(0, 0, 7, 5, white(), 0);
    assert_eq!(count_matching(&e, 8, 8, white()), 0);
}

#[test]
fn full_pattern_matches_unpatterned_line() {
    let mut a = engine(8, 8);
    let mut b = engine(8, 8);
    a.draw_line(7, 1, 0, 6, white());
    b.draw_line_pattern(7, 1, 0, 6, white(), 0xffff_ffff);
    for y in 0..8 {
        for x in 0..8 {
            assert_eq!(cell(&a, x, y), cell(&b, x, y), "cell ({}, {})", x, y);
        }
    }
}

#[test]
fn horizontal_and_vertical_lines_hit_every_cell_between_endpoints() {
    let mut e = engine(5, 5);
    e.draw_line(0, 2, 4, 2, white());
    for x in 0..5 {
        assert_eq!(cell(&e, x, 2), white());
    }
    let mut e2 = engine(5, 5);
    e2.draw_line(3, 0, 3, 4, white());
    for y in 0..5 {
        assert_eq!(cell(&e2, 3, y), white());
    }
}

#[test]
fn rect_outline_paints_the_border_only() {
    let mut e = engine(6, 6);
    e.draw_rect(1, 1, 3, 3, white());
    // corners of the outline
    assert_eq!(cell(&e, 1, 1), white());
    assert_eq!(cell(&e, 4, 1), white());
    assert_eq!(cell(&e, 4, 4), white());
    assert_eq!(cell(&e, 1, 4), white());
    // interior untouched
    assert_ne!(cell(&e, 2, 2), white());
    assert_ne!(cell(&e, 3, 3), white());
}

#[test]
fn circle_radius_zero_is_a_no_op() {
    let mut e = engine(5, 5);
    e.draw_circle(2, 2, 0, white());
    e.fill_circle(2, 2, 0, white());
    assert_eq!(count_matching(&e, 5, 5, white()), 0);
}

#[test]
fn circle_outline_hits_the_axis_points() {
    let mut e = engine(9, 9);
    e.draw_circle(4, 4, 3, white());
    assert_eq!(cell(&e, 4, 1), white());
    assert_eq!(cell(&e, 4, 7), white());
    assert_eq!(cell(&e, 1, 4), white());
    assert_eq!(cell(&e, 7, 4), white());
    // the center stays untouched
    assert_ne!(cell(&e, 4, 4), white());
}

#[test]
fn circle_mask_selects_octants() {
    // only the first octant bit: a single arc, nothing on the left side
    let mut e = engine(9, 9);
    e.draw_circle_mask(4, 4, 3, white(), 0x01);
    assert_eq!(cell(&e, 4, 1), white());
    assert_ne!(cell(&e, 1, 4), white());
}

#[test]
fn fill_circle_covers_the_center_row() {
    let mut e = engine(9, 9);
    e.fill_circle(4, 4, 3, white());
    for x in 1..8 {
        // the widest span passes left of the center to just short of the
        // mirrored right end (spans are half-open on the right)
        if x < 7 {
            assert_eq!(cell(&e, x, 4), white(), "center row x = {}", x);
        }
    }
    assert_ne!(cell(&e, 0, 4), white());
}

#[test]
fn filled_triangle_has_no_scanline_gaps() {
    let mut e = engine(16, 16);
    e.fill_triangle(0, 0, 10, 0, 5, 10, white());
    for y in 0..=10 {
        let mut row = 0;
        for x in 0..16 {
            if cell(&e, x, y) == white() {
                row += 1;
            }
        }
        assert!(row >= 1, "scanline {} is empty", y);
    }
    let total = count_matching(&e, 16, 16, white());
    assert!(total >= 30 && total <= 90, "unexpected fill size {}", total);
}

#[test]
fn triangle_outline_paints_its_vertices() {
    let mut e = engine(12, 12);
    e.draw_triangle(1, 1, 9, 2, 4, 8, white());
    assert_eq!(cell(&e, 1, 1), white());
    assert_eq!(cell(&e, 9, 2), white());
    assert_eq!(cell(&e, 4, 8), white());
}
