//! Engine state: the sprite arena, the draw target, blits, text, input
//! edge detection and the frame lifecycle.

use pixel_game_engine::font::FONT;
use pixel_game_engine::input::{Key, MOUSE_BUTTONS};
use pixel_game_engine::lifecycle::{FrameTimer, RCode};
use pixel_game_engine::pixel::{Pixel, PixelMode};
use pixel_game_engine::sprite::Sprite;
use pixel_game_engine::{HWButton, PixelGameEngine};

fn white() -> Pixel {
    Pixel::rgb(255, 255, 255)
}

fn cell(e: &PixelGameEngine, handle: usize, x: i32, y: i32) -> Pixel {
    e.get_sprite(handle).get_pixel(x, y)
}

#[test]
fn new_engine_defaults() {
    let e = PixelGameEngine::new(8, 6, 2, 2);
    assert_eq!(e.screen_width(), 8);
    assert_eq!(e.screen_height(), 6);
    assert_eq!(e.get_draw_target(), 0);
    assert_eq!(e.get_draw_target_width(), 8);
    assert_eq!(e.get_draw_target_height(), 6);
    assert_eq!(e.get_pixel_mode(), PixelMode::Normal);
    assert_eq!(e.get_pixel_blend(), 255);
    assert!(e.is_active());
    assert_eq!(e.get_mouse_x(), 300);
    assert_eq!(e.get_mouse_y(), 200);
    assert_eq!(e.get_mouse_wheel(), 0);
}

#[test]
fn draw_target_is_swappable_and_resets_to_default() {
    let mut e = PixelGameEngine::new(4, 4, 1, 1);
    let off = e.add_sprite(Sprite::new(2, 2));
    e.set_draw_target(Some(off));
    assert_eq!(e.get_draw_target(), off);
    e.draw(0, 0, white());
    // the off-screen target took the write, the default framebuffer did not
    assert_eq!(cell(&e, off, 0, 0), white());
    assert_ne!(cell(&e, 0, 0, 0), white());
    e.set_draw_target(None);
    assert_eq!(e.get_draw_target(), 0);
}

#[test]
fn sprite_blit_copies_pixels() {
    let mut e = PixelGameEngine::new(5, 5, 1, 1);
    let mut s = Sprite::new(2, 2);
    s.set_pixel(0, 0, Pixel::rgb(1, 0, 0));
    s.set_pixel(1, 0, Pixel::rgb(2, 0, 0));
    s.set_pixel(0, 1, Pixel::rgb(3, 0, 0));
    s.set_pixel(1, 1, Pixel::rgb(4, 0, 0));
    let h = e.add_sprite(s);
    e.draw_sprite(1, 2, h);
    assert_eq!(cell(&e, 0, 1, 2), Pixel::rgb(1, 0, 0));
    assert_eq!(cell(&e, 0, 2, 2), Pixel::rgb(2, 0, 0));
    assert_eq!(cell(&e, 0, 1, 3), Pixel::rgb(3, 0, 0));
    assert_eq!(cell(&e, 0, 2, 3), Pixel::rgb(4, 0, 0));
    assert_ne!(cell(&e, 0, 0, 0), Pixel::rgb(1, 0, 0));
}

#[test]
fn scaled_blit_replicates_blocks() {
    let mut e = PixelGameEngine::new(6, 6, 1, 1);
    let mut s = Sprite::new(2, 1);
    s.set_pixel(0, 0, Pixel::rgb(7, 0, 0));
    s.set_pixel(1, 0, Pixel::rgb(8, 0, 0));
    let h = e.add_sprite(s);
    e.draw_sprite_scaled(0, 0, h, 2);
    for dy in 0..2 {
        for dx in 0..2 {
            assert_eq!(cell(&e, 0, dx, dy), Pixel::rgb(7, 0, 0));
            assert_eq!(cell(&e, 0, 2 + dx, dy), Pixel::rgb(8, 0, 0));
        }
    }
}

#[test]
fn partial_blit_copies_the_requested_region() {
    let mut e = PixelGameEngine::new(4, 4, 1, 1);
    let mut s = Sprite::new(3, 3);
    for y in 0..3 {
        for x in 0..3 {
            s.set_pixel(x, y, Pixel::rgb((10 * y + x) as u8, 0, 0));
        }
    }
    let h = e.add_sprite(s);
    e.draw_partial_sprite(0, 0, h, 1, 1, 2, 2);
    assert_eq!(cell(&e, 0, 0, 0), Pixel::rgb(11, 0, 0));
    assert_eq!(cell(&e, 0, 1, 0), Pixel::rgb(12, 0, 0));
    assert_eq!(cell(&e, 0, 0, 1), Pixel::rgb(21, 0, 0));
    assert_eq!(cell(&e, 0, 1, 1), Pixel::rgb(22, 0, 0));
    // outside the blit untouched
    assert_eq!(cell(&e, 0, 2, 2), Pixel::unpack(0));
}

#[test]
fn zero_scale_blit_is_a_no_op() {
    let mut e = PixelGameEngine::new(4, 4, 1, 1);
    let h = e.add_sprite(Sprite::new(2, 2));
    e.fill_rect(0, 0, 4, 4, white());
    e.draw_sprite_scaled(0, 0, h, 0);
    for y in 0..4 {
        for x in 0..4 {
            assert_eq!(cell(&e, 0, x, y), white());
        }
    }
}

#[test]
fn glyph_matches_the_font_bitmap() {
    let mut e = PixelGameEngine::new(8, 8, 1, 1);
    let text = String::from("A");
    e.draw_string(0, 0, &text, white());
    let base = (b'A' - 32) as usize * 8;
    for j in 0..8 {
        let row = FONT[base + j];
        for i in 0..8 {
            let inked = (row >> i) & 1 == 1;
            assert_eq!(
                cell(&e, 0, i as i32, j as i32) == white(),
                inked,
                "glyph cell ({}, {})",
                i,
                j
            );
        }
    }
}

#[test]
fn newline_advances_a_text_row() {
    let mut e = PixelGameEngine::new(8, 16, 1, 1);
    let text = String::from("\nA");
    e.draw_string(0, 0, &text, white());
    // nothing in the first 8 rows, the glyph in the next 8
    for y in 0..8 {
        for x in 0..8 {
            assert_ne!(cell(&e, 0, x, y), white());
        }
    }
    let base = (b'A' - 32) as usize * 8;
    let mut seen = 0;
    for j in 0..8 {
        let row = FONT[base + j];
        for i in 0..8 {
            if (row >> i) & 1 == 1 {
                assert_eq!(cell(&e, 0, i as i32, 8 + j as i32), white());
                seen += 1;
            }
        }
    }
    assert!(seen > 0);
}

#[test]
fn draw_string_restores_the_pixel_mode() {
    let mut e = PixelGameEngine::new(8, 8, 1, 1);
    e.set_pixel_mode(PixelMode::Alpha);
    let text = String::from("Hi");
    e.draw_string(0, 0, &text, white());
    assert_eq!(e.get_pixel_mode(), PixelMode::Alpha);
}

#[test]
fn mouse_edge_detection_sequence() {
    // raw [down, down, down, up, up] must derive
    // [(T,F,F), (F,T,F), (F,T,F), (F,F,T), (F,F,F)]
    let mut e = PixelGameEngine::new(2, 2, 1, 1);
    let raw = [true, true, true, false, false];
    let expect = [
        (true, false, false),
        (false, true, false),
        (false, true, false),
        (false, false, true),
        (false, false, false),
    ];
    for (i, down) in raw.iter().enumerate() {
        e.update_mouse(None, *down, false, false, None);
        let b = e.get_mouse(0);
        assert_eq!(
            (b.pressed, b.held, b.released),
            expect[i],
            "frame {}",
            i
        );
    }
}

#[test]
fn mouse_position_is_divided_by_the_upscale_factors() {
    let mut e = PixelGameEngine::new(8, 8, 2, 4);
    e.update_mouse(Some((10, 9)), false, false, false, Some(3));
    assert_eq!(e.get_mouse_x(), 5);
    assert_eq!(e.get_mouse_y(), 2);
    assert_eq!(e.get_mouse_wheel(), 3);
    e.update_mouse(None, false, false, false, None);
    assert_eq!(e.get_mouse_x(), 5);
    assert_eq!(e.get_mouse_wheel(), 0);
}

#[test]
fn keyboard_snapshot_is_fully_overwritten() {
    let mut e = PixelGameEngine::new(2, 2, 1, 1);
    e.update_keys(&vec![Key::A, Key::B], &vec![Key::A], &vec![]);
    let a = e.get_key(Key::A);
    assert_eq!((a.pressed, a.held, a.released), (true, true, false));
    let b = e.get_key(Key::B);
    assert_eq!((b.pressed, b.held, b.released), (false, true, false));
    e.update_keys(&vec![], &vec![], &vec![Key::A]);
    let a = e.get_key(Key::A);
    assert_eq!((a.pressed, a.held, a.released), (false, false, true));
    let b = e.get_key(Key::B);
    assert_eq!(b, HWButton::default());
}

#[test]
fn logical_pair_keys_are_derived() {
    let mut e = PixelGameEngine::new(2, 2, 1, 1);
    e.update_keys(&vec![Key::LeftShift], &vec![Key::RightAlt], &vec![Key::NumPadEnter]);
    assert!(e.get_key(Key::Shift).held);
    assert!(!e.get_key(Key::Shift).pressed);
    assert!(e.get_key(Key::Alt).pressed);
    assert!(e.get_key(Key::Enter).released);
    assert!(!e.get_key(Key::Control).held);
}

#[test]
fn frame_timer_reports_once_per_second() {
    let mut t = FrameTimer::new();
    assert_eq!(t.tick(400_000), None);
    assert_eq!(t.tick(400_000), None);
    assert_eq!(t.tick(400_000), Some(3));
    // the remainder carries over: no drift
    assert_eq!(t.accum_micros, 200_000);
    assert_eq!(t.frames, 0);
}

#[test]
fn lifecycle_transitions() {
    let mut e = PixelGameEngine::new(2, 2, 1, 1);
    assert!(e.is_active());
    // a closed window stops the loop
    assert!(!e.begin_frame(false));
    assert!(!e.is_active());
    // a vetoed shutdown re-enters the loop while the window is open
    e.after_destroy(false, true);
    assert!(e.is_active());
    // an update hook that returns false stops the loop
    e.end_frame(false, true);
    assert!(!e.is_active());
    // an accepted shutdown stays halted
    e.after_destroy(true, true);
    assert!(!e.is_active());
    assert_ne!(RCode::Okay, RCode::Fail);
}

#[test]
fn mouse_button_count_is_fixed() {
    let e = PixelGameEngine::new(2, 2, 1, 1);
    for b in 0..MOUSE_BUTTONS {
        assert_eq!(e.get_mouse(b), HWButton::default());
    }
}
