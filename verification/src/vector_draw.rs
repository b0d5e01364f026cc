//! Vector-argument convenience forms of the drawing interface: each one
//! unpacks its coordinate pairs and delegates to the scalar form.

use vstd::prelude::*;

use crate::circle::{circle_points, fill_circle_points};
use crate::engine::{plotted_cell, PixelGameEngine};
use crate::pixel::Pixel;
use crate::raster::{cell_at, plot_line, plot_seq, line_points, solid_line_points, COORD_LIMIT};
use crate::circle::RADIUS_LIMIT;
use crate::sprite::read_spec;
use crate::text::{string_points, text_mode};
use crate::triangle::fill_triangle_points;
use crate::vector::Vi2d;

verus! {

impl PixelGameEngine {
    /// Plots one pixel at a coordinate pair.
    pub fn draw_v(&mut self, pos: Vi2d, p: Pixel) -> (ok: bool)
        requires
            old(self).wf(),
        ensures
            final(self).wf(),
            final(self).same_but_target(*old(self)),
            final(self).target_data() == crate::engine::plot_data(
                old(self).target_data(),
                old(self).target_w(),
                old(self).target_h(),
                old(self).pixel_mode,
                old(self).blend_factor,
                pos.x as int,
                pos.y as int,
                p,
            ),
            ok == (crate::sprite::in_bounds(
                old(self).target_w(),
                old(self).target_h(),
                pos.x as int,
                pos.y as int,
            ) && crate::pixel::mode_writes(old(self).pixel_mode, p)),
    {
        self.draw(pos.x, pos.y, p)
    }

    /// Draws a solid line between two coordinate pairs.
    pub fn draw_line_v(&mut self, pos1: Vi2d, pos2: Vi2d, p: Pixel)
        requires
            old(self).wf(),
            -COORD_LIMIT <= pos1.x <= COORD_LIMIT,
            -COORD_LIMIT <= pos1.y <= COORD_LIMIT,
            -COORD_LIMIT <= pos2.x <= COORD_LIMIT,
            -COORD_LIMIT <= pos2.y <= COORD_LIMIT,
        ensures
            final(self).wf(),
            final(self).same_but_target(*old(self)),
            final(self).target_data() == plot_seq(
                old(self).target_data(),
                old(self).target_w(),
                old(self).target_h(),
                old(self).pixel_mode,
                old(self).blend_factor,
                solid_line_points(pos1.x as int, pos1.y as int, pos2.x as int, pos2.y as int),
                p,
            ),
    {
        self.draw_line(pos1.x, pos1.y, pos2.x, pos2.y, p)
    }

    /// Draws a patterned line between two coordinate pairs.
    pub fn draw_line_pattern_v(&mut self, pos1: Vi2d, pos2: Vi2d, p: Pixel, pattern: u32)
        requires
            old(self).wf(),
            -COORD_LIMIT <= pos1.x <= COORD_LIMIT,
            -COORD_LIMIT <= pos1.y <= COORD_LIMIT,
            -COORD_LIMIT <= pos2.x <= COORD_LIMIT,
            -COORD_LIMIT <= pos2.y <= COORD_LIMIT,
        ensures
            final(self).wf(),
            final(self).same_but_target(*old(self)),
            final(self).target_data() == plot_seq(
                old(self).target_data(),
                old(self).target_w(),
                old(self).target_h(),
                old(self).pixel_mode,
                old(self).blend_factor,
                line_points(pos1.x as int, pos1.y as int, pos2.x as int, pos2.y as int, pattern),
                p,
            ),
            pattern == 0 ==> final(self).target_data() == old(self).target_data(),
    {
        self.draw_line_pattern(pos1.x, pos1.y, pos2.x, pos2.y, p, pattern)
    }

    /// Draws a full circle outline around a coordinate pair.
    pub fn draw_circle_v(&mut self, pos: Vi2d, radius: i32, p: Pixel)
        requires
            old(self).wf(),
            -COORD_LIMIT <= pos.x <= COORD_LIMIT,
            -COORD_LIMIT <= pos.y <= COORD_LIMIT,
            -RADIUS_LIMIT <= radius <= RADIUS_LIMIT,
        ensures
            final(self).wf(),
            final(self).same_but_target(*old(self)),
            final(self).target_data() == plot_seq(
                old(self).target_data(),
                old(self).target_w(),
                old(self).target_h(),
                old(self).pixel_mode,
                old(self).blend_factor,
                circle_points(pos.x as int, pos.y as int, radius as int, 0xffu8),
                p,
            ),
    {
        self.draw_circle(pos.x, pos.y, radius, p)
    }

    /// Draws the masked octants of a circle outline around a coordinate
    /// pair.
    pub fn draw_circle_mask_v(&mut self, pos: Vi2d, radius: i32, p: Pixel, mask: u8)
        requires
            old(self).wf(),
            -COORD_LIMIT <= pos.x <= COORD_LIMIT,
            -COORD_LIMIT <= pos.y <= COORD_LIMIT,
            -RADIUS_LIMIT <= radius <= RADIUS_LIMIT,
        ensures
            final(self).wf(),
            final(self).same_but_target(*old(self)),
            final(self).target_data() == plot_seq(
                old(self).target_data(),
                old(self).target_w(),
                old(self).target_h(),
                old(self).pixel_mode,
                old(self).blend_factor,
                circle_points(pos.x as int, pos.y as int, radius as int, mask),
                p,
            ),
    {
        self.draw_circle_mask(pos.x, pos.y, radius, p, mask)
    }

    /// Fills a circle around a coordinate pair.
    pub fn fill_circle_v(&mut self, pos: Vi2d, radius: i32, p: Pixel)
        requires
            old(self).wf(),
            -COORD_LIMIT <= pos.x <= COORD_LIMIT,
            -COORD_LIMIT <= pos.y <= COORD_LIMIT,
            -RADIUS_LIMIT <= radius <= RADIUS_LIMIT,
        ensures
            final(self).wf(),
            final(self).same_but_target(*old(self)),
            final(self).target_data() == plot_seq(
                old(self).target_data(),
                old(self).target_w(),
                old(self).target_h(),
                old(self).pixel_mode,
                old(self).blend_factor,
                fill_circle_points(pos.x as int, pos.y as int, radius as int),
                p,
            ),
    {
        self.fill_circle(pos.x, pos.y, radius, p)
    }

    /// Draws a rectangle outline from a position and a size pair; the size
    /// may be negative, drawing toward smaller coordinates.
    pub fn draw_rect_v(&mut self, pos: Vi2d, size: Vi2d, p: Pixel)
        requires
            old(self).wf(),
            -COORD_LIMIT <= pos.x <= COORD_LIMIT,
            -COORD_LIMIT <= pos.y <= COORD_LIMIT,
            -COORD_LIMIT <= pos.x + size.x <= COORD_LIMIT,
            -COORD_LIMIT <= pos.y + size.y <= COORD_LIMIT,
        ensures
            final(self).wf(),
            final(self).same_but_target(*old(self)),
            final(self).target_data() == ({
                let tw = old(self).target_w();
                let th = old(self).target_h();
                let mode = old(self).pixel_mode;
                let f = old(self).blend_factor;
                let xi = pos.x as int;
                let yi = pos.y as int;
                let xw = pos.x + size.x;
                let yh = pos.y + size.y;
                plot_line(
                    plot_line(
                        plot_line(
                            plot_line(old(self).target_data(), tw, th, mode, f, xi, yi, xw, yi, p),
                            tw, th, mode, f, xw, yi, xw, yh, p,
                        ),
                        tw, th, mode, f, xw, yh, xi, yh, p,
                    ),
                    tw, th, mode, f, xi, yh, xi, yi, p,
                )
            }),
    {
        self.draw_line(pos.x, pos.y, pos.x + size.x, pos.y, p);
        self.draw_line(pos.x + size.x, pos.y, pos.x + size.x, pos.y + size.y, p);
        self.draw_line(pos.x + size.x, pos.y + size.y, pos.x, pos.y + size.y, p);
        self.draw_line(pos.x, pos.y + size.y, pos.x, pos.y, p);
    }

    /// Fills a rectangle from a position and a non-negative size pair.
    pub fn fill_rect_v(&mut self, pos: Vi2d, size: Vi2d, p: Pixel)
        requires
            old(self).wf(),
            0 <= size.x,
            0 <= size.y,
            pos.x + size.x <= 0x7fff_ffff,
            pos.y + size.y <= 0x7fff_ffff,
        ensures
            final(self).wf(),
            final(self).same_but_target(*old(self)),
            final(self).target_data().len() == old(self).target_data().len(),
            forall|a: int, b: int|
                0 <= a < old(self).target_w() && 0 <= b < old(self).target_h()
                    ==> #[trigger] cell_at(final(self).target_data(), old(self).target_w(), a, b)
                    == (if pos.x <= a < pos.x + size.x && pos.y <= b < pos.y + size.y {
                        plotted_cell(
                            old(self).pixel_mode,
                            old(self).blend_factor,
                            p,
                            cell_at(old(self).target_data(), old(self).target_w(), a, b),
                        )
                    } else {
                        cell_at(old(self).target_data(), old(self).target_w(), a, b)
                    }),
    {
        self.fill_rect(pos.x, pos.y, size.x as u32, size.y as u32, p)
    }

    /// Draws a triangle outline between three coordinate pairs.
    pub fn draw_triangle_v(&mut self, pos1: Vi2d, pos2: Vi2d, pos3: Vi2d, p: Pixel)
        requires
            old(self).wf(),
            -COORD_LIMIT <= pos1.x <= COORD_LIMIT,
            -COORD_LIMIT <= pos1.y <= COORD_LIMIT,
            -COORD_LIMIT <= pos2.x <= COORD_LIMIT,
            -COORD_LIMIT <= pos2.y <= COORD_LIMIT,
            -COORD_LIMIT <= pos3.x <= COORD_LIMIT,
            -COORD_LIMIT <= pos3.y <= COORD_LIMIT,
        ensures
            final(self).wf(),
            final(self).same_but_target(*old(self)),
            final(self).target_data() == ({
                let tw = old(self).target_w();
                let th = old(self).target_h();
                let mode = old(self).pixel_mode;
                let f = old(self).blend_factor;
                plot_line(
                    plot_line(
                        plot_line(
                            old(self).target_data(), tw, th, mode, f,
                            pos1.x as int, pos1.y as int, pos2.x as int, pos2.y as int, p,
                        ),
                        tw, th, mode, f, pos2.x as int, pos2.y as int, pos3.x as int, pos3.y as int, p,
                    ),
                    tw, th, mode, f, pos3.x as int, pos3.y as int, pos1.x as int, pos1.y as int, p,
                )
            }),
    {
        self.draw_triangle(pos1.x, pos1.y, pos2.x, pos2.y, pos3.x, pos3.y, p)
    }

    /// Fills a triangle between three coordinate pairs.
    pub fn fill_triangle_v(&mut self, pos1: Vi2d, pos2: Vi2d, pos3: Vi2d, p: Pixel)
        requires
            old(self).wf(),
            -COORD_LIMIT <= pos1.x <= COORD_LIMIT,
            -COORD_LIMIT <= pos1.y <= COORD_LIMIT,
            -COORD_LIMIT <= pos2.x <= COORD_LIMIT,
            -COORD_LIMIT <= pos2.y <= COORD_LIMIT,
            -COORD_LIMIT <= pos3.x <= COORD_LIMIT,
            -COORD_LIMIT <= pos3.y <= COORD_LIMIT,
        ensures
            final(self).wf(),
            final(self).same_but_target(*old(self)),
            final(self).target_data() == plot_seq(
                old(self).target_data(),
                old(self).target_w(),
                old(self).target_h(),
                old(self).pixel_mode,
                old(self).blend_factor,
                fill_triangle_points(
                    pos1.x as int,
                    pos1.y as int,
                    pos2.x as int,
                    pos2.y as int,
                    pos3.x as int,
                    pos3.y as int,
                ),
                p,
            ),
    {
        self.fill_triangle(pos1.x, pos1.y, pos2.x, pos2.y, pos3.x, pos3.y, p)
    }

    /// Blits a framebuffer 1:1 at a coordinate pair.
    pub fn draw_sprite_v(&mut self, pos: Vi2d, sprite: usize)
        requires
            old(self).wf(),
            (sprite as int) < old(self).sprites@.len(),
            sprite != old(self).draw_target,
            pos.x + old(self).sprites@[sprite as int].spec_width() <= 0x7fff_ffff,
            pos.y + old(self).sprites@[sprite as int].spec_height() <= 0x7fff_ffff,
            -0x7fff_ffff <= pos.x,
            -0x7fff_ffff <= pos.y,
        ensures
            final(self).wf(),
            final(self).same_but_target(*old(self)),
            final(self).target_data().len() == old(self).target_data().len(),
            forall|a: int, b: int|
                0 <= a < old(self).target_w() && 0 <= b < old(self).target_h()
                    ==> #[trigger] cell_at(final(self).target_data(), old(self).target_w(), a, b)
                    == ({
                    let spr = old(self).sprites@[sprite as int];
                    if pos.x <= a < pos.x + spr.spec_width() && pos.y <= b < pos.y
                        + spr.spec_height() {
                        plotted_cell(
                            old(self).pixel_mode,
                            old(self).blend_factor,
                            read_spec(spr, a - pos.x, b - pos.y),
                            cell_at(old(self).target_data(), old(self).target_w(), a, b),
                        )
                    } else {
                        cell_at(old(self).target_data(), old(self).target_w(), a, b)
                    }
                }),
    {
        self.draw_sprite(pos.x, pos.y, sprite)
    }

    /// Draws a string at a coordinate pair.
    pub fn draw_string_v(&mut self, pos: Vi2d, text: &String, col: Pixel)
        requires
            old(self).wf(),
            -0x1000_0000 <= pos.x <= 0x1000_0000,
            -0x1000_0000 <= pos.y <= 0x1000_0000,
            vstd::utf8::encode_utf8(text@).len() * 8 <= 0x1000_0000,
        ensures
            final(self).wf(),
            final(self).same_but_target(*old(self)),
            final(self).pixel_mode == old(self).pixel_mode,
            final(self).target_data() == plot_seq(
                old(self).target_data(),
                old(self).target_w(),
                old(self).target_h(),
                text_mode(col),
                old(self).blend_factor,
                string_points(pos.x as int, pos.y as int, vstd::utf8::encode_utf8(text@), 1),
                col,
            ),
    {
        self.draw_string(pos.x, pos.y, text, col)
    }

    /// Draws a string at a coordinate pair with scaled glyphs.
    pub fn draw_string_scaled_v(&mut self, pos: Vi2d, text: &String, col: Pixel, scale: u32)
        requires
            old(self).wf(),
            1 <= scale <= 0x07ff_ffff || scale == 0,
            -0x1000_0000 <= pos.x <= 0x1000_0000,
            -0x1000_0000 <= pos.y <= 0x1000_0000,
            vstd::utf8::encode_utf8(text@).len() * 8 * scale <= 0x1000_0000,
        ensures
            final(self).wf(),
            final(self).same_but_target(*old(self)),
            final(self).pixel_mode == old(self).pixel_mode,
            scale == 0 ==> final(self).target_data() == old(self).target_data(),
            scale >= 1 ==> final(self).target_data() == plot_seq(
                old(self).target_data(),
                old(self).target_w(),
                old(self).target_h(),
                text_mode(col),
                old(self).blend_factor,
                string_points(
                    pos.x as int,
                    pos.y as int,
                    vstd::utf8::encode_utf8(text@),
                    scale as int,
                ),
                col,
            ),
    {
        self.draw_string_scaled(pos.x, pos.y, text, col, scale)
    }

    /// Blits a framebuffer at a coordinate pair with integer scaling.
    pub fn draw_sprite_scaled_v(&mut self, pos: Vi2d, sprite: usize, scale: u32)
        requires
            old(self).wf(),
            (sprite as int) < old(self).sprites@.len(),
            sprite != old(self).draw_target,
            scale <= 0x7fff_ffff,
            old(self).sprites@[sprite as int].spec_width() * scale <= 0x7fff_ffff,
            old(self).sprites@[sprite as int].spec_height() * scale <= 0x7fff_ffff,
            pos.x + old(self).sprites@[sprite as int].spec_width() * scale <= 0x7fff_ffff,
            pos.y + old(self).sprites@[sprite as int].spec_height() * scale <= 0x7fff_ffff,
            -0x7fff_ffff <= pos.x,
            -0x7fff_ffff <= pos.y,
        ensures
            final(self).wf(),
            final(self).same_but_target(*old(self)),
            final(self).target_data().len() == old(self).target_data().len(),
            scale == 0 ==> final(self).target_data() == old(self).target_data(),
            scale >= 1 ==> forall|a: int, b: int|
                0 <= a < old(self).target_w() && 0 <= b < old(self).target_h()
                    ==> #[trigger] cell_at(final(self).target_data(), old(self).target_w(), a, b)
                    == ({
                    let spr = old(self).sprites@[sprite as int];
                    if pos.x <= a < pos.x + spr.spec_width() * scale && pos.y <= b < pos.y
                        + spr.spec_height() * scale {
                        plotted_cell(
                            old(self).pixel_mode,
                            old(self).blend_factor,
                            read_spec(
                                spr,
                                (a - pos.x) / (scale as int),
                                (b - pos.y) / (scale as int),
                            ),
                            cell_at(old(self).target_data(), old(self).target_w(), a, b),
                        )
                    } else {
                        cell_at(old(self).target_data(), old(self).target_w(), a, b)
                    }
                }),
    {
        self.draw_sprite_scaled(pos.x, pos.y, sprite, scale)
    }

    /// Blits a sub-rectangle of a framebuffer at a coordinate pair; the
    /// source position and size are given as pairs with non-negative size.
    pub fn draw_partial_sprite_v(&mut self, pos: Vi2d, sprite: usize, source_pos: Vi2d, size: Vi2d)
        requires
            old(self).wf(),
            (sprite as int) < old(self).sprites@.len(),
            sprite != old(self).draw_target,
            0 <= size.x <= 0x7fff_ffff,
            0 <= size.y <= 0x7fff_ffff,
            pos.x + size.x <= 0x7fff_ffff,
            pos.y + size.y <= 0x7fff_ffff,
            -0x7fff_ffff <= pos.x,
            -0x7fff_ffff <= pos.y,
            -0x4000_0000 <= source_pos.x,
            -0x4000_0000 <= source_pos.y,
            size.x + source_pos.x <= 0x7fff_ffff,
            size.y + source_pos.y <= 0x7fff_ffff,
        ensures
            final(self).wf(),
            final(self).same_but_target(*old(self)),
            final(self).target_data().len() == old(self).target_data().len(),
            forall|a: int, b: int|
                0 <= a < old(self).target_w() && 0 <= b < old(self).target_h()
                    ==> #[trigger] cell_at(final(self).target_data(), old(self).target_w(), a, b)
                    == (if pos.x <= a < pos.x + size.x && pos.y <= b < pos.y + size.y {
                    plotted_cell(
                        old(self).pixel_mode,
                        old(self).blend_factor,
                        read_spec(
                            old(self).sprites@[sprite as int],
                            (a - pos.x) + source_pos.x,
                            (b - pos.y) + source_pos.y,
                        ),
                        cell_at(old(self).target_data(), old(self).target_w(), a, b),
                    )
                } else {
                    cell_at(old(self).target_data(), old(self).target_w(), a, b)
                }),
    {
        self.draw_partial_sprite(
            pos.x,
            pos.y,
            sprite,
            source_pos.x,
            source_pos.y,
            size.x as u32,
            size.y as u32,
        )
    }

    /// Blits a sub-rectangle of a framebuffer at a coordinate pair with
    /// integer scaling; see the scalar form for the scaled walk's
    /// full-sprite behavior.
    pub fn draw_partial_sprite_scaled_v(
        &mut self,
        pos: Vi2d,
        sprite: usize,
        source_pos: Vi2d,
        size: Vi2d,
        scale: u32,
    )
        requires
            old(self).wf(),
            (sprite as int) < old(self).sprites@.len(),
            sprite != old(self).draw_target,
            scale <= 0x7fff_ffff,
            0 <= size.x <= 0x7fff_ffff,
            0 <= size.y <= 0x7fff_ffff,
            pos.x + size.x <= 0x7fff_ffff,
            pos.y + size.y <= 0x7fff_ffff,
            -0x7fff_ffff <= pos.x,
            -0x7fff_ffff <= pos.y,
            -0x4000_0000 <= source_pos.x,
            -0x4000_0000 <= source_pos.y,
            size.x + source_pos.x <= 0x7fff_ffff,
            size.y + source_pos.y <= 0x7fff_ffff,
            scale >= 2 ==> old(self).sprites@[sprite as int].spec_width() * scale
                <= 0x7fff_ffff,
            scale >= 2 ==> old(self).sprites@[sprite as int].spec_height() * scale
                <= 0x7fff_ffff,
            scale >= 2 ==> pos.x + old(self).sprites@[sprite as int].spec_width() * scale
                <= 0x7fff_ffff,
            scale >= 2 ==> pos.y + old(self).sprites@[sprite as int].spec_height() * scale
                <= 0x7fff_ffff,
            scale >= 2 ==> old(self).sprites@[sprite as int].spec_width() + source_pos.x
                <= 0x7fff_ffff,
            scale >= 2 ==> old(self).sprites@[sprite as int].spec_height() + source_pos.y
                <= 0x7fff_ffff,
        ensures
            final(self).wf(),
            final(self).same_but_target(*old(self)),
            final(self).target_data().len() == old(self).target_data().len(),
            scale == 0 ==> final(self).target_data() == old(self).target_data(),
            scale == 1 ==> forall|a: int, b: int|
                0 <= a < old(self).target_w() && 0 <= b < old(self).target_h()
                    ==> #[trigger] cell_at(final(self).target_data(), old(self).target_w(), a, b)
                    == (if pos.x <= a < pos.x + size.x && pos.y <= b < pos.y + size.y {
                    plotted_cell(
                        old(self).pixel_mode,
                        old(self).blend_factor,
                        read_spec(
                            old(self).sprites@[sprite as int],
                            (a - pos.x) + source_pos.x,
                            (b - pos.y) + source_pos.y,
                        ),
                        cell_at(old(self).target_data(), old(self).target_w(), a, b),
                    )
                } else {
                    cell_at(old(self).target_data(), old(self).target_w(), a, b)
                }),
            scale >= 2 ==> forall|a: int, b: int|
                0 <= a < old(self).target_w() && 0 <= b < old(self).target_h()
                    ==> #[trigger] cell_at(final(self).target_data(), old(self).target_w(), a, b)
                    == ({
                    let spr = old(self).sprites@[sprite as int];
                    if pos.x <= a < pos.x + spr.spec_width() * scale && pos.y <= b < pos.y
                        + spr.spec_height() * scale {
                        plotted_cell(
                            old(self).pixel_mode,
                            old(self).blend_factor,
                            read_spec(
                                spr,
                                (a - pos.x) / (scale as int) + source_pos.x,
                                (b - pos.y) / (scale as int) + source_pos.y,
                            ),
                            cell_at(old(self).target_data(), old(self).target_w(), a, b),
                        )
                    } else {
                        cell_at(old(self).target_data(), old(self).target_w(), a, b)
                    }
                }),
    {
        self.draw_partial_sprite_scaled(
            pos.x,
            pos.y,
            sprite,
            source_pos.x,
            source_pos.y,
            size.x as u32,
            size.y as u32,
            scale,
        )
    }
}

} // verus!


