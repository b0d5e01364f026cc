//! Bitmap text rendering: fixed 8 by 8 glyphs indexed by byte value,
//! stamped through the plot primitive with the compositing mode chosen by
//! the ink color and restored afterwards.

use vstd::prelude::*;

use crate::engine::PixelGameEngine;
use crate::font::{glyph_on, glyph_row};
use crate::pixel::{Pixel, PixelMode};
use crate::raster::{lemma_plot_seq_app, lemma_plot_seq_push, plot_seq};

verus! {

broadcast use crate::sprite::lemma_sprite_wf_consequences;

/// The compositing mode text is stamped with: mask mode for a fully opaque
/// ink color (crisp edges without blending cost), alpha mode otherwise.
pub open spec fn text_mode(col: Pixel) -> PixelMode {
    if col.a != 255 {
        PixelMode::Alpha
    } else {
        PixelMode::Mask
    }
}

/// The points of one vertical run: `(x, sy)` inclusive to `(x, ey)`
/// exclusive, top to bottom.
pub open spec fn vspan_pts(x: int, sy: int, ey: int) -> Seq<(int, int)>
    decreases ey - sy,
{
    if sy < ey {
        seq![(x, sy)] + vspan_pts(x, sy + 1, ey)
    } else {
        Seq::empty()
    }
}

/// The points of a `scale` by `scale` block from column `is` on: one
/// vertical run per column, left to right.
pub open spec fn block_cols(bx: int, by: int, scale: int, is: int) -> Seq<(int, int)>
    decreases scale - is,
{
    if is < scale {
        vspan_pts(bx + is, by, by + scale) + block_cols(bx, by, scale, is + 1)
    } else {
        Seq::empty()
    }
}

/// The points of the `scale` by `scale` block one inked glyph cell
/// replicates into.
pub open spec fn block_pts(bx: int, by: int, scale: int) -> Seq<(int, int)> {
    block_cols(bx, by, scale, 0)
}

/// The points of one glyph column from row `j` down: a block for each
/// inked cell.
pub open spec fn glyph_col(gx: int, gy: int, c: u8, scale: int, i: int, j: int) -> Seq<(int, int)>
    decreases 8 - j,
{
    if j < 8 {
        (if glyph_on(c, i, j) {
            block_pts(gx + i * scale, gy + j * scale, scale)
        } else {
            Seq::empty()
        }) + glyph_col(gx, gy, c, scale, i, j + 1)
    } else {
        Seq::empty()
    }
}

/// The points of a glyph from column `i` on, column by column.
pub open spec fn glyph_cols(gx: int, gy: int, c: u8, scale: int, i: int) -> Seq<(int, int)>
    decreases 8 - i,
{
    if i < 8 {
        glyph_col(gx, gy, c, scale, i, 0) + glyph_cols(gx, gy, c, scale, i + 1)
    } else {
        Seq::empty()
    }
}

/// The exact point sequence of one glyph stamped at `(gx, gy)`.
pub open spec fn glyph_pts(gx: int, gy: int, c: u8, scale: int) -> Seq<(int, int)> {
    glyph_cols(gx, gy, c, scale, 0)
}

/// The points a string still stamps from byte `n` on, with the pen at
/// offset `(sx, sy)` from the origin: a newline byte resets the column and
/// advances the row by one glyph height, any other byte stamps its glyph
/// and advances the column.
pub open spec fn string_rest(
    x: int,
    y: int,
    bytes: Seq<u8>,
    n: int,
    sx: int,
    sy: int,
    scale: int,
) -> Seq<(int, int)>
    decreases bytes.len() - n,
{
    if 0 <= n < bytes.len() {
        let c = bytes[n];
        if c == 10 {
            string_rest(x, y, bytes, n + 1, 0, sy + 8 * scale, scale)
        } else {
            glyph_pts(x + sx, y + sy, c, scale) + string_rest(
                x,
                y,
                bytes,
                n + 1,
                sx + 8 * scale,
                sy,
                scale,
            )
        }
    } else {
        Seq::empty()
    }
}

/// The exact point sequence of a whole string drawn at `(x, y)`.
pub open spec fn string_points(x: int, y: int, bytes: Seq<u8>, scale: int) -> Seq<(int, int)> {
    string_rest(x, y, bytes, 0, 0, 0, scale)
}

impl PixelGameEngine {
    /// Plots one vertical run of pixels: `(x, sy)` inclusive to `(x, ey)`
    /// exclusive.
    fn draw_vspan(&mut self, x: i32, sy: i32, ey: i32, p: Pixel)
        requires
            old(self).wf(),
        ensures
            final(self).wf(),
            final(self).same_but_target(*old(self)),
            final(self).target_data() == plot_seq(
                old(self).target_data(),
                old(self).target_w(),
                old(self).target_h(),
                old(self).pixel_mode,
                old(self).blend_factor,
                vspan_pts(x as int, sy as int, ey as int),
                p,
            ),
    {
        let ghost orig: PixelGameEngine = *self;
        let ghost tw = orig.target_w();
        let ghost th = orig.target_h();
        let ghost mode = orig.pixel_mode;
        let ghost factor = orig.blend_factor;
        let mut i: i32 = sy;
        let ghost mut done: Seq<(int, int)> = Seq::empty();
        while i < ey
            invariant
                self.wf(),
                self.same_but_target(orig),
                orig.wf(),
                tw == orig.target_w(),
                th == orig.target_h(),
                mode == orig.pixel_mode,
                factor == orig.blend_factor,
                tw == self.target_w(),
                th == self.target_h(),
                sy <= i,
                i <= ey || i == sy,
                vspan_pts(x as int, sy as int, ey as int) == done + vspan_pts(
                    x as int,
                    i as int,
                    ey as int,
                ),
                self.target_data() == plot_seq(orig.target_data(), tw, th, mode, factor, done, p),
            decreases ey - i,
        {
            proof {
                lemma_plot_seq_push(orig.target_data(), tw, th, mode, factor, done, (x as int, i as int), p);
            }
            self.draw(x, i, p);
            proof {
                done = done.push((x as int, i as int));
                assert(vspan_pts(x as int, sy as int, ey as int) =~= done + vspan_pts(
                    x as int,
                    i as int + 1,
                    ey as int,
                ));
            }
            i = i + 1;
        }
        proof {
            assert(vspan_pts(x as int, sy as int, ey as int) =~= done);
        }
    }

    /// Plots the `scale` by `scale` block of one inked glyph cell, column
    /// by column.
    #[verifier::rlimit(100)]
    fn draw_block(&mut self, bx: i32, by: i32, scale: u32, p: Pixel)
        requires
            old(self).wf(),
            1 <= scale <= 0x1fff_ffff,
            -0x4000_0000 <= bx,
            bx + scale <= 0x4000_0000,
            by + scale <= 0x4000_0000,
            -0x4000_0000 <= by,
        ensures
            final(self).wf(),
            final(self).same_but_target(*old(self)),
            final(self).target_data() == plot_seq(
                old(self).target_data(),
                old(self).target_w(),
                old(self).target_h(),
                old(self).pixel_mode,
                old(self).blend_factor,
                block_pts(bx as int, by as int, scale as int),
                p,
            ),
    {
        let ghost orig: PixelGameEngine = *self;
        let ghost tw = orig.target_w();
        let ghost th = orig.target_h();
        let ghost mode = orig.pixel_mode;
        let ghost factor = orig.blend_factor;
        let mut is: u32 = 0;
        let ghost mut done: Seq<(int, int)> = Seq::empty();
        while is < scale
            invariant
                self.wf(),
                self.same_but_target(orig),
                orig.wf(),
                tw == orig.target_w(),
                th == orig.target_h(),
                mode == orig.pixel_mode,
                factor == orig.blend_factor,
                tw == self.target_w(),
                th == self.target_h(),
                1 <= scale <= 0x1fff_ffff,
                -0x4000_0000 <= bx,
                bx + scale <= 0x4000_0000,
                by + scale <= 0x4000_0000,
                -0x4000_0000 <= by,
                is <= scale,
                block_pts(bx as int, by as int, scale as int) == done + block_cols(
                    bx as int,
                    by as int,
                    scale as int,
                    is as int,
                ),
                self.target_data() == plot_seq(orig.target_data(), tw, th, mode, factor, done, p),
            decreases scale - is,
        {
            self.draw_vspan(bx + (is as i32), by, by + (scale as i32), p);
            proof {
                let col = vspan_pts(bx as int + is as int, by as int, by as int + scale as int);
                lemma_plot_seq_app(orig.target_data(), tw, th, mode, factor, done, col, p);
                done = done + col;
                assert(block_pts(bx as int, by as int, scale as int) =~= done + block_cols(
                    bx as int,
                    by as int,
                    scale as int,
                    is as int + 1,
                ));
            }
            is = is + 1;
        }
        proof {
            assert(block_pts(bx as int, by as int, scale as int) =~= done);
        }
    }

    /// Stamps one glyph at `(gx, gy)`: each inked cell of the 8 by 8
    /// bitmap becomes a `scale` by `scale` block.
    #[verifier::rlimit(100)]
    fn draw_glyph(&mut self, gx: i32, gy: i32, c: u8, scale: u32, p: Pixel)
        requires
            old(self).wf(),
            1 <= scale <= 0x07ff_ffff,
            -0x3000_0000 <= gx,
            gx + 8 * scale <= 0x3000_0000,
            gy + 8 * scale <= 0x3000_0000,
            -0x3000_0000 <= gy,
        ensures
            final(self).wf(),
            final(self).same_but_target(*old(self)),
            final(self).target_data() == plot_seq(
                old(self).target_data(),
                old(self).target_w(),
                old(self).target_h(),
                old(self).pixel_mode,
                old(self).blend_factor,
                glyph_pts(gx as int, gy as int, c, scale as int),
                p,
            ),
    {
        let ghost orig: PixelGameEngine = *self;
        let ghost tw = orig.target_w();
        let ghost th = orig.target_h();
        let ghost mode = orig.pixel_mode;
        let ghost factor = orig.blend_factor;
        let ghost mut done: Seq<(int, int)> = Seq::empty();
        let mut i: u32 = 0;
        while i < 8
            invariant
                self.wf(),
                self.same_but_target(orig),
                orig.wf(),
                tw == orig.target_w(),
                th == orig.target_h(),
                mode == orig.pixel_mode,
                factor == orig.blend_factor,
                tw == self.target_w(),
                th == self.target_h(),
                1 <= scale <= 0x07ff_ffff,
                -0x3000_0000 <= gx,
                gx + 8 * scale <= 0x3000_0000,
                gy + 8 * scale <= 0x3000_0000,
                -0x3000_0000 <= gy,
                i <= 8,
                glyph_pts(gx as int, gy as int, c, scale as int) == done + glyph_cols(
                    gx as int,
                    gy as int,
                    c,
                    scale as int,
                    i as int,
                ),
                self.target_data() == plot_seq(orig.target_data(), tw, th, mode, factor, done, p),
            decreases 8 - i,
        {
            proof {
                assert((i as int) * (scale as int) <= 8 * (scale as int) && ((i as int) + 1) * (
                scale as int) == (i as int) * (scale as int) + (scale as int) && (i as int) * (
                scale as int) + (scale as int) <= 8 * (scale as int)) by (nonlinear_arith)
                    requires
                        0 <= i < 8,
                        1 <= scale,
                ;
            }
            let row_base_x: i32 = gx + ((i * scale) as i32);
            let mut j: u32 = 0;
            while j < 8
                invariant
                    self.wf(),
                    self.same_but_target(orig),
                    orig.wf(),
                    tw == orig.target_w(),
                    th == orig.target_h(),
                    mode == orig.pixel_mode,
                    factor == orig.blend_factor,
                    tw == self.target_w(),
                    th == self.target_h(),
                    1 <= scale <= 0x07ff_ffff,
                    -0x3000_0000 <= gx,
                    gx + 8 * scale <= 0x3000_0000,
                    gy + 8 * scale <= 0x3000_0000,
                    -0x3000_0000 <= gy,
                    i < 8,
                    j <= 8,
                    row_base_x == gx + (i as int) * (scale as int),
                    (i as int) * (scale as int) + (scale as int) <= 8 * (scale as int),
                    glyph_pts(gx as int, gy as int, c, scale as int) == done + glyph_col(
                        gx as int,
                        gy as int,
                        c,
                        scale as int,
                        i as int,
                        j as int,
                    ) + glyph_cols(gx as int, gy as int, c, scale as int, i as int + 1),
                    self.target_data() == plot_seq(
                        orig.target_data(),
                        tw,
                        th,
                        mode,
                        factor,
                        done,
                        p,
                    ),
                decreases 8 - j,
            {
                proof {
                    assert((j as int) * (scale as int) <= 8 * (scale as int) && ((j as int) + 1) * (
                    scale as int) == (j as int) * (scale as int) + (scale as int) && (j as int) * (
                    scale as int) + (scale as int) <= 8 * (scale as int)) by (nonlinear_arith)
                        requires
                            0 <= j < 8,
                            1 <= scale,
                    ;
                }
                let row: u8 = glyph_row(c, j);
                if (row >> (i as u8)) & 1 == 1 {
                    let bx: i32 = row_base_x;
                    let by: i32 = gy + ((j * scale) as i32);
                    self.draw_block(bx, by, scale, p);
                    proof {
                        let blk = block_pts(bx as int, by as int, scale as int);
                        lemma_plot_seq_app(orig.target_data(), tw, th, mode, factor, done, blk, p);
                        done = done + blk;
                    }
                }
                proof {
                    assert(glyph_pts(gx as int, gy as int, c, scale as int) =~= done + glyph_col(
                        gx as int,
                        gy as int,
                        c,
                        scale as int,
                        i as int,
                        j as int + 1,
                    ) + glyph_cols(gx as int, gy as int, c, scale as int, i as int + 1));
                }
                j = j + 1;
            }
            i = i + 1;
        }
    }

    /// Draws a string in 8 by 8 bitmap glyphs, each cell scaled to a
    /// `scale` by `scale` block; a newline byte resets the column and
    /// advances to the next text row. Stamping selects mask compositing
    /// for a fully opaque ink color and alpha compositing otherwise, and
    /// always restores the caller's compositing mode. A scale of zero
    /// draws nothing, per the engine's permissive policy for zero-scale
    /// draws.
    #[verifier::rlimit(100)]
    pub fn draw_string_scaled(&mut self, x: i32, y: i32, text: &String, col: Pixel, scale: u32)
        requires
            old(self).wf(),
            1 <= scale <= 0x07ff_ffff || scale == 0,
            -0x1000_0000 <= x <= 0x1000_0000,
            -0x1000_0000 <= y <= 0x1000_0000,
            vstd::utf8::encode_utf8(text@).len() * 8 * scale <= 0x1000_0000,
        ensures
            final(self).wf(),
            final(self).same_but_target(*old(self)),
            final(self).pixel_mode == old(self).pixel_mode,
            scale == 0 ==> final(self).target_data() == old(self).target_data(),
            scale >= 1 ==> final(self).target_data() == plot_seq(
                old(self).target_data(),
                old(self).target_w(),
                old(self).target_h(),
                text_mode(col),
                old(self).blend_factor,
                string_points(x as int, y as int, vstd::utf8::encode_utf8(text@), scale as int),
                col,
            ),
    {
        if scale == 0 {
            return ;
        }
        let m = self.get_pixel_mode();
        if col.a != 255 {
            self.set_pixel_mode(PixelMode::Alpha);
        } else {
            self.set_pixel_mode(PixelMode::Mask);
        }
        let ghost orig: PixelGameEngine = *self;
        let ghost tw = orig.target_w();
        let ghost th = orig.target_h();
        let ghost mode = orig.pixel_mode;
        let ghost factor = orig.blend_factor;
        let ghost all_bytes = vstd::utf8::encode_utf8(text@);
        let ghost total = string_points(x as int, y as int, all_bytes, scale as int);

        let bytes: &[u8] = text.as_str().as_bytes();
        let len: usize = bytes.len();
        let mut n: usize = 0;
        let mut sx: u32 = 0;
        let mut sy: u32 = 0;
        let ghost mut done: Seq<(int, int)> = Seq::empty();
        while n < len
            invariant
                self.wf(),
                self.same_but_target(orig),
                orig.wf(),
                tw == orig.target_w(),
                th == orig.target_h(),
                mode == orig.pixel_mode,
                factor == orig.blend_factor,
                tw == self.target_w(),
                th == self.target_h(),
                1 <= scale <= 0x07ff_ffff,
                -0x1000_0000 <= x <= 0x1000_0000,
                -0x1000_0000 <= y <= 0x1000_0000,
                bytes@ == all_bytes,
                len == all_bytes.len(),
                all_bytes.len() * 8 * scale <= 0x1000_0000,
                n <= len,
                sx <= (n as int) * 8 * (scale as int),
                sy <= (n as int) * 8 * (scale as int),
                total == done + string_rest(
                    x as int,
                    y as int,
                    all_bytes,
                    n as int,
                    sx as int,
                    sy as int,
                    scale as int,
                ),
                self.target_data() == plot_seq(orig.target_data(), tw, th, mode, factor, done, col),
            decreases len - n,
        {
            proof {
                assert((n as int) * 8 * (scale as int) <= all_bytes.len() * 8 * (scale as int)
                    && ((n as int) + 1) * 8 * (scale as int) == (n as int) * 8 * (scale as int) + 8
                    * (scale as int) && 8 * (scale as int) <= all_bytes.len() * 8 * (scale as int)
                    && ((n as int) + 1) * 8 * (scale as int) <= all_bytes.len() * 8 * (
                scale as int)) by (nonlinear_arith)
                    requires
                        0 <= n < all_bytes.len(),
                        1 <= scale,
                ;
            }
            let c: u8 = bytes[n];
            if c == 10 {
                sx = 0;
                sy = sy + 8 * scale;
            } else {
                let gx: i32 = x + (sx as i32);
                let gy: i32 = y + (sy as i32);
                self.draw_glyph(gx, gy, c, scale, col);
                proof {
                    let g = glyph_pts(gx as int, gy as int, c, scale as int);
                    lemma_plot_seq_app(orig.target_data(), tw, th, mode, factor, done, g, col);
                    done = done + g;
                }
                sx = sx + 8 * scale;
            }
            n = n + 1;
            proof {
                assert(total =~= done + string_rest(
                    x as int,
                    y as int,
                    all_bytes,
                    n as int,
                    sx as int,
                    sy as int,
                    scale as int,
                ));
            }
        }
        proof {
            assert(total =~= done);
        }
        self.set_pixel_mode(m);
    }

    /// Draws a string at glyph scale one.
    #[verifier::rlimit(100)]
    pub fn draw_string(&mut self, x: i32, y: i32, text: &String, col: Pixel)
        requires
            old(self).wf(),
            -0x1000_0000 <= x <= 0x1000_0000,
            -0x1000_0000 <= y <= 0x1000_0000,
            vstd::utf8::encode_utf8(text@).len() * 8 <= 0x1000_0000,
        ensures
            final(self).wf(),
            final(self).same_but_target(*old(self)),
            final(self).pixel_mode == old(self).pixel_mode,
            final(self).target_data() == plot_seq(
                old(self).target_data(),
                old(self).target_w(),
                old(self).target_h(),
                text_mode(col),
                old(self).blend_factor,
                string_points(x as int, y as int, vstd::utf8::encode_utf8(text@), 1),
                col,
            ),
    {
        self.draw_string_scaled(x, y, text, col, 1);
    }
}

} // verus!
