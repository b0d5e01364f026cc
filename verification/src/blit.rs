//! Sprite blitting: copying one framebuffer onto the draw target through
//! the plot primitive, 1:1 or replicated into integer-scaled blocks, whole
//! or from a sub-rectangle.

use vstd::prelude::*;

use crate::engine::{plotted_cell, PixelGameEngine};
use crate::pixel::Pixel;
use crate::raster::cell_at;
use crate::sprite::read_spec;

verus! {

broadcast use crate::sprite::lemma_sprite_wf_consequences;

impl PixelGameEngine {
    /// Blits a framebuffer from the arena onto the draw target with its
    /// top-left corner at `(x, y)`, each source pixel replicated into a
    /// `scale` by `scale` block. Scale zero is a no-op. The source must
    /// not be the draw target itself.
    pub fn draw_sprite_scaled(&mut self, x: i32, y: i32, sprite: usize, scale: u32)
        requires
            old(self).wf(),
            (sprite as int) < old(self).sprites@.len(),
            sprite != old(self).draw_target,
            scale <= 0x7fff_ffff,
            old(self).sprites@[sprite as int].spec_width() * scale <= 0x7fff_ffff,
            old(self).sprites@[sprite as int].spec_height() * scale <= 0x7fff_ffff,
            x + old(self).sprites@[sprite as int].spec_width() * scale <= 0x7fff_ffff,
            y + old(self).sprites@[sprite as int].spec_height() * scale <= 0x7fff_ffff,
            -0x7fff_ffff <= x,
            -0x7fff_ffff <= y,
        ensures
            final(self).wf(),
            final(self).same_but_target(*old(self)),
            final(self).target_data().len() == old(self).target_data().len(),
            scale == 0 ==> final(self).target_data() == old(self).target_data(),
            scale >= 1 ==> forall|a: int, b: int|
                0 <= a < old(self).target_w() && 0 <= b < old(self).target_h()
                    ==> #[trigger] cell_at(final(self).target_data(), old(self).target_w(), a, b)
                    == ({
                    let spr = old(self).sprites@[sprite as int];
                    if x <= a < x + spr.spec_width() * scale && y <= b < y + spr.spec_height()
                        * scale {
                        plotted_cell(
                            old(self).pixel_mode,
                            old(self).blend_factor,
                            read_spec(spr, (a - x) / (scale as int), (b - y) / (scale as int)),
                            cell_at(old(self).target_data(), old(self).target_w(), a, b),
                        )
                    } else {
                        cell_at(old(self).target_data(), old(self).target_w(), a, b)
                    }
                }),
    {
        if scale == 0 {
            return ;
        }
        let w: u32 = self.sprites[sprite].width();
        let h: u32 = self.sprites[sprite].height();
        self.blit_region(x, y, sprite, 0, 0, w, h, scale);
    }

    /// Blits a framebuffer 1:1; the special case of scale one.
    pub fn draw_sprite(&mut self, x: i32, y: i32, sprite: usize)
        requires
            old(self).wf(),
            (sprite as int) < old(self).sprites@.len(),
            sprite != old(self).draw_target,
            x + old(self).sprites@[sprite as int].spec_width() <= 0x7fff_ffff,
            y + old(self).sprites@[sprite as int].spec_height() <= 0x7fff_ffff,
            -0x7fff_ffff <= x,
            -0x7fff_ffff <= y,
        ensures
            final(self).wf(),
            final(self).same_but_target(*old(self)),
            final(self).target_data().len() == old(self).target_data().len(),
            forall|a: int, b: int|
                0 <= a < old(self).target_w() && 0 <= b < old(self).target_h()
                    ==> #[trigger] cell_at(final(self).target_data(), old(self).target_w(), a, b)
                    == ({
                    let spr = old(self).sprites@[sprite as int];
                    if x <= a < x + spr.spec_width() && y <= b < y + spr.spec_height() {
                        plotted_cell(
                            old(self).pixel_mode,
                            old(self).blend_factor,
                            read_spec(spr, a - x, b - y),
                            cell_at(old(self).target_data(), old(self).target_w(), a, b),
                        )
                    } else {
                        cell_at(old(self).target_data(), old(self).target_w(), a, b)
                    }
                }),
    {
        self.draw_sprite_scaled(x, y, sprite, 1);
        proof {
            let spr = old(self).sprites@[sprite as int];
            assert forall|a: int, b: int|
                0 <= a < old(self).target_w() && 0 <= b < old(self).target_h() implies #[trigger] cell_at(
                final(self).target_data(),
                old(self).target_w(),
                a,
                b,
            ) == (if x <= a < x + spr.spec_width() && y <= b < y + spr.spec_height() {
                plotted_cell(
                    old(self).pixel_mode,
                    old(self).blend_factor,
                    read_spec(spr, a - x, b - y),
                    cell_at(old(self).target_data(), old(self).target_w(), a, b),
                )
            } else {
                cell_at(old(self).target_data(), old(self).target_w(), a, b)
            }) by {
                if x <= a < x + spr.spec_width() && y <= b < y + spr.spec_height() {
                    assert((a - x) / 1int == a - x);
                    assert((b - y) / 1int == b - y);
                }
            }
        }
    }


    /// Blits a `w` by `h` sub-rectangle of a framebuffer, whose top-left
    /// source pixel is `(ox, oy)`, onto the draw target at `(x, y)`.
    pub fn draw_partial_sprite(&mut self, x: i32, y: i32, sprite: usize, ox: i32, oy: i32, w: u32, h: u32)
        requires
            old(self).wf(),
            (sprite as int) < old(self).sprites@.len(),
            sprite != old(self).draw_target,
            w <= 0x7fff_ffff,
            h <= 0x7fff_ffff,
            x + w <= 0x7fff_ffff,
            y + h <= 0x7fff_ffff,
            -0x7fff_ffff <= x,
            -0x7fff_ffff <= y,
            -0x4000_0000 <= ox,
            -0x4000_0000 <= oy,
            w + ox <= 0x7fff_ffff,
            h + oy <= 0x7fff_ffff,
        ensures
            final(self).wf(),
            final(self).same_but_target(*old(self)),
            final(self).target_data().len() == old(self).target_data().len(),
            forall|a: int, b: int|
                0 <= a < old(self).target_w() && 0 <= b < old(self).target_h()
                    ==> #[trigger] cell_at(final(self).target_data(), old(self).target_w(), a, b)
                    == (if x <= a < x + w && y <= b < y + h {
                    plotted_cell(
                        old(self).pixel_mode,
                        old(self).blend_factor,
                        read_spec(old(self).sprites@[sprite as int], (a - x) + ox, (b - y) + oy),
                        cell_at(old(self).target_data(), old(self).target_w(), a, b),
                    )
                } else {
                    cell_at(old(self).target_data(), old(self).target_w(), a, b)
                }),
    {
        self.blit_region(x, y, sprite, ox, oy, w, h, 1);
        proof {
            let spr = old(self).sprites@[sprite as int];
            assert forall|a: int, b: int|
                0 <= a < old(self).target_w() && 0 <= b < old(self).target_h() implies #[trigger] cell_at(
                final(self).target_data(),
                old(self).target_w(),
                a,
                b,
            ) == (if x <= a < x + w && y <= b < y + h {
                plotted_cell(
                    old(self).pixel_mode,
                    old(self).blend_factor,
                    read_spec(spr, (a - x) + ox, (b - y) + oy),
                    cell_at(old(self).target_data(), old(self).target_w(), a, b),
                )
            } else {
                cell_at(old(self).target_data(), old(self).target_w(), a, b)
            }) by {
                if x <= a < x + w && y <= b < y + h {
                    assert((a - x) / 1int == a - x);
                    assert((b - y) / 1int == b - y);
                }
            }
        }
    }

    /// Blits a sub-rectangle of a framebuffer with integer scaling. Scale
    /// zero is a no-op and scale one is the plain sub-rectangle blit.
    /// Note: when the scale is two or more, the walk covers the whole
    /// source sprite's dimensions, not only the requested `w` by `h`
    /// sub-rectangle; callers that need exactly the sub-rectangle must use
    /// scale one.
    pub fn draw_partial_sprite_scaled(
        &mut self,
        x: i32,
        y: i32,
        sprite: usize,
        ox: i32,
        oy: i32,
        w: u32,
        h: u32,
        scale: u32,
    )
        requires
            old(self).wf(),
            (sprite as int) < old(self).sprites@.len(),
            sprite != old(self).draw_target,
            scale <= 0x7fff_ffff,
            w <= 0x7fff_ffff,
            h <= 0x7fff_ffff,
            x + w <= 0x7fff_ffff,
            y + h <= 0x7fff_ffff,
            -0x7fff_ffff <= x,
            -0x7fff_ffff <= y,
            -0x4000_0000 <= ox,
            -0x4000_0000 <= oy,
            w + ox <= 0x7fff_ffff,
            h + oy <= 0x7fff_ffff,
            scale >= 2 ==> old(self).sprites@[sprite as int].spec_width() * scale
                <= 0x7fff_ffff,
            scale >= 2 ==> old(self).sprites@[sprite as int].spec_height() * scale
                <= 0x7fff_ffff,
            scale >= 2 ==> x + old(self).sprites@[sprite as int].spec_width() * scale
                <= 0x7fff_ffff,
            scale >= 2 ==> y + old(self).sprites@[sprite as int].spec_height() * scale
                <= 0x7fff_ffff,
            scale >= 2 ==> old(self).sprites@[sprite as int].spec_width() + ox <= 0x7fff_ffff,
            scale >= 2 ==> old(self).sprites@[sprite as int].spec_height() + oy <= 0x7fff_ffff,
        ensures
            final(self).wf(),
            final(self).same_but_target(*old(self)),
            final(self).target_data().len() == old(self).target_data().len(),
            scale == 0 ==> final(self).target_data() == old(self).target_data(),
            scale == 1 ==> forall|a: int, b: int|
                0 <= a < old(self).target_w() && 0 <= b < old(self).target_h()
                    ==> #[trigger] cell_at(final(self).target_data(), old(self).target_w(), a, b)
                    == (if x <= a < x + w && y <= b < y + h {
                    plotted_cell(
                        old(self).pixel_mode,
                        old(self).blend_factor,
                        read_spec(old(self).sprites@[sprite as int], (a - x) + ox, (b - y) + oy),
                        cell_at(old(self).target_data(), old(self).target_w(), a, b),
                    )
                } else {
                    cell_at(old(self).target_data(), old(self).target_w(), a, b)
                }),
            scale >= 2 ==> forall|a: int, b: int|
                0 <= a < old(self).target_w() && 0 <= b < old(self).target_h()
                    ==> #[trigger] cell_at(final(self).target_data(), old(self).target_w(), a, b)
                    == ({
                    let spr = old(self).sprites@[sprite as int];
                    if x <= a < x + spr.spec_width() * scale && y <= b < y + spr.spec_height()
                        * scale {
                        plotted_cell(
                            old(self).pixel_mode,
                            old(self).blend_factor,
                            read_spec(
                                spr,
                                (a - x) / (scale as int) + ox,
                                (b - y) / (scale as int) + oy,
                            ),
                            cell_at(old(self).target_data(), old(self).target_w(), a, b),
                        )
                    } else {
                        cell_at(old(self).target_data(), old(self).target_w(), a, b)
                    }
                }),
    {
        if scale == 0 {
            return ;
        }
        if scale == 1 {
            self.draw_partial_sprite(x, y, sprite, ox, oy, w, h);
        } else {
            let sw: u32 = self.sprites[sprite].width();
            let sh: u32 = self.sprites[sprite].height();
            self.blit_region(x, y, sprite, ox, oy, sw, sh, scale);
        }
    }

    /// The shared blit walk: plots the `w` by `h` source region whose
    /// top-left source pixel is `(ox, oy)`, scaled by `scale` (at least
    /// one), onto the target at `(x, y)`.
    fn blit_region(&mut self, x: i32, y: i32, sprite: usize, ox: i32, oy: i32, w: u32, h: u32, scale: u32)
        requires
            old(self).wf(),
            (sprite as int) < old(self).sprites@.len(),
            sprite != old(self).draw_target,
            1 <= scale <= 0x7fff_ffff,
            w * scale <= 0x7fff_ffff,
            h * scale <= 0x7fff_ffff,
            x + w * scale <= 0x7fff_ffff,
            y + h * scale <= 0x7fff_ffff,
            -0x7fff_ffff <= x,
            -0x7fff_ffff <= y,
            -0x4000_0000 <= ox,
            -0x4000_0000 <= oy,
            w + ox <= 0x7fff_ffff,
            h + oy <= 0x7fff_ffff,
        ensures
            final(self).wf(),
            final(self).same_but_target(*old(self)),
            final(self).target_data().len() == old(self).target_data().len(),
            forall|a: int, b: int|
                0 <= a < old(self).target_w() && 0 <= b < old(self).target_h()
                    ==> #[trigger] cell_at(final(self).target_data(), old(self).target_w(), a, b)
                    == (if x <= a < x + w * scale && y <= b < y + h * scale {
                    plotted_cell(
                        old(self).pixel_mode,
                        old(self).blend_factor,
                        read_spec(
                            old(self).sprites@[sprite as int],
                            (a - x) / (scale as int) + ox,
                            (b - y) / (scale as int) + oy,
                        ),
                        cell_at(old(self).target_data(), old(self).target_w(), a, b),
                    )
                } else {
                    cell_at(old(self).target_data(), old(self).target_w(), a, b)
                }),
    {
        let ghost orig: PixelGameEngine = *self;
        let ghost tw = orig.target_w();
        let ghost th = orig.target_h();
        let ghost mode = orig.pixel_mode;
        let ghost factor = orig.blend_factor;
        let ghost spr = orig.sprites@[sprite as int];

        proof {
            assert((w as int) <= (w as int) * (scale as int) && (h as int) <= (h as int) * (
            scale as int)) by (nonlinear_arith)
                requires
                    1 <= scale as int,
                    0 <= w as int,
                    0 <= h as int,
            ;
        }
        let mut i: u32 = 0;
        while i < w
            invariant
                self.wf(),
                self.same_but_target(orig),
                orig.wf(),
                tw == orig.target_w(),
                th == orig.target_h(),
                mode == orig.pixel_mode,
                factor == orig.blend_factor,
                tw == self.target_w(),
                th == self.target_h(),
                spr == orig.sprites@[sprite as int],
                spr == self.sprites@[sprite as int],
                spr.wf(),
                (sprite as int) < self.sprites@.len(),
                sprite != self.draw_target,
                1 <= scale <= 0x7fff_ffff,
                w * scale <= 0x7fff_ffff,
                h * scale <= 0x7fff_ffff,
                x + w * scale <= 0x7fff_ffff,
                y + h * scale <= 0x7fff_ffff,
                -0x7fff_ffff <= x,
                -0x7fff_ffff <= y,
                -0x4000_0000 <= ox,
                -0x4000_0000 <= oy,
                w + ox <= 0x7fff_ffff,
                h + oy <= 0x7fff_ffff,
                w <= 0x7fff_ffff,
                h <= 0x7fff_ffff,
                i <= w,
                self.target_data().len() == orig.target_data().len(),
                forall|a: int, b: int|
                    0 <= a < tw && 0 <= b < th ==> #[trigger] cell_at(self.target_data(), tw, a, b)
                        == (if x <= a < x + i * scale && y <= b < y + h * scale {
                        plotted_cell(
                            mode,
                            factor,
                            read_spec(
                                spr,
                                (a - x) / (scale as int) + ox,
                                (b - y) / (scale as int) + oy,
                            ),
                            cell_at(orig.target_data(), tw, a, b),
                        )
                    } else {
                        cell_at(orig.target_data(), tw, a, b)
                    }),
            decreases w - i,
        {
            proof {
                assert((i as int) * scale < (w as int) * scale && ((i as int) + 1) * scale == (
                i as int) * scale + scale && ((i as int) + 1) * scale <= (w as int) * scale)
                    by (nonlinear_arith)
                    requires
                        0 <= i < w,
                        1 <= scale,
                ;
            }
            let mut j: u32 = 0;
            while j < h
                invariant
                    self.wf(),
                    self.same_but_target(orig),
                    orig.wf(),
                    tw == orig.target_w(),
                    th == orig.target_h(),
                    mode == orig.pixel_mode,
                    factor == orig.blend_factor,
                    tw == self.target_w(),
                    th == self.target_h(),
                    spr == orig.sprites@[sprite as int],
                    spr == self.sprites@[sprite as int],
                    spr.wf(),
                    (sprite as int) < self.sprites@.len(),
                    sprite != self.draw_target,
                    1 <= scale <= 0x7fff_ffff,
                    w * scale <= 0x7fff_ffff,
                    h * scale <= 0x7fff_ffff,
                    x + w * scale <= 0x7fff_ffff,
                    y + h * scale <= 0x7fff_ffff,
                    -0x7fff_ffff <= x,
                    -0x7fff_ffff <= y,
                    -0x4000_0000 <= ox,
                    -0x4000_0000 <= oy,
                    w + ox <= 0x7fff_ffff,
                    h + oy <= 0x7fff_ffff,
                    w <= 0x7fff_ffff,
                    h <= 0x7fff_ffff,
                    i < w,
                    j <= h,
                    (i as int) * scale < (w as int) * scale,
                    ((i as int) + 1) * scale == (i as int) * scale + scale,
                    ((i as int) + 1) * scale <= (w as int) * scale,
                    self.target_data().len() == orig.target_data().len(),
                    forall|a: int, b: int|
                        0 <= a < tw && 0 <= b < th ==> #[trigger] cell_at(
                            self.target_data(),
                            tw,
                            a,
                            b,
                        ) == (if (x <= a < x + i * scale && y <= b < y + h * scale) || (x + i
                            * scale <= a < x + (i + 1) * scale && y <= b < y + j * scale) {
                            plotted_cell(
                                mode,
                                factor,
                                read_spec(
                                    spr,
                                    (a - x) / (scale as int) + ox,
                                    (b - y) / (scale as int) + oy,
                                ),
                                cell_at(orig.target_data(), tw, a, b),
                            )
                        } else {
                            cell_at(orig.target_data(), tw, a, b)
                        }),
                decreases h - j,
            {
                proof {
                    assert((j as int) * scale < (h as int) * scale && ((j as int) + 1) * scale == (
                    j as int) * scale + scale && ((j as int) + 1) * scale <= (h as int) * scale)
                        by (nonlinear_arith)
                        requires
                            0 <= j < h,
                            1 <= scale,
                    ;
                }
                let q: Pixel = self.sprites[sprite].get_pixel(
                    (i as i32) + ox,
                    (j as i32) + oy,
                );
                let tx: i32 = x + ((i * scale) as i32);
                let ty: i32 = y + ((j * scale) as i32);
                let ghost before: PixelGameEngine = *self;
                self.fill_rect(tx, ty, scale, scale, q);
                proof {
                    lemma_blit_block_covers(
                        orig.target_data(),
                        before.target_data(),
                        self.target_data(),
                        tw,
                        th,
                        mode,
                        factor,
                        spr,
                        x as int,
                        y as int,
                        ox as int,
                        oy as int,
                        i as int,
                        j as int,
                        h as int,
                        scale as int,
                        q,
                    );
                }
                j = j + 1;
            }
            i = i + 1;
        }
    }
}

/// After one scaled block of the blit is filled, the partial-coverage
/// picture advances by one block row: the cells of the new block hold the
/// composite of the source pixel the block replicates, everything else is
/// as before.
#[verifier::rlimit(60)]
proof fn lemma_blit_block_covers(
    data0: Seq<u32>,
    data1: Seq<u32>,
    data2: Seq<u32>,
    tw: u32,
    th: u32,
    mode: crate::pixel::PixelMode,
    factor: u8,
    spr: crate::sprite::Sprite,
    x: int,
    y: int,
    ox: int,
    oy: int,
    i: int,
    j: int,
    h: int,
    scale: int,
    q: Pixel,
)
    requires
        1 <= scale,
        0 <= i,
        0 <= j < h,
        q == read_spec(spr, i + ox, j + oy),
        data0.len() == data1.len(),
        data1.len() == data2.len(),
        // the coverage picture before this block
        forall|a: int, b: int|
            0 <= a < tw && 0 <= b < th ==> #[trigger] cell_at(data1, tw, a, b) == (if (x <= a < x
                + i * scale && y <= b < y + h * scale) || (x + i * scale <= a < x + (i + 1) * scale
                && y <= b < y + j * scale) {
                plotted_cell(
                    mode,
                    factor,
                    read_spec(spr, (a - x) / scale + ox, (b - y) / scale + oy),
                    cell_at(data0, tw, a, b),
                )
            } else {
                cell_at(data0, tw, a, b)
            }),
        // what the block fill did
        forall|a: int, b: int|
            0 <= a < tw && 0 <= b < th ==> #[trigger] cell_at(data2, tw, a, b) == (if x + i * scale
                <= a < x + i * scale + scale && y + j * scale <= b < y + j * scale + scale {
                plotted_cell(mode, factor, q, cell_at(data1, tw, a, b))
            } else {
                cell_at(data1, tw, a, b)
            }),
    ensures
        forall|a: int, b: int|
            0 <= a < tw && 0 <= b < th ==> #[trigger] cell_at(data2, tw, a, b) == (if (x <= a < x
                + i * scale && y <= b < y + h * scale) || (x + i * scale <= a < x + (i + 1) * scale
                && y <= b < y + (j + 1) * scale) {
                plotted_cell(
                    mode,
                    factor,
                    read_spec(spr, (a - x) / scale + ox, (b - y) / scale + oy),
                    cell_at(data0, tw, a, b),
                )
            } else {
                cell_at(data0, tw, a, b)
            }),
{
    assert forall|a: int, b: int| 0 <= a < tw && 0 <= b < th implies #[trigger] cell_at(
        data2,
        tw,
        a,
        b,
    ) == (if (x <= a < x + i * scale && y <= b < y + h * scale) || (x + i * scale <= a < x + (i + 1)
        * scale && y <= b < y + (j + 1) * scale) {
        plotted_cell(
            mode,
            factor,
            read_spec(spr, (a - x) / scale + ox, (b - y) / scale + oy),
            cell_at(data0, tw, a, b),
        )
    } else {
        cell_at(data0, tw, a, b)
    }) by {
        assert((i + 1) * scale == i * scale + scale) by (nonlinear_arith);
        assert((j + 1) * scale == j * scale + scale) by (nonlinear_arith);
        if x + i * scale <= a < x + i * scale + scale && y + j * scale <= b < y + j * scale
            + scale {
            // the freshly filled block: its source index is exactly (i + ox, j + oy)
            vstd::arithmetic::div_mod::lemma_fundamental_div_mod_converse(
                a - x,
                scale,
                i,
                a - (x + i * scale),
            );
            vstd::arithmetic::div_mod::lemma_fundamental_div_mod_converse(
                b - y,
                scale,
                j,
                b - (y + j * scale),
            );
            // the block was untouched before this fill
            assert(j * scale < h * scale) by (nonlinear_arith)
                requires
                    j < h,
                    1 <= scale,
            ;
            assert(cell_at(data1, tw, a, b) == cell_at(data0, tw, a, b));
        } else {
            if (x <= a < x + i * scale && y <= b < y + h * scale) || (x + i * scale <= a < x + (i
                + 1) * scale && y <= b < y + (j + 1) * scale) {
                assert(cell_at(data2, tw, a, b) == cell_at(data1, tw, a, b));
            }
        }
    }
}

} // verus!
