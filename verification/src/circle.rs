//! Midpoint circle scan conversion: outlines drawn octant by octant under
//! an 8-bit octant mask, and filled circles drawn as horizontal spans.

use vstd::prelude::*;

use crate::engine::PixelGameEngine;
use crate::pixel::Pixel;
use crate::raster::{lemma_plot_seq_app, lemma_plot_seq_push, plot_seq, COORD_LIMIT};

verus! {

broadcast use crate::sprite::lemma_sprite_wf_consequences;

/// The radius bound that keeps the midpoint walk's decision variable
/// inside the 32-bit signed range.
pub const RADIUS_LIMIT: i32 = 0x1000_0000;

/// The up-to-eight mirrored points one midpoint step contributes, one per
/// set bit of the octant mask, in mask-bit order from `0x01` to `0x80`.
pub open spec fn octant_pts_lo(cx: int, cy: int, x0: int, y0: int, mask: u8) -> Seq<(int, int)> {
    (if mask & 0x01u8 != 0u8 {
        seq![(cx + x0, cy - y0)]
    } else {
        Seq::empty()
    }) + (if mask & 0x02u8 != 0u8 {
        seq![(cx + y0, cy - x0)]
    } else {
        Seq::empty()
    }) + (if mask & 0x04u8 != 0u8 {
        seq![(cx + y0, cy + x0)]
    } else {
        Seq::empty()
    }) + (if mask & 0x08u8 != 0u8 {
        seq![(cx + x0, cy + y0)]
    } else {
        Seq::empty()
    })
}

pub open spec fn octant_pts_hi(cx: int, cy: int, x0: int, y0: int, mask: u8) -> Seq<(int, int)> {
    (if mask & 0x10u8 != 0u8 {
        seq![(cx - x0, cy + y0)]
    } else {
        Seq::empty()
    }) + (if mask & 0x20u8 != 0u8 {
        seq![(cx - y0, cy + x0)]
    } else {
        Seq::empty()
    }) + (if mask & 0x40u8 != 0u8 {
        seq![(cx - y0, cy - x0)]
    } else {
        Seq::empty()
    }) + (if mask & 0x80u8 != 0u8 {
        seq![(cx - x0, cy - y0)]
    } else {
        Seq::empty()
    })
}

pub open spec fn octant_pts(cx: int, cy: int, x0: int, y0: int, mask: u8) -> Seq<(int, int)> {
    octant_pts_lo(cx, cy, x0, y0, mask) + octant_pts_hi(cx, cy, x0, y0, mask)
}

/// The points the midpoint walk still plots from state `(x0, y0, d)`: the
/// selected octant mirrors of each step until the walk crosses the
/// diagonal.
pub open spec fn circle_rest(cx: int, cy: int, x0: int, y0: int, d: int, mask: u8) -> Seq<
    (int, int),
>
    decreases y0 - x0 + 2,
{
    if y0 >= x0 {
        octant_pts(cx, cy, x0, y0, mask) + (if d < 0 {
            circle_rest(cx, cy, x0 + 1, y0, d + 4 * x0 + 6, mask)
        } else {
            circle_rest(cx, cy, x0 + 1, y0 - 1, d + 4 * (x0 - y0) + 10, mask)
        })
    } else {
        Seq::empty()
    }
}

/// The exact point sequence of a circle outline of the given radius around
/// `(cx, cy)`, restricted to the octants selected by the mask. A radius of
/// zero is explicitly a no-op, and a negative radius never enters the walk.
pub open spec fn circle_points(cx: int, cy: int, radius: int, mask: u8) -> Seq<(int, int)> {
    if radius == 0 {
        Seq::empty()
    } else {
        circle_rest(cx, cy, 0, radius, 3 - 2 * radius, mask)
    }
}

/// The points of one horizontal span: `(sx, ny)` inclusive to `(ex, ny)`
/// exclusive, left to right.
pub open spec fn hspan_pts(sx: int, ex: int, ny: int) -> Seq<(int, int)>
    decreases ex - sx,
{
    if sx < ex {
        seq![(sx, ny)] + hspan_pts(sx + 1, ex, ny)
    } else {
        Seq::empty()
    }
}

/// The points the filled-circle walk still plots from state `(x0, y0, d)`:
/// four horizontal spans per step (mirrored top/bottom, inner/outer rows).
pub open spec fn fill_circle_rest(cx: int, cy: int, x0: int, y0: int, d: int) -> Seq<(int, int)>
    decreases y0 - x0 + 2,
{
    if y0 >= x0 {
        hspan_pts(cx - x0, cx + x0, cy - y0) + hspan_pts(cx - y0, cx + y0, cy - x0) + hspan_pts(
            cx - x0,
            cx + x0,
            cy + y0,
        ) + hspan_pts(cx - y0, cx + y0, cy + x0) + (if d < 0 {
            fill_circle_rest(cx, cy, x0 + 1, y0, d + 4 * x0 + 6)
        } else {
            fill_circle_rest(cx, cy, x0 + 1, y0 - 1, d + 4 * (x0 - y0) + 10)
        })
    } else {
        Seq::empty()
    }
}

/// The exact point sequence of a filled circle; radius zero is a no-op.
pub open spec fn fill_circle_points(cx: int, cy: int, radius: int) -> Seq<(int, int)> {
    if radius == 0 {
        Seq::empty()
    } else {
        fill_circle_rest(cx, cy, 0, radius, 3 - 2 * radius)
    }
}

impl PixelGameEngine {

    /// Plots the first four selected octant mirrors of one midpoint step.
    fn draw_octants_lo(&mut self, x: i32, y: i32, x0: i32, y0: i32, p: Pixel, mask: u8)
        requires
            old(self).wf(),
            -COORD_LIMIT <= x <= COORD_LIMIT,
            -COORD_LIMIT <= y <= COORD_LIMIT,
            0 <= x0 <= COORD_LIMIT,
            0 <= y0 <= COORD_LIMIT,
        ensures
            final(self).wf(),
            final(self).same_but_target(*old(self)),
            final(self).target_data() == plot_seq(
                old(self).target_data(),
                old(self).target_w(),
                old(self).target_h(),
                old(self).pixel_mode,
                old(self).blend_factor,
                octant_pts_lo(x as int, y as int, x0 as int, y0 as int, mask),
                p,
            ),
    {
        let ghost orig: PixelGameEngine = *self;
        let ghost tw = orig.target_w();
        let ghost th = orig.target_h();
        let ghost mode = orig.pixel_mode;
        let ghost factor = orig.blend_factor;
        let ghost mut done: Seq<(int, int)> = Seq::empty();
        if mask & 0x01 != 0 {
            proof {
                lemma_plot_seq_push(orig.target_data(), tw, th, mode, factor, done, ((x + x0) as int, (y - y0) as int), p);
            }
            self.draw(x + x0, y - y0, p);
            proof {
                done = done.push(((x + x0) as int, (y - y0) as int));
            }
        }
        if mask & 0x02 != 0 {
            proof {
                lemma_plot_seq_push(orig.target_data(), tw, th, mode, factor, done, ((x + y0) as int, (y - x0) as int), p);
            }
            self.draw(x + y0, y - x0, p);
            proof {
                done = done.push(((x + y0) as int, (y - x0) as int));
            }
        }
        if mask & 0x04 != 0 {
            proof {
                lemma_plot_seq_push(orig.target_data(), tw, th, mode, factor, done, ((x + y0) as int, (y + x0) as int), p);
            }
            self.draw(x + y0, y + x0, p);
            proof {
                done = done.push(((x + y0) as int, (y + x0) as int));
            }
        }
        if mask & 0x08 != 0 {
            proof {
                lemma_plot_seq_push(orig.target_data(), tw, th, mode, factor, done, ((x + x0) as int, (y + y0) as int), p);
            }
            self.draw(x + x0, y + y0, p);
            proof {
                done = done.push(((x + x0) as int, (y + y0) as int));
            }
        }
        proof {
            assert(done =~= octant_pts_lo(x as int, y as int, x0 as int, y0 as int, mask));
        }
    }

    /// Plots the last four selected octant mirrors of one midpoint step.
    fn draw_octants_hi(&mut self, x: i32, y: i32, x0: i32, y0: i32, p: Pixel, mask: u8)
        requires
            old(self).wf(),
            -COORD_LIMIT <= x <= COORD_LIMIT,
            -COORD_LIMIT <= y <= COORD_LIMIT,
            0 <= x0 <= COORD_LIMIT,
            0 <= y0 <= COORD_LIMIT,
        ensures
            final(self).wf(),
            final(self).same_but_target(*old(self)),
            final(self).target_data() == plot_seq(
                old(self).target_data(),
                old(self).target_w(),
                old(self).target_h(),
                old(self).pixel_mode,
                old(self).blend_factor,
                octant_pts_hi(x as int, y as int, x0 as int, y0 as int, mask),
                p,
            ),
    {
        let ghost orig: PixelGameEngine = *self;
        let ghost tw = orig.target_w();
        let ghost th = orig.target_h();
        let ghost mode = orig.pixel_mode;
        let ghost factor = orig.blend_factor;
        let ghost mut done: Seq<(int, int)> = Seq::empty();
        if mask & 0x10 != 0 {
            proof {
                lemma_plot_seq_push(orig.target_data(), tw, th, mode, factor, done, ((x - x0) as int, (y + y0) as int), p);
            }
            self.draw(x - x0, y + y0, p);
            proof {
                done = done.push(((x - x0) as int, (y + y0) as int));
            }
        }
        if mask & 0x20 != 0 {
            proof {
                lemma_plot_seq_push(orig.target_data(), tw, th, mode, factor, done, ((x - y0) as int, (y + x0) as int), p);
            }
            self.draw(x - y0, y + x0, p);
            proof {
                done = done.push(((x - y0) as int, (y + x0) as int));
            }
        }
        if mask & 0x40 != 0 {
            proof {
                lemma_plot_seq_push(orig.target_data(), tw, th, mode, factor, done, ((x - y0) as int, (y - x0) as int), p);
            }
            self.draw(x - y0, y - x0, p);
            proof {
                done = done.push(((x - y0) as int, (y - x0) as int));
            }
        }
        if mask & 0x80 != 0 {
            proof {
                lemma_plot_seq_push(orig.target_data(), tw, th, mode, factor, done, ((x - x0) as int, (y - y0) as int), p);
            }
            self.draw(x - x0, y - y0, p);
            proof {
                done = done.push(((x - x0) as int, (y - y0) as int));
            }
        }
        proof {
            assert(done =~= octant_pts_hi(x as int, y as int, x0 as int, y0 as int, mask));
        }
    }

    /// Plots the selected octant mirrors of one midpoint step.
    fn draw_octants(&mut self, x: i32, y: i32, x0: i32, y0: i32, p: Pixel, mask: u8)
        requires
            old(self).wf(),
            -COORD_LIMIT <= x <= COORD_LIMIT,
            -COORD_LIMIT <= y <= COORD_LIMIT,
            0 <= x0 <= COORD_LIMIT,
            0 <= y0 <= COORD_LIMIT,
        ensures
            final(self).wf(),
            final(self).same_but_target(*old(self)),
            final(self).target_data() == plot_seq(
                old(self).target_data(),
                old(self).target_w(),
                old(self).target_h(),
                old(self).pixel_mode,
                old(self).blend_factor,
                octant_pts(x as int, y as int, x0 as int, y0 as int, mask),
                p,
            ),
    {
        let ghost orig: PixelGameEngine = *self;
        let ghost tw = orig.target_w();
        let ghost th = orig.target_h();
        let ghost mode = orig.pixel_mode;
        let ghost factor = orig.blend_factor;
        self.draw_octants_lo(x, y, x0, y0, p, mask);
        self.draw_octants_hi(x, y, x0, y0, p, mask);
        proof {
            lemma_plot_seq_app(
                orig.target_data(), tw, th, mode, factor,
                octant_pts_lo(x as int, y as int, x0 as int, y0 as int, mask),
                octant_pts_hi(x as int, y as int, x0 as int, y0 as int, mask),
                p,
            );
        }
    }

    /// Draws the octants of a midpoint circle outline selected by the
    /// 8-bit mask (one bit per octant), enabling partial arcs. Radius zero
    /// is a no-op, not a point.
    #[verifier::rlimit(60)]
    pub fn draw_circle_mask(&mut self, x: i32, y: i32, radius: i32, p: Pixel, mask: u8)
        requires
            old(self).wf(),
            -COORD_LIMIT <= x <= COORD_LIMIT,
            -COORD_LIMIT <= y <= COORD_LIMIT,
            -RADIUS_LIMIT <= radius <= RADIUS_LIMIT,
        ensures
            final(self).wf(),
            final(self).same_but_target(*old(self)),
            final(self).target_data() == plot_seq(
                old(self).target_data(),
                old(self).target_w(),
                old(self).target_h(),
                old(self).pixel_mode,
                old(self).blend_factor,
                circle_points(x as int, y as int, radius as int, mask),
                p,
            ),
    {
        let ghost orig: PixelGameEngine = *self;
        let ghost tw = orig.target_w();
        let ghost th = orig.target_h();
        let ghost mode = orig.pixel_mode;
        let ghost factor = orig.blend_factor;
        let ghost total = circle_points(x as int, y as int, radius as int, mask);

        if radius == 0 {
            return ;
        }
        let mut x0: i32 = 0;
        let mut y0: i32 = radius;
        let mut d: i32 = 3 - 2 * radius;
        let ghost mut done: Seq<(int, int)> = Seq::empty();

        while y0 >= x0
            invariant
                self.wf(),
                self.same_but_target(orig),
                orig.wf(),
                tw == orig.target_w(),
                th == orig.target_h(),
                mode == orig.pixel_mode,
                factor == orig.blend_factor,
                tw == self.target_w(),
                th == self.target_h(),
                1 <= radius <= RADIUS_LIMIT || -RADIUS_LIMIT <= radius <= -1,
                -COORD_LIMIT <= x <= COORD_LIMIT,
                -COORD_LIMIT <= y <= COORD_LIMIT,
                radius <= -1 ==> y0 < x0,
                radius >= 1 ==> 0 <= x0 && x0 <= y0 + 2 && y0 <= radius,
                radius >= 1 ==> -4 * (radius as int) + 3 <= d <= 4 * (radius as int) + 36,
                radius >= 1 && y0 - x0 >= 2 ==> d <= 4 * (radius as int) + 6,
                radius >= 1 && y0 - x0 >= 0 ==> d <= 4 * (radius as int) + 26,
                total == done + circle_rest(x as int, y as int, x0 as int, y0 as int, d as int, mask),
                self.target_data() == plot_seq(orig.target_data(), tw, th, mode, factor, done, p),
            decreases y0 - x0 + 2,
        {
            self.draw_octants(x, y, x0, y0, p, mask);
            proof {
                let oct = octant_pts(x as int, y as int, x0 as int, y0 as int, mask);
                lemma_plot_seq_app(orig.target_data(), tw, th, mode, factor, done, oct, p);
                done = done + oct;
            }
            proof {
                assert(radius >= 1);
                assert(0 <= x0 <= radius && x0 <= y0 <= radius);
                assert(-4 * (radius as int) + 3 <= d <= 4 * (radius as int) + 36);
            }
            if d < 0 {
                d = d + 4 * x0 + 6;
                x0 = x0 + 1;
            } else {
                d = d + 4 * (x0 - y0) + 10;
                x0 = x0 + 1;
                y0 = y0 - 1;
            }
            proof {
                assert(total =~= done + circle_rest(x as int, y as int, x0 as int, y0 as int, d as int, mask));
            }
        }
        proof {
            assert(total =~= done);
        }
    }

    /// Draws a full circle outline: all eight octants of the mask.
    pub fn draw_circle(&mut self, x: i32, y: i32, radius: i32, p: Pixel)
        requires
            old(self).wf(),
            -COORD_LIMIT <= x <= COORD_LIMIT,
            -COORD_LIMIT <= y <= COORD_LIMIT,
            -RADIUS_LIMIT <= radius <= RADIUS_LIMIT,
        ensures
            final(self).wf(),
            final(self).same_but_target(*old(self)),
            final(self).target_data() == plot_seq(
                old(self).target_data(),
                old(self).target_w(),
                old(self).target_h(),
                old(self).pixel_mode,
                old(self).blend_factor,
                circle_points(x as int, y as int, radius as int, 0xffu8),
                p,
            ),
    {
        self.draw_circle_mask(x, y, radius, p, 0xff);
    }

    /// Plots one horizontal run of pixels: `(sx, ny)` inclusive to
    /// `(ex, ny)` exclusive.
    pub(crate) fn draw_hspan(&mut self, sx: i32, ex: i32, ny: i32, p: Pixel)
        requires
            old(self).wf(),
            -0x4000_0000 <= sx,
            ex <= 0x4000_0000,
        ensures
            final(self).wf(),
            final(self).same_but_target(*old(self)),
            final(self).target_data() == plot_seq(
                old(self).target_data(),
                old(self).target_w(),
                old(self).target_h(),
                old(self).pixel_mode,
                old(self).blend_factor,
                hspan_pts(sx as int, ex as int, ny as int),
                p,
            ),
    {
        let ghost orig: PixelGameEngine = *self;
        let ghost tw = orig.target_w();
        let ghost th = orig.target_h();
        let ghost mode = orig.pixel_mode;
        let ghost factor = orig.blend_factor;
        let mut i: i32 = sx;
        let ghost mut done: Seq<(int, int)> = Seq::empty();
        while i < ex
            invariant
                self.wf(),
                self.same_but_target(orig),
                orig.wf(),
                tw == orig.target_w(),
                th == orig.target_h(),
                mode == orig.pixel_mode,
                factor == orig.blend_factor,
                tw == self.target_w(),
                th == self.target_h(),
                sx <= i,
                i <= ex || i == sx,
                ex <= 0x4000_0000,
                hspan_pts(sx as int, ex as int, ny as int) == done + hspan_pts(
                    i as int,
                    ex as int,
                    ny as int,
                ),
                self.target_data() == plot_seq(orig.target_data(), tw, th, mode, factor, done, p),
            decreases ex - i,
        {
            proof {
                lemma_plot_seq_push(orig.target_data(), tw, th, mode, factor, done, (i as int, ny as int), p);
            }
            self.draw(i, ny, p);
            proof {
                done = done.push((i as int, ny as int));
                assert(hspan_pts(sx as int, ex as int, ny as int) =~= done + hspan_pts(
                    i as int + 1,
                    ex as int,
                    ny as int,
                ));
            }
            i = i + 1;
        }
        proof {
            assert(hspan_pts(sx as int, ex as int, ny as int) =~= done);
        }
    }

    /// Fills a circle of the given radius around `(x, y)`: the midpoint
    /// walk draws four mirrored horizontal spans per step. Radius zero is
    /// a no-op.
    #[verifier::rlimit(60)]
    pub fn fill_circle(&mut self, x: i32, y: i32, radius: i32, p: Pixel)
        requires
            old(self).wf(),
            -COORD_LIMIT <= x <= COORD_LIMIT,
            -COORD_LIMIT <= y <= COORD_LIMIT,
            -RADIUS_LIMIT <= radius <= RADIUS_LIMIT,
        ensures
            final(self).wf(),
            final(self).same_but_target(*old(self)),
            final(self).target_data() == plot_seq(
                old(self).target_data(),
                old(self).target_w(),
                old(self).target_h(),
                old(self).pixel_mode,
                old(self).blend_factor,
                fill_circle_points(x as int, y as int, radius as int),
                p,
            ),
    {
        let ghost orig: PixelGameEngine = *self;
        let ghost tw = orig.target_w();
        let ghost th = orig.target_h();
        let ghost mode = orig.pixel_mode;
        let ghost factor = orig.blend_factor;
        let ghost total = fill_circle_points(x as int, y as int, radius as int);

        if radius == 0 {
            return ;
        }
        let mut x0: i32 = 0;
        let mut y0: i32 = radius;
        let mut d: i32 = 3 - 2 * radius;
        let ghost mut done: Seq<(int, int)> = Seq::empty();

        while y0 >= x0
            invariant
                self.wf(),
                self.same_but_target(orig),
                orig.wf(),
                tw == orig.target_w(),
                th == orig.target_h(),
                mode == orig.pixel_mode,
                factor == orig.blend_factor,
                tw == self.target_w(),
                th == self.target_h(),
                1 <= radius <= RADIUS_LIMIT || -RADIUS_LIMIT <= radius <= -1,
                -COORD_LIMIT <= x <= COORD_LIMIT,
                -COORD_LIMIT <= y <= COORD_LIMIT,
                radius <= -1 ==> y0 < x0,
                radius >= 1 ==> 0 <= x0 && x0 <= y0 + 2 && y0 <= radius,
                radius >= 1 ==> -4 * (radius as int) + 3 <= d <= 4 * (radius as int) + 36,
                radius >= 1 && y0 - x0 >= 2 ==> d <= 4 * (radius as int) + 6,
                radius >= 1 && y0 - x0 >= 0 ==> d <= 4 * (radius as int) + 26,
                total == done + fill_circle_rest(x as int, y as int, x0 as int, y0 as int, d as int),
                self.target_data() == plot_seq(orig.target_data(), tw, th, mode, factor, done, p),
            decreases y0 - x0 + 2,
        {
            self.draw_hspan(x - x0, x + x0, y - y0, p);
            proof {
                let s1 = hspan_pts((x - x0) as int, (x + x0) as int, (y - y0) as int);
                lemma_plot_seq_app(orig.target_data(), tw, th, mode, factor, done, s1, p);
                done = done + s1;
            }
            self.draw_hspan(x - y0, x + y0, y - x0, p);
            proof {
                let s2 = hspan_pts((x - y0) as int, (x + y0) as int, (y - x0) as int);
                lemma_plot_seq_app(orig.target_data(), tw, th, mode, factor, done, s2, p);
                done = done + s2;
            }
            self.draw_hspan(x - x0, x + x0, y + y0, p);
            proof {
                let s3 = hspan_pts((x - x0) as int, (x + x0) as int, (y + y0) as int);
                lemma_plot_seq_app(orig.target_data(), tw, th, mode, factor, done, s3, p);
                done = done + s3;
            }
            self.draw_hspan(x - y0, x + y0, y + x0, p);
            proof {
                let s4 = hspan_pts((x - y0) as int, (x + y0) as int, (y + x0) as int);
                lemma_plot_seq_app(orig.target_data(), tw, th, mode, factor, done, s4, p);
                done = done + s4;
            }
            proof {
                assert(radius >= 1);
                assert(0 <= x0 <= radius && x0 <= y0 <= radius);
                assert(-4 * (radius as int) + 3 <= d <= 4 * (radius as int) + 36);
            }
            if d < 0 {
                d = d + 4 * x0 + 6;
                x0 = x0 + 1;
            } else {
                d = d + 4 * (x0 - y0) + 10;
                x0 = x0 + 1;
                y0 = y0 - 1;
            }
            proof {
                assert(total =~= done + fill_circle_rest(x as int, y as int, x0 as int, y0 as int, d as int));
            }
        }
        proof {
            assert(total =~= done);
        }
    }
}

} // verus!
