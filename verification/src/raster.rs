//! The rasterizer: scan-conversion of lines, circles, rectangles and
//! sprite blits, each built on the engine's plot primitive.

use vstd::prelude::*;

use crate::engine::{plot_data, plotted_cell, PixelGameEngine};
use crate::pixel::Pixel;

verus! {

broadcast use crate::sprite::lemma_sprite_wf_consequences;

/// Coordinates handed to the scan converters must keep every intermediate
/// error term inside the 32-bit signed range; this bound is far beyond any
/// addressable framebuffer cell.
pub const COORD_LIMIT: i32 = 0x1fff_ffff;

/// A target's packed data after plotting each point of `pts` in order,
/// under one compositing mode and blend factor.
pub open spec fn plot_seq(
    data: Seq<u32>,
    w: u32,
    h: u32,
    mode: crate::pixel::PixelMode,
    factor: u8,
    pts: Seq<(int, int)>,
    src: Pixel,
) -> Seq<u32>
    decreases pts.len(),
{
    if pts.len() == 0 {
        data
    } else {
        plot_seq(
            plot_data(data, w, h, mode, factor, pts[0].0, pts[0].1, src),
            w,
            h,
            mode,
            factor,
            pts.drop_first(),
            src,
        )
    }
}

/// Plotting a concatenation is plotting the first part, then the second.
pub proof fn lemma_plot_seq_app(
    data: Seq<u32>,
    w: u32,
    h: u32,
    mode: crate::pixel::PixelMode,
    factor: u8,
    a: Seq<(int, int)>,
    b: Seq<(int, int)>,
    src: Pixel,
)
    ensures
        plot_seq(data, w, h, mode, factor, a + b, src) == plot_seq(
            plot_seq(data, w, h, mode, factor, a, src),
            w,
            h,
            mode,
            factor,
            b,
            src,
        ),
    decreases a.len(),
{
    if a.len() == 0 {
        assert(a + b =~= b);
    } else {
        assert((a + b)[0] == a[0]);
        assert((a + b).drop_first() =~= a.drop_first() + b);
        lemma_plot_seq_app(
            plot_data(data, w, h, mode, factor, a[0].0, a[0].1, src),
            w,
            h,
            mode,
            factor,
            a.drop_first(),
            b,
            src,
        );
    }
}

/// Plotting one more point extends the fold by one step.
pub proof fn lemma_plot_seq_push(
    data: Seq<u32>,
    w: u32,
    h: u32,
    mode: crate::pixel::PixelMode,
    factor: u8,
    pts: Seq<(int, int)>,
    pt: (int, int),
    src: Pixel,
)
    ensures
        plot_seq(data, w, h, mode, factor, pts.push(pt), src) == plot_data(
            plot_seq(data, w, h, mode, factor, pts, src),
            w,
            h,
            mode,
            factor,
            pt.0,
            pt.1,
            src,
        ),
{
    let one: Seq<(int, int)> = seq![pt];
    assert(pts.push(pt) =~= pts + one);
    lemma_plot_seq_app(data, w, h, mode, factor, pts, one, src);
    let mid = plot_seq(data, w, h, mode, factor, pts, src);
    let stepped = plot_data(mid, w, h, mode, factor, pt.0, pt.1, src);
    assert(one.drop_first() =~= Seq::<(int, int)>::empty());
    assert(plot_seq(mid, w, h, mode, factor, one, src) == plot_seq(
        stepped,
        w,
        h,
        mode,
        factor,
        one.drop_first(),
        src,
    ));
    assert(plot_seq(stepped, w, h, mode, factor, Seq::<(int, int)>::empty(), src) == stepped);
}

/// One left rotation of the 32-bit dash pattern; a plot happens only when
/// the rotated pattern's low bit is set.
pub open spec fn rotl1(p: u32) -> u32 {
    (p << 1u32) | (p >> 31u32)
}

/// The points a shallow (x-major) line still plots from the state where
/// the current point is `(x, y)`: one step per column until `xe`, moving
/// `y` by `ystep` whenever the accumulated error term `px` calls for it,
/// and plotting only when the rotated pattern's low bit is set.
pub open spec fn line_rest_x(
    x: int,
    y: int,
    xe: int,
    px: int,
    dx1: int,
    dy1: int,
    ystep: int,
    pat: u32,
) -> Seq<(int, int)>
    decreases xe - x,
{
    if x < xe {
        let xn = x + 1;
        let yn = if px < 0 {
            y
        } else {
            y + ystep
        };
        let pxn = if px < 0 {
            px + 2 * dy1
        } else {
            px + 2 * (dy1 - dx1)
        };
        let patn = rotl1(pat);
        let head: Seq<(int, int)> = if patn & 1u32 != 0u32 {
            seq![(xn, yn)]
        } else {
            Seq::empty()
        };
        head + line_rest_x(xn, yn, xe, pxn, dx1, dy1, ystep, patn)
    } else {
        Seq::empty()
    }
}

/// The points a steep (y-major) line still plots, symmetric to
/// [`line_rest_x`] with the roles of the axes swapped; note the error
/// threshold is `py <= 0` where the shallow case uses `px < 0`.
pub open spec fn line_rest_y(
    x: int,
    y: int,
    ye: int,
    py: int,
    dx1: int,
    dy1: int,
    xstep: int,
    pat: u32,
) -> Seq<(int, int)>
    decreases ye - y,
{
    if y < ye {
        let yn = y + 1;
        let xn = if py <= 0 {
            x
        } else {
            x + xstep
        };
        let pyn = if py <= 0 {
            py + 2 * dx1
        } else {
            py + 2 * (dx1 - dy1)
        };
        let patn = rotl1(pat);
        let head: Seq<(int, int)> = if patn & 1u32 != 0u32 {
            seq![(xn, yn)]
        } else {
            Seq::empty()
        };
        head + line_rest_y(xn, yn, ye, pyn, dx1, dy1, xstep, patn)
    } else {
        Seq::empty()
    }
}

/// The exact point sequence of a patterned Bresenham line from `(x1, y1)`
/// to `(x2, y2)`: the order and the error-term thresholds reproduce the
/// scan converter step for step.
pub open spec fn line_points(x1: int, y1: int, x2: int, y2: int, pattern: u32) -> Seq<
    (int, int),
> {
    let dx = x2 - x1;
    let dy = y2 - y1;
    let dx1 = vstd::math::abs(dx) as int;
    let dy1 = vstd::math::abs(dy) as int;
    let pat1 = rotl1(pattern);
    if dy1 <= dx1 {
        let x0 = if dx >= 0 { x1 } else { x2 };
        let y0 = if dx >= 0 { y1 } else { y2 };
        let xe = if dx >= 0 { x2 } else { x1 };
        let ystep: int = if (dx < 0 && dy < 0) || (dx > 0 && dy > 0) { 1 } else { -1 };
        let head: Seq<(int, int)> = if pat1 & 1u32 != 0u32 {
            seq![(x0, y0)]
        } else {
            Seq::empty()
        };
        head + line_rest_x(x0, y0, xe, 2 * dy1 - dx1, dx1, dy1, ystep, pat1)
    } else {
        let x0 = if dy >= 0 { x1 } else { x2 };
        let y0 = if dy >= 0 { y1 } else { y2 };
        let ye = if dy >= 0 { y2 } else { y1 };
        let xstep: int = if (dx < 0 && dy < 0) || (dx > 0 && dy > 0) { 1 } else { -1 };
        let head: Seq<(int, int)> = if pat1 & 1u32 != 0u32 {
            seq![(x0, y0)]
        } else {
            Seq::empty()
        };
        head + line_rest_y(x0, y0, ye, 2 * dx1 - dy1, dx1, dy1, xstep, pat1)
    }
}

/// The solid line: a patterned line whose dash pattern is all ones.
pub open spec fn solid_line_points(x1: int, y1: int, x2: int, y2: int) -> Seq<(int, int)> {
    line_points(x1, y1, x2, y2, 0xffff_ffffu32)
}

/// The all-zero dash pattern stays all-zero under rotation, so a line drawn
/// with it plots no point at all.
pub proof fn lemma_line_pattern_zero(x1: int, y1: int, x2: int, y2: int)
    ensures
        line_points(x1, y1, x2, y2, 0u32) == Seq::<(int, int)>::empty(),
{
    assert(rotl1(0u32) == 0u32 && 0u32 & 1u32 == 0u32) by (bit_vector);
    let dx = x2 - x1;
    let dy = y2 - y1;
    let dx1 = vstd::math::abs(dx) as int;
    let dy1 = vstd::math::abs(dy) as int;
    if dy1 <= dx1 {
        let x0 = if dx >= 0 { x1 } else { x2 };
        let y0 = if dx >= 0 { y1 } else { y2 };
        let xe = if dx >= 0 { x2 } else { x1 };
        let ystep: int = if (dx < 0 && dy < 0) || (dx > 0 && dy > 0) { 1 } else { -1 };
        lemma_line_rest_x_zero(x0, y0, xe, 2 * dy1 - dx1, dx1, dy1, ystep);
        assert(line_points(x1, y1, x2, y2, 0u32) =~= Seq::<(int, int)>::empty());
    } else {
        let x0 = if dy >= 0 { x1 } else { x2 };
        let y0 = if dy >= 0 { y1 } else { y2 };
        let ye = if dy >= 0 { y2 } else { y1 };
        let xstep: int = if (dx < 0 && dy < 0) || (dx > 0 && dy > 0) { 1 } else { -1 };
        lemma_line_rest_y_zero(x0, y0, ye, 2 * dx1 - dy1, dx1, dy1, xstep);
        assert(line_points(x1, y1, x2, y2, 0u32) =~= Seq::<(int, int)>::empty());
    }
}

proof fn lemma_line_rest_x_zero(x: int, y: int, xe: int, px: int, dx1: int, dy1: int, ystep: int)
    ensures
        line_rest_x(x, y, xe, px, dx1, dy1, ystep, 0u32) == Seq::<(int, int)>::empty(),
    decreases xe - x,
{
    assert(rotl1(0u32) == 0u32 && 0u32 & 1u32 == 0u32) by (bit_vector);
    if x < xe {
        let pxn = if px < 0 { px + 2 * dy1 } else { px + 2 * (dy1 - dx1) };
        let yn = if px < 0 { y } else { y + ystep };
        lemma_line_rest_x_zero(x + 1, yn, xe, pxn, dx1, dy1, ystep);
        assert(line_rest_x(x, y, xe, px, dx1, dy1, ystep, 0u32) =~= Seq::<(int, int)>::empty());
    }
}

proof fn lemma_line_rest_y_zero(x: int, y: int, ye: int, py: int, dx1: int, dy1: int, xstep: int)
    ensures
        line_rest_y(x, y, ye, py, dx1, dy1, xstep, 0u32) == Seq::<(int, int)>::empty(),
    decreases ye - y,
{
    assert(rotl1(0u32) == 0u32 && 0u32 & 1u32 == 0u32) by (bit_vector);
    if y < ye {
        let pyn = if py <= 0 { py + 2 * dx1 } else { py + 2 * (dx1 - dy1) };
        let xn = if py <= 0 { x } else { x + xstep };
        lemma_line_rest_y_zero(xn, y + 1, ye, pyn, dx1, dy1, xstep);
        assert(line_rest_y(x, y, ye, py, dx1, dy1, xstep, 0u32) =~= Seq::<(int, int)>::empty());
    }
}

/// The all-ones dash pattern never skips a plot: a line drawn with it is
/// the solid, unpatterned line.
pub proof fn lemma_full_pattern_is_solid(x1: int, y1: int, x2: int, y2: int)
    ensures
        line_points(x1, y1, x2, y2, 0xffff_ffffu32) == solid_line_points(x1, y1, x2, y2),
{
}

/// One cell of a row-major grid.
pub open spec fn cell_at(data: Seq<u32>, w: u32, x: int, y: int) -> u32 {
    data[y * w + x]
}

/// Two distinct in-range grid coordinates have distinct row-major indices.
proof fn lemma_row_major_inj(w: int, a: int, b: int, a2: int, b2: int)
    by (nonlinear_arith)
    requires
        0 <= a < w,
        0 <= a2 < w,
        0 <= b,
        0 <= b2,
        b * w + a == b2 * w + a2,
    ensures
        a == a2,
        b == b2,
{
}

impl PixelGameEngine {
    /// Fills the half-open rectangle `[x, x + w) x [y, y + h)`: every cell
    /// of the draw target inside it is composited with the source pixel
    /// exactly once, and no cell outside it changes.
    pub fn fill_rect(&mut self, x: i32, y: i32, w: u32, h: u32, p: Pixel)
        requires
            old(self).wf(),
            w <= 0x7fff_ffff,
            h <= 0x7fff_ffff,
            x + w <= 0x7fff_ffff,
            y + h <= 0x7fff_ffff,
        ensures
            final(self).wf(),
            final(self).same_but_target(*old(self)),
            final(self).target_data().len() == old(self).target_data().len(),
            forall|a: int, b: int|
                0 <= a < old(self).target_w() && 0 <= b < old(self).target_h()
                    ==> #[trigger] cell_at(final(self).target_data(), old(self).target_w(), a, b)
                    == (if x <= a < x + w && y <= b < y + h {
                        plotted_cell(
                            old(self).pixel_mode,
                            old(self).blend_factor,
                            p,
                            cell_at(old(self).target_data(), old(self).target_w(), a, b),
                        )
                    } else {
                        cell_at(old(self).target_data(), old(self).target_w(), a, b)
                    }),
    {
        let ghost orig: PixelGameEngine = *self;
        let ghost tw = orig.target_w();
        let ghost th = orig.target_h();
        let xe: i32 = x + (w as i32);
        let ye: i32 = y + (h as i32);
        let mut cx: i32 = x;
        while cx < xe
            invariant
                self.wf(),
                self.same_but_target(orig),
                orig.wf(),
                tw == orig.target_w(),
                th == orig.target_h(),
                tw == self.target_w(),
                th == self.target_h(),
                self.target_data().len() == orig.target_data().len(),
                x <= cx <= xe,
                xe == x + w,
                ye == y + h,
                forall|a: int, b: int|
                    0 <= a < tw && 0 <= b < th ==> #[trigger] cell_at(self.target_data(), tw, a, b)
                        == (if x <= a < cx && y <= b < ye {
                            plotted_cell(
                                orig.pixel_mode,
                                orig.blend_factor,
                                p,
                                cell_at(orig.target_data(), tw, a, b),
                            )
                        } else {
                            cell_at(orig.target_data(), tw, a, b)
                        }),
            decreases xe - cx,
        {
            let mut cy: i32 = y;
            while cy < ye
                invariant
                    self.wf(),
                    self.same_but_target(orig),
                    orig.wf(),
                    tw == orig.target_w(),
                    th == orig.target_h(),
                    tw == self.target_w(),
                    th == self.target_h(),
                    self.target_data().len() == orig.target_data().len(),
                    x <= cx < xe,
                    y <= cy <= ye,
                    xe == x + w,
                    ye == y + h,
                    forall|a: int, b: int|
                        0 <= a < tw && 0 <= b < th ==> #[trigger] cell_at(
                            self.target_data(),
                            tw,
                            a,
                            b,
                        ) == (if (x <= a < cx && y <= b < ye) || (a == cx && y <= b < cy) {
                            plotted_cell(
                                orig.pixel_mode,
                                orig.blend_factor,
                                p,
                                cell_at(orig.target_data(), tw, a, b),
                            )
                        } else {
                            cell_at(orig.target_data(), tw, a, b)
                        }),
                decreases ye - cy,
            {
                let ghost before = self.target_data();
                proof {
                    assert(self.target().wf());
                    assert(before.len() == (tw as int) * (th as int));
                }
                self.draw(cx, cy, p);
                proof {
                    lemma_plot_pointwise(
                        before,
                        tw,
                        th,
                        orig.pixel_mode,
                        orig.blend_factor,
                        cx as int,
                        cy as int,
                        p,
                    );
                }
                cy = cy + 1;
            }
            cx = cx + 1;
        }
    }
}

/// How one plot changes each cell of the grid: the addressed in-range cell
/// is composited, every other cell keeps its value.
proof fn lemma_plot_pointwise(
    data: Seq<u32>,
    w: u32,
    h: u32,
    mode: crate::pixel::PixelMode,
    factor: u8,
    x: int,
    y: int,
    src: Pixel,
)
    requires
        data.len() == (w as int) * (h as int),
    ensures
        plot_data(data, w, h, mode, factor, x, y, src).len() == data.len(),
        forall|a: int, b: int|
            0 <= a < w && 0 <= b < h ==> #[trigger] cell_at(
                plot_data(data, w, h, mode, factor, x, y, src),
                w,
                a,
                b,
            ) == (if a == x && b == y {
                plotted_cell(mode, factor, src, cell_at(data, w, a, b))
            } else {
                cell_at(data, w, a, b)
            }),
{
    let out = plot_data(data, w, h, mode, factor, x, y, src);
    if crate::sprite::in_bounds(w, h, x, y) && crate::pixel::mode_writes(mode, src) {
        crate::sprite::lemma_grid_index_bound(x, y, w as int, h as int);
        assert forall|a: int, b: int| 0 <= a < w && 0 <= b < h implies #[trigger] cell_at(
            out,
            w,
            a,
            b,
        ) == (if a == x && b == y {
            plotted_cell(mode, factor, src, cell_at(data, w, a, b))
        } else {
            cell_at(data, w, a, b)
        }) by {
            crate::sprite::lemma_grid_index_bound(a, b, w as int, h as int);
            crate::sprite::lemma_grid_index_bound(x, y, w as int, h as int);
            if a == x && b == y {
            } else {
                if b * w + a == y * w + x {
                    lemma_row_major_inj(w as int, a, b, x, y);
                }
            }
        }
    } else {
        assert forall|a: int, b: int| 0 <= a < w && 0 <= b < h implies #[trigger] cell_at(
            out,
            w,
            a,
            b,
        ) == (if a == x && b == y {
            plotted_cell(mode, factor, src, cell_at(data, w, a, b))
        } else {
            cell_at(data, w, a, b)
        }) by {
            if a == x && b == y {
                assert(!crate::pixel::mode_writes(mode, src));
            }
        }
    }
}


impl PixelGameEngine {
    /// Draws a patterned Bresenham line between the two endpoints. Each
    /// plotting step first rotates the 32-bit dash pattern left by one bit
    /// and plots only when the rotated low bit is one, so the all-zero
    /// pattern plots no pixel at all and the all-ones pattern plots the
    /// solid line. The stepping reproduces the asymmetric `< 0` / `<= 0`
    /// error thresholds of the scan converter exactly.
    pub fn draw_line_pattern(&mut self, x1: i32, y1: i32, x2: i32, y2: i32, p: Pixel, pattern: u32)
        requires
            old(self).wf(),
            -COORD_LIMIT <= x1 <= COORD_LIMIT,
            -COORD_LIMIT <= y1 <= COORD_LIMIT,
            -COORD_LIMIT <= x2 <= COORD_LIMIT,
            -COORD_LIMIT <= y2 <= COORD_LIMIT,
        ensures
            final(self).wf(),
            final(self).same_but_target(*old(self)),
            final(self).target_data() == plot_seq(
                old(self).target_data(),
                old(self).target_w(),
                old(self).target_h(),
                old(self).pixel_mode,
                old(self).blend_factor,
                line_points(x1 as int, y1 as int, x2 as int, y2 as int, pattern),
                p,
            ),
            pattern == 0 ==> final(self).target_data() == old(self).target_data(),
    {
        let ghost orig: PixelGameEngine = *self;
        let ghost tw = orig.target_w();
        let ghost th = orig.target_h();
        let ghost mode = orig.pixel_mode;
        let ghost factor = orig.blend_factor;
        let ghost total = line_points(x1 as int, y1 as int, x2 as int, y2 as int, pattern);

        let dx: i32 = x2 - x1;
        let dy: i32 = y2 - y1;
        let dx1: i32 = if dx >= 0 { dx } else { -dx };
        let dy1: i32 = if dy >= 0 { dy } else { -dy };
        let mut pat: u32 = pattern;

        if dy1 <= dx1 {

            let sx: i32 = if dx >= 0 { x1 } else { x2 };
            let sy: i32 = if dx >= 0 { y1 } else { y2 };
            let xe: i32 = if dx >= 0 { x2 } else { x1 };
            let ystep: i32 = if (dx < 0 && dy < 0) || (dx > 0 && dy > 0) { 1 } else { -1 };
            let mut px: i32 = 2 * dy1 - dx1;
            let mut x: i32 = sx;
            let mut y: i32 = sy;
            let ghost mut done: Seq<(int, int)> = Seq::empty();

            pat = (pat << 1) | (pat >> 31);
            if pat & 1 != 0 {
                self.draw(x, y, p);
                proof {
                    lemma_plot_seq_push(
                        orig.target_data(), tw, th, mode, factor,
                        Seq::empty(), (x as int, y as int), p,
                    );
                    done = done.push((x as int, y as int));
                }
            }
            proof {
                assert(total =~= done + line_rest_x(
                    x as int, y as int, xe as int, px as int,
                    dx1 as int, dy1 as int, ystep as int, pat,
                ));
            }

            while x < xe
                invariant
                    self.wf(),
                    self.same_but_target(orig),
                    orig.wf(),
                    tw == orig.target_w(),
                    th == orig.target_h(),
                    mode == orig.pixel_mode,
                    factor == orig.blend_factor,
                    tw == self.target_w(),
                    th == self.target_h(),
                    0 <= dy1 <= dx1 <= 0x4000_0000,
                    sx <= x <= xe,
                    -COORD_LIMIT <= sx,
                    xe <= COORD_LIMIT,
                    -COORD_LIMIT <= sy <= COORD_LIMIT,
                    xe - sx == dx1,
                    ystep == 1 || ystep == -1,
                    sy - (x - sx) <= y <= sy + (x - sx),
                    -2 * dx1 <= px <= 2 * dy1,
                    total == done + line_rest_x(
                        x as int, y as int, xe as int, px as int,
                        dx1 as int, dy1 as int, ystep as int, pat,
                    ),
                    self.target_data() == plot_seq(
                        orig.target_data(), tw, th, mode, factor, done, p,
                    ),
                decreases xe - x,
            {
                x = x + 1;
                if px < 0 {
                    px = px + 2 * dy1;
                } else {
                    y = y + ystep;
                    px = px + 2 * (dy1 - dx1);
                }
                pat = (pat << 1) | (pat >> 31);
                if pat & 1 != 0 {
                    proof {
                        lemma_plot_seq_push(
                            orig.target_data(), tw, th, mode, factor,
                            done, (x as int, y as int), p,
                        );
                    }
                    self.draw(x, y, p);
                    proof {
                        done = done.push((x as int, y as int));
                    }
                }
                proof {
                    assert(total =~= done + line_rest_x(
                        x as int, y as int, xe as int, px as int,
                        dx1 as int, dy1 as int, ystep as int, pat,
                    ));
                }
            }
            proof {
                assert(total =~= done);
            }

        } else {

            let sx: i32 = if dy >= 0 { x1 } else { x2 };
            let sy: i32 = if dy >= 0 { y1 } else { y2 };
            let ye: i32 = if dy >= 0 { y2 } else { y1 };
            let xstep: i32 = if (dx < 0 && dy < 0) || (dx > 0 && dy > 0) { 1 } else { -1 };
            let mut py: i32 = 2 * dx1 - dy1;
            let mut x: i32 = sx;
            let mut y: i32 = sy;
            let ghost mut done: Seq<(int, int)> = Seq::empty();

            pat = (pat << 1) | (pat >> 31);
            if pat & 1 != 0 {
                self.draw(x, y, p);
                proof {
                    lemma_plot_seq_push(
                        orig.target_data(), tw, th, mode, factor,
                        Seq::empty(), (x as int, y as int), p,
                    );
                    done = done.push((x as int, y as int));
                }
            }
            proof {
                assert(total =~= done + line_rest_y(
                    x as int, y as int, ye as int, py as int,
                    dx1 as int, dy1 as int, xstep as int, pat,
                ));
            }

            while y < ye
                invariant
                    self.wf(),
                    self.same_but_target(orig),
                    orig.wf(),
                    tw == orig.target_w(),
                    th == orig.target_h(),
                    mode == orig.pixel_mode,
                    factor == orig.blend_factor,
                    tw == self.target_w(),
                    th == self.target_h(),
                    0 <= dx1 <= dy1 <= 0x4000_0000,
                    sy <= y <= ye,
                    -COORD_LIMIT <= sy,
                    ye <= COORD_LIMIT,
                    -COORD_LIMIT <= sx <= COORD_LIMIT,
                    ye - sy == dy1,
                    xstep == 1 || xstep == -1,
                    sx - (y - sy) <= x <= sx + (y - sy),
                    -2 * dy1 <= py <= 2 * dx1,
                    total == done + line_rest_y(
                        x as int, y as int, ye as int, py as int,
                        dx1 as int, dy1 as int, xstep as int, pat,
                    ),
                    self.target_data() == plot_seq(
                        orig.target_data(), tw, th, mode, factor, done, p,
                    ),
                decreases ye - y,
            {
                y = y + 1;
                if py <= 0 {
                    py = py + 2 * dx1;
                } else {
                    x = x + xstep;
                    py = py + 2 * (dx1 - dy1);
                }
                pat = (pat << 1) | (pat >> 31);
                if pat & 1 != 0 {
                    proof {
                        lemma_plot_seq_push(
                            orig.target_data(), tw, th, mode, factor,
                            done, (x as int, y as int), p,
                        );
                    }
                    self.draw(x, y, p);
                    proof {
                        done = done.push((x as int, y as int));
                    }
                }
                proof {
                    assert(total =~= done + line_rest_y(
                        x as int, y as int, ye as int, py as int,
                        dx1 as int, dy1 as int, xstep as int, pat,
                    ));
                }
            }
            proof {
                assert(total =~= done);
            }

        }
        proof {
            if pattern == 0 {
                lemma_line_pattern_zero(x1 as int, y1 as int, x2 as int, y2 as int);
            }
        }
    }

    /// Draws a solid line between the two endpoints: the special case of a
    /// patterned line whose dash pattern is all ones.
    pub fn draw_line(&mut self, x1: i32, y1: i32, x2: i32, y2: i32, p: Pixel)
        requires
            old(self).wf(),
            -COORD_LIMIT <= x1 <= COORD_LIMIT,
            -COORD_LIMIT <= y1 <= COORD_LIMIT,
            -COORD_LIMIT <= x2 <= COORD_LIMIT,
            -COORD_LIMIT <= y2 <= COORD_LIMIT,
        ensures
            final(self).wf(),
            final(self).same_but_target(*old(self)),
            final(self).target_data() == plot_seq(
                old(self).target_data(),
                old(self).target_w(),
                old(self).target_h(),
                old(self).pixel_mode,
                old(self).blend_factor,
                solid_line_points(x1 as int, y1 as int, x2 as int, y2 as int),
                p,
            ),
    {
        self.draw_line_pattern(x1, y1, x2, y2, p, 0xffff_ffff);
    }
}


/// The draw target's cells after one solid line is drawn over them.
pub open spec fn plot_line(
    data: Seq<u32>,
    w: u32,
    h: u32,
    mode: crate::pixel::PixelMode,
    factor: u8,
    x1: int,
    y1: int,
    x2: int,
    y2: int,
    src: Pixel,
) -> Seq<u32> {
    plot_seq(data, w, h, mode, factor, solid_line_points(x1, y1, x2, y2), src)
}

impl PixelGameEngine {
    /// Draws the outline of the rectangle with corners `(x, y)` and
    /// `(x + w, y + h)`: four solid lines, in the order right along the
    /// top, down the right side, left along the bottom, and up the left
    /// side.
    pub fn draw_rect(&mut self, x: i32, y: i32, w: u32, h: u32, p: Pixel)
        requires
            old(self).wf(),
            -COORD_LIMIT <= x <= COORD_LIMIT,
            -COORD_LIMIT <= y <= COORD_LIMIT,
            x + w <= COORD_LIMIT,
            y + h <= COORD_LIMIT,
        ensures
            final(self).wf(),
            final(self).same_but_target(*old(self)),
            final(self).target_data() == ({
                let tw = old(self).target_w();
                let th = old(self).target_h();
                let mode = old(self).pixel_mode;
                let f = old(self).blend_factor;
                let xi = x as int;
                let yi = y as int;
                let xw = x + w;
                let yh = y + h;
                plot_line(
                    plot_line(
                        plot_line(
                            plot_line(old(self).target_data(), tw, th, mode, f, xi, yi, xw, yi, p),
                            tw, th, mode, f, xw, yi, xw, yh, p,
                        ),
                        tw, th, mode, f, xw, yh, xi, yh, p,
                    ),
                    tw, th, mode, f, xi, yh, xi, yi, p,
                )
            }),
    {
        let wi: i32 = w as i32;
        let hi: i32 = h as i32;
        self.draw_line(x, y, x + wi, y, p);
        self.draw_line(x + wi, y, x + wi, y + hi, p);
        self.draw_line(x + wi, y + hi, x, y + hi, p);
        self.draw_line(x, y + hi, x, y, p);
    }

    /// Draws the outline of a triangle: three solid lines between the
    /// vertices, in the order they are given.
    pub fn draw_triangle(&mut self, x1: i32, y1: i32, x2: i32, y2: i32, x3: i32, y3: i32, p: Pixel)
        requires
            old(self).wf(),
            -COORD_LIMIT <= x1 <= COORD_LIMIT,
            -COORD_LIMIT <= y1 <= COORD_LIMIT,
            -COORD_LIMIT <= x2 <= COORD_LIMIT,
            -COORD_LIMIT <= y2 <= COORD_LIMIT,
            -COORD_LIMIT <= x3 <= COORD_LIMIT,
            -COORD_LIMIT <= y3 <= COORD_LIMIT,
        ensures
            final(self).wf(),
            final(self).same_but_target(*old(self)),
            final(self).target_data() == ({
                let tw = old(self).target_w();
                let th = old(self).target_h();
                let mode = old(self).pixel_mode;
                let f = old(self).blend_factor;
                plot_line(
                    plot_line(
                        plot_line(
                            old(self).target_data(), tw, th, mode, f,
                            x1 as int, y1 as int, x2 as int, y2 as int, p,
                        ),
                        tw, th, mode, f, x2 as int, y2 as int, x3 as int, y3 as int, p,
                    ),
                    tw, th, mode, f, x3 as int, y3 as int, x1 as int, y1 as int, p,
                )
            }),
    {
        self.draw_line(x1, y1, x2, y2, p);
        self.draw_line(x2, y2, x3, y3, p);
        self.draw_line(x3, y3, x1, y1, p);
    }
}

} // verus!
