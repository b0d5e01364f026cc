//! Filled-triangle scan conversion: the vertices are sorted by row, the
//! triangle is split at the middle vertex's row into a flat-bottom and a
//! flat-top half, and each half is filled scanline by scanline with
//! integer edge interpolation.

use vstd::prelude::*;

use crate::circle::hspan_pts;
use crate::engine::PixelGameEngine;
use crate::pixel::Pixel;
use crate::raster::{lemma_plot_seq_app, plot_seq, COORD_LIMIT};

verus! {

broadcast use crate::sprite::lemma_sprite_wf_consequences;

/// Signed division that truncates toward zero, as machine division does;
/// the edge interpolation rounds with it.
pub open spec fn div_trunc(a: int, b: int) -> int
    recommends
        b > 0,
{
    if a >= 0 {
        a / b
    } else {
        -((-a) / b)
    }
}

/// The column of an edge at step `k`: the edge starts at column `x0` and
/// advances `dx` columns over `dy` rows; a flat edge stays at `x0`.
pub open spec fn slope_x(x0: int, dx: int, dy: int, k: int) -> int {
    if dy == 0 {
        x0
    } else {
        x0 + div_trunc(k * dx, dy)
    }
}

/// The scanlines a triangle half still fills: row `y` up to `yend`
/// inclusive, each row the inclusive span between the interpolated left
/// and right edge columns at step `y - y0`.
pub open spec fn tri_rows(
    y0: int,
    y: int,
    yend: int,
    lx0: int,
    ldx: int,
    ldy: int,
    rx0: int,
    rdx: int,
    rdy: int,
) -> Seq<(int, int)>
    decreases yend - y + 1,
{
    if y <= yend {
        let k = y - y0;
        hspan_pts(slope_x(lx0, ldx, ldy, k), slope_x(rx0, rdx, rdy, k) + 1, y) + tri_rows(
            y0,
            y + 1,
            yend,
            lx0,
            ldx,
            ldy,
            rx0,
            rdx,
            rdy,
        )
    } else {
        Seq::empty()
    }
}

/// The three vertices ordered by ascending row; strict comparisons decide
/// every tie, so vertices sharing a row keep a fixed relative order.
pub open spec fn sort_tri(x1: int, y1: int, x2: int, y2: int, x3: int, y3: int) -> (
    int,
    int,
    int,
    int,
    int,
    int,
) {
    if y1 < y2 {
        if y1 < y3 {
            if y2 < y3 {
                (x1, y1, x2, y2, x3, y3)
            } else {
                (x1, y1, x3, y3, x2, y2)
            }
        } else {
            (x3, y3, x1, y1, x2, y2)
        }
    } else {
        if y2 < y3 {
            if y1 < y3 {
                (x2, y2, x1, y1, x3, y3)
            } else {
                (x2, y2, x3, y3, x1, y1)
            }
        } else {
            (x3, y3, x2, y2, x1, y1)
        }
    }
}

/// The split vertex's column: where the long edge (top vertex to bottom
/// vertex) crosses the middle vertex's row, by linear interpolation with
/// truncating division; a fully flat triangle keeps the top vertex's
/// column.
pub open spec fn split_x(v1x: int, v1y: int, v2y: int, v3x: int, v3y: int) -> int {
    slope_x(v1x, v3x - v1x, v3y - v1y, v2y - v1y)
}

/// The exact point sequence of a filled triangle: sort the vertices by
/// row, split at the middle row, order the middle and split vertices by
/// column, then fill the flat-bottom half and the flat-top half; the
/// middle row is filled by both halves.
pub open spec fn fill_triangle_points(x1: int, y1: int, x2: int, y2: int, x3: int, y3: int) -> Seq<
    (int, int),
> {
    let (v1x, v1y, v2x, v2y, v3x, v3y) = sort_tri(x1, y1, x2, y2, x3, y3);
    let v4x = split_x(v1x, v1y, v2y, v3x, v3y);
    let lmx = if v4x < v2x {
        v4x
    } else {
        v2x
    };
    let rmx = if v4x < v2x {
        v2x
    } else {
        v4x
    };
    tri_rows(v1y, v1y, v2y, v1x, lmx - v1x, v2y - v1y, v1x, rmx - v1x, v2y - v1y) + tri_rows(
        v2y,
        v2y,
        v3y,
        lmx,
        v3x - lmx,
        v3y - v2y,
        rmx,
        v3x - rmx,
        v3y - v2y,
    )
}

/// `k * dx / dy` truncated toward zero stays between `0` and `dx` while
/// `0 <= k <= dy`.
proof fn lemma_slope_x_range(x0: int, dx: int, dy: int, k: int)
    requires
        0 <= k <= dy,
    ensures
        dx >= 0 ==> x0 <= slope_x(x0, dx, dy, k) <= x0 + dx,
        dx < 0 ==> x0 + dx <= slope_x(x0, dx, dy, k) <= x0,
{
    if dy != 0 {
        if dx >= 0 {
            assert(0 <= k * dx && k * dx <= dy * dx) by (nonlinear_arith)
                requires
                    0 <= k <= dy,
                    0 <= dx,
            ;
            vstd::arithmetic::div_mod::lemma_div_is_ordered(k * dx, dy * dx, dy);
            vstd::arithmetic::div_mod::lemma_div_multiples_vanish(dx, dy);
            vstd::arithmetic::div_mod::lemma_div_is_ordered(0, k * dx, dy);
        } else {
            let m = -dx;
            assert(0 <= k * m && k * m <= dy * m && -(k * dx) == k * m) by (nonlinear_arith)
                requires
                    0 <= k <= dy,
                    0 <= m,
                    m == -dx,
            ;
            vstd::arithmetic::div_mod::lemma_div_is_ordered(k * m, dy * m, dy);
            vstd::arithmetic::div_mod::lemma_div_multiples_vanish(m, dy);
            vstd::arithmetic::div_mod::lemma_div_is_ordered(0, k * m, dy);
        }
    }
}

/// Machine division of 64-bit values truncating toward zero.
fn div_trunc_i64(num: i64, den: i64) -> (q: i64)
    requires
        1 <= den,
        -0x4000_0000_0000_0000 <= num <= 0x4000_0000_0000_0000,
    ensures
        q == div_trunc(num as int, den as int),
        num >= 0 ==> 0 <= q <= num,
        num < 0 ==> num <= q <= 0,
{
    if num >= 0 {
        proof {
            vstd::arithmetic::div_mod::lemma_div_nonincreasing(num as int, den as int);
            vstd::arithmetic::div_mod::lemma_div_is_ordered(0, num as int, den as int);
        }
        ((num as u64) / (den as u64)) as i64
    } else {
        let mag: i64 = -num;
        proof {
            vstd::arithmetic::div_mod::lemma_div_nonincreasing(mag as int, den as int);
            vstd::arithmetic::div_mod::lemma_div_is_ordered(0, mag as int, den as int);
        }
        -(((mag as u64) / (den as u64)) as i64)
    }
}

/// The interpolated edge column at step `k`, computed in 64-bit arithmetic
/// with division truncating toward zero; the result stays between the
/// edge's two end columns.
fn slope_step(x0: i32, dx: i32, dy: i32, k: i32) -> (r: i32)
    requires
        -0x4000_0000 <= x0 <= 0x4000_0000,
        -0x4000_0000 <= x0 + dx <= 0x4000_0000,
        0 <= dy <= 0x4000_0000,
        0 <= k <= dy,
    ensures
        r == slope_x(x0 as int, dx as int, dy as int, k as int),
        dx >= 0 ==> x0 <= r <= x0 + dx,
        dx < 0 ==> x0 + dx <= r <= x0,
{
    proof {
        lemma_slope_x_range(x0 as int, dx as int, dy as int, k as int);
    }
    if dy == 0 {
        x0
    } else {
        proof {
            assert((k as i64) * (dx as i64) == (k as int) * (dx as int)
                && -0x4000_0000_0000_0000 <= (k as int) * (dx as int) <= 0x4000_0000_0000_0000)
                by (nonlinear_arith)
                requires
                    k as i64 == k as int,
                    dx as i64 == dx as int,
                    0 <= k as int <= 0x4000_0000,
                    -0x8000_0000 <= dx as int <= 0x8000_0000,
            ;
        }
        let num: i64 = (k as i64) * (dx as i64);
        let q: i64 = div_trunc_i64(num, dy as i64);
        x0 + (q as i32)
    }
}

impl PixelGameEngine {
    /// Fills the triangle with the given vertices: the vertices are sorted
    /// by row, the triangle is split at the middle vertex's row, and the
    /// flat-bottom and flat-top halves are filled scanline by scanline,
    /// each row spanning the inclusive range between the two interpolated
    /// edge columns. Degenerate triangles never divide by zero: a flat
    /// edge keeps its starting column.
    pub fn fill_triangle(&mut self, x1: i32, y1: i32, x2: i32, y2: i32, x3: i32, y3: i32, p: Pixel)
        requires
            old(self).wf(),
            -COORD_LIMIT <= x1 <= COORD_LIMIT,
            -COORD_LIMIT <= y1 <= COORD_LIMIT,
            -COORD_LIMIT <= x2 <= COORD_LIMIT,
            -COORD_LIMIT <= y2 <= COORD_LIMIT,
            -COORD_LIMIT <= x3 <= COORD_LIMIT,
            -COORD_LIMIT <= y3 <= COORD_LIMIT,
        ensures
            final(self).wf(),
            final(self).same_but_target(*old(self)),
            final(self).target_data() == plot_seq(
                old(self).target_data(),
                old(self).target_w(),
                old(self).target_h(),
                old(self).pixel_mode,
                old(self).blend_factor,
                fill_triangle_points(
                    x1 as int,
                    y1 as int,
                    x2 as int,
                    y2 as int,
                    x3 as int,
                    y3 as int,
                ),
                p,
            ),
    {
        let ghost orig: PixelGameEngine = *self;
        let ghost tw = orig.target_w();
        let ghost th = orig.target_h();
        let ghost mode = orig.pixel_mode;
        let ghost factor = orig.blend_factor;
        let ghost total = fill_triangle_points(
            x1 as int,
            y1 as int,
            x2 as int,
            y2 as int,
            x3 as int,
            y3 as int,
        );

        let (v1x, v1y, v2x, v2y, v3x, v3y): (i32, i32, i32, i32, i32, i32) = if y1 < y2 {
            if y1 < y3 {
                if y2 < y3 {
                    (x1, y1, x2, y2, x3, y3)
                } else {
                    (x1, y1, x3, y3, x2, y2)
                }
            } else {
                (x3, y3, x1, y1, x2, y2)
            }
        } else {
            if y2 < y3 {
                if y1 < y3 {
                    (x2, y2, x1, y1, x3, y3)
                } else {
                    (x2, y2, x3, y3, x1, y1)
                }
            } else {
                (x3, y3, x2, y2, x1, y1)
            }
        };
        proof {
            assert((v1x as int, v1y as int, v2x as int, v2y as int, v3x as int, v3y as int)
                == sort_tri(x1 as int, y1 as int, x2 as int, y2 as int, x3 as int, y3 as int));
            assert(v1y <= v2y <= v3y);
        }

        let v4x: i32 = slope_step(v1x, v3x - v1x, v3y - v1y, v2y - v1y);
        proof {
            assert(v4x == split_x(v1x as int, v1y as int, v2y as int, v3x as int, v3y as int));
            assert(-COORD_LIMIT <= v4x <= COORD_LIMIT);
        }

        let lmx: i32 = if v4x < v2x {
            v4x
        } else {
            v2x
        };
        let rmx: i32 = if v4x < v2x {
            v2x
        } else {
            v4x
        };

        let ghost mut done: Seq<(int, int)> = Seq::empty();

        // flat-bottom (top) half
        let mut y: i32 = v1y;
        while y <= v2y
            invariant
                self.wf(),
                self.same_but_target(orig),
                orig.wf(),
                tw == orig.target_w(),
                th == orig.target_h(),
                mode == orig.pixel_mode,
                factor == orig.blend_factor,
                tw == self.target_w(),
                th == self.target_h(),
                -COORD_LIMIT <= v1x <= COORD_LIMIT,
                -COORD_LIMIT <= lmx <= COORD_LIMIT,
                -COORD_LIMIT <= rmx <= COORD_LIMIT,
                -COORD_LIMIT <= v1y <= COORD_LIMIT,
                -COORD_LIMIT <= v2y <= COORD_LIMIT,
                v1y <= y,
                y <= v2y + 1,
                total == done + tri_rows(
                    v1y as int,
                    y as int,
                    v2y as int,
                    v1x as int,
                    (lmx - v1x) as int,
                    (v2y - v1y) as int,
                    v1x as int,
                    (rmx - v1x) as int,
                    (v2y - v1y) as int,
                ) + tri_rows(
                    v2y as int,
                    v2y as int,
                    v3y as int,
                    lmx as int,
                    (v3x - lmx) as int,
                    (v3y - v2y) as int,
                    rmx as int,
                    (v3x - rmx) as int,
                    (v3y - v2y) as int,
                ),
                self.target_data() == plot_seq(orig.target_data(), tw, th, mode, factor, done, p),
            decreases v2y + 1 - y,
        {
            let k: i32 = y - v1y;
            let xl = slope_step(v1x, lmx - v1x, v2y - v1y, k);
            let xr = slope_step(v1x, rmx - v1x, v2y - v1y, k);
            self.draw_hspan(xl, xr + 1, y, p);
            proof {
                let row = hspan_pts(xl as int, xr as int + 1, y as int);
                lemma_plot_seq_app(orig.target_data(), tw, th, mode, factor, done, row, p);
                done = done + row;
                assert(total =~= done + tri_rows(
                    v1y as int,
                    y as int + 1,
                    v2y as int,
                    v1x as int,
                    (lmx - v1x) as int,
                    (v2y - v1y) as int,
                    v1x as int,
                    (rmx - v1x) as int,
                    (v2y - v1y) as int,
                ) + tri_rows(
                    v2y as int,
                    v2y as int,
                    v3y as int,
                    lmx as int,
                    (v3x - lmx) as int,
                    (v3y - v2y) as int,
                    rmx as int,
                    (v3x - rmx) as int,
                    (v3y - v2y) as int,
                ));
            }
            y = y + 1;
        }

        // flat-top (bottom) half
        let mut yb: i32 = v2y;
        while yb <= v3y
            invariant
                self.wf(),
                self.same_but_target(orig),
                orig.wf(),
                tw == orig.target_w(),
                th == orig.target_h(),
                mode == orig.pixel_mode,
                factor == orig.blend_factor,
                tw == self.target_w(),
                th == self.target_h(),
                -COORD_LIMIT <= lmx <= COORD_LIMIT,
                -COORD_LIMIT <= rmx <= COORD_LIMIT,
                -COORD_LIMIT <= v3x <= COORD_LIMIT,
                -COORD_LIMIT <= v2y <= COORD_LIMIT,
                -COORD_LIMIT <= v3y <= COORD_LIMIT,
                v2y <= yb,
                yb <= v3y + 1,
                total == done + tri_rows(
                    v2y as int,
                    yb as int,
                    v3y as int,
                    lmx as int,
                    (v3x - lmx) as int,
                    (v3y - v2y) as int,
                    rmx as int,
                    (v3x - rmx) as int,
                    (v3y - v2y) as int,
                ),
                self.target_data() == plot_seq(orig.target_data(), tw, th, mode, factor, done, p),
            decreases v3y + 1 - yb,
        {
            let k: i32 = yb - v2y;
            let xl = slope_step(lmx, v3x - lmx, v3y - v2y, k);
            let xr = slope_step(rmx, v3x - rmx, v3y - v2y, k);
            self.draw_hspan(xl, xr + 1, yb, p);
            proof {
                let row = hspan_pts(xl as int, xr as int + 1, yb as int);
                lemma_plot_seq_app(orig.target_data(), tw, th, mode, factor, done, row, p);
                done = done + row;
                assert(total =~= done + tri_rows(
                    v2y as int,
                    yb as int + 1,
                    v3y as int,
                    lmx as int,
                    (v3x - lmx) as int,
                    (v3y - v2y) as int,
                    rmx as int,
                    (v3x - rmx) as int,
                    (v3y - v2y) as int,
                ));
            }
            yb = yb + 1;
        }
        proof {
            assert(total =~= done);
        }
    }
}

} // verus!
