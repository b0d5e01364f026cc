//! The framebuffer: a dense row-major grid of packed pixels with
//! bounds-checked accessors, the unit of drawing and of presentation.

use vstd::prelude::*;

use crate::pixel::{pack_spec, unpack_spec, Pixel};

verus! {

/// How out-of-range coordinates are read: rejected (returning a default
/// pixel) or wrapped modulo the grid size (for tileable textures).
#[derive(Clone, Copy, Debug, PartialEq, Eq, Structural)]
pub enum SpriteMode {
    Normal,
    Periodic,
}

/// A mutable 2D grid of packed pixel values, `width * height` entries in
/// row-major order, addressed as `index = y * width + x`.
#[derive(Debug)]
pub struct Sprite {
    width: u32,
    height: u32,
    data: Vec<u32>,
    mode_sample: SpriteMode,
}

/// Whether `(x, y)` addresses a cell of a `w` by `h` grid.
pub open spec fn in_bounds(w: u32, h: u32, x: int, y: int) -> bool {
    0 <= x < w && 0 <= y < h
}

/// The non-negative mathematical modulo of `v` by `m`: out-of-range
/// coordinates wrap through it in periodic sampling mode, so a tile
/// repeats seamlessly in every direction.
pub open spec fn wrapped(v: int, m: int) -> int
    recommends
        m >= 1,
{
    v % m
}

/// The pixel a read at `(x, y)` returns: see [`Sprite::get_pixel`].
pub open spec fn read_spec(s: Sprite, x: int, y: int) -> Pixel {
    let w = s.spec_width() as int;
    let h = s.spec_height() as int;
    if s.is_periodic() {
        unpack_spec(s@[wrapped(y, h) * w + wrapped(x, w)])
    } else if in_bounds(s.spec_width(), s.spec_height(), x, y) {
        unpack_spec(s@[y * w + x])
    } else {
        default_pixel()
    }
}

/// The value out-of-range reads return in normal mode: fully transparent
/// black.
pub open spec fn default_pixel() -> Pixel {
    Pixel { a: 0, r: 0, g: 0, b: 0 }
}

/// A row-major index is within the grid's cell count.
pub(crate) proof fn lemma_grid_index_bound(x: int, y: int, w: int, h: int)
    by (nonlinear_arith)
    requires
        0 <= x < w,
        0 <= y < h,
    ensures
        0 <= y * w + x < w * h,
{
}

/// What well-formedness guarantees every holder of a sprite: the backing
/// array's length matches the dimensions, the dimensions fit the signed
/// 32-bit coordinate space, and a periodic sprite has a non-empty grid.
pub broadcast proof fn lemma_sprite_wf_consequences(s: Sprite)
    requires
        #[trigger] s.wf(),
    ensures
        s@.len() == (s.spec_width() as int) * (s.spec_height() as int),
        s.spec_width() <= 0x7fff_ffff,
        s.spec_height() <= 0x7fff_ffff,
        s.is_periodic() ==> s.spec_width() >= 1 && s.spec_height() >= 1,
{
}

impl View for Sprite {
    type V = Seq<u32>;

    /// The backing array of packed pixel values, row-major.
    closed spec fn view(&self) -> Seq<u32> {
        self.data@
    }
}

impl Sprite {
    pub closed spec fn spec_width(self) -> u32 {
        self.width
    }

    pub closed spec fn spec_height(self) -> u32 {
        self.height
    }

    pub closed spec fn is_periodic(self) -> bool {
        self.mode_sample is Periodic
    }

    /// The structural invariant every constructor establishes and every
    /// method preserves: the backing array holds exactly `width * height`
    /// packed values, both dimensions fit the signed 32-bit coordinate
    /// space, and periodic sampling only happens on a non-empty grid
    /// (wrapping modulo zero would be undefined).
    pub closed spec fn wf(self) -> bool {
        &&& self.data@.len() == (self.width as int) * (self.height as int)
        &&& self.width <= 0x7fff_ffff
        &&& self.height <= 0x7fff_ffff
        &&& (self.mode_sample is Periodic ==> self.width >= 1 && self.height >= 1)
    }

    /// A `w` by `h` framebuffer of all-zero cells, in normal sampling mode.
    pub fn new(w: u32, h: u32) -> (s: Sprite)
        requires
            w <= 0x7fff_ffff,
            h <= 0x7fff_ffff,
            w * h <= u32::MAX,
        ensures
            s.wf(),
            s.spec_width() == w,
            s.spec_height() == h,
            !s.is_periodic(),
            s@ == Seq::new((w * h) as nat, |i: int| 0u32),
    {
        let n: u32 = w * h;
        let mut data: Vec<u32> = Vec::new();
        let mut i: u32 = 0;
        while i < n
            invariant
                i <= n,
                data@ =~= Seq::new(i as nat, |j: int| 0u32),
            decreases n - i,
        {
            data.push(0);
            i = i + 1;
        }
        assert(data@ =~= Seq::new(n as nat, |j: int| 0u32));
        Sprite { width: w, height: h, data, mode_sample: SpriteMode::Normal }
    }

    pub fn width(&self) -> (w: u32)
        ensures
            w == self.spec_width(),
    {
        self.width
    }

    pub fn height(&self) -> (h: u32)
        ensures
            h == self.spec_height(),
    {
        self.height
    }

    /// The packed array, for presentation to a window surface: row-major,
    /// one row is `width` entries, each entry one packed 32-bit pixel.
    pub fn get_data(&self) -> (d: &[u32])
        ensures
            d@ == self@,
    {
        self.data.as_slice()
    }

    /// Switches between rejecting and wrapping out-of-range reads.
    pub fn set_sample_mode(&mut self, mode: SpriteMode)
        requires
            old(self).wf(),
            mode is Periodic ==> old(self).spec_width() >= 1 && old(self).spec_height() >= 1,
        ensures
            final(self).wf(),
            final(self)@ == old(self)@,
            final(self).spec_width() == old(self).spec_width(),
            final(self).spec_height() == old(self).spec_height(),
            final(self).is_periodic() == (mode is Periodic),
    {
        self.mode_sample = mode;
    }

    /// Bounds-checked read. In normal mode an out-of-range coordinate
    /// returns the default (fully transparent black) pixel; in periodic
    /// mode it wraps modulo the grid size (non-negative mathematical
    /// modulo).
    pub fn get_pixel(&self, x: i32, y: i32) -> (p: Pixel)
        requires
            self.wf(),
        ensures
            p == read_spec(*self, x as int, y as int),
    {
        match self.mode_sample {
            SpriteMode::Normal => {
                if x >= 0 && x < self.width as i32 && y >= 0 && y < self.height as i32 {
                    // the length binding carries the backing array's usize
                    // bound into the index arithmetic below
                    let _len: usize = self.data.len();
                    proof {
                        lemma_grid_index_bound(x as int, y as int, self.width as int, self.height as int);
                    }
                    let idx: usize = (y as usize) * (self.width as usize) + (x as usize);
                    Pixel::unpack(self.data[idx])
                } else {
                    Pixel::rgba(0, 0, 0, 0)
                }
            },
            SpriteMode::Periodic => {
                let xx: u32 = wrap_coord(x, self.width);
                let yy: u32 = wrap_coord(y, self.height);
                let _len: usize = self.data.len();
                proof {
                    lemma_grid_index_bound(xx as int, yy as int, self.width as int, self.height as int);
                }
                let idx: usize = (yy as usize) * (self.width as usize) + (xx as usize);
                Pixel::unpack(self.data[idx])
            },
        }
    }

    /// Bounds-checked write, the sole mutation path: returns whether the
    /// write occurred. An out-of-range coordinate never mutates the
    /// backing array and reports `false`.
    pub fn set_pixel(&mut self, x: i32, y: i32, p: Pixel) -> (ok: bool)
        requires
            old(self).wf(),
        ensures
            final(self).wf(),
            final(self).spec_width() == old(self).spec_width(),
            final(self).spec_height() == old(self).spec_height(),
            final(self).is_periodic() == old(self).is_periodic(),
            ok == in_bounds(old(self).spec_width(), old(self).spec_height(), x as int, y as int),
            ok ==> final(self)@ == old(self)@.update(
                y as int * old(self).spec_width() as int + x as int,
                pack_spec(p),
            ),
            !ok ==> final(self)@ == old(self)@,
    {
        if x >= 0 && x < self.width as i32 && y >= 0 && y < self.height as i32 {
            let _len: usize = self.data.len();
            proof {
                lemma_grid_index_bound(x as int, y as int, self.width as int, self.height as int);
            }
            let idx: usize = (y as usize) * (self.width as usize) + (x as usize);
            self.data[idx] = p.pack();
            true
        } else {
            false
        }
    }

    /// Overwrites every cell with the packed source pixel.
    pub fn fill(&mut self, p: Pixel)
        requires
            old(self).wf(),
        ensures
            final(self).wf(),
            final(self).spec_width() == old(self).spec_width(),
            final(self).spec_height() == old(self).spec_height(),
            final(self).is_periodic() == old(self).is_periodic(),
            final(self)@ == Seq::new(old(self)@.len(), |i: int| pack_spec(p)),
    {
        let n: usize = self.data.len();
        let v: u32 = p.pack();
        let mut i: usize = 0;
        while i < n
            invariant
                i <= n,
                self.data@.len() == n,
                self.width == old(self).width,
                self.height == old(self).height,
                self.mode_sample == old(self).mode_sample,
                v == pack_spec(p),
                forall|j: int| 0 <= j < i ==> self.data@[j] == pack_spec(p),
            decreases n - i,
        {
            self.data[i] = v;
            i = i + 1;
        }
        assert(self.data@ =~= Seq::new(old(self).data@.len(), |i: int| pack_spec(p)));
    }

    /// A framebuffer built from a decoded top-left-origin pixel grid whose
    /// source channel order is blue, green, red, alpha (four bytes per
    /// pixel): the single place the loader's channel order is converted to
    /// the packed order.
    pub fn from_bgra_data(w: u32, h: u32, bytes: &Vec<u8>) -> (s: Sprite)
        requires
            w <= 0x7fff_ffff,
            h <= 0x7fff_ffff,
            w * h <= u32::MAX,
            bytes@.len() == 4 * ((w as int) * (h as int)),
        ensures
            s.wf(),
            s.spec_width() == w,
            s.spec_height() == h,
            !s.is_periodic(),
            forall|i: int|
                0 <= i < (w as int) * (h as int) ==> s@[i] == pack_spec(
                    Pixel {
                        a: bytes@[4 * i + 3],
                        r: bytes@[4 * i + 2],
                        g: bytes@[4 * i + 1],
                        b: bytes@[4 * i],
                    },
                ),
    {
        let n: u32 = w * h;
        let _blen: usize = bytes.len();
        let mut data: Vec<u32> = Vec::new();
        let mut i: u32 = 0;
        while i < n
            invariant
                i <= n,
                n == (w as int) * (h as int),
                bytes@.len() == 4 * (n as int),
                bytes@.len() <= usize::MAX,
                data@.len() == i as int,
                forall|j: int|
                    0 <= j < i as int ==> data@[j] == pack_spec(
                        Pixel {
                            a: bytes@[4 * j + 3],
                            r: bytes@[4 * j + 2],
                            g: bytes@[4 * j + 1],
                            b: bytes@[4 * j],
                        },
                    ),
            decreases n - i,
        {
            proof {
                assert(4 * (i as int) + 3 < bytes@.len());
            }
            let base: usize = 4 * (i as usize);
            let p = Pixel::rgba(bytes[base + 2], bytes[base + 1], bytes[base], bytes[base + 3]);
            data.push(p.pack());
            i = i + 1;
        }
        Sprite { width: w, height: h, data, mode_sample: SpriteMode::Normal }
    }
}

impl Default for Sprite {
    /// An empty framebuffer: zero by zero, no cells, normal sampling.
    fn default() -> (s: Sprite)
        ensures
            s.wf(),
            s.spec_width() == 0,
            s.spec_height() == 0,
            !s.is_periodic(),
            s@ == Seq::<u32>::empty(),
    {
        Sprite { width: 0, height: 0, data: Vec::new(), mode_sample: SpriteMode::Normal }
    }
}

/// The in-range coordinate an out-of-range one wraps to in periodic mode:
/// the non-negative mathematical modulo of `v` by `m`.
fn wrap_coord(v: i32, m: u32) -> (r: u32)
    requires
        1 <= m <= 0x7fff_ffff,
    ensures
        r == wrapped(v as int, m as int),
        r < m,
{
    if v >= 0 {
        (v as u32) % m
    } else {
        let mag: u32 = (-(v as i64)) as u32;
        assert(mag == -(v as int)) by {
            assert(-(v as int) <= 0x8000_0000);
        };
        let rem: u32 = mag % m;
        proof {
            let vi = v as int;
            let mi = m as int;
            let q = (mag as int) / mi;
            vstd::arithmetic::div_mod::lemma_fundamental_div_mod(mag as int, mi);
            if rem == 0 {
                assert(vi == (-q) * mi) by (nonlinear_arith)
                    requires
                        vi == -(mag as int),
                        mag as int == mi * q + rem,
                        rem == 0,
                ;
                vstd::arithmetic::div_mod::lemma_mod_multiples_basic(-q, mi);
            } else {
                assert(vi == (-q - 1) * mi + (mi - rem)) by (nonlinear_arith)
                    requires
                        vi == -(mag as int),
                        mag as int == mi * q + rem,
                ;
                vstd::arithmetic::div_mod::lemma_fundamental_div_mod_converse(
                    vi,
                    mi,
                    -q - 1,
                    mi - rem,
                );
            }
        }
        if rem == 0 {
            0
        } else {
            m - rem
        }
    }
}

} // verus!
