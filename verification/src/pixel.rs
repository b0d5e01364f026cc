//! The pixel and blend model: a four-channel 8-bit color value, its packed
//! 32-bit form, and the compositing modes applied by the plot primitive.

use vstd::prelude::*;

verus! {

/// A color value of four independent 8-bit channels. Immutable value type;
/// equality is exact channel-wise comparison.
#[derive(Clone, Copy, Debug, PartialEq, Eq, Structural)]
pub struct Pixel {
    pub a: u8,
    pub r: u8,
    pub g: u8,
    pub b: u8,
}

/// The canonical packed serialization of a pixel: alpha in the high byte,
/// then red, green, blue in the low byte.
pub open spec fn pack_spec(p: Pixel) -> u32 {
    ((p.a as u32) << 24) | ((p.r as u32) << 16) | ((p.g as u32) << 8) | (p.b as u32)
}

/// The four channels recovered from a packed 32-bit value.
pub open spec fn unpack_spec(v: u32) -> Pixel {
    Pixel { a: (v >> 24) as u8, r: (v >> 16) as u8, g: (v >> 8) as u8, b: v as u8 }
}

impl Pixel {
    /// A fully opaque pixel with the given red, green and blue channels.
    pub fn rgb(r: u8, g: u8, b: u8) -> (p: Pixel)
        ensures
            p == (Pixel { a: 255, r, g, b }),
    {
        Pixel { a: 255, r, g, b }
    }

    /// A pixel with all four channels given explicitly.
    pub fn rgba(r: u8, g: u8, b: u8, a: u8) -> (p: Pixel)
        ensures
            p == (Pixel { a, r, g, b }),
    {
        Pixel { a, r, g, b }
    }

    /// Packs the four channels into one 32-bit value (alpha high byte,
    /// blue low byte). The buffer stores pixels in this form.
    pub fn pack(self) -> (v: u32)
        ensures
            v == pack_spec(self),
    {
        ((self.a as u32) << 24) | ((self.r as u32) << 16) | ((self.g as u32) << 8)
            | (self.b as u32)
    }

    /// Recovers the four channels from a packed 32-bit value.
    pub fn unpack(v: u32) -> (p: Pixel)
        ensures
            p == unpack_spec(v),
    {
        Pixel { a: (v >> 24) as u8, r: (v >> 16) as u8, g: (v >> 8) as u8, b: v as u8 }
    }
}

impl Default for Pixel {
    /// The default pixel is fully transparent black; bounds-checked reads
    /// outside a framebuffer return it in normal sampling mode.
    fn default() -> (p: Pixel)
        ensures
            p == (Pixel { a: 0, r: 0, g: 0, b: 0 }),
    {
        Pixel { a: 0, r: 0, g: 0, b: 0 }
    }
}

/// Packing then unpacking restores every channel exactly: the packed form is
/// a lossless round trip for all channel quadruples.
pub proof fn lemma_pack_unpack_roundtrip(p: Pixel)
    ensures
        unpack_spec(pack_spec(p)) == p,
{
    let a = p.a;
    let r = p.r;
    let g = p.g;
    let b = p.b;
    let v = ((a as u32) << 24) | ((r as u32) << 16) | ((g as u32) << 8) | (b as u32);
    assert((v >> 24) as u8 == a && (v >> 16) as u8 == r && (v >> 8) as u8 == g && v as u8 == b)
        by (bit_vector)
        requires
            v == ((a as u32) << 24) | ((r as u32) << 16) | ((g as u32) << 8) | (b as u32),
    ;
}

/// The effective blend strength of an alpha-mode write: the source alpha
/// scaled by the global blend factor, both on the scale where 255 is full
/// strength.
pub open spec fn blend_strength(src_a: u8, factor: u8) -> int {
    (src_a * factor) / 255
}

/// One color channel of a source-over-destination blend of strength `t`
/// (0 leaves the destination, 255 takes the source), rounded down.
pub open spec fn blend_channel(t: int, s: u8, d: u8) -> u8 {
    ((t * s + (255 - t) * d) / 255) as u8
}

/// Alpha compositing of `src` over `dst`: each color channel is blended
/// linearly by `t = src.a * factor / 255`; the written alpha is forced to
/// fully opaque, the destination alpha is not read.
pub open spec fn alpha_blend(src: Pixel, dst: Pixel, factor: u8) -> Pixel {
    let t = blend_strength(src.a, factor);
    Pixel {
        a: 255,
        r: blend_channel(t, src.r, dst.r),
        g: blend_channel(t, src.g, dst.g),
        b: blend_channel(t, src.b, dst.b),
    }
}

/// Whether a compositing mode writes at all for this source pixel: mask
/// mode skips any source that is not fully opaque, every other mode writes.
pub open spec fn mode_writes(mode: PixelMode, src: Pixel) -> bool {
    match mode {
        PixelMode::Mask => src.a == 255,
        _ => true,
    }
}

/// The pixel a write stores, when one happens: the blend of source over
/// destination in alpha mode, the source pixel itself in every other mode.
pub open spec fn composite_val(mode: PixelMode, factor: u8, src: Pixel, dst: Pixel) -> Pixel {
    match mode {
        PixelMode::Alpha => alpha_blend(src, dst, factor),
        _ => src,
    }
}

/// Mask-mode compositing never writes a source pixel whose alpha is below
/// fully opaque; opaque mode always writes, and writes the source pixel
/// unchanged, whatever its alpha.
pub proof fn lemma_mask_opaque_rules(src: Pixel, dst: Pixel, factor: u8)
    ensures
        src.a < 255 ==> !mode_writes(PixelMode::Mask, src),
        mode_writes(PixelMode::Normal, src),
        composite_val(PixelMode::Normal, factor, src, dst) == src,
{
}

impl Pixel {
    /// The alpha-mode blend of `self` over `dst` at the given global blend
    /// factor, computed in integer arithmetic.
    pub fn blended_over(self, dst: Pixel, factor: u8) -> (p: Pixel)
        ensures
            p == alpha_blend(self, dst, factor),
    {
        let av: u32 = self.a as u32;
        let fv: u32 = factor as u32;
        proof {
            assert(av * fv <= 255 * 255) by (nonlinear_arith)
                requires
                    av <= 255,
                    fv <= 255,
            ;
        }
        let af: u32 = av * fv;
        let t: u32 = af / 255;
        proof {
            vstd::arithmetic::div_mod::lemma_div_is_ordered(af as int, (255 * 255) as int, 255);
        }
        let r = blend_one(t, self.r, dst.r);
        let g = blend_one(t, self.g, dst.g);
        let b = blend_one(t, self.b, dst.b);
        Pixel { a: 255, r, g, b }
    }
}

/// One channel of the alpha blend: `(t * s + (255 - t) * d) / 255`.
fn blend_one(t: u32, s: u8, d: u8) -> (c: u8)
    requires
        t <= 255,
    ensures
        c == blend_channel(t as int, s, d),
{
    proof {
        assert(t * (s as u32) + (255 - t) * (d as u32) <= 255 * 255) by (nonlinear_arith)
            requires
                t <= 255,
                s <= 255,
                d <= 255,
        ;
    }
    let num: u32 = t * (s as u32) + (255 - t) * (d as u32);
    proof {
        vstd::arithmetic::div_mod::lemma_div_is_ordered(num as int, (255 * 255) as int, 255);
    }
    (num / 255) as u8
}

/// Selects how the plot primitive composites a source pixel into the draw
/// target; global, mutable, read by every draw call.
#[derive(Clone, Copy, Debug, PartialEq, Eq, Structural)]
pub enum PixelMode {
    /// Target pixel becomes the source pixel unconditionally.
    Normal,
    /// Write only when the source alpha is 255; otherwise leave the target.
    Mask,
    /// Source-over-destination linear blend of the color channels.
    Alpha,
    /// Reserved extension point; behaves as `Normal` until specialized.
    Custom,
}


} // verus!
