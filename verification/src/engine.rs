//! The engine context: the sprite arena, the current draw target, the
//! compositing configuration, the input snapshot, and the plot primitive
//! every shape funnels through.

use vstd::prelude::*;

use crate::input::{HWButton, KEY_COUNT, MOUSE_BUTTONS};
use crate::pixel::{composite_val, mode_writes, pack_spec, Pixel, PixelMode};
use crate::sprite::{in_bounds, read_spec, Sprite};

verus! {

/// The engine instance an application draws through. It owns an arena of
/// framebuffers; handle 0 is the default, presentable framebuffer, and the
/// draw target is a swappable handle into the arena.
#[derive(Debug)]
pub struct PixelGameEngine {
    pub screen_w: usize,
    pub screen_h: usize,
    pub pixel_w: usize,
    pub pixel_h: usize,
    pub mouse_pos_x: i32,
    pub mouse_pos_y: i32,
    pub mouse_wheel_delta: i32,
    pub mouse_state: Vec<HWButton>,
    pub keyboard_state: Vec<HWButton>,
    pub active: bool,
    pub draw_target: usize,
    pub sprites: Vec<Sprite>,
    pub pixel_mode: PixelMode,
    pub blend_factor: u8,
}

/// One packed cell after a plot lands on it: the composite of the source
/// over what the cell held, or the old cell where the mode declines to
/// write.
pub open spec fn plotted_cell(mode: PixelMode, factor: u8, src: Pixel, cell: u32) -> u32 {
    if mode_writes(mode, src) {
        pack_spec(composite_val(mode, factor, src, crate::pixel::unpack_spec(cell)))
    } else {
        cell
    }
}

/// A target's packed data after one plot at `(x, y)`: the addressed cell is
/// composited when it exists and the mode writes, everything else is
/// untouched.
pub open spec fn plot_data(
    data: Seq<u32>,
    w: u32,
    h: u32,
    mode: PixelMode,
    factor: u8,
    x: int,
    y: int,
    src: Pixel,
) -> Seq<u32> {
    if in_bounds(w, h, x, y) && mode_writes(mode, src) {
        data.update(y * w + x, plotted_cell(mode, factor, src, data[y * w + x]))
    } else {
        data
    }
}

impl PixelGameEngine {
    /// The framebuffer currently receiving rasterizer output.
    pub open spec fn target(self) -> Sprite {
        self.sprites@[self.draw_target as int]
    }

    /// The packed cells of the current draw target.
    pub open spec fn target_data(self) -> Seq<u32> {
        self.target()@
    }

    pub open spec fn target_w(self) -> u32 {
        self.target().spec_width()
    }

    pub open spec fn target_h(self) -> u32 {
        self.target().spec_height()
    }

    /// The structural invariant: the arena holds at least the default
    /// framebuffer, the draw target is a live handle, every framebuffer is
    /// well formed, the input snapshots have their fixed sizes, and the
    /// window upscale factors are positive and fit the coordinate space.
    pub open spec fn wf(self) -> bool {
        &&& self.sprites@.len() >= 1
        &&& (self.draw_target as int) < self.sprites@.len()
        &&& (forall|i: int| 0 <= i < self.sprites@.len() ==> (#[trigger] self.sprites@[i]).wf())
        &&& self.keyboard_state@.len() == KEY_COUNT
        &&& self.mouse_state@.len() == MOUSE_BUTTONS
        &&& 1 <= self.pixel_w <= 0x7fff_ffff
        &&& 1 <= self.pixel_h <= 0x7fff_ffff
    }

    /// Everything outside the current draw target's cells is the same in
    /// `self` as in `o`: the configuration, the input snapshot, every other
    /// framebuffer, and the target's own dimensions and sampling mode. The
    /// relation every drawing routine preserves.
    pub open spec fn same_but_target(self, o: Self) -> bool {
        &&& self.screen_w == o.screen_w
        &&& self.screen_h == o.screen_h
        &&& self.pixel_w == o.pixel_w
        &&& self.pixel_h == o.pixel_h
        &&& self.mouse_pos_x == o.mouse_pos_x
        &&& self.mouse_pos_y == o.mouse_pos_y
        &&& self.mouse_wheel_delta == o.mouse_wheel_delta
        &&& self.mouse_state@ == o.mouse_state@
        &&& self.keyboard_state@ == o.keyboard_state@
        &&& self.active == o.active
        &&& self.draw_target == o.draw_target
        &&& self.pixel_mode == o.pixel_mode
        &&& self.blend_factor == o.blend_factor
        &&& self.sprites@.len() == o.sprites@.len()
        &&& (forall|i: int|
            0 <= i < self.sprites@.len() && i != o.draw_target as int
                ==> #[trigger] self.sprites@[i] == o.sprites@[i])
        &&& self.target().spec_width() == o.target().spec_width()
        &&& self.target().spec_height() == o.target().spec_height()
        &&& self.target().is_periodic() == o.target().is_periodic()
    }

    /// A fresh engine: one `width` by `height` default framebuffer that is
    /// also the draw target, opaque compositing at full blend strength, no
    /// input transitions yet, and an active frame loop. `pixel_w` and
    /// `pixel_h` are the window upscale factors mouse coordinates are
    /// divided down by.
    pub fn new(width: usize, height: usize, pixel_w: usize, pixel_h: usize) -> (e:
        PixelGameEngine)
        requires
            width <= 0x7fff_ffff,
            height <= 0x7fff_ffff,
            width * height <= u32::MAX,
            1 <= pixel_w <= 0x7fff_ffff,
            1 <= pixel_h <= 0x7fff_ffff,
        ensures
            e.wf(),
            e.screen_w == width,
            e.screen_h == height,
            e.pixel_w == pixel_w,
            e.pixel_h == pixel_h,
            e.sprites@.len() == 1,
            e.draw_target == 0,
            e.target_w() == width as u32,
            e.target_h() == height as u32,
            e.target_data() == Seq::new((width * height) as nat, |i: int| 0u32),
            !e.target().is_periodic(),
            e.pixel_mode == PixelMode::Normal,
            e.blend_factor == 255,
            e.active,
            e.mouse_pos_x == 300 && e.mouse_pos_y == 200 && e.mouse_wheel_delta == 0,
            forall|i: int|
                0 <= i < KEY_COUNT ==> e.keyboard_state@[i] == HWButton::default_spec(),
            forall|i: int|
                0 <= i < MOUSE_BUTTONS ==> e.mouse_state@[i] == HWButton::default_spec(),
    {
        let frame_buffer = Sprite::new(width as u32, height as u32);
        let mut sprites: Vec<Sprite> = Vec::new();
        sprites.push(frame_buffer);
        PixelGameEngine {
            screen_w: width,
            screen_h: height,
            pixel_w,
            pixel_h,
            mouse_pos_x: 300,
            mouse_pos_y: 200,
            mouse_wheel_delta: 0,
            mouse_state: button_row(MOUSE_BUTTONS),
            keyboard_state: button_row(KEY_COUNT),
            active: true,
            draw_target: 0,
            sprites,
            pixel_mode: PixelMode::Normal,
            blend_factor: 255,
        }
    }

    // Utility accessors

    pub fn screen_width(&self) -> (w: usize)
        ensures
            w == self.screen_w,
    {
        self.screen_w
    }

    pub fn screen_height(&self) -> (h: usize)
        ensures
            h == self.screen_h,
    {
        self.screen_h
    }

    pub fn get_draw_target_width(&self) -> (w: u32)
        requires
            self.wf(),
        ensures
            w == self.target_w(),
    {
        self.sprites[self.draw_target].width()
    }

    pub fn get_draw_target_height(&self) -> (h: u32)
        requires
            self.wf(),
        ensures
            h == self.target_h(),
    {
        self.sprites[self.draw_target].height()
    }

    /// The handle of the framebuffer currently receiving output.
    pub fn get_draw_target(&self) -> (t: usize)
        ensures
            t == self.draw_target,
    {
        self.draw_target
    }

    /// Redirects drawing to the given framebuffer handle, or back to the
    /// default framebuffer for `None`.
    pub fn set_draw_target(&mut self, target: Option<usize>)
        requires
            old(self).wf(),
            target matches Some(t) ==> (t as int) < old(self).sprites@.len(),
        ensures
            final(self).wf(),
            *final(self) == (PixelGameEngine {
                draw_target: final(self).draw_target,
                ..*old(self)
            }),
            final(self).draw_target == (match target {
                Some(t) => t,
                None => 0usize,
            }),
    {
        match target {
            Some(t) => self.draw_target = t,
            None => self.draw_target = 0,
        }
    }

    /// Places an application-created framebuffer in the arena and returns
    /// its handle, so it can be drawn to or blitted from.
    pub fn add_sprite(&mut self, s: Sprite) -> (handle: usize)
        requires
            old(self).wf(),
            s.wf(),
        ensures
            final(self).wf(),
            *final(self) == (PixelGameEngine { sprites: final(self).sprites, ..*old(self) }),
            final(self).sprites@ == old(self).sprites@.push(s),
            handle == old(self).sprites@.len(),
    {
        let handle = self.sprites.len();
        self.sprites.push(s);
        handle
    }

    /// Read access to a framebuffer in the arena.
    pub fn get_sprite(&self, handle: usize) -> (s: &Sprite)
        requires
            self.wf(),
            (handle as int) < self.sprites@.len(),
        ensures
            *s == self.sprites@[handle as int],
            s.wf(),
    {
        &self.sprites[handle]
    }

    pub fn set_pixel_mode(&mut self, mode: PixelMode)
        ensures
            *final(self) == (PixelGameEngine { pixel_mode: mode, ..*old(self) }),
    {
        self.pixel_mode = mode;
    }

    pub fn get_pixel_mode(&self) -> (m: PixelMode)
        ensures
            m == self.pixel_mode,
    {
        self.pixel_mode
    }

    /// Sets the global blend factor on the scale where 255 is full source
    /// strength and 0 leaves the destination untouched.
    pub fn set_pixel_blend(&mut self, blend: u8)
        ensures
            *final(self) == (PixelGameEngine { blend_factor: blend, ..*old(self) }),
    {
        self.blend_factor = blend;
    }

    pub fn get_pixel_blend(&self) -> (blend: u8)
        ensures
            blend == self.blend_factor,
    {
        self.blend_factor
    }

    pub fn is_active(&self) -> (a: bool)
        ensures
            a == self.active,
    {
        self.active
    }

    /// The plot primitive: composites one source pixel into the draw target
    /// at `(x, y)` under the active mode and blend factor. Returns whether a
    /// cell was written; out-of-range coordinates and mask-rejected sources
    /// leave the target untouched and report `false`.
    pub fn draw(&mut self, x: i32, y: i32, p: Pixel) -> (ok: bool)
        requires
            old(self).wf(),
        ensures
            final(self).wf(),
            final(self).same_but_target(*old(self)),
            final(self).target_data() == plot_data(
                old(self).target_data(),
                old(self).target_w(),
                old(self).target_h(),
                old(self).pixel_mode,
                old(self).blend_factor,
                x as int,
                y as int,
                p,
            ),
            ok == (in_bounds(old(self).target_w(), old(self).target_h(), x as int, y as int)
                && mode_writes(old(self).pixel_mode, p)),
    {
        let t = self.draw_target;
        match self.pixel_mode {
            PixelMode::Normal => {
                let spr = &mut self.sprites[t];
                spr.set_pixel(x, y, p)
            },
            PixelMode::Mask => {
                if p.a == 255 {
                    let spr = &mut self.sprites[t];
                    spr.set_pixel(x, y, p)
                } else {
                    false
                }
            },
            PixelMode::Alpha => {
                let d = self.sprites[t].get_pixel(x, y);
                let blended = p.blended_over(d, self.blend_factor);
                proof {
                    lemma_in_bounds_read(self.sprites@[t as int], x as int, y as int);
                }
                let spr = &mut self.sprites[t];
                spr.set_pixel(x, y, blended)
            },
            PixelMode::Custom => {
                let spr = &mut self.sprites[t];
                spr.set_pixel(x, y, p)
            },
        }
    }

    /// Overwrites every cell of the draw target with the packed source
    /// pixel, bypassing the compositing mode.
    pub fn clear(&mut self, p: Pixel)
        requires
            old(self).wf(),
        ensures
            final(self).wf(),
            final(self).same_but_target(*old(self)),
            final(self).target_data() == Seq::new(
                old(self).target_data().len(),
                |i: int| pack_spec(p),
            ),
    {
        let t = self.draw_target;
        let spr = &mut self.sprites[t];
        spr.fill(p);
    }
}

/// The well-formedness of an in-range read: the pixel read back from an
/// in-range cell of a well-formed sprite is the unpacking of that cell,
/// in both sampling modes.
proof fn lemma_in_bounds_read(s: Sprite, x: int, y: int)
    requires
        s.wf(),
    ensures
        in_bounds(s.spec_width(), s.spec_height(), x, y) ==> read_spec(s, x, y)
            == crate::pixel::unpack_spec(s@[y * s.spec_width() + x]),
{
    if in_bounds(s.spec_width(), s.spec_height(), x, y) {
        if s.is_periodic() {
            let w = s.spec_width() as int;
            let h = s.spec_height() as int;
            assert(x % w == x) by (nonlinear_arith)
                requires
                    0 <= x < w,
            ;
            assert(y % h == y) by (nonlinear_arith)
                requires
                    0 <= y < h,
            ;
        }
    }
}

/// A row of `n` untouched button states.
pub(crate) fn button_row(n: usize) -> (v: Vec<HWButton>)
    ensures
        v@.len() == n,
        forall|i: int| 0 <= i < n ==> v@[i] == HWButton::default_spec(),
{
    let mut v: Vec<HWButton> = Vec::new();
    let mut i: usize = 0;
    while i < n
        invariant
            i <= n,
            v@.len() == i,
            forall|j: int| 0 <= j < i ==> v@[j] == HWButton::default_spec(),
        decreases n - i,
    {
        v.push(HWButton { pressed: false, released: false, held: false });
        i = i + 1;
    }
    v
}

} // verus!
