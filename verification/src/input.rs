//! Keyboard and mouse state: per-frame derived press/hold/release
//! transitions for every key and button, computed from raw down-state.

use vstd::prelude::*;

verus! {

/// How many distinct physical and logical keys the keyboard snapshot
/// tracks; `Key::Count` itself is not a key and has no slot.
pub const KEY_COUNT: usize = 109;

/// How many mouse buttons the snapshot tracks.
pub const MOUSE_BUTTONS: usize = 5;

/// Every key the engine distinguishes. `Alt`, `Shift`, `Control`, `System`
/// and `Enter` are logical keys: each is derived as the per-field OR of its
/// two physical variants. `Count` is a sentinel, not a key.
#[derive(Debug, PartialEq, Eq, Copy, Clone, Structural)]
pub enum Key {
    NoKey, A, B, C, D, E, F, G,
    H, I, J, K, L, M, N, O,
    P, Q, R, S, T, U, V, W,
    X, Y, Z, K0, K1, K2, K3, K4,
    K5, K6, K7, K8, K9, F1, F2, F3,
    F4, F5, F6, F7, F8, F9, F10, F11,
    F12, Up, Down, Left, Right, Comma, Period, Apostrophe,
    BackQuote, Semicolon, Space, Tab, Minus, Equal, LeftBracket, RightBracket,
    Slash, BackSlash, Alt, LeftAlt, RightAlt, Shift, LeftShift, RightShift,
    Control, LeftControl, RightControl, System, LeftSystem, RightSystem, Menu, Insert,
    Delete, Home, End, PageUp, PageDown, Back, Escape, Return,
    Enter, Pause, NumLock, CapsLock, ScrollLock, NumPad0, NumPad1, NumPad2,
    NumPad3, NumPad4, NumPad5, NumPad6, NumPad7, NumPad8, NumPad9, NumPadMul,
    NumPadDiv, NumPadAdd, NumPadSub, NumPadDecimal, NumPadEnter, Count,
}

/// The slot of a key in the keyboard snapshot; `Count` maps to the slot
/// count itself and addresses no key.
pub open spec fn key_index_spec(k: Key) -> usize {
    match k {
        Key::NoKey => 0,
        Key::A => 1,
        Key::B => 2,
        Key::C => 3,
        Key::D => 4,
        Key::E => 5,
        Key::F => 6,
        Key::G => 7,
        Key::H => 8,
        Key::I => 9,
        Key::J => 10,
        Key::K => 11,
        Key::L => 12,
        Key::M => 13,
        Key::N => 14,
        Key::O => 15,
        Key::P => 16,
        Key::Q => 17,
        Key::R => 18,
        Key::S => 19,
        Key::T => 20,
        Key::U => 21,
        Key::V => 22,
        Key::W => 23,
        Key::X => 24,
        Key::Y => 25,
        Key::Z => 26,
        Key::K0 => 27,
        Key::K1 => 28,
        Key::K2 => 29,
        Key::K3 => 30,
        Key::K4 => 31,
        Key::K5 => 32,
        Key::K6 => 33,
        Key::K7 => 34,
        Key::K8 => 35,
        Key::K9 => 36,
        Key::F1 => 37,
        Key::F2 => 38,
        Key::F3 => 39,
        Key::F4 => 40,
        Key::F5 => 41,
        Key::F6 => 42,
        Key::F7 => 43,
        Key::F8 => 44,
        Key::F9 => 45,
        Key::F10 => 46,
        Key::F11 => 47,
        Key::F12 => 48,
        Key::Up => 49,
        Key::Down => 50,
        Key::Left => 51,
        Key::Right => 52,
        Key::Comma => 53,
        Key::Period => 54,
        Key::Apostrophe => 55,
        Key::BackQuote => 56,
        Key::Semicolon => 57,
        Key::Space => 58,
        Key::Tab => 59,
        Key::Minus => 60,
        Key::Equal => 61,
        Key::LeftBracket => 62,
        Key::RightBracket => 63,
        Key::Slash => 64,
        Key::BackSlash => 65,
        Key::Alt => 66,
        Key::LeftAlt => 67,
        Key::RightAlt => 68,
        Key::Shift => 69,
        Key::LeftShift => 70,
        Key::RightShift => 71,
        Key::Control => 72,
        Key::LeftControl => 73,
        Key::RightControl => 74,
        Key::System => 75,
        Key::LeftSystem => 76,
        Key::RightSystem => 77,
        Key::Menu => 78,
        Key::Insert => 79,
        Key::Delete => 80,
        Key::Home => 81,
        Key::End => 82,
        Key::PageUp => 83,
        Key::PageDown => 84,
        Key::Back => 85,
        Key::Escape => 86,
        Key::Return => 87,
        Key::Enter => 88,
        Key::Pause => 89,
        Key::NumLock => 90,
        Key::CapsLock => 91,
        Key::ScrollLock => 92,
        Key::NumPad0 => 93,
        Key::NumPad1 => 94,
        Key::NumPad2 => 95,
        Key::NumPad3 => 96,
        Key::NumPad4 => 97,
        Key::NumPad5 => 98,
        Key::NumPad6 => 99,
        Key::NumPad7 => 100,
        Key::NumPad8 => 101,
        Key::NumPad9 => 102,
        Key::NumPadMul => 103,
        Key::NumPadDiv => 104,
        Key::NumPadAdd => 105,
        Key::NumPadSub => 106,
        Key::NumPadDecimal => 107,
        Key::NumPadEnter => 108,
        Key::Count => 109,
    }
}

/// The slot of a key in the keyboard snapshot.
pub fn key_index(k: Key) -> (i: usize)
    ensures
        i == key_index_spec(k),
        k != Key::Count ==> i < KEY_COUNT,
{
    match k {
        Key::NoKey => 0,
        Key::A => 1,
        Key::B => 2,
        Key::C => 3,
        Key::D => 4,
        Key::E => 5,
        Key::F => 6,
        Key::G => 7,
        Key::H => 8,
        Key::I => 9,
        Key::J => 10,
        Key::K => 11,
        Key::L => 12,
        Key::M => 13,
        Key::N => 14,
        Key::O => 15,
        Key::P => 16,
        Key::Q => 17,
        Key::R => 18,
        Key::S => 19,
        Key::T => 20,
        Key::U => 21,
        Key::V => 22,
        Key::W => 23,
        Key::X => 24,
        Key::Y => 25,
        Key::Z => 26,
        Key::K0 => 27,
        Key::K1 => 28,
        Key::K2 => 29,
        Key::K3 => 30,
        Key::K4 => 31,
        Key::K5 => 32,
        Key::K6 => 33,
        Key::K7 => 34,
        Key::K8 => 35,
        Key::K9 => 36,
        Key::F1 => 37,
        Key::F2 => 38,
        Key::F3 => 39,
        Key::F4 => 40,
        Key::F5 => 41,
        Key::F6 => 42,
        Key::F7 => 43,
        Key::F8 => 44,
        Key::F9 => 45,
        Key::F10 => 46,
        Key::F11 => 47,
        Key::F12 => 48,
        Key::Up => 49,
        Key::Down => 50,
        Key::Left => 51,
        Key::Right => 52,
        Key::Comma => 53,
        Key::Period => 54,
        Key::Apostrophe => 55,
        Key::BackQuote => 56,
        Key::Semicolon => 57,
        Key::Space => 58,
        Key::Tab => 59,
        Key::Minus => 60,
        Key::Equal => 61,
        Key::LeftBracket => 62,
        Key::RightBracket => 63,
        Key::Slash => 64,
        Key::BackSlash => 65,
        Key::Alt => 66,
        Key::LeftAlt => 67,
        Key::RightAlt => 68,
        Key::Shift => 69,
        Key::LeftShift => 70,
        Key::RightShift => 71,
        Key::Control => 72,
        Key::LeftControl => 73,
        Key::RightControl => 74,
        Key::System => 75,
        Key::LeftSystem => 76,
        Key::RightSystem => 77,
        Key::Menu => 78,
        Key::Insert => 79,
        Key::Delete => 80,
        Key::Home => 81,
        Key::End => 82,
        Key::PageUp => 83,
        Key::PageDown => 84,
        Key::Back => 85,
        Key::Escape => 86,
        Key::Return => 87,
        Key::Enter => 88,
        Key::Pause => 89,
        Key::NumLock => 90,
        Key::CapsLock => 91,
        Key::ScrollLock => 92,
        Key::NumPad0 => 93,
        Key::NumPad1 => 94,
        Key::NumPad2 => 95,
        Key::NumPad3 => 96,
        Key::NumPad4 => 97,
        Key::NumPad5 => 98,
        Key::NumPad6 => 99,
        Key::NumPad7 => 100,
        Key::NumPad8 => 101,
        Key::NumPad9 => 102,
        Key::NumPadMul => 103,
        Key::NumPadDiv => 104,
        Key::NumPadAdd => 105,
        Key::NumPadSub => 106,
        Key::NumPadDecimal => 107,
        Key::NumPadEnter => 108,
        Key::Count => 109,
    }
}

/// The three independent per-frame transition flags of one key or button.
#[derive(Debug, Copy, Clone, PartialEq, Eq, Structural)]
pub struct HWButton {
    /// The button went down this frame.
    pub pressed: bool,
    /// The button came up this frame.
    pub released: bool,
    /// The button is down, on every frame after the initial press.
    pub held: bool,
}

impl HWButton {
    /// The state of an untouched button: all three flags clear.
    pub open spec fn default_spec() -> HWButton {
        HWButton { pressed: false, released: false, held: false }
    }
}

impl Default for HWButton {
    /// All flags clear: the state of an untouched button.
    fn default() -> (b: HWButton)
        ensures
            b == (HWButton { pressed: false, released: false, held: false }),
    {
        HWButton { pressed: false, released: false, held: false }
    }
}

/// One step of edge detection: the derived state of a button this frame,
/// from whether it is physically down now (`current`) and its derived state
/// of the previous frame. A button held continuously shows `pressed` exactly
/// one frame, `held` every later frame while down, and `released` exactly
/// one frame after it comes up.
pub fn next_button_state(current: bool, prev: HWButton) -> (b: HWButton)
    ensures
        b.held == (current && (prev.pressed || prev.held)),
        b.pressed == (current && !(prev.pressed || prev.held)),
        b.released == (!current && (prev.pressed || prev.held)),
{
    HWButton {
        held: current && (prev.pressed || prev.held),
        pressed: current && !(prev.pressed || prev.held),
        released: !current && (prev.pressed || prev.held),
    }
}


/// The index of a key or the pair-derived logical keys, as spec values.
pub open spec fn key_listed(ks: Seq<Key>, i: int) -> bool {
    exists|j: int| 0 <= j < ks.len() && key_index_spec(ks[j]) == i
}

/// The state of slot `i` after the primary pass: each flag is set exactly
/// when some key in the matching backend list maps to the slot.
pub open spec fn base_key_state(held: Seq<Key>, pressed: Seq<Key>, released: Seq<Key>, i: int) -> HWButton {
    HWButton {
        pressed: key_listed(pressed, i),
        released: key_listed(released, i),
        held: key_listed(held, i),
    }
}

/// The per-field OR of two button states.
pub open spec fn or_button(a: HWButton, b: HWButton) -> HWButton {
    HWButton {
        pressed: a.pressed || b.pressed,
        released: a.released || b.released,
        held: a.held || b.held,
    }
}

/// The final state of slot `i`: the logical keys Alt, Shift, Control,
/// System and Enter are each the per-field OR of their two physical
/// variants, computed after the primary pass; every other slot keeps its
/// primary state.
pub open spec fn derived_key_state(held: Seq<Key>, pressed: Seq<Key>, released: Seq<Key>, i: int) -> HWButton {
    if i == key_index_spec(Key::Alt) {
        or_button(
            base_key_state(held, pressed, released, key_index_spec(Key::LeftAlt) as int),
            base_key_state(held, pressed, released, key_index_spec(Key::RightAlt) as int),
        )
    } else if i == key_index_spec(Key::Shift) {
        or_button(
            base_key_state(held, pressed, released, key_index_spec(Key::LeftShift) as int),
            base_key_state(held, pressed, released, key_index_spec(Key::RightShift) as int),
        )
    } else if i == key_index_spec(Key::Control) {
        or_button(
            base_key_state(held, pressed, released, key_index_spec(Key::LeftControl) as int),
            base_key_state(held, pressed, released, key_index_spec(Key::RightControl) as int),
        )
    } else if i == key_index_spec(Key::System) {
        or_button(
            base_key_state(held, pressed, released, key_index_spec(Key::LeftSystem) as int),
            base_key_state(held, pressed, released, key_index_spec(Key::RightSystem) as int),
        )
    } else if i == key_index_spec(Key::Enter) {
        or_button(
            base_key_state(held, pressed, released, key_index_spec(Key::Return) as int),
            base_key_state(held, pressed, released, key_index_spec(Key::NumPadEnter) as int),
        )
    } else {
        base_key_state(held, pressed, released, i)
    }
}

/// One step of mouse edge detection, as a spec value.
pub open spec fn next_button_spec(current: bool, prev: HWButton) -> HWButton {
    HWButton {
        pressed: current && !(prev.pressed || prev.held),
        released: !current && (prev.pressed || prev.held),
        held: current && (prev.pressed || prev.held),
    }
}


/// Extending the processed prefix by one key adds exactly that key's slot
/// to the listed set.
proof fn lemma_key_listed_step(ks: Seq<Key>, n: int, i: int)
    requires
        0 <= n < ks.len(),
    ensures
        key_listed(ks.take(n + 1), i) == (key_listed(ks.take(n), i) || key_index_spec(ks[n])
            == i),
{
    let prev = ks.take(n);
    let cur = ks.take(n + 1);
    assert(cur =~= prev.push(ks[n]));
    assert(cur[n] == ks[n]);
    if key_listed(prev, i) {
        let j = choose|j: int| 0 <= j < prev.len() && #[trigger] key_index_spec(prev[j]) == i;
        assert(cur[j] == prev[j]);
        assert(key_index_spec(cur[j]) == i);
        assert(key_listed(cur, i));
    }
    if key_index_spec(ks[n]) == i {
        assert(key_index_spec(cur[n]) == i);
        assert(key_listed(cur, i));
    }
    if key_listed(cur, i) {
        let j = choose|j: int| 0 <= j < cur.len() && #[trigger] key_index_spec(cur[j]) == i;
        if j < n {
            assert(prev[j] == cur[j]);
            assert(key_index_spec(prev[j]) == i);
            assert(key_listed(prev, i));
        } else {
            assert(j == n);
        }
    }
}

impl crate::engine::PixelGameEngine {
    /// The derived state of a key this frame. The `Count` sentinel is not
    /// a key and has no state.
    pub fn get_key(&self, k: Key) -> (b: HWButton)
        requires
            self.wf(),
            k != Key::Count,
        ensures
            b == self.keyboard_state@[key_index_spec(k) as int],
    {
        self.keyboard_state[key_index(k)]
    }

    /// The derived state of a mouse button this frame (0 is left, 1 is
    /// right, 2 is middle).
    pub fn get_mouse(&self, button: usize) -> (b: HWButton)
        requires
            self.wf(),
            button < MOUSE_BUTTONS,
        ensures
            b == self.mouse_state@[button as int],
    {
        self.mouse_state[button]
    }

    pub fn get_mouse_x(&self) -> (x: i32)
        ensures
            x == self.mouse_pos_x,
    {
        self.mouse_pos_x
    }

    pub fn get_mouse_y(&self) -> (y: i32)
        ensures
            y == self.mouse_pos_y,
    {
        self.mouse_pos_y
    }

    pub fn get_mouse_wheel(&self) -> (d: i32)
        ensures
            d == self.mouse_wheel_delta,
    {
        self.mouse_wheel_delta
    }

    /// Recomputes the whole keyboard snapshot from the backend's three key
    /// lists for this frame: keys currently down, keys that just went down
    /// (without autorepeat), and keys that just came up. Every slot is
    /// fully overwritten; the logical pair keys are derived afterwards.
    pub fn update_keys(&mut self, held: &Vec<Key>, pressed: &Vec<Key>, released: &Vec<Key>)
        requires
            old(self).wf(),
        ensures
            final(self).wf(),
            *final(self) == (crate::engine::PixelGameEngine {
                keyboard_state: final(self).keyboard_state,
                ..*old(self)
            }),
            final(self).keyboard_state@.len() == KEY_COUNT,
            forall|i: int|
                0 <= i < KEY_COUNT ==> final(self).keyboard_state@[i] == derived_key_state(
                    held@,
                    pressed@,
                    released@,
                    i,
                ),
    {
        self.keyboard_state = crate::engine::button_row(KEY_COUNT);

        let mut n: usize = 0;
        while n < held.len()
            invariant
                self.keyboard_state@.len() == KEY_COUNT,
                n <= held@.len(),
                forall|i: int|
                    0 <= i < KEY_COUNT ==> (#[trigger] self.keyboard_state@[i]).held == key_listed(
                        held@.take(n as int),
                        i,
                    ),
                forall|i: int|
                    0 <= i < KEY_COUNT ==> !(#[trigger] self.keyboard_state@[i]).pressed && !(
                    self.keyboard_state@[i]).released,
                *self == (crate::engine::PixelGameEngine {
                    keyboard_state: self.keyboard_state,
                    ..*old(self)
                }),
            decreases held@.len() - n,
        {
            let idx = key_index(held[n]);
            if idx < KEY_COUNT {
                let mut b = self.keyboard_state[idx];
                b.held = true;
                self.keyboard_state[idx] = b;
            }
            proof {
                assert forall|i: int| 0 <= i < KEY_COUNT implies (
                #[trigger] self.keyboard_state@[i]).held == key_listed(
                    held@.take(n as int + 1),
                    i,
                ) by {
                    lemma_key_listed_step(held@, n as int, i);
                }
            }
            n = n + 1;
        }
        proof {
            assert(held@.take(held@.len() as int) =~= held@);
        }

        let mut n: usize = 0;
        while n < pressed.len()
            invariant
                self.keyboard_state@.len() == KEY_COUNT,
                n <= pressed@.len(),
                forall|i: int|
                    0 <= i < KEY_COUNT ==> (#[trigger] self.keyboard_state@[i]).held == key_listed(
                        held@,
                        i,
                    ),
                forall|i: int|
                    0 <= i < KEY_COUNT ==> (#[trigger] self.keyboard_state@[i]).pressed
                        == key_listed(pressed@.take(n as int), i),
                forall|i: int|
                    0 <= i < KEY_COUNT ==> !(#[trigger] self.keyboard_state@[i]).released,
                *self == (crate::engine::PixelGameEngine {
                    keyboard_state: self.keyboard_state,
                    ..*old(self)
                }),
            decreases pressed@.len() - n,
        {
            let idx = key_index(pressed[n]);
            if idx < KEY_COUNT {
                let mut b = self.keyboard_state[idx];
                b.pressed = true;
                self.keyboard_state[idx] = b;
            }
            proof {
                assert forall|i: int| 0 <= i < KEY_COUNT implies (
                #[trigger] self.keyboard_state@[i]).pressed == key_listed(
                    pressed@.take(n as int + 1),
                    i,
                ) by {
                    lemma_key_listed_step(pressed@, n as int, i);
                }
            }
            n = n + 1;
        }
        proof {
            assert(pressed@.take(pressed@.len() as int) =~= pressed@);
        }

        let mut n: usize = 0;
        while n < released.len()
            invariant
                self.keyboard_state@.len() == KEY_COUNT,
                n <= released@.len(),
                forall|i: int|
                    0 <= i < KEY_COUNT ==> (#[trigger] self.keyboard_state@[i]).held == key_listed(
                        held@,
                        i,
                    ),
                forall|i: int|
                    0 <= i < KEY_COUNT ==> (#[trigger] self.keyboard_state@[i]).pressed
                        == key_listed(pressed@, i),
                forall|i: int|
                    0 <= i < KEY_COUNT ==> (#[trigger] self.keyboard_state@[i]).released
                        == key_listed(released@.take(n as int), i),
                *self == (crate::engine::PixelGameEngine {
                    keyboard_state: self.keyboard_state,
                    ..*old(self)
                }),
            decreases released@.len() - n,
        {
            let idx = key_index(released[n]);
            if idx < KEY_COUNT {
                let mut b = self.keyboard_state[idx];
                b.released = true;
                self.keyboard_state[idx] = b;
            }
            proof {
                assert forall|i: int| 0 <= i < KEY_COUNT implies (
                #[trigger] self.keyboard_state@[i]).released == key_listed(
                    released@.take(n as int + 1),
                    i,
                ) by {
                    lemma_key_listed_step(released@, n as int, i);
                }
            }
            n = n + 1;
        }
        proof {
            assert(released@.take(released@.len() as int) =~= released@);
        }

        self.set_pair_key(Key::Alt, Key::LeftAlt, Key::RightAlt);
        self.set_pair_key(Key::Shift, Key::LeftShift, Key::RightShift);
        self.set_pair_key(Key::Control, Key::LeftControl, Key::RightControl);
        self.set_pair_key(Key::System, Key::LeftSystem, Key::RightSystem);
        self.set_pair_key(Key::Enter, Key::Return, Key::NumPadEnter);
    }

    /// Overwrites one logical key's slot with the per-field OR of its two
    /// physical variants.
    fn set_pair_key(&mut self, target: Key, a: Key, b: Key)
        requires
            old(self).keyboard_state@.len() == KEY_COUNT,
            target != Key::Count,
            a != Key::Count,
            b != Key::Count,
        ensures
            final(self).keyboard_state@ == old(self).keyboard_state@.update(
                key_index_spec(target) as int,
                or_button(
                    old(self).keyboard_state@[key_index_spec(a) as int],
                    old(self).keyboard_state@[key_index_spec(b) as int],
                ),
            ),
            *final(self) == (crate::engine::PixelGameEngine {
                keyboard_state: final(self).keyboard_state,
                ..*old(self)
            }),
    {
        let ia = key_index(a);
        let ib = key_index(b);
        let it = key_index(target);
        let sa = self.keyboard_state[ia];
        let sb = self.keyboard_state[ib];
        self.keyboard_state[it] = HWButton {
            pressed: sa.pressed || sb.pressed,
            released: sa.released || sb.released,
            held: sa.held || sb.held,
        };
    }

    /// Recomputes the mouse snapshot from the backend's raw values for
    /// this frame: the pointer position in window pixels (already clipped
    /// to the window, so never negative), the raw down state of the left,
    /// right and middle buttons, and the scroll wheel delta. The position
    /// is divided down by the window upscale factors; button transitions
    /// are derived by edge detection against the previous frame's states;
    /// a missing scroll reading clears the delta.
    pub fn update_mouse(
        &mut self,
        pos: Option<(i32, i32)>,
        left: bool,
        right: bool,
        middle: bool,
        scroll: Option<i32>,
    )
        requires
            old(self).wf(),
            pos matches Some(p) ==> p.0 >= 0 && p.1 >= 0,
        ensures
            final(self).wf(),
            *final(self) == (crate::engine::PixelGameEngine {
                mouse_pos_x: final(self).mouse_pos_x,
                mouse_pos_y: final(self).mouse_pos_y,
                mouse_wheel_delta: final(self).mouse_wheel_delta,
                mouse_state: final(self).mouse_state,
                ..*old(self)
            }),
            final(self).mouse_pos_x == (match pos {
                Some(p) => p.0 as int / old(self).pixel_w as int,
                None => old(self).mouse_pos_x as int,
            }),
            final(self).mouse_pos_y == (match pos {
                Some(p) => p.1 as int / old(self).pixel_h as int,
                None => old(self).mouse_pos_y as int,
            }),
            final(self).mouse_wheel_delta == (match scroll {
                Some(d) => d,
                None => 0,
            }),
            final(self).mouse_state@ == old(self).mouse_state@.update(
                0,
                next_button_spec(left, old(self).mouse_state@[0]),
            ).update(1, next_button_spec(right, old(self).mouse_state@[1])).update(
                2,
                next_button_spec(middle, old(self).mouse_state@[2]),
            ),
    {
        match pos {
            Some(p) => {
                let (px, py): (i32, i32) = p;
                self.mouse_pos_x = ((px as u32) / (self.pixel_w as u32)) as i32;
                self.mouse_pos_y = ((py as u32) / (self.pixel_h as u32)) as i32;
            },
            None => {},
        }

        let b0 = next_button_state(left, self.mouse_state[0]);
        self.mouse_state[0] = b0;
        let b1 = next_button_state(right, self.mouse_state[1]);
        self.mouse_state[1] = b1;
        let b2 = next_button_state(middle, self.mouse_state[2]);
        self.mouse_state[2] = b2;

        match scroll {
            Some(d) => self.mouse_wheel_delta = d,
            None => self.mouse_wheel_delta = 0,
        }
    }
}

} // verus!
