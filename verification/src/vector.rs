//! A small 2D vector convenience type: a coordinate pair with the handful
//! of integer operations the drawing interface uses.

use vstd::prelude::*;

verus! {

/// A coordinate pair.
#[derive(Debug, Copy, Clone, PartialEq, Eq)]
pub struct V2d<T> {
    pub x: T,
    pub y: T,
}

/// The integer vector the drawing interface takes positions and sizes in.
pub type Vi2d = V2d<i32>;

impl<T> V2d<T> {
    pub fn new(x: T, y: T) -> (v: Self)
        ensures
            v == (V2d { x, y }),
    {
        Self { x, y }
    }
}

impl V2d<i32> {
    /// The squared magnitude.
    pub fn mag2(self) -> (r: i32)
        requires
            self.x * self.x + self.y * self.y <= i32::MAX,
        ensures
            r == self.x * self.x + self.y * self.y,
    {
        proof {
            assert(0 <= self.x * self.x && 0 <= self.y * self.y) by (nonlinear_arith);
        }
        (self.x * self.x) + (self.y * self.y)
    }

    /// The dot product.
    pub fn dot(self, rhs: &Self) -> (r: i32)
        requires
            i32::MIN <= self.x * rhs.x <= i32::MAX,
            i32::MIN <= self.y * rhs.y <= i32::MAX,
            i32::MIN <= self.x * rhs.x + self.y * rhs.y <= i32::MAX,
        ensures
            r == self.x * rhs.x + self.y * rhs.y,
    {
        (self.x * rhs.x) + (self.y * rhs.y)
    }

    /// The two-dimensional cross term `x1 * x2 - y1 * y2`.
    pub fn cross(self, rhs: &Self) -> (r: i32)
        requires
            i32::MIN <= self.x * rhs.x <= i32::MAX,
            i32::MIN <= self.y * rhs.y <= i32::MAX,
            i32::MIN <= self.x * rhs.x - self.y * rhs.y <= i32::MAX,
        ensures
            r == self.x * rhs.x - self.y * rhs.y,
    {
        (self.x * rhs.x) - (self.y * rhs.y)
    }

    /// The perpendicular vector, rotated a quarter turn.
    pub fn perp(self) -> (v: Self)
        requires
            self.y > i32::MIN,
        ensures
            v == (V2d { x: (-self.y) as i32, y: self.x }),
    {
        Self { x: -self.y, y: self.x }
    }
}


impl core::ops::Add for V2d<i32> {
    type Output = V2d<i32>;

    /// Component-wise addition.
    fn add(self, other: Self) -> (r: Self) {
        V2d { x: self.x + other.x, y: self.y + other.y }
    }
}

impl vstd::std_specs::ops::AddSpecImpl for V2d<i32> {
    open spec fn obeys_add_spec() -> bool {
        true
    }

    open spec fn add_req(self, other: Self) -> bool {
        i32::MIN <= self.x + other.x <= i32::MAX && i32::MIN <= self.y + other.y <= i32::MAX
    }

    open spec fn add_spec(self, other: Self) -> Self {
        V2d { x: (self.x + other.x) as i32, y: (self.y + other.y) as i32 }
    }
}

impl core::ops::Sub for V2d<i32> {
    type Output = V2d<i32>;

    /// Component-wise subtraction.
    fn sub(self, other: Self) -> (r: Self) {
        V2d { x: self.x - other.x, y: self.y - other.y }
    }
}

impl vstd::std_specs::ops::SubSpecImpl for V2d<i32> {
    open spec fn obeys_sub_spec() -> bool {
        true
    }

    open spec fn sub_req(self, other: Self) -> bool {
        i32::MIN <= self.x - other.x <= i32::MAX && i32::MIN <= self.y - other.y <= i32::MAX
    }

    open spec fn sub_spec(self, other: Self) -> Self {
        V2d { x: (self.x - other.x) as i32, y: (self.y - other.y) as i32 }
    }
}

impl core::ops::Neg for V2d<i32> {
    type Output = V2d<i32>;

    /// Component-wise negation.
    fn neg(self) -> (r: Self) {
        V2d { x: -self.x, y: -self.y }
    }
}

impl vstd::std_specs::ops::NegSpecImpl for V2d<i32> {
    open spec fn obeys_neg_spec() -> bool {
        true
    }

    open spec fn neg_req(self) -> bool {
        self.x > i32::MIN && self.y > i32::MIN
    }

    open spec fn neg_spec(self) -> Self {
        V2d { x: (-self.x) as i32, y: (-self.y) as i32 }
    }
}

impl core::ops::Mul<i32> for V2d<i32> {
    type Output = V2d<i32>;

    /// Scaling by an integer factor.
    fn mul(self, other: i32) -> (r: Self) {
        V2d { x: self.x * other, y: self.y * other }
    }
}

impl vstd::std_specs::ops::MulSpecImpl<i32> for V2d<i32> {
    open spec fn obeys_mul_spec() -> bool {
        true
    }

    open spec fn mul_req(self, other: i32) -> bool {
        i32::MIN <= self.x * other <= i32::MAX && i32::MIN <= self.y * other <= i32::MAX
    }

    open spec fn mul_spec(self, other: i32) -> Self {
        V2d { x: (self.x * other) as i32, y: (self.y * other) as i32 }
    }
}


/// The quotient of machine division on 32-bit signed values, truncating
/// toward zero.
pub open spec fn quot_i32(a: i32, b: i32) -> i32 {
    if a >= 0 {
        (a / b) as i32
    } else {
        (-((-a) / (b as int))) as i32
    }
}

impl core::ops::Div<i32> for V2d<i32> {
    type Output = V2d<i32>;

    /// Component-wise division by an integer factor.
    fn div(self, other: i32) -> (r: Self) {
        V2d { x: self.x / other, y: self.y / other }
    }
}

impl vstd::std_specs::ops::DivSpecImpl<i32> for V2d<i32> {
    open spec fn obeys_div_spec() -> bool {
        true
    }

    open spec fn div_req(self, other: i32) -> bool {
        other != 0 && !(self.x == i32::MIN && other == -1) && !(self.y == i32::MIN && other
            == -1)
    }

    open spec fn div_spec(self, other: i32) -> Self {
        V2d { x: quot_i32(self.x, other), y: quot_i32(self.y, other) }
    }
}

} // verus!
