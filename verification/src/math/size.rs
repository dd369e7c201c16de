use vstd::prelude::*;
use core::ops::Add;
use vstd::std_specs::cmp::{PartialOrdIs, PartialOrdSpec};
use vstd::std_specs::ops::AddSpec;

use crate::traits::{Half, IsZero, Zero};

use super::Vec2;

verus! {

/// A width and a height.
#[derive(Debug, Clone, Copy, Default, PartialEq, Eq, Hash, Structural)]
pub struct Size<T> {
    pub width: T,
    pub height: T,
}

impl<T> Size<T> {
    pub fn new(width: T, height: T) -> (r: Self)
        ensures
            r.width == width,
            r.height == height,
    {
        Self { width, height }
    }
}

impl<T: Half> Size<T> {
    /// The point at half the width and half the height.
    pub fn center(&self) -> (r: Vec2<T>)
        ensures
            r.x == self.width.half_spec(),
            r.y == self.height.half_spec(),
    {
        Vec2 { x: self.width.half(), y: self.height.half() }
    }
}

impl<T: Half> Half for Size<T> {
    open spec fn half_spec(&self) -> Self {
        Size { width: self.width.half_spec(), height: self.height.half_spec() }
    }

    fn half(&self) -> (r: Self) {
        Size { width: self.width.half(), height: self.height.half() }
    }
}

impl<T: Copy> From<&Size<T>> for Vec2<T> {
    fn from(value: &Size<T>) -> (r: Self) {
        Vec2 { x: value.width, y: value.height }
    }
}

impl<T: Copy> vstd::std_specs::convert::FromSpecImpl<&Size<T>> for Vec2<T> {
    open spec fn obeys_from_spec() -> bool {
        true
    }

    open spec fn from_spec(value: &Size<T>) -> Self {
        Vec2 { x: value.width, y: value.height }
    }
}

impl<T> From<Size<T>> for Vec2<T> {
    fn from(value: Size<T>) -> (r: Self) {
        Vec2 { x: value.width, y: value.height }
    }
}

impl<T> vstd::std_specs::convert::FromSpecImpl<Size<T>> for Vec2<T> {
    open spec fn obeys_from_spec() -> bool {
        true
    }

    open spec fn from_spec(value: Size<T>) -> Self {
        Vec2 { x: value.width, y: value.height }
    }
}

impl<T: IsZero> IsZero for Size<T> {
    open spec fn is_zero_spec(&self) -> bool {
        self.width.is_zero_spec() && self.height.is_zero_spec()
    }

    fn is_zero(&self) -> (r: bool) {
        self.width.is_zero() && self.height.is_zero()
    }
}

/// Each component is `T::default()`, which is zero for the number types.
impl<T: Default> Zero for Size<T> {
    fn zero() -> (r: Self)
        ensures
            call_ensures(T::default, (), r.width),
            call_ensures(T::default, (), r.height),
    {
        Size { width: T::default(), height: T::default() }
    }
}

impl<T: IsZero> Size<T> {
    /// Whether both the width and the height are zero.
    pub fn empty(&self) -> (r: bool)
        ensures
            r == (self.width.is_zero_spec() && self.height.is_zero_spec()),
    {
        self.width.is_zero() && self.height.is_zero()
    }
}

impl<T> Size<T> {
    /// Applies `f` to the width and to the height.
    pub fn map<U, F: Fn(&T) -> U>(&self, f: F) -> (r: Size<U>)
        requires
            f.requires((&self.width,)),
            f.requires((&self.height,)),
        ensures
            f.ensures((&self.width,), r.width),
            f.ensures((&self.height,), r.height),
    {
        Size { width: f(&self.width), height: f(&self.height) }
    }
}

impl<T: Copy> Size<T> {
    /// Applies `f` to copies of the width and of the height.
    pub fn map_cloned<U, F: Fn(T) -> U>(&self, f: F) -> (r: Size<U>)
        requires
            f.requires((self.width,)),
            f.requires((self.height,)),
        ensures
            f.ensures((self.width,), r.width),
            f.ensures((self.height,), r.height),
    {
        Size { width: f(self.width), height: f(self.height) }
    }
}

impl<T: Copy + Add<T, Output = T>> Add<Size<T>> for Size<T> {
    type Output = Size<T>;

    fn add(self, rhs: Size<T>) -> (r: Size<T>) {
        Size { width: self.width + rhs.width, height: self.height + rhs.height }
    }
}

/// Adds widths and heights.
impl<T: Copy + Add<T, Output = T>> vstd::std_specs::ops::AddSpecImpl<Size<T>> for Size<T> {
    open spec fn obeys_add_spec() -> bool {
        T::obeys_add_spec()
    }

    open spec fn add_req(self, rhs: Size<T>) -> bool {
        self.width.add_req(rhs.width) && self.height.add_req(rhs.height)
    }

    open spec fn add_spec(self, rhs: Size<T>) -> Size<T> {
        Size { width: self.width.add_spec(rhs.width), height: self.height.add_spec(rhs.height) }
    }
}

impl<T: Copy + Add<T, Output = T>> Add<Vec2<T>> for Size<T> {
    type Output = Size<T>;

    fn add(self, rhs: Vec2<T>) -> (r: Size<T>) {
        Size { width: self.width + rhs.x, height: self.height + rhs.y }
    }
}

/// Adds `x` to the width and `y` to the height.
impl<T: Copy + Add<T, Output = T>> vstd::std_specs::ops::AddSpecImpl<Vec2<T>> for Size<T> {
    open spec fn obeys_add_spec() -> bool {
        T::obeys_add_spec()
    }

    open spec fn add_req(self, rhs: Vec2<T>) -> bool {
        self.width.add_req(rhs.x) && self.height.add_req(rhs.y)
    }

    open spec fn add_spec(self, rhs: Vec2<T>) -> Size<T> {
        Size { width: self.width.add_spec(rhs.x), height: self.height.add_spec(rhs.y) }
    }
}

impl<T: Copy + Add<T, Output = T>> Add<Size<T>> for Vec2<T> {
    type Output = Vec2<T>;

    fn add(self, rhs: Size<T>) -> (r: Vec2<T>) {
        Vec2 { x: self.x + rhs.width, y: self.y + rhs.height }
    }
}

/// Adds the width to `x` and the height to `y`.
impl<T: Copy + Add<T, Output = T>> vstd::std_specs::ops::AddSpecImpl<Size<T>> for Vec2<T> {
    open spec fn obeys_add_spec() -> bool {
        T::obeys_add_spec()
    }

    open spec fn add_req(self, rhs: Size<T>) -> bool {
        self.x.add_req(rhs.width) && self.y.add_req(rhs.height)
    }

    open spec fn add_spec(self, rhs: Size<T>) -> Vec2<T> {
        Vec2 { x: self.x.add_spec(rhs.width), y: self.y.add_spec(rhs.height) }
    }
}

impl<T: Copy + Add<T, Output = T>> Add<T> for Size<T> {
    type Output = Self;

    fn add(self, rhs: T) -> (r: Self) {
        Size { width: self.width + rhs, height: self.height + rhs }
    }
}

/// Adds one scalar to the width and to the height.
impl<T: Copy + Add<T, Output = T>> vstd::std_specs::ops::AddSpecImpl<T> for Size<T> {
    open spec fn obeys_add_spec() -> bool {
        T::obeys_add_spec()
    }

    open spec fn add_req(self, rhs: T) -> bool {
        self.width.add_req(rhs) && self.height.add_req(rhs)
    }

    open spec fn add_spec(self, rhs: T) -> Size<T> {
        Size { width: self.width.add_spec(rhs), height: self.height.add_spec(rhs) }
    }
}

/// `a` when `a >= b`, else `b`.
pub open spec fn max_by_ge<T: PartialOrd>(a: T, b: T) -> T {
    if a.is_ge(&b) { a } else { b }
}

/// `b` when `a >= b`, else `a`.
pub open spec fn min_by_ge<T: PartialOrd>(a: T, b: T) -> T {
    if a.is_ge(&b) { b } else { a }
}

impl<T: PartialOrd + Copy> Size<T> {
    /// The larger width and the larger height (the one of `self` on ties).
    pub open spec fn max_spec(self, other: Self) -> Self {
        Size { width: max_by_ge(self.width, other.width), height: max_by_ge(self.height, other.height) }
    }

    /// The smaller width and the smaller height (the one of `other` on ties).
    pub open spec fn min_spec(self, other: Self) -> Self {
        Size { width: min_by_ge(self.width, other.width), height: min_by_ge(self.height, other.height) }
    }

    pub fn max(&self, other: &Self) -> (r: Self)
        ensures
            T::obeys_partial_cmp_spec() ==> r == self.max_spec(*other),
    {
        Size {
            width: if self.width >= other.width { self.width } else { other.width },
            height: if self.height >= other.height { self.height } else { other.height },
        }
    }

    pub fn min(&self, other: &Self) -> (r: Self)
        ensures
            T::obeys_partial_cmp_spec() ==> r == self.min_spec(*other),
    {
        Size {
            width: if self.width >= other.width { other.width } else { self.width },
            height: if self.height >= other.height { other.height } else { self.height },
        }
    }

    /// `self.max(min).min(max)`.
    pub fn clamp(&self, min: &Self, max: &Self) -> (r: Self)
        ensures
            T::obeys_partial_cmp_spec() ==> r == self.max_spec(*min).min_spec(*max),
    {
        self.max(min).min(max)
    }
}

} // verus!

verus! {

/// The larger size is at least as wide and as tall as each operand, the
/// smaller one at most; both ignore the order of the operands and give back
/// a size taken with itself; clamping between a lower and a higher bound
/// stays between them.
pub proof fn lemma_size_max_min(a: Size<i32>, b: Size<i32>, lo: Size<i32>, hi: Size<i32>)
    requires
        lo.width <= hi.width,
        lo.height <= hi.height,
    ensures
        a.max_spec(b).width >= a.width && a.max_spec(b).width >= b.width,
        a.max_spec(b).height >= a.height && a.max_spec(b).height >= b.height,
        a.min_spec(b).width <= a.width && a.min_spec(b).width <= b.width,
        a.min_spec(b).height <= a.height && a.min_spec(b).height <= b.height,
        lo.width <= a.max_spec(lo).min_spec(hi).width <= hi.width,
        lo.height <= a.max_spec(lo).min_spec(hi).height <= hi.height,
        a.max_spec(b) == b.max_spec(a),
        a.min_spec(b) == b.min_spec(a),
        a.max_spec(a) == a,
        a.min_spec(a) == a,
{
}

/// `x` and `y` are comparable, and equal when each is at least the other.
pub open spec fn totally_ordered<T: PartialOrd>(x: T, y: T) -> bool {
    &&& x.is_ge(&y) || y.is_ge(&x)
    &&& x.is_ge(&y) && y.is_ge(&x) ==> x == y
}

/// For sides that are totally ordered (no NaN), the larger and the smaller
/// size ignore the order of their operands, and a size taken with itself is
/// that size.
pub proof fn lemma_max_min_symmetric<T: PartialOrd + Copy>(a: Size<T>, b: Size<T>)
    requires
        totally_ordered(a.width, b.width),
        totally_ordered(a.height, b.height),
    ensures
        a.max_spec(b) == b.max_spec(a),
        a.min_spec(b) == b.min_spec(a),
        a.max_spec(a) == a,
        a.min_spec(a) == a,
{
}

} // verus!
