use vstd::prelude::*;
use core::fmt::Debug;
use core::ops::{Add, Sub};
use vstd::std_specs::cmp::{PartialOrdIs, PartialOrdSpec};
use vstd::std_specs::ops::{AddSpec, SubSpec};

use crate::traits::{Half, IsZero, Zero};

use super::{Size, Vec2};

verus! {

/// An axis aligned rectangle: its top-left corner and its extent.
#[derive(Debug, Clone, Copy, Default, PartialEq, Eq, Hash, Structural)]
pub struct Rect<T> {
    pub x: T,
    pub y: T,
    pub width: T,
    pub height: T,
}

impl<T: Debug + Clone + Default> From<(T, T, T, T)> for Rect<T> {
    fn from(v: (T, T, T, T)) -> (r: Self) {
        Self { x: v.0, y: v.1, width: v.2, height: v.3 }
    }
}

impl<T: Debug + Clone + Default> vstd::std_specs::convert::FromSpecImpl<(T, T, T, T)> for Rect<T> {
    open spec fn obeys_from_spec() -> bool {
        true
    }

    open spec fn from_spec(v: (T, T, T, T)) -> Self {
        Rect { x: v.0, y: v.1, width: v.2, height: v.3 }
    }
}

impl<T: Debug + Copy + Default> Rect<T> {
    /// The top-left corner.
    pub fn position(&self) -> (r: Vec2<T>)
        ensures
            r == (Vec2 { x: self.x, y: self.y }),
    {
        Vec2 { x: self.x, y: self.y }
    }

    /// The width and the height.
    pub fn size(&self) -> (r: Size<T>)
        ensures
            r == (Size { width: self.width, height: self.height }),
    {
        Size { width: self.width, height: self.height }
    }
}

/// Each component is `T::default()`, which is zero for the number types.
impl<T: Debug + Clone + Default> Zero for Rect<T> {
    fn zero() -> (r: Self)
        ensures
            call_ensures(T::default, (), r.x),
            call_ensures(T::default, (), r.y),
            call_ensures(T::default, (), r.width),
            call_ensures(T::default, (), r.height),
    {
        Self { x: T::default(), y: T::default(), width: T::default(), height: T::default() }
    }

    /// Turns the extent into zero and keeps the position.
    fn to_zero(&mut self)
        ensures
            final(self).x == old(self).x,
            final(self).y == old(self).y,
            call_ensures(T::default, (), final(self).width),
            call_ensures(T::default, (), final(self).height),
    {
        self.width = T::default();
        self.height = T::default();
    }
}

impl<T: Half + Debug + Copy + Default> Half for Rect<T> {
    /// The same position with half the extent.
    open spec fn half_spec(&self) -> Self {
        Rect { x: self.x, y: self.y, width: self.width.half_spec(), height: self.height.half_spec() }
    }

    fn half(&self) -> (r: Self) {
        Self { x: self.x, y: self.y, width: self.width.half(), height: self.height.half() }
    }
}

impl<T: IsZero + Debug + Clone + Default> Rect<T> {
    /// Whether the width and the height are zero.
    pub fn empty(&self) -> (r: bool)
        ensures
            r == (self.width.is_zero_spec() && self.height.is_zero_spec()),
    {
        self.width.is_zero() && self.height.is_zero()
    }
}

/// `b` when `b < a`, else `a`.
pub open spec fn take_if_lt<T: PartialOrd>(a: T, b: T) -> T {
    if b.is_lt(&a) { b } else { a }
}

/// `b` when `b > a`, else `a`.
pub open spec fn take_if_gt<T: PartialOrd>(a: T, b: T) -> T {
    if b.is_gt(&a) { b } else { a }
}

impl<T: Debug + Copy + Default + PartialOrd> Rect<T> {
    /// The smaller `x` and `y` and the larger `width` and `height` of the two.
    pub open spec fn union_spec(self, other: Self) -> Self {
        Rect {
            x: take_if_lt(self.x, other.x),
            y: take_if_lt(self.y, other.y),
            width: take_if_gt(self.width, other.width),
            height: take_if_gt(self.height, other.height),
        }
    }

    pub fn union(&mut self, other: &Self)
        ensures
            T::obeys_partial_cmp_spec() ==> *final(self) == old(self).union_spec(*other),
    {
        self.x = if other.x < self.x { other.x } else { self.x };
        self.y = if other.y < self.y { other.y } else { self.y };
        self.width = if other.width > self.width { other.width } else { self.width };
        self.height = if other.height > self.height { other.height } else { self.height };
    }
}

impl<T: Debug + Copy + Default + PartialOrd + Add<T, Output = T> + Sub<T, Output = T>> Rect<T> {
    /// Moves the left and top edges out to `p` when `p` lies before them, and
    /// the width and height so that the right and bottom edges reach `p` when
    /// `p` lies beyond them (measured from the old edges).
    pub open spec fn include_point_spec(self, p: Vec2<T>) -> Self {
        Rect {
            x: if p.x.is_lt(&self.x) { p.x } else { self.x },
            y: if p.y.is_lt(&self.y) { p.y } else { self.y },
            width: if p.x.is_gt(&self.x.add_spec(self.width)) {
                p.x.sub_spec(self.x)
            } else {
                self.width
            },
            height: if p.y.is_gt(&self.y.add_spec(self.height)) {
                p.y.sub_spec(self.y)
            } else {
                self.height
            },
        }
    }

    pub fn include_point(&mut self, p: &Vec2<T>)
        requires
            T::obeys_add_spec(),
            T::obeys_partial_cmp_spec(),
            old(self).x.add_req(old(self).width),
            old(self).y.add_req(old(self).height),
            p.x.is_gt(&old(self).x.add_spec(old(self).width)) ==> p.x.sub_req(old(self).x),
            p.y.is_gt(&old(self).y.add_spec(old(self).height)) ==> p.y.sub_req(old(self).y),
        ensures
            T::obeys_sub_spec() ==> *final(self) == old(self).include_point_spec(*p),
    {
        let x = self.x;
        let y = self.y;
        let width = self.width;
        let height = self.height;

        if p.x < x {
            self.x = p.x;
        }
        if p.x > x + width {
            self.width = p.x - x;
        }
        if p.y < y {
            self.y = p.y;
        }
        if p.y > y + height {
            self.height = p.y - y;
        }
    }
}

impl<T: Debug + Copy + Default + Add<T, Output = T>> Rect<T> {
    /// The top-left corner.
    pub fn min(&self) -> (r: Vec2<T>)
        ensures
            r == (Vec2 { x: self.x, y: self.y }),
    {
        Vec2 { x: self.x, y: self.y }
    }

    /// The top-left corner, as `min` (the extent is not added).
    pub fn max(&self) -> (r: Vec2<T>)
        ensures
            r == (Vec2 { x: self.x, y: self.y }),
    {
        Vec2 { x: self.x, y: self.y }
    }

    pub fn top_left(&self) -> (r: Vec2<T>)
        ensures
            r == (Vec2 { x: self.x, y: self.y }),
    {
        Vec2 { x: self.x, y: self.y }
    }

    pub fn top_right(&self) -> (r: Vec2<T>)
        requires
            self.x.add_req(self.width),
        ensures
            r.y == self.y,
            T::obeys_add_spec() ==> r.x == self.x.add_spec(self.width),
    {
        Vec2 { x: self.x + self.width, y: self.y }
    }

    pub fn bottom_left(&self) -> (r: Vec2<T>)
        requires
            self.y.add_req(self.height),
        ensures
            r.x == self.x,
            T::obeys_add_spec() ==> r.y == self.y.add_spec(self.height),
    {
        Vec2 { x: self.x, y: self.y + self.height }
    }

    pub fn bottom_right(&self) -> (r: Vec2<T>)
        requires
            self.x.add_req(self.width),
            self.y.add_req(self.height),
        ensures
            T::obeys_add_spec() ==> r.x == self.x.add_spec(self.width),
            T::obeys_add_spec() ==> r.y == self.y.add_spec(self.height),
    {
        Vec2 { x: self.x + self.width, y: self.y + self.height }
    }
}

} // verus!

verus! {

/// Union takes the smaller corner and the larger extent of the two, so the
/// order of its operands does not matter, a rectangle united with itself is
/// unchanged, and successive unions can be grouped either way.
pub proof fn lemma_union_laws(a: Rect<i32>, b: Rect<i32>, c: Rect<i32>)
    ensures
        a.union_spec(b) == b.union_spec(a),
        a.union_spec(a) == a,
        a.union_spec(b).union_spec(c) == a.union_spec(b.union_spec(c)),
{
}

/// Including a point that already lies within the rectangle changes
/// nothing; including any point leaves the left and top edges at or before it.
pub proof fn lemma_include_point_laws(r: Rect<i32>, p: Vec2<i32>)
    requires
        i32::MIN <= r.x + r.width <= i32::MAX,
        i32::MIN <= r.y + r.height <= i32::MAX,
    ensures
        r.x <= p.x <= r.x + r.width && r.y <= p.y <= r.y + r.height ==> r.include_point_spec(p) == r,
        r.include_point_spec(p).x <= p.x,
        r.include_point_spec(p).y <= p.y,
{
}

/// Including a point to the right of (below) a rectangle moves its right
/// (bottom) edge onto the point and keeps its left (top) edge; a point
/// within its horizontal (vertical) span leaves that span as it is; a point
/// to its left (above it) becomes its left (top) edge, the width (height)
/// being kept. So a point that is not left of or above the rectangle lies in
/// it afterwards, on an edge it had to move.
pub proof fn lemma_include_point_edges(r: Rect<i32>, p: Vec2<i32>)
    requires
        0 <= r.width,
        0 <= r.height,
        i32::MIN <= r.x + r.width <= i32::MAX,
        i32::MIN <= r.y + r.height <= i32::MAX,
        i32::MIN <= p.x - r.x <= i32::MAX,
        i32::MIN <= p.y - r.y <= i32::MAX,
    ensures
        p.x > r.x + r.width ==> r.include_point_spec(p).x == r.x && r.include_point_spec(p).x
            + r.include_point_spec(p).width == p.x,
        p.y > r.y + r.height ==> r.include_point_spec(p).y == r.y && r.include_point_spec(p).y
            + r.include_point_spec(p).height == p.y,
        r.x <= p.x <= r.x + r.width ==> r.include_point_spec(p).x == r.x && r.include_point_spec(p).width
            == r.width,
        r.y <= p.y <= r.y + r.height ==> r.include_point_spec(p).y == r.y && r.include_point_spec(p).height
            == r.height,
        p.x < r.x ==> r.include_point_spec(p).x == p.x && r.include_point_spec(p).width == r.width,
        p.y < r.y ==> r.include_point_spec(p).y == p.y && r.include_point_spec(p).height == r.height,
        p.x >= r.x && p.y >= r.y ==> {
            &&& r.include_point_spec(p).x <= p.x <= r.include_point_spec(p).x + r.include_point_spec(p).width
            &&& r.include_point_spec(p).y <= p.y <= r.include_point_spec(p).y + r.include_point_spec(p).height
        },
{
}

} // verus!
