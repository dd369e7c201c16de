use vstd::prelude::*;
use core::ops::{Add, AddAssign, Div, DivAssign, Mul, MulAssign, Neg, Sub, SubAssign};
use vstd::std_specs::cmp::{PartialEqSpec, PartialOrdIs, PartialOrdSpec};
use vstd::std_specs::convert::FromSpec;
use vstd::std_specs::ops::{AddSpec, DivSpec, MulSpec, NegSpec, SubSpec};

use crate::traits::{Half, IsZero, One, Zero};

verus! {

/// A two dimensional vector whose components are of any number type.
#[derive(Debug, Clone, Copy, Default, Eq, Hash)]
pub struct Vec2<T> {
    pub x: T,
    pub y: T,
}

impl<T: PartialEq> PartialEq for Vec2<T> {
    /// Two vectors are equal when both their components are.
    fn eq(&self, other: &Self) -> (r: bool) {
        self.x == other.x && self.y == other.y
    }
}

impl<T: PartialEq> vstd::std_specs::cmp::PartialEqSpecImpl for Vec2<T> {
    open spec fn obeys_eq_spec() -> bool {
        T::obeys_eq_spec()
    }

    open spec fn eq_spec(&self, other: &Self) -> bool {
        self.x.eq_spec(&other.x) && self.y.eq_spec(&other.y)
    }
}

impl<T> Vec2<T> {
    pub fn new(x: T, y: T) -> (r: Self)
        ensures
            r.x == x,
            r.y == y,
    {
        Self { x, y }
    }
}

/// Shorthand for `Vec2::new`.
pub fn vec2<T>(x: T, y: T) -> (r: Vec2<T>)
    ensures
        r.x == x,
        r.y == y,
{
    Vec2 { x, y }
}

/// The larger of two values under `>`: `a` when `a > b`, else `b`.
pub open spec fn max_by_gt<T: PartialOrd>(a: T, b: T) -> T {
    if a.is_gt(&b) { a } else { b }
}

/// The smaller of two values under `<=`: `a` when `a <= b`, else `b`.
pub open spec fn min_by_le<T: PartialOrd>(a: T, b: T) -> T {
    if a.is_le(&b) { a } else { b }
}

impl<T: Copy + PartialOrd> Vec2<T> {
    /// Component-wise maximum: each component is the one of `self` when it is
    /// greater than the one of `other`, else the one of `other`.
    pub open spec fn max_spec(self, other: Self) -> Self {
        Vec2 { x: max_by_gt(self.x, other.x), y: max_by_gt(self.y, other.y) }
    }

    /// Component-wise minimum: each component is the one of `self` when it is
    /// at most the one of `other`, else the one of `other`.
    pub open spec fn min_spec(self, other: Self) -> Self {
        Vec2 { x: min_by_le(self.x, other.x), y: min_by_le(self.y, other.y) }
    }

    pub fn max(&self, other: &Self) -> (r: Self)
        ensures
            T::obeys_partial_cmp_spec() ==> r == self.max_spec(*other),
    {
        Self {
            x: if self.x > other.x { self.x } else { other.x },
            y: if self.y > other.y { self.y } else { other.y },
        }
    }

    pub fn min(&self, other: &Self) -> (r: Self)
        ensures
            T::obeys_partial_cmp_spec() ==> r == self.min_spec(*other),
    {
        Self {
            x: if self.x <= other.x { self.x } else { other.x },
            y: if self.y <= other.y { self.y } else { other.y },
        }
    }

    /// `self.max(min).min(max)`.
    pub fn clamp(&self, min: &Self, max: &Self) -> (r: Self)
        ensures
            T::obeys_partial_cmp_spec() ==> r == self.max_spec(*min).min_spec(*max),
    {
        self.max(min).min(max)
    }
}

impl<T: Copy + Neg<Output = T>> Vec2<T> {
    /// The vector turned a quarter turn: `(-y, x)`.
    pub fn normal(&self) -> (r: Self)
        requires
            self.y.neg_req(),
        ensures
            r.y == self.x,
            T::obeys_neg_spec() ==> r.x == self.y.neg_spec(),
    {
        Vec2 { x: self.y.neg(), y: self.x }
    }
}

impl<T: Copy + Add<T, Output = T> + Mul<T, Output = T>> Vec2<T> {
    /// The dot product `x * other.x + y * other.y`, as computed by `T`'s operators.
    pub open spec fn dot_spec(self, other: Self) -> T {
        self.x.mul_spec(other.x).add_spec(self.y.mul_spec(other.y))
    }

    pub fn dot(&self, other: &Self) -> (r: T)
        requires
            T::obeys_mul_spec(),
            self.x.mul_req(other.x),
            self.y.mul_req(other.y),
            self.x.mul_spec(other.x).add_req(self.y.mul_spec(other.y)),
        ensures
            T::obeys_add_spec() ==> r == self.dot_spec(*other),
    {
        self.x * other.x + self.y * other.y
    }
}

impl<T: Copy + Add<T, Output = T> + Mul<T, Output = T> + Sub<T, Output = T>> Vec2<T> {
    /// The cross product `x * other.y - y * other.x`, as computed by `T`'s operators.
    pub open spec fn cross_spec(self, other: Self) -> T {
        self.x.mul_spec(other.y).sub_spec(self.y.mul_spec(other.x))
    }

    pub fn cross(&self, other: &Self) -> (r: T)
        requires
            T::obeys_mul_spec(),
            self.x.mul_req(other.y),
            self.y.mul_req(other.x),
            self.x.mul_spec(other.y).sub_req(self.y.mul_spec(other.x)),
        ensures
            T::obeys_sub_spec() ==> r == self.cross_spec(*other),
    {
        self.x * other.y - self.y * other.x
    }
}

impl<T> Vec2<T> {
    /// Hands the vector to `f` and returns what `f` returns.
    pub fn map<U, F: FnOnce(Self) -> U>(self, f: F) -> (r: U)
        requires
            f.requires((self,)),
        ensures
            f.ensures((self,), r),
    {
        f(self)
    }
}

impl<T: From<u8>> Vec2<T> {
    /// The vector whose components are `T::from(n)`.
    pub open spec fn splat_spec(n: u8) -> Self {
        Vec2 { x: T::from_spec(n), y: T::from_spec(n) }
    }
}

/// Each component is `T::default()`, which is zero for the number types.
impl<T: Default> Zero for Vec2<T> {
    fn zero() -> (r: Self)
        ensures
            call_ensures(T::default, (), r.x),
            call_ensures(T::default, (), r.y),
    {
        Vec2 { x: T::default(), y: T::default() }
    }
}

impl<T: From<u8>> One for Vec2<T> {
    fn one() -> (r: Self)
        ensures
            T::obeys_from_spec() ==> r == Self::splat_spec(1),
    {
        Vec2 { x: T::from(1u8), y: T::from(1u8) }
    }
}

/// Types that provide a vector of ones.
pub trait OneVec<T> {
    fn one() -> Vec2<T>;
}

impl<T: IsZero> IsZero for Vec2<T> {
    open spec fn is_zero_spec(&self) -> bool {
        self.x.is_zero_spec() && self.y.is_zero_spec()
    }

    fn is_zero(&self) -> (r: bool) {
        self.x.is_zero() && self.y.is_zero()
    }
}

impl<T: Half> Half for Vec2<T> {
    open spec fn half_spec(&self) -> Self {
        Vec2 { x: self.x.half_spec(), y: self.y.half_spec() }
    }

    fn half(&self) -> (r: Self) {
        Vec2 { x: self.x.half(), y: self.y.half() }
    }
}

impl<T> From<(T, T)> for Vec2<T> {
    fn from(v: (T, T)) -> (r: Self) {
        Vec2 { x: v.0, y: v.1 }
    }
}

impl<T> vstd::std_specs::convert::FromSpecImpl<(T, T)> for Vec2<T> {
    open spec fn obeys_from_spec() -> bool {
        true
    }

    open spec fn from_spec(v: (T, T)) -> Self {
        Vec2 { x: v.0, y: v.1 }
    }
}

impl<T> From<Vec2<T>> for (T, T) {
    fn from(v: Vec2<T>) -> (r: (T, T)) {
        (v.x, v.y)
    }
}

impl<T> vstd::std_specs::convert::FromSpecImpl<Vec2<T>> for (T, T) {
    open spec fn obeys_from_spec() -> bool {
        true
    }

    open spec fn from_spec(v: Vec2<T>) -> (T, T) {
        (v.x, v.y)
    }
}

impl<T: Copy> From<[T; 2]> for Vec2<T> {
    fn from(arr: [T; 2]) -> (r: Self) {
        Vec2 { x: arr[0], y: arr[1] }
    }
}

impl<T: Copy> vstd::std_specs::convert::FromSpecImpl<[T; 2]> for Vec2<T> {
    open spec fn obeys_from_spec() -> bool {
        true
    }

    open spec fn from_spec(arr: [T; 2]) -> Self {
        Vec2 { x: arr@[0], y: arr@[1] }
    }
}

impl<T: Add<T, Output = T>> Add for Vec2<T> {
    type Output = Vec2<T>;

    fn add(self, rhs: Vec2<T>) -> (r: Vec2<T>) {
        Vec2 { x: self.x + rhs.x, y: self.y + rhs.y }
    }
}

/// Component-wise `+` of two vectors.
impl<T: Add<T, Output = T>> vstd::std_specs::ops::AddSpecImpl for Vec2<T> {
    open spec fn obeys_add_spec() -> bool {
        T::obeys_add_spec()
    }

    open spec fn add_req(self, rhs: Vec2<T>) -> bool {
        self.x.add_req(rhs.x) && self.y.add_req(rhs.y)
    }

    open spec fn add_spec(self, rhs: Vec2<T>) -> Vec2<T> {
        Vec2 { x: self.x.add_spec(rhs.x), y: self.y.add_spec(rhs.y) }
    }
}

impl<T: Copy + Add<T, Output = T>> Add<T> for Vec2<T> {
    type Output = Vec2<T>;

    fn add(self, scalar: T) -> (r: Vec2<T>) {
        Vec2 { x: self.x + scalar, y: self.y + scalar }
    }
}

/// `+` of each component with one scalar.
impl<T: Copy + Add<T, Output = T>> vstd::std_specs::ops::AddSpecImpl<T> for Vec2<T> {
    open spec fn obeys_add_spec() -> bool {
        T::obeys_add_spec()
    }

    open spec fn add_req(self, scalar: T) -> bool {
        self.x.add_req(scalar) && self.y.add_req(scalar)
    }

    open spec fn add_spec(self, scalar: T) -> Vec2<T> {
        Vec2 { x: self.x.add_spec(scalar), y: self.y.add_spec(scalar) }
    }
}

impl<T: Copy + Add<T, Output = T>> AddAssign for Vec2<T> {
    fn add_assign(&mut self, rhs: Self)
        requires
            old(self).x.add_req(rhs.x),
            old(self).y.add_req(rhs.y),
        ensures
            T::obeys_add_spec() ==> final(self).x == old(self).x.add_spec(rhs.x),
            T::obeys_add_spec() ==> final(self).y == old(self).y.add_spec(rhs.y),
    {
        *self = *self + rhs
    }
}

impl<T: Sub<T, Output = T>> Sub for Vec2<T> {
    type Output = Vec2<T>;

    fn sub(self, rhs: Vec2<T>) -> (r: Vec2<T>) {
        Vec2 { x: self.x - rhs.x, y: self.y - rhs.y }
    }
}

/// Component-wise `-` of two vectors.
impl<T: Sub<T, Output = T>> vstd::std_specs::ops::SubSpecImpl for Vec2<T> {
    open spec fn obeys_sub_spec() -> bool {
        T::obeys_sub_spec()
    }

    open spec fn sub_req(self, rhs: Vec2<T>) -> bool {
        self.x.sub_req(rhs.x) && self.y.sub_req(rhs.y)
    }

    open spec fn sub_spec(self, rhs: Vec2<T>) -> Vec2<T> {
        Vec2 { x: self.x.sub_spec(rhs.x), y: self.y.sub_spec(rhs.y) }
    }
}

impl<T: Copy + Sub<T, Output = T>> Sub<T> for Vec2<T> {
    type Output = Vec2<T>;

    fn sub(self, scalar: T) -> (r: Vec2<T>) {
        Vec2 { x: self.x - scalar, y: self.y - scalar }
    }
}

/// `-` of each component with one scalar.
impl<T: Copy + Sub<T, Output = T>> vstd::std_specs::ops::SubSpecImpl<T> for Vec2<T> {
    open spec fn obeys_sub_spec() -> bool {
        T::obeys_sub_spec()
    }

    open spec fn sub_req(self, scalar: T) -> bool {
        self.x.sub_req(scalar) && self.y.sub_req(scalar)
    }

    open spec fn sub_spec(self, scalar: T) -> Vec2<T> {
        Vec2 { x: self.x.sub_spec(scalar), y: self.y.sub_spec(scalar) }
    }
}

impl<T: Copy + Sub<T, Output = T>> SubAssign for Vec2<T> {
    fn sub_assign(&mut self, rhs: Self)
        requires
            old(self).x.sub_req(rhs.x),
            old(self).y.sub_req(rhs.y),
        ensures
            T::obeys_sub_spec() ==> final(self).x == old(self).x.sub_spec(rhs.x),
            T::obeys_sub_spec() ==> final(self).y == old(self).y.sub_spec(rhs.y),
    {
        *self = *self - rhs
    }
}

impl<T: Mul<T, Output = T>> Mul for Vec2<T> {
    type Output = Vec2<T>;

    fn mul(self, rhs: Vec2<T>) -> (r: Vec2<T>) {
        Vec2 { x: self.x * rhs.x, y: self.y * rhs.y }
    }
}

/// Component-wise `*` of two vectors.
impl<T: Mul<T, Output = T>> vstd::std_specs::ops::MulSpecImpl for Vec2<T> {
    open spec fn obeys_mul_spec() -> bool {
        T::obeys_mul_spec()
    }

    open spec fn mul_req(self, rhs: Vec2<T>) -> bool {
        self.x.mul_req(rhs.x) && self.y.mul_req(rhs.y)
    }

    open spec fn mul_spec(self, rhs: Vec2<T>) -> Vec2<T> {
        Vec2 { x: self.x.mul_spec(rhs.x), y: self.y.mul_spec(rhs.y) }
    }
}

impl<T: Copy + Mul<T, Output = T>> Mul<T> for Vec2<T> {
    type Output = Vec2<T>;

    fn mul(self, scalar: T) -> (r: Vec2<T>) {
        Vec2 { x: self.x * scalar, y: self.y * scalar }
    }
}

/// `*` of each component with one scalar.
impl<T: Copy + Mul<T, Output = T>> vstd::std_specs::ops::MulSpecImpl<T> for Vec2<T> {
    open spec fn obeys_mul_spec() -> bool {
        T::obeys_mul_spec()
    }

    open spec fn mul_req(self, scalar: T) -> bool {
        self.x.mul_req(scalar) && self.y.mul_req(scalar)
    }

    open spec fn mul_spec(self, scalar: T) -> Vec2<T> {
        Vec2 { x: self.x.mul_spec(scalar), y: self.y.mul_spec(scalar) }
    }
}

impl<T: Copy + Mul<T, Output = T>> MulAssign for Vec2<T> {
    fn mul_assign(&mut self, rhs: Self)
        requires
            old(self).x.mul_req(rhs.x),
            old(self).y.mul_req(rhs.y),
        ensures
            T::obeys_mul_spec() ==> final(self).x == old(self).x.mul_spec(rhs.x),
            T::obeys_mul_spec() ==> final(self).y == old(self).y.mul_spec(rhs.y),
    {
        *self = *self * rhs
    }
}

impl<T: Div<T, Output = T>> Div for Vec2<T> {
    type Output = Vec2<T>;

    fn div(self, rhs: Vec2<T>) -> (r: Vec2<T>) {
        Vec2 { x: self.x / rhs.x, y: self.y / rhs.y }
    }
}

/// Component-wise `/` of two vectors.
impl<T: Div<T, Output = T>> vstd::std_specs::ops::DivSpecImpl for Vec2<T> {
    open spec fn obeys_div_spec() -> bool {
        T::obeys_div_spec()
    }

    open spec fn div_req(self, rhs: Vec2<T>) -> bool {
        self.x.div_req(rhs.x) && self.y.div_req(rhs.y)
    }

    open spec fn div_spec(self, rhs: Vec2<T>) -> Vec2<T> {
        Vec2 { x: self.x.div_spec(rhs.x), y: self.y.div_spec(rhs.y) }
    }
}

impl<T: Copy + Div<T, Output = T>> Div<T> for Vec2<T> {
    type Output = Vec2<T>;

    fn div(self, scalar: T) -> (r: Vec2<T>) {
        Vec2 { x: self.x / scalar, y: self.y / scalar }
    }
}

/// `/` of each component with one scalar.
impl<T: Copy + Div<T, Output = T>> vstd::std_specs::ops::DivSpecImpl<T> for Vec2<T> {
    open spec fn obeys_div_spec() -> bool {
        T::obeys_div_spec()
    }

    open spec fn div_req(self, scalar: T) -> bool {
        self.x.div_req(scalar) && self.y.div_req(scalar)
    }

    open spec fn div_spec(self, scalar: T) -> Vec2<T> {
        Vec2 { x: self.x.div_spec(scalar), y: self.y.div_spec(scalar) }
    }
}

impl<T: Copy + Div<T, Output = T>> DivAssign for Vec2<T> {
    fn div_assign(&mut self, rhs: Self)
        requires
            old(self).x.div_req(rhs.x),
            old(self).y.div_req(rhs.y),
        ensures
            T::obeys_div_spec() ==> final(self).x == old(self).x.div_spec(rhs.x),
            T::obeys_div_spec() ==> final(self).y == old(self).y.div_spec(rhs.y),
    {
        *self = *self / rhs
    }
}

} // verus!

verus! {

/// Adding a vector and then subtracting it gives back the vector it was
/// added to, when the sum does not overflow.
pub proof fn lemma_add_then_sub(a: Vec2<i32>, b: Vec2<i32>)
    requires
        a.add_req(b),
    ensures
        a.add_spec(b).sub_req(b),
        a.add_spec(b).sub_spec(b) == a,
{
}

/// `p * q` fits in an `i32`.
pub open spec fn product_fits(p: i32, q: i32) -> bool {
    i32::MIN <= p * q <= i32::MAX
}

/// The dot product does not depend on the order of its operands, and the
/// cross product changes sign when they are swapped, whenever neither
/// overflows: each is then the exact sum of the products.
pub proof fn lemma_dot_cross_symmetry(a: Vec2<i32>, b: Vec2<i32>)
    requires
        product_fits(a.x, b.x),
        product_fits(a.y, b.y),
        product_fits(a.x, b.y),
        product_fits(a.y, b.x),
    ensures
        i32::MIN <= a.x * b.x + a.y * b.y <= i32::MAX ==> {
            &&& a.dot_spec(b) == a.x * b.x + a.y * b.y
            &&& a.dot_spec(b) == b.dot_spec(a)
        },
        i32::MIN < a.x * b.y - a.y * b.x <= i32::MAX ==> {
            &&& a.cross_spec(b) == a.x * b.y - a.y * b.x
            &&& i32::MIN <= b.x * a.y - b.y * a.x <= i32::MAX
            &&& a.cross_spec(b) == -b.cross_spec(a)
        },
{
    assert(a.x * b.x == b.x * a.x) by (nonlinear_arith);
    assert(a.y * b.y == b.y * a.y) by (nonlinear_arith);
    assert(a.x * b.y == b.y * a.x) by (nonlinear_arith);
    assert(a.y * b.x == b.x * a.y) by (nonlinear_arith);
    assert(a.x.mul_spec(b.y) == a.x * b.y);
    assert(a.y.mul_spec(b.x) == a.y * b.x);
    assert(b.x.mul_spec(a.y) == b.x * a.y);
    assert(b.y.mul_spec(a.x) == b.y * a.x);
    assert(a.x.mul_spec(b.x) == a.x * b.x);
    assert(a.y.mul_spec(b.y) == a.y * b.y);
    assert(b.x.mul_spec(a.x) == b.x * a.x);
    assert(b.y.mul_spec(a.y) == b.y * a.y);
}

/// A vector and its normal are perpendicular: their dot product is zero;
/// and taking the normal twice turns the vector half a turn. This holds
/// whenever the negations and the products do not overflow.
pub proof fn lemma_normal_is_perpendicular(a: Vec2<i32>)
    requires
        a.x != i32::MIN,
        a.y != i32::MIN,
        i32::MIN < a.x * a.y <= i32::MAX,
    ensures
        a.y.neg_req(),
        a.dot_spec(Vec2 { x: a.y.neg_spec(), y: a.x }) == 0,
        a.x.neg_req(),
        (Vec2 { x: (Vec2 { x: a.y.neg_spec(), y: a.x }).y.neg_spec(), y: (Vec2 { x: a.y.neg_spec(), y: a.x }).x })
            == (Vec2 { x: (-a.x) as i32, y: (-a.y) as i32 }),
{
    assert(a.x * (-a.y) == -(a.x * a.y)) by (nonlinear_arith);
    assert(a.y * a.x == a.x * a.y) by (nonlinear_arith);
    let n = a.y.neg_spec();
    assert(n == -a.y);
    assert(a.x.mul_spec(n) == a.x * n);
    assert(a.y.mul_spec(a.x) == a.y * a.x);
}

/// Clamping puts each component between the bounds when the lower bound is
/// not above the upper one, and leaves a vector already between them as it is.
pub proof fn lemma_clamp_within(v: Vec2<i32>, lo: Vec2<i32>, hi: Vec2<i32>)
    requires
        lo.x <= hi.x,
        lo.y <= hi.y,
    ensures
        lo.x <= v.max_spec(lo).min_spec(hi).x <= hi.x,
        lo.y <= v.max_spec(lo).min_spec(hi).y <= hi.y,
        lo.x <= v.x <= hi.x && lo.y <= v.y <= hi.y ==> v.max_spec(lo).min_spec(hi) == v,
{
}

/// The dot product does not depend on the order of its operands when the
/// multiplication of the number type commutes on their components.
pub proof fn lemma_dot_commutes<T: Copy + Add<T, Output = T> + Mul<T, Output = T>>(a: Vec2<T>, b: Vec2<T>)
    requires
        a.x.mul_spec(b.x) == b.x.mul_spec(a.x),
        a.y.mul_spec(b.y) == b.y.mul_spec(a.y),
    ensures
        a.dot_spec(b) == b.dot_spec(a),
{
}

} // verus!
