use vstd::prelude::*;

verus! {

/// Values that have a distinguished zero.
pub trait Zero: Sized {
    fn zero() -> Self;

    /// Turns `self` into zero: by default, into what `zero` gives.
    fn to_zero(&mut self)
        default_ensures
            call_ensures(Self::zero, (), *final(self)),
    {
        *self = Self::zero();
    }
}

/// Values that can tell whether they are zero.
pub trait IsZero {
    spec fn is_zero_spec(&self) -> bool;

    fn is_zero(&self) -> (r: bool)
        ensures
            r == self.is_zero_spec(),
    ;
}

/// Values that have a distinguished one.
pub trait One: Sized {
    fn one() -> Self;
}

/// Values that can be halved.
pub trait Half: Sized {
    spec fn half_spec(&self) -> Self;

    fn half(&self) -> (r: Self)
        ensures
            r == self.half_spec(),
    ;
}

impl Zero for i32 {
    fn zero() -> (r: i32)
        ensures
            r == 0,
    {
        0
    }
}

impl One for i32 {
    fn one() -> (r: i32)
        ensures
            r == 1,
    {
        1
    }
}

impl IsZero for i32 {
    open spec fn is_zero_spec(&self) -> bool {
        *self == 0
    }

    fn is_zero(&self) -> (r: bool) {
        *self == 0
    }
}

impl Half for i32 {
    /// Halving truncates toward zero, as `/` does.
    open spec fn half_spec(&self) -> i32 {
        if *self >= 0 {
            (*self / 2) as i32
        } else {
            (-((-*self) / 2)) as i32
        }
    }

    fn half(&self) -> (r: i32) {
        *self / 2
    }
}

impl Zero for i64 {
    fn zero() -> (r: i64)
        ensures
            r == 0,
    {
        0
    }
}

impl One for i64 {
    fn one() -> (r: i64)
        ensures
            r == 1,
    {
        1
    }
}

impl IsZero for i64 {
    open spec fn is_zero_spec(&self) -> bool {
        *self == 0
    }

    fn is_zero(&self) -> (r: bool) {
        *self == 0
    }
}

impl Half for i64 {
    /// Halving truncates toward zero, as `/` does.
    open spec fn half_spec(&self) -> i64 {
        if *self >= 0 {
            (*self / 2) as i64
        } else {
            (-((-*self) / 2)) as i64
        }
    }

    fn half(&self) -> (r: i64) {
        *self / 2
    }
}

impl Zero for u32 {
    fn zero() -> (r: u32)
        ensures
            r == 0,
    {
        0
    }
}

impl One for u32 {
    fn one() -> (r: u32)
        ensures
            r == 1,
    {
        1
    }
}

impl IsZero for u32 {
    open spec fn is_zero_spec(&self) -> bool {
        *self == 0
    }

    fn is_zero(&self) -> (r: bool) {
        *self == 0
    }
}

impl Half for u32 {
    /// Halving rounds down, as `/` does.
    open spec fn half_spec(&self) -> u32 {
        (*self / 2) as u32
    }

    fn half(&self) -> (r: u32) {
        *self / 2
    }
}

impl Zero for u64 {
    fn zero() -> (r: u64)
        ensures
            r == 0,
    {
        0
    }
}

impl One for u64 {
    fn one() -> (r: u64)
        ensures
            r == 1,
    {
        1
    }
}

impl IsZero for u64 {
    open spec fn is_zero_spec(&self) -> bool {
        *self == 0
    }

    fn is_zero(&self) -> (r: bool) {
        *self == 0
    }
}

impl Half for u64 {
    /// Halving rounds down, as `/` does.
    open spec fn half_spec(&self) -> u64 {
        (*self / 2) as u64
    }

    fn half(&self) -> (r: u64) {
        *self / 2
    }
}

impl Zero for usize {
    fn zero() -> (r: usize)
        ensures
            r == 0,
    {
        0
    }
}

impl One for usize {
    fn one() -> (r: usize)
        ensures
            r == 1,
    {
        1
    }
}

impl IsZero for usize {
    open spec fn is_zero_spec(&self) -> bool {
        *self == 0
    }

    fn is_zero(&self) -> (r: bool) {
        *self == 0
    }
}

impl Half for usize {
    /// Halving rounds down, as `/` does.
    open spec fn half_spec(&self) -> usize {
        (*self / 2) as usize
    }

    fn half(&self) -> (r: usize) {
        *self / 2
    }
}

} // verus!
