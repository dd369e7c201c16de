use vstd::prelude::*;
use vstd::std_specs::convert::IntoSpec;

verus! {

/// A length in device pixels.
#[derive(Debug, Default, Clone, Copy, PartialEq, Eq, PartialOrd)]
pub struct DevicePixels(pub i32);

impl From<i32> for DevicePixels {
    fn from(value: i32) -> (r: Self) {
        DevicePixels(value)
    }
}

impl vstd::std_specs::convert::FromSpecImpl<i32> for DevicePixels {
    open spec fn obeys_from_spec() -> bool {
        true
    }

    open spec fn from_spec(value: i32) -> Self {
        DevicePixels(value)
    }
}

impl From<u8> for DevicePixels {
    fn from(value: u8) -> (r: Self) {
        DevicePixels(value as i32)
    }
}

/// The value cast to `i32` (`as` keeps the low bits of wider values).
impl vstd::std_specs::convert::FromSpecImpl<u8> for DevicePixels {
    open spec fn obeys_from_spec() -> bool {
        true
    }

    open spec fn from_spec(value: u8) -> Self {
        DevicePixels(value as i32)
    }
}

impl From<u16> for DevicePixels {
    fn from(value: u16) -> (r: Self) {
        DevicePixels(value as i32)
    }
}

/// The value cast to `i32` (`as` keeps the low bits of wider values).
impl vstd::std_specs::convert::FromSpecImpl<u16> for DevicePixels {
    open spec fn obeys_from_spec() -> bool {
        true
    }

    open spec fn from_spec(value: u16) -> Self {
        DevicePixels(value as i32)
    }
}

impl From<u32> for DevicePixels {
    fn from(value: u32) -> (r: Self) {
        DevicePixels(value as i32)
    }
}

/// The value cast to `i32` (`as` keeps the low bits of wider values).
impl vstd::std_specs::convert::FromSpecImpl<u32> for DevicePixels {
    open spec fn obeys_from_spec() -> bool {
        true
    }

    open spec fn from_spec(value: u32) -> Self {
        DevicePixels(value as i32)
    }
}

impl From<u64> for DevicePixels {
    fn from(value: u64) -> (r: Self) {
        DevicePixels(value as i32)
    }
}

/// The value cast to `i32` (`as` keeps the low bits of wider values).
impl vstd::std_specs::convert::FromSpecImpl<u64> for DevicePixels {
    open spec fn obeys_from_spec() -> bool {
        true
    }

    open spec fn from_spec(value: u64) -> Self {
        DevicePixels(value as i32)
    }
}

impl From<i8> for DevicePixels {
    fn from(value: i8) -> (r: Self) {
        DevicePixels(value as i32)
    }
}

/// The value cast to `i32` (`as` keeps the low bits of wider values).
impl vstd::std_specs::convert::FromSpecImpl<i8> for DevicePixels {
    open spec fn obeys_from_spec() -> bool {
        true
    }

    open spec fn from_spec(value: i8) -> Self {
        DevicePixels(value as i32)
    }
}

impl From<i16> for DevicePixels {
    fn from(value: i16) -> (r: Self) {
        DevicePixels(value as i32)
    }
}

/// The value cast to `i32` (`as` keeps the low bits of wider values).
impl vstd::std_specs::convert::FromSpecImpl<i16> for DevicePixels {
    open spec fn obeys_from_spec() -> bool {
        true
    }

    open spec fn from_spec(value: i16) -> Self {
        DevicePixels(value as i32)
    }
}

impl From<i64> for DevicePixels {
    fn from(value: i64) -> (r: Self) {
        DevicePixels(value as i32)
    }
}

/// The value cast to `i32` (`as` keeps the low bits of wider values).
impl vstd::std_specs::convert::FromSpecImpl<i64> for DevicePixels {
    open spec fn obeys_from_spec() -> bool {
        true
    }

    open spec fn from_spec(value: i64) -> Self {
        DevicePixels(value as i32)
    }
}

impl core::ops::Add for DevicePixels {
    type Output = DevicePixels;

    fn add(self, rhs: DevicePixels) -> (r: DevicePixels) {
        DevicePixels(self.0 + rhs.0)
    }
}

impl vstd::std_specs::ops::AddSpecImpl for DevicePixels {
    open spec fn obeys_add_spec() -> bool {
        true
    }

    open spec fn add_req(self, rhs: DevicePixels) -> bool {
        i32::MIN <= self.0 + rhs.0 <= i32::MAX
    }

    open spec fn add_spec(self, rhs: DevicePixels) -> DevicePixels {
        DevicePixels((self.0 + rhs.0) as i32)
    }
}

impl core::ops::Sub for DevicePixels {
    type Output = DevicePixels;

    fn sub(self, rhs: DevicePixels) -> (r: DevicePixels) {
        DevicePixels(self.0 - rhs.0)
    }
}

impl vstd::std_specs::ops::SubSpecImpl for DevicePixels {
    open spec fn obeys_sub_spec() -> bool {
        true
    }

    open spec fn sub_req(self, rhs: DevicePixels) -> bool {
        i32::MIN <= self.0 - rhs.0 <= i32::MAX
    }

    open spec fn sub_spec(self, rhs: DevicePixels) -> DevicePixels {
        DevicePixels((self.0 - rhs.0) as i32)
    }
}

/// Makes a `DevicePixels` out of anything that converts into one.
pub fn device_px<V: Into<DevicePixels>>(val: V) -> (r: DevicePixels)
    ensures
        V::obeys_into_spec() ==> r == val.into_spec(),
{
    val.into()
}

} // verus!
