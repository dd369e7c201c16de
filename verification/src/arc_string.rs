use vstd::prelude::*;
use std::sync::Arc;

verus! {

/// A value that is either borrowed for `'a` or shared through an `Arc`.
pub enum ArcCow<'a, T: ?Sized> {
    Borrowed(&'a T),
    Owned(Arc<T>),
}

impl<'a, T: ?Sized + View> ArcCow<'a, T> {
    /// The value, borrowed or shared.
    pub open spec fn view_value(&self) -> T::V {
        match self {
            ArcCow::Borrowed(b) => b@,
            ArcCow::Owned(o) => o@,
        }
    }

    pub fn as_ref(&self) -> (r: &T)
        ensures
            r@ == self.view_value(),
    {
        match self {
            ArcCow::Borrowed(borrowed) => borrowed,
            ArcCow::Owned(owned) => &**owned,
        }
    }
}

impl<'a, T: ?Sized> From<&'a T> for ArcCow<'a, T> {
    fn from(s: &'a T) -> (r: Self) {
        ArcCow::Borrowed(s)
    }
}

impl<'a, T: ?Sized> vstd::std_specs::convert::FromSpecImpl<&'a T> for ArcCow<'a, T> {
    open spec fn obeys_from_spec() -> bool {
        true
    }

    open spec fn from_spec(s: &'a T) -> Self {
        ArcCow::Borrowed(s)
    }
}

impl<'a, T: ?Sized> From<Arc<T>> for ArcCow<'a, T> {
    fn from(s: Arc<T>) -> (r: Self) {
        ArcCow::Owned(s)
    }
}

impl<'a, T: ?Sized> vstd::std_specs::convert::FromSpecImpl<Arc<T>> for ArcCow<'a, T> {
    open spec fn obeys_from_spec() -> bool {
        true
    }

    open spec fn from_spec(s: Arc<T>) -> Self {
        ArcCow::Owned(s)
    }
}

/// A string that is either a `'static` literal or shared through an `Arc`.
pub struct ArcString(pub ArcCow<'static, str>);

impl View for ArcString {
    type V = Seq<char>;

    open spec fn view(&self) -> Seq<char> {
        self.0.view_value()
    }
}

impl ArcString {
    /// Wraps a `'static` string without copying it.
    pub fn new_static(str: &'static str) -> (r: Self)
        ensures
            r@ == str@,
            r.0 == ArcCow::<'static, str>::Borrowed(str),
    {
        Self(ArcCow::Borrowed(str))
    }

    /// The text.
    pub fn as_str(&self) -> (r: &str)
        ensures
            r@ == self@,
    {
        self.0.as_ref()
    }
}

impl PartialEq for ArcString {
    /// Two strings are equal when their texts are, whether borrowed or shared.
    fn eq(&self, other: &Self) -> (r: bool) {
        let a: String = self.as_str().to_owned();
        let b: String = other.as_str().to_owned();
        a == b
    }
}

impl Eq for ArcString {
}

impl vstd::std_specs::cmp::PartialEqSpecImpl for ArcString {
    open spec fn obeys_eq_spec() -> bool {
        true
    }

    open spec fn eq_spec(&self, other: &Self) -> bool {
        self@ == other@
    }
}

impl From<&'static str> for ArcString {
    fn from(value: &'static str) -> (r: Self) {
        Self::new_static(value)
    }
}

impl vstd::std_specs::convert::FromSpecImpl<&'static str> for ArcString {
    open spec fn obeys_from_spec() -> bool {
        true
    }

    open spec fn from_spec(value: &'static str) -> Self {
        ArcString(ArcCow::Borrowed(value))
    }
}

} // verus!
