//! Normalizing conversions for the convertible-into-optional calling style:
//! a caller may pass a bare value or an explicit optional, and either form is
//! normalized into the optional the invoker expects.

use vstd::prelude::*;

verus! {

/// A value that normalizes into an optional unsigned argument: either a bare
/// value (always present) or an explicit optional.
pub trait IntoOptionU32: Sized {
    /// The optional this value normalizes to.
    spec fn option_spec(self) -> Option<u32>;

    /// Normalize into the optional form.
    fn into_option(self) -> (r: Option<u32>)
        ensures
            r == self.option_spec(),
    ;
}

impl IntoOptionU32 for u32 {
    open spec fn option_spec(self) -> Option<u32> {
        Some(self)
    }

    fn into_option(self) -> (r: Option<u32>) {
        Some(self)
    }
}

impl IntoOptionU32 for Option<u32> {
    open spec fn option_spec(self) -> Option<u32> {
        self
    }

    fn into_option(self) -> (r: Option<u32>) {
        self
    }
}

/// A value that normalizes into an optional signed argument: either a bare
/// value (always present) or an explicit optional.
pub trait IntoOptionI32: Sized {
    /// The optional this value normalizes to.
    spec fn option_spec(self) -> Option<i32>;

    /// Normalize into the optional form.
    fn into_option(self) -> (r: Option<i32>)
        ensures
            r == self.option_spec(),
    ;
}

impl IntoOptionI32 for i32 {
    open spec fn option_spec(self) -> Option<i32> {
        Some(self)
    }

    fn into_option(self) -> (r: Option<i32>) {
        Some(self)
    }
}

impl IntoOptionI32 for Option<i32> {
    open spec fn option_spec(self) -> Option<i32> {
        self
    }

    fn into_option(self) -> (r: Option<i32>) {
        self
    }
}

} // verus!
