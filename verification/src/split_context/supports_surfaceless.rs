//! Whether a context can be made current without a surface.

use vstd::prelude::*;

verus! {

/// A type that says whether a context can be current without a surface.
pub trait SupportsSurfacelessTrait: Copy {
    /// What the type says.
    spec fn offered() -> bool;

    /// What the type says.
    fn supported() -> (b: bool)
        ensures
            b == Self::offered(),
    ;
}

/// A context can be current without a surface.
#[derive(Clone, Copy, Debug)]
pub enum Yes {
    Supported,
}

/// A context cannot be current without a surface.
#[derive(Clone, Copy, Debug)]
pub enum No {
    Unsupported,
}

impl SupportsSurfacelessTrait for Yes {
    open spec fn offered() -> bool {
        true
    }

    #[inline]
    fn supported() -> (b: bool) {
        true
    }
}

impl SupportsSurfacelessTrait for No {
    open spec fn offered() -> bool {
        false
    }

    #[inline]
    fn supported() -> (b: bool) {
        false
    }
}

} // verus!
