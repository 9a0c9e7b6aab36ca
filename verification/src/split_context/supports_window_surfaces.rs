//! Whether a context can be made current with window surfaces.

use vstd::prelude::*;

verus! {

/// A type that says whether window surfaces are supported.
pub trait SupportsWindowSurfacesTrait: Copy {
    /// What the type says.
    spec fn offered() -> bool;

    /// What the type says.
    fn supported() -> (b: bool)
        ensures
            b == Self::offered(),
    ;
}

/// Window surfaces are supported.
#[derive(Clone, Copy, Debug)]
pub enum Yes {
    Supported,
}

/// Window surfaces are not supported.
#[derive(Clone, Copy, Debug)]
pub enum No {
    Unsupported,
}

impl SupportsWindowSurfacesTrait for Yes {
    open spec fn offered() -> bool {
        true
    }

    #[inline]
    fn supported() -> (b: bool) {
        true
    }
}

impl SupportsWindowSurfacesTrait for No {
    open spec fn offered() -> bool {
        false
    }

    #[inline]
    fn supported() -> (b: bool) {
        false
    }
}

} // verus!
