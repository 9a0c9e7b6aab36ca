//! Whether a context can be made current with buffers off the screen.

use vstd::prelude::*;

verus! {

/// A type that says whether buffers off the screen are supported.
pub trait SupportsPBuffersTrait: Copy {
    /// What the type says.
    spec fn offered() -> bool;

    /// What the type says.
    fn supported() -> (b: bool)
        ensures
            b == Self::offered(),
    ;
}

/// Buffers off the screen are supported.
#[derive(Clone, Copy, Debug)]
pub enum Yes {
    Supported,
}

/// Buffers off the screen are not supported.
#[derive(Clone, Copy, Debug)]
pub enum No {
    Unsupported,
}

impl SupportsPBuffersTrait for Yes {
    open spec fn offered() -> bool {
        true
    }

    #[inline]
    fn supported() -> (b: bool) {
        true
    }
}

impl SupportsPBuffersTrait for No {
    open spec fn offered() -> bool {
        false
    }

    #[inline]
    fn supported() -> (b: bool) {
        false
    }
}

} // verus!
