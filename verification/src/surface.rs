//! The kinds of surface.

use vstd::prelude::*;

verus! {

/// What a surface is backed by.
#[derive(Clone, Copy, Debug, PartialEq, Eq, Structural)]
pub enum SurfaceType {
    /// A window on the screen.
    Window,
    /// A buffer off the screen.
    PBuffer,
    /// A native pixmap.
    Pixmap,
}

/// A type that stands for a kind of surface.
pub trait SurfaceTypeTrait {
    /// The kind that the type stands for.
    spec fn kind() -> SurfaceType;

    /// The kind that the type stands for.
    fn surface_type() -> (t: SurfaceType)
        ensures
            t == Self::kind(),
    ;
}

/// Stands for surfaces backed by a window.
#[derive(Clone, Copy, Debug, PartialEq, Eq)]
pub struct Window;

/// Stands for surfaces backed by a buffer off the screen.
#[derive(Clone, Copy, Debug, PartialEq, Eq)]
pub struct PBuffer;

/// Stands for surfaces backed by a native pixmap.
#[derive(Clone, Copy, Debug, PartialEq, Eq)]
pub struct Pixmap;

impl SurfaceTypeTrait for Window {
    open spec fn kind() -> SurfaceType {
        SurfaceType::Window
    }

    fn surface_type() -> (t: SurfaceType) {
        SurfaceType::Window
    }
}

impl SurfaceTypeTrait for PBuffer {
    open spec fn kind() -> SurfaceType {
        SurfaceType::PBuffer
    }

    fn surface_type() -> (t: SurfaceType) {
        SurfaceType::PBuffer
    }
}

impl SurfaceTypeTrait for Pixmap {
    open spec fn kind() -> SurfaceType {
        SurfaceType::Pixmap
    }

    fn surface_type() -> (t: SurfaceType) {
        SurfaceType::Pixmap
    }
}

} // verus!
