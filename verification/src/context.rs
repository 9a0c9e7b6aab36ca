//! What a caller asks of a context.

use crate::config::ConfigAttribs;
use vstd::prelude::*;

verus! {

/// How a context behaves after the GPU was reset or a command went wrong.
#[derive(Clone, Copy, Debug, PartialEq, Eq, Structural)]
pub enum Robustness {
    /// No guarantee is asked for.
    NotRobust,
    /// Errors are not reported at all, where the display can do that.
    NoError,
    /// Robust access without notice of a reset; an error where the display
    /// cannot do that.
    RobustNoResetNotification,
    /// Robust access without notice of a reset, where the display can do
    /// that.
    TryRobustNoResetNotification,
    /// Robust access, and the context is lost on a reset; an error where the
    /// display cannot do that.
    RobustLoseContextOnReset,
    /// Robust access, and the context is lost on a reset, where the display
    /// can do that.
    TryRobustLoseContextOnReset,
}

impl Robustness {
    /// Whether the policy asks for robust access.
    pub open spec fn robust(self) -> bool {
        self != Robustness::NotRobust && self != Robustness::NoError
    }

    /// Whether the policy has to be met: a display that cannot meet it fails
    /// the request.
    pub open spec fn strict(self) -> bool {
        self == Robustness::RobustNoResetNotification || self
            == Robustness::RobustLoseContextOnReset
    }

    /// Whether the policy has to be met.
    pub fn is_strict(&self) -> (b: bool)
        ensures
            b == self.strict(),
    {
        match *self {
            Robustness::RobustNoResetNotification | Robustness::RobustLoseContextOnReset => true,
            _ => false,
        }
    }
}

/// What a caller asks of a context.  `T` is what stands for the context to
/// share objects with.
#[derive(Clone, Copy, Debug, PartialEq, Eq)]
pub struct ContextBuilderWrapper<T> {
    /// The context to share objects with.
    pub sharing: Option<T>,
    /// Whether a debug context is asked for.
    pub debug: bool,
    pub robustness: Robustness,
}

/// The format of the frame buffer that a context renders to.
#[derive(Clone, Copy, Debug, PartialEq, Eq)]
pub struct PixelFormat {
    pub hardware_accelerated: bool,
    /// Bits of red, green and blue together.
    pub color_bits: u8,
    pub alpha_bits: u8,
    pub depth_bits: u8,
    pub stencil_bits: u8,
    pub stereoscopy: bool,
    pub double_buffer: bool,
    pub multisampling: Option<u16>,
    pub srgb: bool,
}

impl PixelFormat {
    /// The format that a config with these attributes has.
    pub open spec fn of(attribs: ConfigAttribs) -> PixelFormat {
        PixelFormat {
            hardware_accelerated: attribs.hardware_accelerated,
            color_bits: attribs.color_bits,
            alpha_bits: attribs.alpha_bits,
            depth_bits: attribs.depth_bits,
            stencil_bits: attribs.stencil_bits,
            stereoscopy: attribs.stereoscopy,
            double_buffer: attribs.double_buffer,
            multisampling: attribs.multisampling,
            srgb: attribs.srgb,
        }
    }

    /// The format that a config with these attributes has.
    pub fn from_attribs(attribs: &ConfigAttribs) -> (f: PixelFormat)
        ensures
            f == PixelFormat::of(*attribs),
    {
        PixelFormat {
            hardware_accelerated: attribs.hardware_accelerated,
            color_bits: attribs.color_bits,
            alpha_bits: attribs.alpha_bits,
            depth_bits: attribs.depth_bits,
            stencil_bits: attribs.stencil_bits,
            stereoscopy: attribs.stereoscopy,
            double_buffer: attribs.double_buffer,
            multisampling: attribs.multisampling,
            srgb: attribs.srgb,
        }
    }
}

} // verus!
