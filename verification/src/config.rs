//! What a caller asks of a config, and what a selected config offers.

use vstd::prelude::*;

verus! {

/// The client API a context renders with.
#[derive(Clone, Copy, Debug, PartialEq, Eq, Structural)]
pub enum Api {
    /// Desktop OpenGL.
    OpenGl,
    /// OpenGL ES.
    OpenGlEs,
    /// WebGL; no native display offers it.
    WebGl,
}

/// A major and a minor version number.
#[derive(Clone, Copy, Debug, PartialEq, Eq, Structural)]
pub struct Version(pub u8, pub u8);

/// What happens to pending commands when a context stops being current.
#[derive(Clone, Copy, Debug, PartialEq, Eq, Structural)]
pub enum ReleaseBehavior {
    /// Nothing is flushed.
    Keep,
    /// Pending commands are flushed.
    Flush,
}

/// How presentation synchronises with the display's refresh.
#[derive(Clone, Copy, Debug, PartialEq, Eq, Structural)]
pub enum SwapInterval {
    /// Present at once.
    DontWait,
    /// Wait for this many refreshes.
    Wait(u32),
    /// Wait for this many refreshes, unless the frame is already late.
    AdaptiveWait(u32),
}

impl SwapInterval {
    /// The number handed to the native swap-interval call.
    pub open spec fn count(self) -> u32 {
        match self {
            SwapInterval::DontWait => 0,
            SwapInterval::Wait(n) => n,
            SwapInterval::AdaptiveWait(n) => n,
        }
    }

    /// The number handed to the native swap-interval call.
    pub fn refreshes(&self) -> (n: u32)
        ensures
            n == self.count(),
    {
        match *self {
            SwapInterval::DontWait => 0,
            SwapInterval::Wait(n) => n,
            SwapInterval::AdaptiveWait(n) => n,
        }
    }
}

/// A set of swap intervals that a config accepts.  `Wait` and `AdaptiveWait`
/// hold the numbers from `start` up to, but without, `end`.
#[derive(Clone, Copy, Debug, PartialEq, Eq, Structural)]
pub enum SwapIntervalRange {
    DontWait,
    Wait { start: u32, end: u32 },
    AdaptiveWait { start: u32, end: u32 },
}

impl SwapIntervalRange {
    /// The swap interval a config is given when the caller named none: the
    /// smallest one of the range.
    pub open spec fn lowest(self) -> SwapInterval {
        match self {
            SwapIntervalRange::DontWait => SwapInterval::DontWait,
            SwapIntervalRange::Wait { start, end } => SwapInterval::Wait(start),
            SwapIntervalRange::AdaptiveWait { start, end } => SwapInterval::AdaptiveWait(start),
        }
    }
}

/// The swap intervals a config accepts, as one or two ranges, the preferred
/// one first.
#[derive(Clone, Copy, Debug, PartialEq, Eq)]
pub struct SwapIntervalRanges {
    pub first: SwapIntervalRange,
    pub second: Option<SwapIntervalRange>,
}

impl SwapIntervalRanges {
    /// The ranges of a config whose native minimum and maximum swap intervals
    /// are `min` and `max`.
    pub open spec fn of(min: u32, max: u32) -> SwapIntervalRanges {
        if min == 0 && max == 0 {
            SwapIntervalRanges { first: SwapIntervalRange::DontWait, second: None }
        } else if min == 0 {
            SwapIntervalRanges {
                first: SwapIntervalRange::Wait { start: 1, end: max },
                second: Some(SwapIntervalRange::DontWait),
            }
        } else {
            SwapIntervalRanges {
                first: SwapIntervalRange::Wait { start: min, end: max },
                second: None,
            }
        }
    }

    /// The ranges of a config whose native minimum and maximum swap intervals
    /// are `min` and `max`: not waiting alone when both are zero, waiting from
    /// one refresh on or not at all when only the minimum is zero, and waiting
    /// from `min` on otherwise.
    pub fn from_limits(min: u32, max: u32) -> (r: SwapIntervalRanges)
        ensures
            r == SwapIntervalRanges::of(min, max),
    {
        if min == 0 && max == 0 {
            SwapIntervalRanges { first: SwapIntervalRange::DontWait, second: None }
        } else if min == 0 {
            SwapIntervalRanges {
                first: SwapIntervalRange::Wait { start: 1, end: max },
                second: Some(SwapIntervalRange::DontWait),
            }
        } else {
            SwapIntervalRanges {
                first: SwapIntervalRange::Wait { start: min, end: max },
                second: None,
            }
        }
    }

    /// The swap interval used when the caller named none.
    pub fn default_interval(&self) -> (s: SwapInterval)
        ensures
            s == self.first.lowest(),
    {
        match self.first {
            SwapIntervalRange::DontWait => SwapInterval::DontWait,
            SwapIntervalRange::Wait { start, end } => SwapInterval::Wait(start),
            SwapIntervalRange::AdaptiveWait { start, end } => SwapInterval::AdaptiveWait(start),
        }
    }

    /// The ranges as a list, the preferred one first.
    pub fn to_vec(&self) -> (v: Vec<SwapIntervalRange>)
        ensures
            v@ == match self.second {
                Some(second) => seq![self.first, second],
                None => seq![self.first],
            },
    {
        let mut v: Vec<SwapIntervalRange> = Vec::new();
        v.push(self.first);
        match self.second {
            Some(second) => {
                v.push(second);
            },
            None => {},
        }
        v
    }
}

/// Hints that only some platforms understand.
#[derive(Clone, Copy, Debug, PartialEq, Eq)]
pub struct PlatformAttributes {
    /// The X11 visual the config has to match.
    pub x11_visual_xid: Option<i32>,
}

/// What a caller asks of a config.  A field left at `None` does not constrain
/// the choice.
#[derive(Clone, Copy, Debug, PartialEq, Eq)]
pub struct ConfigBuilder {
    pub version: (Api, Version),
    pub window_surface_support: bool,
    pub pbuffer_surface_support: bool,
    pub pixmap_surface_support: bool,
    pub surfaceless_support: bool,
    pub hardware_accelerated: Option<bool>,
    /// Bits of red, green and blue together.
    pub color_bits: Option<u8>,
    pub alpha_bits: Option<u8>,
    pub depth_bits: Option<u8>,
    pub stencil_bits: Option<u8>,
    pub double_buffer: Option<bool>,
    pub multisampling: Option<u16>,
    pub stereoscopy: bool,
    pub srgb: Option<bool>,
    pub release_behavior: ReleaseBehavior,
    pub desired_swap_interval: Option<SwapInterval>,
    pub plat_attr: PlatformAttributes,
}

impl ConfigBuilder {
    /// A request for desktop OpenGL 3.3 on a window, with no other
    /// constraint.
    pub open spec fn plain() -> ConfigBuilder {
        ConfigBuilder {
            version: (Api::OpenGl, Version(3, 3)),
            window_surface_support: true,
            pbuffer_surface_support: false,
            pixmap_surface_support: false,
            surfaceless_support: false,
            hardware_accelerated: None,
            color_bits: None,
            alpha_bits: None,
            depth_bits: None,
            stencil_bits: None,
            double_buffer: None,
            multisampling: None,
            stereoscopy: false,
            srgb: None,
            release_behavior: ReleaseBehavior::Flush,
            desired_swap_interval: None,
            plat_attr: PlatformAttributes { x11_visual_xid: None },
        }
    }

    /// A request for desktop OpenGL 3.3 on a window, with no other
    /// constraint.
    pub fn new() -> (cb: ConfigBuilder)
        ensures
            cb == ConfigBuilder::plain(),
    {
        ConfigBuilder {
            version: (Api::OpenGl, Version(3, 3)),
            window_surface_support: true,
            pbuffer_surface_support: false,
            pixmap_surface_support: false,
            surfaceless_support: false,
            hardware_accelerated: None,
            color_bits: None,
            alpha_bits: None,
            depth_bits: None,
            stencil_bits: None,
            double_buffer: None,
            multisampling: None,
            stereoscopy: false,
            srgb: None,
            release_behavior: ReleaseBehavior::Flush,
            desired_swap_interval: None,
            plat_attr: PlatformAttributes { x11_visual_xid: None },
        }
    }

    /// Whether config selection knows the API and version asked for:
    /// desktop OpenGL in any version, OpenGL ES in major version 1, 2 or 3.
    pub open spec fn version_known(self) -> bool {
        match self.version.0 {
            Api::OpenGl => true,
            Api::OpenGlEs => 1 <= self.version.1.0 <= 3,
            Api::WebGl => false,
        }
    }

    /// Whether config selection knows the API and version asked for.
    pub fn has_known_version(&self) -> (b: bool)
        ensures
            b == self.version_known(),
    {
        match self.version.0 {
            Api::OpenGl => true,
            Api::OpenGlEs => 1 <= self.version.1.0 && self.version.1.0 <= 3,
            Api::WebGl => false,
        }
    }
}

/// What a selected config offers.
#[derive(Clone, Copy, Debug, PartialEq, Eq)]
pub struct ConfigAttribs {
    pub version: (Api, Version),
    pub window_surface_support: bool,
    pub pbuffer_surface_support: bool,
    pub pixmap_surface_support: bool,
    pub surfaceless_support: bool,
    pub hardware_accelerated: bool,
    /// Bits of red, green and blue together.
    pub color_bits: u8,
    pub alpha_bits: u8,
    pub depth_bits: u8,
    pub stencil_bits: u8,
    pub stereoscopy: bool,
    pub double_buffer: bool,
    pub multisampling: Option<u16>,
    pub srgb: bool,
    pub release_behavior: ReleaseBehavior,
    pub desired_swap_interval: SwapInterval,
    pub swap_interval_ranges: SwapIntervalRanges,
}

/// A config together with what it offers.
#[derive(Clone, Copy, Debug, PartialEq, Eq)]
pub struct ConfigWrapper<C, A> {
    pub config: C,
    pub attribs: A,
}

impl<C, A> ConfigWrapper<C, A> {
    /// The same pair, borrowed.
    pub fn as_ref(&self) -> (r: ConfigWrapper<&C, &A>)
        ensures
            *r.config == self.config,
            *r.attribs == self.attribs,
    {
        ConfigWrapper { config: &self.config, attribs: &self.attribs }
    }
}

} // verus!
