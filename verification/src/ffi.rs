//! Numeric constants of the EGL interface.
//!
//! Attribute names and values are kept as `i32` because that is the element
//! type of the attribute lists handed to the native side.  Error codes are
//! kept as `u32`.

use vstd::prelude::*;

verus! {

/// Terminator of every attribute list.
pub const NONE: i32 = 0x3038;

pub const TRUE: i32 = 1;

pub const FALSE: i32 = 0;

/// The "no display" sentinel.
pub const NO_DISPLAY: usize = 0;

/// The "no context" sentinel.
pub const NO_CONTEXT: usize = 0;

/// The "no surface" sentinel.
pub const NO_SURFACE: usize = 0;

/// The native display id that asks for the default display.
pub const DEFAULT_DISPLAY: usize = 0;

// Config attributes.
pub const ALPHA_SIZE: i32 = 0x3021;

pub const BLUE_SIZE: i32 = 0x3022;

pub const GREEN_SIZE: i32 = 0x3023;

pub const RED_SIZE: i32 = 0x3024;

pub const DEPTH_SIZE: i32 = 0x3025;

pub const STENCIL_SIZE: i32 = 0x3026;

pub const CONFIG_CAVEAT: i32 = 0x3027;

pub const NATIVE_VISUAL_ID: i32 = 0x302E;

pub const SAMPLES: i32 = 0x3031;

pub const SURFACE_TYPE: i32 = 0x3033;

pub const MIN_SWAP_INTERVAL: i32 = 0x303B;

pub const MAX_SWAP_INTERVAL: i32 = 0x303C;

pub const COLOR_BUFFER_TYPE: i32 = 0x303F;

pub const RENDERABLE_TYPE: i32 = 0x3040;

pub const CONFORMANT: i32 = 0x3042;

// Config attribute values.
pub const SLOW_CONFIG: i32 = 0x3050;

pub const RGB_BUFFER: i32 = 0x308E;

pub const PBUFFER_BIT: i32 = 0x0001;

pub const PIXMAP_BIT: i32 = 0x0002;

pub const WINDOW_BIT: i32 = 0x0004;

pub const OPENGL_ES_BIT: i32 = 0x0001;

pub const OPENGL_ES2_BIT: i32 = 0x0004;

pub const OPENGL_BIT: i32 = 0x0008;

pub const OPENGL_ES3_BIT: i32 = 0x0040;

// Strings and client APIs.
pub const EXTENSIONS: i32 = 0x3055;

pub const OPENGL_ES_API: u32 = 0x30A0;

pub const OPENGL_API: u32 = 0x30A2;

// Context attributes.
pub const CONTEXT_MAJOR_VERSION: i32 = 0x3098;

pub const CONTEXT_CLIENT_VERSION: i32 = 0x3098;

pub const CONTEXT_MINOR_VERSION: i32 = 0x30FB;

pub const CONTEXT_FLAGS_KHR: i32 = 0x30FC;

pub const CONTEXT_OPENGL_DEBUG: i32 = 0x31B0;

pub const CONTEXT_OPENGL_ROBUST_ACCESS: i32 = 0x31B2;

pub const CONTEXT_OPENGL_NO_ERROR_KHR: i32 = 0x31B3;

pub const CONTEXT_OPENGL_RESET_NOTIFICATION_STRATEGY: i32 = 0x31BD;

pub const NO_RESET_NOTIFICATION: i32 = 0x31BE;

pub const LOSE_CONTEXT_ON_RESET: i32 = 0x31BF;

pub const CONTEXT_RELEASE_BEHAVIOR_NONE_KHR: i32 = 0;

pub const CONTEXT_RELEASE_BEHAVIOR_KHR: i32 = 0x2097;

pub const CONTEXT_RELEASE_BEHAVIOR_FLUSH_KHR: i32 = 0x2098;

// Surface attributes.
pub const HEIGHT: i32 = 0x3056;

pub const WIDTH: i32 = 0x3057;

pub const DRAW: i32 = 0x3059;

pub const READ: i32 = 0x305A;

pub const NO_TEXTURE: i32 = 0x305C;

pub const TEXTURE_RGB: i32 = 0x305D;

pub const TEXTURE_RGBA: i32 = 0x305E;

pub const TEXTURE_FORMAT: i32 = 0x3080;

pub const GL_COLORSPACE_SRGB_KHR: i32 = 0x3089;

pub const GL_COLORSPACE_LINEAR_KHR: i32 = 0x308A;

pub const GL_COLORSPACE_KHR: i32 = 0x309D;

// Platforms of the platform-display entry points.
pub const PLATFORM_DEVICE_EXT: u32 = 0x313F;

pub const PLATFORM_ANDROID_KHR: u32 = 0x3141;

pub const PLATFORM_X11_KHR: u32 = 0x31D5;

pub const PLATFORM_X11_EXT: u32 = 0x31D5;

pub const PLATFORM_X11_SCREEN_KHR: i32 = 0x31D6;

pub const PLATFORM_X11_SCREEN_EXT: i32 = 0x31D6;

pub const PLATFORM_GBM_KHR: u32 = 0x31D7;

pub const PLATFORM_WAYLAND_KHR: u32 = 0x31D8;

pub const PLATFORM_WAYLAND_EXT: u32 = 0x31D8;

// Error codes.
pub const SUCCESS: u32 = 0x3000;

pub const BAD_ATTRIBUTE: u32 = 0x3004;

pub const BAD_MATCH: u32 = 0x3009;

pub const CONTEXT_LOST: u32 = 0x300E;

} // verus!
