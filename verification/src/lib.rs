//! Lifecycle management for EGL rendering contexts, written so that every
//! decision is verified.
//!
//! The crate never talks to the native EGL implementation itself.  Each
//! operation is split into the value that describes the native call to make
//! and the function that takes what the native call answered and decides how
//! to go on.  The embedding program performs the calls.  Native handles are
//! carried as plain addresses, with `0` for the "no display", "no context" and
//! "no surface" sentinels.

pub mod config;
pub mod context;
pub mod egl;
pub mod error;
pub mod ffi;
pub mod split_context;
pub mod surface;
pub mod windowed;

