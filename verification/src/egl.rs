//! The EGL backend: entry points, displays, configs, contexts and surfaces.

pub mod config;
pub mod context;
pub mod display;
pub mod flag;
pub mod guard;
pub mod surface;
pub mod table;
