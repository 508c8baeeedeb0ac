//! Verified decision logic for bringing up a GPU context: which layers and
//! extensions to request, which physical device and queue family to use, how
//! driver diagnostics map to log levels, and in which order native objects
//! are released.

pub mod device;
pub mod error;
pub mod capability;
pub mod diagnostics;
pub mod lifecycle;
pub mod bootstrap;
