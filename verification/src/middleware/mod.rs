//! Middleware configuration: the presets, and the global and grouped stacks.
pub mod internal;
pub mod presets;

pub use internal::{Middleware, MiddlewareStack};
pub use presets::{Cors, TrimStrings};
