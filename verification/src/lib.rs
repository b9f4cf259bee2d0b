//! Host capability bridge: the small, fixed set of host operations that a
//! sandboxed front-end may invoke by name.

pub mod branding;
pub mod bridge;
pub mod greeting;
pub mod identity;
pub mod lifecycle;
pub mod text;
