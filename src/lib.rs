//! Verified descriptor marshalling and callback dispatch for the sokol
//! application and graphics libraries.
pub mod app;
pub mod gfx;
pub mod marshal;
