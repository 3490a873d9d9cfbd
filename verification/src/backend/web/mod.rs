//! The web backend: DOM events in, handler calls and DOM requests out.

pub mod wheel;
pub mod window;
