//! The windowing backends.

pub mod web;
pub mod x11;
