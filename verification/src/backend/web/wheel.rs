//! The delta modes of the DOM's wheel events, taken from the `web-sys`
//! crate.
//!
//! Nothing here is proved: each function returns a constant of `web-sys`,
//! and its contract says which number the DOM gives it.

use vstd::prelude::*;
use crate::backend::web::window::{DOM_DELTA_LINE, DOM_DELTA_PAGE, DOM_DELTA_PIXEL};

verus! {

/// `web_sys::WheelEvent::DOM_DELTA_PIXEL`: the delta mode that counts
/// pixels, which is 0.
#[verifier::external_body]
pub(crate) fn dom_delta_pixel() -> (m: u32)
    ensures
        m == DOM_DELTA_PIXEL,
{
    web_sys::WheelEvent::DOM_DELTA_PIXEL
}

/// `web_sys::WheelEvent::DOM_DELTA_LINE`: the delta mode that counts
/// lines, which is 1.
#[verifier::external_body]
pub(crate) fn dom_delta_line() -> (m: u32)
    ensures
        m == DOM_DELTA_LINE,
{
    web_sys::WheelEvent::DOM_DELTA_LINE
}

/// `web_sys::WheelEvent::DOM_DELTA_PAGE`: the delta mode that counts
/// pages, which is 2.
#[verifier::external_body]
pub(crate) fn dom_delta_page() -> (m: u32)
    ensures
        m == DOM_DELTA_PAGE,
{
    web_sys::WheelEvent::DOM_DELTA_PAGE
}

} // verus!
