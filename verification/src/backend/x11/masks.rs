//! The bits of the protocol's masks, taken from the `x11rb` crate.
//!
//! Nothing here is proved: each function returns a constant of `x11rb`, and
//! its contract says which bit the protocol gives it.

use vstd::prelude::*;
use crate::backend::x11::window::{
    BUTTON_MASK_1, BUTTON_MASK_2, BUTTON_MASK_3, MOD_MASK_1, MOD_MASK_2, MOD_MASK_4, MOD_MASK_CONTROL,
    MOD_MASK_LOCK, MOD_MASK_SHIFT, TOUCH_EMULATING_POINTER,
};

verus! {

/// `x11rb::protocol::xproto::ModMask::SHIFT` as a number: bit 0 of a key
/// and button mask.
#[verifier::external_body]
pub(crate) fn mod_mask_shift() -> (m: u16)
    ensures
        m == MOD_MASK_SHIFT,
{
    u16::from(x11rb::protocol::xproto::ModMask::SHIFT)
}

/// `x11rb::protocol::xproto::ModMask::LOCK` as a number: bit 1 of a key
/// and button mask.
#[verifier::external_body]
pub(crate) fn mod_mask_lock() -> (m: u16)
    ensures
        m == MOD_MASK_LOCK,
{
    u16::from(x11rb::protocol::xproto::ModMask::LOCK)
}

/// `x11rb::protocol::xproto::ModMask::CONTROL` as a number: bit 2 of a key
/// and button mask.
#[verifier::external_body]
pub(crate) fn mod_mask_control() -> (m: u16)
    ensures
        m == MOD_MASK_CONTROL,
{
    u16::from(x11rb::protocol::xproto::ModMask::CONTROL)
}

/// `x11rb::protocol::xproto::ModMask::M1` as a number: bit 3 of a key and
/// button mask.
#[verifier::external_body]
pub(crate) fn mod_mask_1() -> (m: u16)
    ensures
        m == MOD_MASK_1,
{
    u16::from(x11rb::protocol::xproto::ModMask::M1)
}

/// `x11rb::protocol::xproto::ModMask::M2` as a number: bit 4 of a key and
/// button mask.
#[verifier::external_body]
pub(crate) fn mod_mask_2() -> (m: u16)
    ensures
        m == MOD_MASK_2,
{
    u16::from(x11rb::protocol::xproto::ModMask::M2)
}

/// `x11rb::protocol::xproto::ModMask::M4` as a number: bit 6 of a key and
/// button mask.
#[verifier::external_body]
pub(crate) fn mod_mask_4() -> (m: u16)
    ensures
        m == MOD_MASK_4,
{
    u16::from(x11rb::protocol::xproto::ModMask::M4)
}

/// `x11rb::protocol::xproto::ButtonMask::M1` as a number: bit 8 of a key
/// and button mask.
#[verifier::external_body]
pub(crate) fn button_mask_1() -> (m: u16)
    ensures
        m == BUTTON_MASK_1,
{
    u16::from(x11rb::protocol::xproto::ButtonMask::M1)
}

/// `x11rb::protocol::xproto::ButtonMask::M2` as a number: bit 9 of a key
/// and button mask.
#[verifier::external_body]
pub(crate) fn button_mask_2() -> (m: u16)
    ensures
        m == BUTTON_MASK_2,
{
    u16::from(x11rb::protocol::xproto::ButtonMask::M2)
}

/// `x11rb::protocol::xproto::ButtonMask::M3` as a number: bit 10 of a key
/// and button mask.
#[verifier::external_body]
pub(crate) fn button_mask_3() -> (m: u16)
    ensures
        m == BUTTON_MASK_3,
{
    u16::from(x11rb::protocol::xproto::ButtonMask::M3)
}

/// `x11rb::protocol::xinput::TouchEventFlags::TOUCH_EMULATING_POINTER` as
/// a number: bit 17 of the flags of a touch event.
#[verifier::external_body]
pub(crate) fn touch_emulating_pointer() -> (m: u32)
    ensures
        m == TOUCH_EMULATING_POINTER,
{
    u32::from(x11rb::protocol::xinput::TouchEventFlags::TOUCH_EMULATING_POINTER)
}

} // verus!
