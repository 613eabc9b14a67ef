//! CH9329 command opcodes (subset).

use vstd::prelude::*;

verus! {

/// Query chip info (`GET_INFO`). Some firmware does not answer this; a
/// missing response is harmless and must not be treated as an error.
pub const GET_INFO: u8 = 0x01;
/// Standard keyboard report.
pub const KEYBOARD: u8 = 0x02;
/// Absolute mouse move/buttons.
pub const MOUSE_ABS: u8 = 0x04;
/// Relative mouse move/buttons.
pub const MOUSE_REL: u8 = 0x05;
/// Query parameter config (`GET_PARA_CFG`).
pub const GET_PARA_CFG: u8 = 0x08;
/// Set parameter config (`SET_PARA_CFG`).
pub const SET_PARA_CFG: u8 = 0x09;
/// Software reset.
pub const RESET: u8 = 0x0F;

} // verus!
