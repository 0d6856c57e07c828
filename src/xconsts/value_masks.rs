//! Bits of a window's value mask, one for each optional attribute, in the
//! order in which the attributes go on the wire.
use vstd::prelude::*;

verus! {

pub const BACKGROUND_PIXMAP: u32 = 0x00000001;

pub const BACKGROUND_PIXEL: u32 = 0x00000002;

pub const BORDER_PIXMAP: u32 = 0x00000004;

pub const BORDER_PIXEL: u32 = 0x00000008;

pub const BIT_GRAVITY: u32 = 0x00000010;

pub const WIN_GRAVITY: u32 = 0x00000020;

pub const BACKING_STORE: u32 = 0x00000040;

pub const BACKING_PLANES: u32 = 0x00000080;

pub const BACKING_PIXEL: u32 = 0x00000100;

pub const OVERRIDE_REDIRECT: u32 = 0x00000200;

pub const SAVE_UNDER: u32 = 0x00000400;

pub const EVENT_MASK: u32 = 0x00000800;

pub const DO_NOT_PROPAGATE_MASK: u32 = 0x00001000;

pub const COLORMAP: u32 = 0x00002000;

pub const CURSOR: u32 = 0x00004000;

/// Number of optional window attributes.
pub const ATTRIBUTE_COUNT: u32 = 15;

} // verus!
