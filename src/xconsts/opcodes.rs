//! Major opcodes of the core requests that this client sends.
use vstd::prelude::*;

verus! {

pub const CREATE_WINDOW: u8 = 1;

pub const MAP_WINDOW: u8 = 8;

pub const CHANGE_PROPERTY: u8 = 18;

pub const GRAB_BUTTON: u8 = 28;

pub const GRAB_KEYBOARD: u8 = 31;

pub const UNGRAB_KEYBOARD: u8 = 32;

pub const GRAB_KEY: u8 = 33;

pub const ALLOW_EVENTS: u8 = 35;

} // verus!
