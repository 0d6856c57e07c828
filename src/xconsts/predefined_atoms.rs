//! Atoms that every server predefines.
use vstd::prelude::*;

verus! {

pub const STRING: u32 = 31;

pub const WM_NAME: u32 = 39;

} // verus!
