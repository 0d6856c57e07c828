//! Named constants of the core protocol.
pub mod opcodes;
pub mod predefined_atoms;
pub mod value_masks;
