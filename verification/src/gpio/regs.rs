//! # Register definitions.
//!
//! The register block of the AXI GPIO core, as byte offsets from its base address.
pub mod fields;

use vstd::prelude::*;

verus! {

/// Channel 1 data register.
pub const CH1_DATA_OFFSET: usize = 0x000;

/// Channel 1 tri-state (direction) register.
pub const CH1_TRI_STATE_OFFSET: usize = 0x004;

/// Channel 2 data register.
pub const CH2_DATA_OFFSET: usize = 0x008;

/// Channel 2 tri-state (direction) register.
pub const CH2_TRI_STATE_OFFSET: usize = 0x00C;

/// Global interrupt enable register.
pub const GLOBAL_INTERRUPT_ENABLE_OFFSET: usize = 0x11C;

/// Interrupt status register. This is a Read/Toggle-on-write register.
pub const INTERRUPT_STATUS_OFFSET: usize = 0x120;

/// Per-channel interrupt enable register.
pub const INTERRUPT_ENABLE_OFFSET: usize = 0x128;

/// Size of the whole register block in bytes.
pub const REGISTER_BLOCK_SIZE: usize = 0x12C;

} // verus!
