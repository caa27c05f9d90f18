//! Register definitions for the AXI DMA IP core.

/// Direct-register (simple) mode register definitions.
pub mod direct_register;
/// Bitfield types shared by [`direct_register`] and [`scatter_gather`].
pub mod fields;
/// Scatter-gather mode register and descriptor definitions.
pub mod scatter_gather;

pub use self::fields::{Control, RunStop, Status};
