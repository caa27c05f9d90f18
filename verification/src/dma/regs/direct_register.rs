//! Direct-register (simple) mode register layout of the AXI DMA IP core, as byte offsets.
pub mod fields;

pub use crate::dma::regs::fields::{Control, Status};
pub use self::fields::TransferLength;

use vstd::prelude::*;

verus! {

/// Memory-Mapped to AXI-Stream (MM2S) subregister block, as byte offsets from its base.
pub struct Mm2sRegisters;

impl Mm2sRegisters {
    /// Control register (DMACR).
    pub const CONTROL: usize = 0x00;
    /// Status register (DMASR).
    pub const STATUS: usize = 0x04;
    /// Lower word of the source address.
    pub const SOURCE_ADDRESS_LOWER_WORD: usize = 0x18;
    /// Upper word of the source address.
    pub const SOURCE_ADDRESS_UPPER_WORD: usize = 0x1C;
    /// Transfer length; writing it starts the transfer.
    pub const TRANSFER_LENGTH: usize = 0x28;
    /// Size of the subregister block in bytes.
    pub const SIZE: usize = 0x2C;
}

/// AXI-Stream to Memory-Mapped (S2MM) subregister block, as byte offsets from its base.
pub struct S2mmRegisters;

impl S2mmRegisters {
    /// Control register (DMACR).
    pub const CONTROL: usize = 0x00;
    /// Status register (DMASR).
    pub const STATUS: usize = 0x04;
    /// Lower word of the destination address.
    pub const DEST_ADDRESS_LOWER_WORD: usize = 0x18;
    /// Upper word of the destination address.
    pub const DEST_ADDRESS_UPPER_WORD: usize = 0x1C;
    /// Transfer length: the maximum to receive when written, the bytes received once done.
    pub const TRANSFER_LENGTH: usize = 0x28;
    /// Size of the subregister block in bytes.
    pub const SIZE: usize = 0x2C;
}

/// Unified register block of the AXI DMA IP core, as byte offsets from its base.
///
/// The MM2S and S2MM channels are separate, non-overlapping subregister blocks, so that
/// independent handles to each channel can be handed out of a single controller.
pub struct Registers;

impl Registers {
    /// Offset of the [`Mm2sRegisters`] block.
    pub const MM2S: usize = 0x00;
    /// Offset of the [`S2mmRegisters`] block.
    pub const S2MM: usize = 0x30;
    /// Size of the register block in bytes.
    pub const SIZE: usize = 0x5C;
}

} // verus!
