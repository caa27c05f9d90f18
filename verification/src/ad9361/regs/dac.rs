//! DAC register block, `AXI_DAC_REG_*`, as byte offsets from the block's base address.
pub mod regs;

pub use crate::ad9361::regs::fields::Reset;

use vstd::prelude::*;

verus! {

/// Per-channel DAC register block, as byte offsets from the channel block's base.
pub struct Channel;

impl Channel {
    /// Channel control 1.
    pub const CONTROL1: usize = 0x00;
    /// Channel control 2.
    pub const CONTROL2: usize = 0x04;
    /// Channel control 3.
    pub const CONTROL3: usize = 0x08;
    /// Channel control 4.
    pub const CONTROL4: usize = 0x0C;
    /// SED test pattern ([`regs::PatternSed`]).
    pub const PATTERN_SED: usize = 0x10;
    /// Legacy loopback/PN/IQ-correction enable ([`regs::ChannelLegacyControl`]).
    pub const LEGACY_CONTROL: usize = 0x14;
    /// Data source mux ([`regs::ChannelDataSource`]).
    pub const DATA_SOURCE: usize = 0x18;
    /// Channel control 8.
    pub const CONTROL8: usize = 0x1C;
    /// User control 3.
    pub const USER_CONTROL3: usize = 0x20;
    /// User control 4.
    pub const USER_CONTROL4: usize = 0x24;
    /// User control 5.
    pub const USER_CONTROL5: usize = 0x28;
    /// Channel control 9.
    pub const CONTROL9: usize = 0x2C;
    /// Channel control 10.
    pub const CONTROL10: usize = 0x30;
    /// Size of a channel block in bytes.
    pub const SIZE: usize = 0x40;
}

/// DAC register block, as byte offsets from its base.
pub struct Registers;

impl Registers {
    /// Core reset/clock-enable ([`Reset`]).
    pub const RESET: usize = 0x40;
    /// Channel synchronization control ([`regs::Control1`]).
    pub const CONTROL1: usize = 0x44;
    /// Digital interface control ([`regs::Control2`]).
    pub const CONTROL2: usize = 0x48;
    /// Sample rate divider ([`regs::RateControl`]).
    pub const RATE_CONTROL: usize = 0x4C;
    /// Frame.
    pub const FRAME: usize = 0x50;
    /// Status 1.
    pub const STATUS1: usize = 0x54;
    /// Interface clock ratio.
    pub const INTERFACE_CLOCK_RATIO: usize = 0x58;
    /// Bit 0: interface status. Set if there are no errors; if unset, there are errors and
    /// software may try resetting the core.
    pub const INTERFACE_STATUS: usize = 0x5C;
    /// Clock selection.
    pub const CLKSEL: usize = 0x60;
    /// Synchronization status.
    pub const SYNC_STATUS: usize = 0x68;
    /// DRP access request.
    pub const DRP_CONTROL: usize = 0x70;
    /// DRP access status.
    pub const DRP_STATUS: usize = 0x74;
    /// DRP write data.
    pub const DRP_WDATA: usize = 0x78;
    /// DRP read data.
    pub const DRP_RDATA: usize = 0x7C;
    /// Custom read.
    pub const CUSTOM_READ: usize = 0x80;
    /// Custom write.
    pub const CUSTOM_WRITE: usize = 0x84;
    /// User interface FIFO status ([`regs::UiStatus`]).
    pub const UI_STATUS: usize = 0x88;
    /// Custom control.
    pub const CUSTOM_CONTROL: usize = 0x8C;
    /// User control 1.
    pub const USER_CONTROL_1: usize = 0xA0;
    /// GPIO inputs.
    pub const GPIO_IN: usize = 0xB8;
    /// GPIO outputs.
    pub const GPIO_OUT: usize = 0xBC;
    /// Offset of the first of the [`Channel`] blocks.
    pub const CHANNELS: usize = 0x400;
    /// Number of [`Channel`] blocks.
    pub const NUM_CHANNELS: usize = 16;
    /// Size of the register block in bytes.
    pub const SIZE: usize = 0x800;
}

} // verus!
