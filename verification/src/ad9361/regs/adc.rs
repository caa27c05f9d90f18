//! ADC register block, `AXI_ADC_REG_*`, as byte offsets from the block's base address.
pub mod fields;

pub use crate::ad9361::regs::fields::Reset;

use vstd::prelude::*;

verus! {

/// Per-channel ADC register block, as byte offsets from the channel block's base.
pub struct Channel;

impl Channel {
    /// Per-channel enable/format control ([`fields::ChannelDataPathControl`]).
    pub const DATA_PATH_CONTROL: usize = 0x00;
    /// Per-channel status ([`fields::ChannelStatus`]).
    pub const STATUS: usize = 0x04;
    /// Raw sample data.
    pub const RAW_DATA: usize = 0x08;
    /// Channel control 1.
    pub const CONTROL1: usize = 0x10;
    /// IQ-correction coefficients: coeff_1 in bits [31:16], coeff_2 in bits [15:0], Q1.14
    /// fixed point.
    pub const CONTROL2: usize = 0x14;
    /// PN monitor selection ([`fields::ChannelPnSelect`]).
    pub const PN_SELECT: usize = 0x18;
    /// User control 1.
    pub const USER_CONTROL1: usize = 0x20;
    /// User control 2.
    pub const USER_CONTROL2: usize = 0x24;
    /// Channel control 4.
    pub const CONTROL4: usize = 0x28;
    /// Size of a channel block in bytes.
    pub const SIZE: usize = 0x40;
}

/// ADC register block, as byte offsets from its base.
pub struct Registers;

impl Registers {
    /// Core reset/clock-enable ([`Reset`]).
    pub const RESET: usize = 0x00;
    /// Digital interface control ([`fields::Control1`]).
    pub const CONTROL1: usize = 0x04;
    /// External-sync trigger control ([`fields::Control2`]).
    pub const CONTROL2: usize = 0x08;
    /// CRC and output format control ([`fields::Control3`]).
    pub const CONTROL3: usize = 0x0C;
    /// Interface clock frequency.
    pub const CLOCK_FREQ: usize = 0x14;
    /// Interface clock ratio.
    pub const CLOCK_RATIO: usize = 0x18;
    /// Global PN/interface status ([`fields::Status`]).
    pub const STATUS: usize = 0x1C;
    /// IDELAY tap control ([`fields::DelayControl`]).
    pub const DELAY_CONTROL: usize = 0x20;
    /// IDELAY tap status ([`fields::DelayStatusLegacy`]).
    pub const DELAY_STATUS: usize = 0x24;
    /// External synchronization status.
    pub const SYNC_STATUS: usize = 0x28;
    /// DRP access request.
    pub const DRP_CONTROL: usize = 0x30;
    /// DRP access status.
    pub const DRP_STATUS: usize = 0x34;
    /// DRP write data.
    pub const DRP_WDATA: usize = 0x38;
    /// DRP read data.
    pub const DRP_RDATA: usize = 0x3C;
    /// Custom configuration write.
    pub const CONFIG_WRITE: usize = 0x40;
    /// Custom configuration read.
    pub const CONFIG_READ: usize = 0x44;
    /// User interface FIFO status ([`fields::UiStatus`]).
    pub const UI_STATUS: usize = 0x48;
    /// Custom configuration control.
    pub const CONFIG_CONTROL: usize = 0x4C;
    /// User control 1.
    pub const USER_CONTROL_1: usize = 0x60;
    /// Start code.
    pub const START_CODE: usize = 0x64;
    /// GPIO inputs.
    pub const GPIO_IN: usize = 0x78;
    /// GPIO outputs.
    pub const GPIO_OUT: usize = 0x7C;
    /// PPS counter.
    pub const PPS_COUNTER: usize = 0x80;
    /// PPS status.
    pub const PPS_STATUS: usize = 0x84;
    /// Offset of the first of the [`Channel`] blocks.
    pub const CHANNELS: usize = 0x3C0;
    /// Number of [`Channel`] blocks.
    pub const NUM_CHANNELS: usize = 16;
    /// Size of the register block in bytes.
    pub const SIZE: usize = 0x7C0;
}

} // verus!
