//! ADC driver of the AXI AD9361 IP core.
//!
//! The driver's writes have offsets relative to the IP core's base address.
use vstd::prelude::*;

use crate::mmio::RegWrite;
use crate::ad9361::regs::Registers;
use crate::ad9361::regs::adc as adc_regs;
use crate::ad9361::regs::adc::fields::{ChannelDataPathControl, Control1, R1Mode};
use crate::ad9361::regs::fields::Reset;

verus! {

/// Offset of the ADC reset register.
pub const RESET_OFFSET: usize = Registers::ADC + adc_regs::Registers::RESET;

/// Offset of the ADC digital interface control register.
pub const CONTROL1_OFFSET: usize = Registers::ADC + adc_regs::Registers::CONTROL1;

/// Offset of the ADC status register.
pub const STATUS_OFFSET: usize = Registers::ADC + adc_regs::Registers::STATUS;

/// Offset of the register block of ADC channel `channel`.
pub open spec fn channel_offset(channel: u8) -> usize {
    (Registers::ADC + adc_regs::Registers::CHANNELS + channel * adc_regs::Channel::SIZE) as usize
}

/// The writes that bring the ADC core out of reset: assert reset, then release it.
pub open spec fn enable_writes() -> Seq<RegWrite> {
    seq![
        RegWrite::spec_new(RESET_OFFSET, Reset::spec_zero()@),
        RegWrite::spec_new(RESET_OFFSET, Reset::spec_released()@),
    ]
}

/// The data path control word that enables a channel: sign extension, format conversion, the
/// data path itself, and IQ correction.
pub open spec fn channel_enable_control() -> ChannelDataPathControl {
    ChannelDataPathControl::spec_zero().spec_with_format_signext(true).spec_with_format_enable(true).spec_with_enable(
        true,
    ).spec_with_iqcor_enable(true)
}

/// The identity IQ-correction coefficients of `channel`: coeff_1 = 1.0 (Q1.14, bits [31:16])
/// for even (I) channels, coeff_2 = 1.0 (bits [15:0]) for odd (Q) channels.
pub open spec fn identity_iq_coefficients(channel: u8) -> u32 {
    if channel % 2 == 0 {
        0x4000_0000
    } else {
        0x0000_4000
    }
}

/// The writes that enable `channel`'s data path.
pub open spec fn enable_channel_writes(channel: u8) -> Seq<RegWrite> {
    seq![
        RegWrite::spec_new((channel_offset(channel) + adc_regs::Channel::DATA_PATH_CONTROL) as usize, channel_enable_control()@),
        RegWrite::spec_new((channel_offset(channel) + adc_regs::Channel::CONTROL2) as usize, identity_iq_coefficients(channel)),
    ]
}

/// The writes that enable channels `0..count`, in order.
pub open spec fn enable_channels_writes(count: u8) -> Seq<RegWrite>
    decreases count,
{
    if count == 0 {
        seq![]
    } else {
        enable_channels_writes((count - 1) as u8) + enable_channel_writes((count - 1) as u8)
    }
}

/// Number of ADC channels in use in R1 mode `r1_mode`: I and Q of one or of two receive paths.
pub open spec fn num_channels(r1_mode: R1Mode) -> u8 {
    match r1_mode {
        R1Mode::OneChannel => 2,
        R1Mode::TwoChannels => 4,
    }
}

/// The writes of [`Adc::new`] for R1 mode `r1_mode`, on a control word `control1`: configure
/// the R1 mode, bring the core out of reset, then enable the channels in use.
pub open spec fn init_writes(r1_mode: R1Mode, control1: Control1) -> Seq<RegWrite> {
    seq![RegWrite::spec_new(CONTROL1_OFFSET, control1.spec_with_r1_mode(r1_mode)@)] + enable_writes()
        + enable_channels_writes(num_channels(r1_mode))
}

/// ADC driver.
pub struct Adc {
    base_addr_ip_core: usize,
}

impl Adc {
    /// Base address of the IP core.
    pub closed spec fn spec_base_addr(&self) -> usize {
        self.base_addr_ip_core
    }

    /// Create a new ADC driver for the IP core at `base_addr_ip_core` (the base address of the
    /// IP core, without the ADC block offset), bringing the ADC core out of reset.
    /// `control1` is the current word of the ADC digital interface control register.
    ///
    /// The returned writes configure the R1 mode, bring the core out of reset and enable the
    /// channels in use: 2 in [`R1Mode::OneChannel`] mode, 4 in [`R1Mode::TwoChannels`] mode.
    ///
    /// The base address must be the memory-mapped register address of the peripheral, and no
    /// other driver instance may use the same registers.
    pub fn new(base_addr_ip_core: usize, r1_mode: R1Mode, control1: Control1) -> (r: (Self, Vec<RegWrite>))
        ensures
            r.0.spec_base_addr() == base_addr_ip_core,
            r.1@ == init_writes(r1_mode, control1),
    {
        let mut adc = Self::new_no_init(base_addr_ip_core);
        let mut writes: Vec<RegWrite> = Vec::new();
        writes.push(RegWrite::new(CONTROL1_OFFSET, control1.with_r1_mode(r1_mode).raw_value()));
        let mut enable = adc.enable();
        writes.append(&mut enable);
        let channel_count: u8 = match r1_mode {
            R1Mode::OneChannel => 2,
            R1Mode::TwoChannels => 4,
        };
        let ghost head = writes@;
        let mut ch: u8 = 0;
        while ch < channel_count
            invariant
                ch <= channel_count,
                channel_count == num_channels(r1_mode),
                channel_count <= 4,
                head == seq![RegWrite::spec_new(CONTROL1_OFFSET, control1.spec_with_r1_mode(r1_mode)@)] + enable_writes(),
                writes@ == head + enable_channels_writes(ch),
                adc.spec_base_addr() == base_addr_ip_core,
            decreases channel_count - ch,
        {
            let mut channel_writes = adc.enable_channel(ch);
            let ghost before = writes@;
            writes.append(&mut channel_writes);
            assert(enable_channels_writes((ch + 1) as u8) == enable_channels_writes(ch) + enable_channel_writes(ch));
            assert(writes@ =~= head + enable_channels_writes((ch + 1) as u8));
            ch = ch + 1;
        }
        (adc, writes)
    }

    /// Create a new ADC driver for the IP core at `base_addr_ip_core` without touching any of
    /// its registers.
    pub fn new_no_init(base_addr_ip_core: usize) -> (r: Self)
        ensures
            r.spec_base_addr() == base_addr_ip_core,
    {
        Adc { base_addr_ip_core }
    }

    /// Brings the ADC core out of reset: asserts reset, then releases both reset lines with the
    /// clock enabled.
    pub fn enable(&mut self) -> (r: Vec<RegWrite>)
        ensures
            r@ == enable_writes(),
            *final(self) == *old(self),
    {
        let mut writes: Vec<RegWrite> = Vec::new();
        writes.push(RegWrite::new(RESET_OFFSET, Reset::zero().raw_value()));
        writes.push(RegWrite::new(RESET_OFFSET, Reset::released().raw_value()));
        writes
    }

    /// Pulses the core reset without dropping the MMCM out of lock, to force the digital
    /// interface to relatch after e.g. an interface-delay register write. Unlike
    /// [`Self::enable`], this does not fully re-assert reset first.
    pub fn reset_pulse(&mut self) -> (r: Vec<RegWrite>)
        ensures
            r@ == seq![
                RegWrite::spec_new(RESET_OFFSET, Reset::spec_zero().spec_with_clock_disable(false).spec_with_mmcm_reset_n(true)@),
                RegWrite::spec_new(RESET_OFFSET, Reset::spec_released()@),
            ],
            *final(self) == *old(self),
    {
        let mut writes: Vec<RegWrite> = Vec::new();
        writes.push(RegWrite::new(RESET_OFFSET, Reset::zero().with_clock_disable(false).with_mmcm_reset_n(true).raw_value()));
        writes.push(RegWrite::new(RESET_OFFSET, Reset::released().raw_value()));
        writes
    }

    /// Offset of the register block of ADC channel `channel` (a 4-bit channel number).
    pub fn channel_mut(&mut self, channel: u8) -> (r: usize)
        requires
            channel < 16,
        ensures
            r == channel_offset(channel),
            *final(self) == *old(self),
    {
        Registers::ADC + adc_regs::Registers::CHANNELS + channel as usize * adc_regs::Channel::SIZE
    }

    /// Enables a single channel's data path (`format_signext`/`format_enable`/`enable`, plus
    /// IQ correction) with one `CHAN_CNTRL` write, and initializes the channel's
    /// IQ-correction coefficients to the identity: without this, the channel's datapath, and
    /// anything tapping it like the PN monitor, never activates, and the coefficients'
    /// power-on value 0 would silently zero the data path.
    pub fn enable_channel(&mut self, channel: u8) -> (r: Vec<RegWrite>)
        requires
            channel < 16,
        ensures
            r@ == enable_channel_writes(channel),
            *final(self) == *old(self),
    {
        let ch = self.channel_mut(channel);
        let control = ChannelDataPathControl::zero().with_format_signext(true).with_format_enable(true).with_enable(true)
            .with_iqcor_enable(true);
        let coefficients: u32 = if channel % 2 == 0 {
            0x4000_0000
        } else {
            0x0000_4000
        };
        let mut writes: Vec<RegWrite> = Vec::new();
        writes.push(RegWrite::new(ch + adc_regs::Channel::DATA_PATH_CONTROL, control.raw_value()));
        writes.push(RegWrite::new(ch + adc_regs::Channel::CONTROL2, coefficients));
        writes
    }
}

/// Setting the one-bit field at `lo` of `v` to `x` (0 or 1) sets bit `lo` to whether `x` is 1
/// and keeps every other bit.
proof fn lemma_one_bit_field(v: u32, lo: u32, x: u32, j: u32)
    requires
        lo < 32,
        j < 32,
        x <= 1,
    ensures
        crate::bits::bit(crate::bits::set_field(v, lo, 1, x), lo) == (x == 1),
        j != lo ==> crate::bits::bit(crate::bits::set_field(v, lo, 1, x), j) == crate::bits::bit(v, j),
{
    assert(crate::bits::bit(crate::bits::set_field(v, lo, 1, x), lo) == (x == 1)) by (bit_vector)
        requires lo < 32, x <= 1;
    assert(j != lo ==> crate::bits::bit(crate::bits::set_field(v, lo, 1, x), j) == crate::bits::bit(v, j)) by (bit_vector)
        requires lo < 32, j < 32;
}

/// Enabling channel `channel` writes, in order, the data path control word with sign
/// extension, format conversion, the data path and IQ correction enabled (bits 6, 4, 0 and 9:
/// 0x251) and nothing else, then the identity IQ-correction coefficients: 1.0 in Q1.14 in the
/// upper half for an even (I) channel, in the lower half for an odd (Q) one.
pub proof fn lemma_enable_channel_writes(channel: u8)
    requires
        channel < 16,
    ensures
        enable_channel_writes(channel) == seq![
            RegWrite::spec_new((0x400 + 0x40 * channel) as usize, 0x251),
            RegWrite::spec_new((0x414 + 0x40 * channel) as usize, if channel % 2 == 0 { 0x4000_0000u32 } else { 0x4000u32 }),
        ],
{
    assert(crate::bits::set_bit(crate::bits::set_bit(crate::bits::set_bit(crate::bits::set_bit(0, 6, true), 4, true), 0, true), 9, true)
        == 0x251u32) by (bit_vector);
}

/// Enabling channels `0..count` makes, for each channel in turn, its two enable writes.
pub proof fn lemma_enable_channels_writes(count: u8, i: int)
    requires
        0 <= i < count,
    ensures
        enable_channels_writes(count).len() == 2 * count,
        enable_channels_writes(count)[2 * i] == enable_channel_writes(i as u8)[0],
        enable_channels_writes(count)[2 * i + 1] == enable_channel_writes(i as u8)[1],
    decreases count,
{
    lemma_enable_channels_len((count - 1) as u8);
    if i < count - 1 {
        lemma_enable_channels_writes((count - 1) as u8, i);
    }
}

proof fn lemma_enable_channels_len(count: u8)
    ensures
        enable_channels_writes(count).len() == 2 * count,
    decreases count,
{
    if count > 0 {
        lemma_enable_channels_len((count - 1) as u8);
    }
}

/// Bringing the ADC up is, in order: a read-modify-write of the digital interface control
/// word `control1` that sets the R1-mode bit (2: 1 for one channel, 0 for two) and keeps every
/// other bit; asserting then releasing both core reset lines; and enabling the channels in
/// use, I and Q of each receive path (two in one-channel mode, four in two-channel mode).
pub proof fn lemma_init_writes(r1_mode: R1Mode, control1: Control1, j: u32)
    requires
        j < 32,
    ensures
        init_writes(r1_mode, control1).len() == 3 + 2 * num_channels(r1_mode),
        num_channels(r1_mode) == if r1_mode == R1Mode::OneChannel { 2u8 } else { 4u8 },
        init_writes(r1_mode, control1)[0].offset == 0x44,
        crate::bits::bit(init_writes(r1_mode, control1)[0].value, 2) == (r1_mode == R1Mode::OneChannel),
        j != 2 ==> crate::bits::bit(init_writes(r1_mode, control1)[0].value, j) == crate::bits::bit(control1@, j),
        init_writes(r1_mode, control1)[1] == RegWrite::spec_new(0x40, 0),
        init_writes(r1_mode, control1)[2] == RegWrite::spec_new(0x40, 0x3),
        init_writes(r1_mode, control1).subrange(3, 3 + 2 * num_channels(r1_mode)) == enable_channels_writes(num_channels(r1_mode)),
{
    lemma_one_bit_field(control1@, 2, r1_mode.spec_raw_value() as u32, j);
    lemma_enable_channels_len(num_channels(r1_mode));
    assert(crate::bits::set_bit(crate::bits::set_bit(0, 1, true), 0, true) == 0x3u32) by (bit_vector);
    let w = init_writes(r1_mode, control1);
    assert(w.subrange(3, 3 + 2 * num_channels(r1_mode)) =~= enable_channels_writes(num_channels(r1_mode)));
}

/// The core reset words: a reset pulse first holds the core in reset with only the MMCM
/// reset line released and the clock enabled (0x2), then releases both reset lines (0x3),
/// which is also what bringing the core up ends with.
pub proof fn lemma_reset_words()
    ensures
        Reset::spec_zero().spec_with_clock_disable(false).spec_with_mmcm_reset_n(true)@ == 0x2u32,
        Reset::spec_released()@ == 0x3u32,
        Reset::spec_zero()@ == 0u32,
        RESET_OFFSET == 0x40,
        CONTROL1_OFFSET == 0x44,
{
    assert(crate::bits::set_bit(crate::bits::set_bit(0, 2, false), 1, true) == 0x2u32) by (bit_vector);
    assert(crate::bits::set_bit(crate::bits::set_bit(0, 1, true), 0, true) == 0x3u32) by (bit_vector);
}

} // verus!
