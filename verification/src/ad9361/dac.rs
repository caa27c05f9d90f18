//! DAC driver of the AXI AD9361 IP core.
//!
//! The driver's writes have offsets relative to the IP core's base address.
use vstd::prelude::*;

use crate::mmio::RegWrite;
use crate::ad9361::regs::Registers;
use crate::ad9361::regs::dac as dac_regs;
use crate::ad9361::regs::dac::regs::{ChannelDataSource, Control1, Control2, DataSource, R1Mode, RateControl};
use crate::ad9361::regs::fields::Reset;

verus! {

/// Offset of the DAC reset register.
pub const RESET_OFFSET: usize = Registers::DAC + dac_regs::Registers::RESET;

/// Offset of the DAC channel synchronization control register.
pub const CONTROL1_OFFSET: usize = Registers::DAC + dac_regs::Registers::CONTROL1;

/// Offset of the DAC digital interface control register.
pub const CONTROL2_OFFSET: usize = Registers::DAC + dac_regs::Registers::CONTROL2;

/// Offset of the DAC rate divider register.
pub const RATE_CONTROL_OFFSET: usize = Registers::DAC + dac_regs::Registers::RATE_CONTROL;

/// Offset of the DAC interface status register.
pub const INTERFACE_STATUS_OFFSET: usize = Registers::DAC + dac_regs::Registers::INTERFACE_STATUS;

/// Offset of the register block of DAC channel `channel`.
pub open spec fn channel_offset(channel: u8) -> usize {
    (Registers::DAC + dac_regs::Registers::CHANNELS + channel * dac_regs::Channel::SIZE) as usize
}

/// The write that releases both core reset lines with the clock enabled.
pub open spec fn release_reset_write() -> RegWrite {
    RegWrite::spec_new(RESET_OFFSET, Reset::spec_released()@)
}

/// The writes that bring the DAC core out of reset: assert reset, then release it.
pub open spec fn enable_writes() -> Seq<RegWrite> {
    seq![RegWrite::spec_new(RESET_OFFSET, Reset::spec_zero()@), release_reset_write()]
}

/// The write that requests a channel data path synchronization pulse.
pub open spec fn synchronize_write() -> RegWrite {
    RegWrite::spec_new(CONTROL1_OFFSET, Control1::spec_zero().spec_with_sync(true)@)
}

/// The write that sets the rate divider to `rate_div`: the register holds `rate_div - 1`.
pub open spec fn rate_div_write(rate_div: u8) -> RegWrite {
    RegWrite::spec_new(RATE_CONTROL_OFFSET, (rate_div - 1) as u32)
}

/// The write that selects `source` for `channel`.
pub open spec fn data_source_write(channel: u8, source: DataSource) -> RegWrite {
    RegWrite::spec_new(
        (channel_offset(channel) + dac_regs::Channel::DATA_SOURCE) as usize,
        ChannelDataSource::spec_zero().spec_with_data_source(source)@,
    )
}

/// The writes that select `source` for channels `0..count`, in order.
pub open spec fn data_source_writes(count: u8, source: DataSource) -> Seq<RegWrite>
    decreases count,
{
    if count == 0 {
        seq![]
    } else {
        data_source_writes((count - 1) as u8, source).push(data_source_write((count - 1) as u8, source))
    }
}

/// The writes of [`Dac::new`]: configure the R1 mode on the control word `control2`, bring the
/// core out of reset, set the rate divider, and synchronize the channels.
pub open spec fn init_writes(rate_div: u8, r1_mode: R1Mode, control2: Control2) -> Seq<RegWrite> {
    seq![RegWrite::spec_new(CONTROL2_OFFSET, control2.spec_with_r1_mode(r1_mode)@)] + enable_writes() + seq![
        rate_div_write(rate_div),
        synchronize_write(),
    ]
}

/// DAC driver.
pub struct Dac {
    base_addr_ip_core: usize,
}

impl Dac {
    /// Base address of the IP core.
    pub closed spec fn spec_base_addr(&self) -> usize {
        self.base_addr_ip_core
    }

    /// Create a new DAC driver for the IP core at `base_addr_ip_core` (the base address of the
    /// IP core, without the DAC block offset), enabling it and synchronizing its channels.
    /// `rate_div` is the rate divider, at least 1, and `control2` the current word of the DAC
    /// digital interface control register.
    ///
    /// The base address must be the memory-mapped register address of the peripheral, and no
    /// other driver instance may use the same registers.
    pub fn new(base_addr_ip_core: usize, rate_div: u8, r1_mode: R1Mode, control2: Control2) -> (r: (Self, Vec<RegWrite>))
        requires
            rate_div >= 1,
        ensures
            r.0.spec_base_addr() == base_addr_ip_core,
            r.1@ == init_writes(rate_div, r1_mode, control2),
    {
        let mut dac = Self::new_no_init(base_addr_ip_core);
        let mut writes: Vec<RegWrite> = Vec::new();
        writes.push(RegWrite::new(CONTROL2_OFFSET, control2.with_r1_mode(r1_mode).raw_value()));
        let mut enable = dac.enable();
        writes.append(&mut enable);
        writes.push(dac.set_rate_div(rate_div));
        writes.push(dac.synchronize());
        (dac, writes)
    }

    /// Create a new DAC driver for the IP core at `base_addr_ip_core` without touching any
    /// registers.
    ///
    /// The caller is responsible for bringing the DAC out of reset, configuring the R1 mode,
    /// setting the rate divider and synchronizing the channels, e.g. with [`Self::enable`],
    /// [`Self::set_rate_div`] and [`Self::synchronize`] as needed.
    pub fn new_no_init(base_addr_ip_core: usize) -> (r: Self)
        ensures
            r.spec_base_addr() == base_addr_ip_core,
    {
        Dac { base_addr_ip_core }
    }

    /// Brings the DAC core out of reset: asserts reset, then releases it.
    pub fn enable(&mut self) -> (r: Vec<RegWrite>)
        ensures
            r@ == enable_writes(),
            *final(self) == *old(self),
    {
        let mut writes: Vec<RegWrite> = Vec::new();
        writes.push(RegWrite::new(RESET_OFFSET, Reset::zero().raw_value()));
        writes.push(self.release_reset());
        writes
    }

    /// Releases the DAC core reset in a single, unconditional `RSTN | MMCM_RSTN` write, as
    /// done at TX digital-tune entry. Unlike
    /// [`crate::ad9361::adc::Adc::reset_pulse`], this does not assert reset first.
    pub fn release_reset(&mut self) -> (r: RegWrite)
        ensures
            r == release_reset_write(),
            *final(self) == *old(self),
    {
        RegWrite::new(RESET_OFFSET, Reset::released().raw_value())
    }

    /// Selects the data source of `channel` (a 4-bit channel number), then synchronizes the
    /// DAC channels.
    pub fn set_data_source(&mut self, channel: u8, source: DataSource) -> (r: Vec<RegWrite>)
        requires
            channel < 16,
        ensures
            r@ == seq![data_source_write(channel, source), synchronize_write()],
            *final(self) == *old(self),
    {
        let ch = self.channel_mut(channel);
        let mut writes: Vec<RegWrite> = Vec::new();
        writes.push(RegWrite::new(ch + dac_regs::Channel::DATA_SOURCE, ChannelDataSource::zero().with_data_source(source).raw_value()));
        writes.push(self.synchronize());
        writes
    }

    /// Selects the data source of channels `0..num_channels` (a 4-bit channel count), then
    /// synchronizes the DAC channels.
    pub fn set_data_source_all_channels_up_to(&mut self, num_channels: u8, source: DataSource) -> (r: Vec<RegWrite>)
        requires
            num_channels < 16,
        ensures
            r@ == data_source_writes(num_channels, source).push(synchronize_write()),
            *final(self) == *old(self),
    {
        let mut writes: Vec<RegWrite> = Vec::new();
        let mut i: u8 = 0;
        while i < num_channels
            invariant
                i <= num_channels,
                num_channels < 16,
                writes@ == data_source_writes(i, source),
                *self == *old(self),
            decreases num_channels - i,
        {
            let ch = self.channel_mut(i);
            writes.push(RegWrite::new(ch + dac_regs::Channel::DATA_SOURCE, ChannelDataSource::zero().with_data_source(source).raw_value()));
            i = i + 1;
        }
        writes.push(self.synchronize());
        writes
    }

    /// Sets the DAC's rate divider: `dac_valid` pulses (and thus new samples) are consumed at
    /// `dac_clk / rate_div`. `rate_div == 1` means no division (full rate, every `dac_clk`
    /// cycle).
    ///
    /// The `RATECNTRL.RATE` register holds `rate_div - 1`: the core reloads its counter to
    /// `RATE` and counts down through `RATE + 1` states before emitting a pulse, so
    /// `effective_rate = dac_clk / (RATE + 1)`. This matches the register's `RATE == 0` reset
    /// default meaning "full rate" rather than a division-by-zero special case.
    pub fn set_rate_div(&mut self, rate_div: u8) -> (r: RegWrite)
        requires
            rate_div >= 1,
        ensures
            r == rate_div_write(rate_div),
            (RateControl { raw: r.value }).spec_rate() + 1 == rate_div,
            *final(self) == *old(self),
    {
        let r = RegWrite::new(RATE_CONTROL_OFFSET, RateControl::new_with_raw_value((rate_div - 1) as u32).raw_value());
        proof {
            let v = (rate_div - 1) as u32;
            assert(v <= 0xFF);
            assert(crate::bits::field(v, 0, 8) == v) by (bit_vector)
                requires v <= 0xFF;
        }
        r
    }

    /// Offset of the register block of DAC channel `channel` (a 4-bit channel number).
    pub fn channel_mut(&mut self, channel: u8) -> (r: usize)
        requires
            channel < 16,
        ensures
            r == channel_offset(channel),
            *final(self) == *old(self),
    {
        Registers::DAC + dac_regs::Registers::CHANNELS + channel as usize * dac_regs::Channel::SIZE
    }

    /// Requests a synchronization pulse of the DAC channels.
    pub fn synchronize(&mut self) -> (r: RegWrite)
        ensures
            r == synchronize_write(),
            *final(self) == *old(self),
    {
        RegWrite::new(CONTROL1_OFFSET, Control1::zero().with_sync(true).raw_value())
    }
}

/// Bringing the DAC up is, in order: a read-modify-write of the digital interface control
/// word `control2` that sets the R1-mode bit (5: 1 for one channel, 0 for two) and keeps every
/// other bit; asserting then releasing both core reset lines; writing `rate_div - 1` to the
/// rate divider; and a synchronization pulse (bit 0 of the control register, alone).
pub proof fn lemma_init_writes(rate_div: u8, r1_mode: R1Mode, control2: Control2, j: u32)
    requires
        rate_div >= 1,
        j < 32,
    ensures
        init_writes(rate_div, r1_mode, control2).len() == 5,
        init_writes(rate_div, r1_mode, control2)[0].offset == 0x4048,
        crate::bits::bit(init_writes(rate_div, r1_mode, control2)[0].value, 5) == (r1_mode == R1Mode::OneChannel),
        j != 5 ==> crate::bits::bit(init_writes(rate_div, r1_mode, control2)[0].value, j) == crate::bits::bit(control2@, j),
        init_writes(rate_div, r1_mode, control2)[1] == RegWrite::spec_new(0x4040, 0),
        init_writes(rate_div, r1_mode, control2)[2] == RegWrite::spec_new(0x4040, 0x3),
        init_writes(rate_div, r1_mode, control2)[3] == RegWrite::spec_new(0x404C, (rate_div - 1) as u32),
        init_writes(rate_div, r1_mode, control2)[4] == RegWrite::spec_new(0x4044, 0x1),
{
    let v = control2@;
    let x = r1_mode.spec_raw_value() as u32;
    assert(x <= 1);
    assert(crate::bits::bit(crate::bits::set_field(v, 5, 1, x), 5) == (x == 1)) by (bit_vector)
        requires x <= 1;
    assert(j != 5 ==> crate::bits::bit(crate::bits::set_field(v, 5, 1, x), j) == crate::bits::bit(v, j)) by (bit_vector)
        requires j < 32;
    assert(crate::bits::set_bit(crate::bits::set_bit(0, 1, true), 0, true) == 0x3u32) by (bit_vector);
    assert(crate::bits::set_bit(0, 0, true) == 0x1u32) by (bit_vector);
}

/// Selecting `source` for `channel` writes the source's mux code, alone, to the channel's
/// data source register (offset 0x18 of the channel's block, which starts at 0x4400 and
/// repeats every 0x40 bytes); and the code of each source is the core's.
pub proof fn lemma_data_source_write(channel: u8, source: DataSource)
    requires
        channel < 16,
    ensures
        data_source_write(channel, source) == RegWrite::spec_new((0x4418 + 0x40 * channel) as usize, source.spec_raw_value() as u32),
        data_source_write(channel, DataSource::InputData).value == 2,
        data_source_write(channel, DataSource::Pattern).value == 1,
        data_source_write(channel, DataSource::InternalTone).value == 0,
        data_source_write(channel, DataSource::Zero).value == 3,
        data_source_write(channel, DataSource::LoopbackDataAdc).value == 8,
        data_source_write(channel, DataSource::PnX).value == 9,
{
    DataSource::lemma_raw_values();
    let x = source.spec_raw_value() as u32;
    assert(x <= 0xB);
    assert(crate::bits::set_field(0, 0, 4, x) == x) by (bit_vector)
        requires x <= 0xB;
    assert(crate::bits::set_field(0, 0, 4, 2) == 2u32) by (bit_vector);
    assert(crate::bits::set_field(0, 0, 4, 1) == 1u32) by (bit_vector);
    assert(crate::bits::set_field(0, 0, 4, 0) == 0u32) by (bit_vector);
    assert(crate::bits::set_field(0, 0, 4, 3) == 3u32) by (bit_vector);
    assert(crate::bits::set_field(0, 0, 4, 8) == 8u32) by (bit_vector);
    assert(crate::bits::set_field(0, 0, 4, 9) == 9u32) by (bit_vector);
}

/// Selecting `source` for channels `0..count` selects it for each of them, in order.
pub proof fn lemma_data_source_writes(count: u8, source: DataSource, i: int)
    requires
        0 <= i < count,
    ensures
        data_source_writes(count, source).len() == count,
        data_source_writes(count, source)[i] == data_source_write(i as u8, source),
    decreases count,
{
    lemma_data_source_writes_len((count - 1) as u8, source);
    if i < count - 1 {
        lemma_data_source_writes((count - 1) as u8, source, i);
    }
}

proof fn lemma_data_source_writes_len(count: u8, source: DataSource)
    ensures
        data_source_writes(count, source).len() == count,
    decreases count,
{
    if count > 0 {
        lemma_data_source_writes_len((count - 1) as u8, source);
    }
}

} // verus!
