//! Register layout of the AXI AD9361 IP core, as byte offsets from the IP core's base address.
pub mod adc;
pub mod dac;
pub mod fields;

pub use self::fields::InterfaceMode;

use vstd::prelude::*;

verus! {

/// Top-level AXI AD9361 IP core register block, spanning the shared registers plus the ADC,
/// DAC and TDD sub-blocks.
pub struct Registers;

impl Registers {
    /// Core version.
    pub const VERSION: usize = 0x00;
    /// Core instance identifier.
    pub const ID: usize = 0x04;
    /// Scratch register.
    pub const SCRATCH: usize = 0x08;
    /// IP core capability/configuration ([`fields::Config`]).
    pub const CONFIG: usize = 0x0C;
    /// PPS interrupt mask.
    pub const PPS_IRQ_MASK: usize = 0x10;
    /// FPGA part information ([`fields::FpgaInfo`]).
    pub const FPGA_INFO: usize = 0x1C;
    /// Offset of the ADC register block ([`adc::Registers`]).
    pub const ADC: usize = 0x40;
    /// Offset of the DAC register block ([`dac::Registers`]).
    pub const DAC: usize = 0x4000;
    /// Offset of the TDD register block.
    pub const TDD: usize = 0x8000;
    /// TDD control register 0.
    pub const TDD_CONTROL0: usize = 0x8040;
    /// TDD status register.
    pub const TDD_STATUS: usize = 0x8060;
}

impl Registers {
    /// Address of the ADC register block of the IP core at `ip_core_base_addr`.
    pub fn new_adc_block(ip_core_base_addr: usize) -> (r: usize)
        requires
            ip_core_base_addr + Registers::ADC <= usize::MAX,
        ensures
            r == ip_core_base_addr + Registers::ADC,
    {
        ip_core_base_addr + Registers::ADC
    }

    /// Address of the DAC register block of the IP core at `ip_core_base_addr`.
    pub fn new_dac_block(ip_core_base_addr: usize) -> (r: usize)
        requires
            ip_core_base_addr + Registers::DAC <= usize::MAX,
        ensures
            r == ip_core_base_addr + Registers::DAC,
    {
        ip_core_base_addr + Registers::DAC
    }
}

} // verus!
