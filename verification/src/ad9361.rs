//! # Driver logic for the ADI AXI AD9361 IP core
//!
//! The AD9361 IP core holds an ADC (receive) and a DAC (transmit) block. The top-level
//! [`AxiAd9361`] driver hands out one [`adc::Adc`] and one [`dac::Dac`] driver. Every operation
//! that touches a register takes the register words it reads as arguments and returns the
//! register writes it makes as [`RegWrite`]s, with offsets relative to the IP core's base
//! address (see [`crate::mmio`]).
pub mod adc;
pub mod dac;
pub mod regs;

pub use self::regs::fields::{Config, FpgaInfo};

use vstd::prelude::*;

use crate::mmio::RegWrite;
use self::adc::Adc;
use self::dac::Dac;
use self::regs::fields::R1Mode;

verus! {

/// AXI AD9361 driver, handing out the ADC and DAC drivers once each.
pub struct AxiAd9361 {
    base_addr_ip_core: usize,
    adc_taken: bool,
    dac_taken: bool,
}

impl AxiAd9361 {
    /// Base address of the IP core.
    pub closed spec fn spec_base_addr(&self) -> usize {
        self.base_addr_ip_core
    }

    /// Whether the ADC driver was handed out.
    pub closed spec fn adc_taken(&self) -> bool {
        self.adc_taken
    }

    /// Whether the DAC driver was handed out.
    pub closed spec fn dac_taken(&self) -> bool {
        self.dac_taken
    }

    /// Whether the ADC driver was handed out.
    pub fn is_adc_taken(&self) -> (r: bool)
        ensures
            r == self.adc_taken(),
    {
        self.adc_taken
    }

    /// Whether the DAC driver was handed out.
    pub fn is_dac_taken(&self) -> (r: bool)
        ensures
            r == self.dac_taken(),
    {
        self.dac_taken
    }

    /// Create a new AXI AD9361 driver for the IP core at `base_addr_ip_core`.
    ///
    /// The base address must be the memory-mapped register address of the peripheral, and no
    /// other driver instance may use the same registers.
    pub fn new(base_addr_ip_core: usize) -> (r: Self)
        ensures
            r.spec_base_addr() == base_addr_ip_core,
            !r.adc_taken(),
            !r.dac_taken(),
    {
        AxiAd9361 { base_addr_ip_core, adc_taken: false, dac_taken: false }
    }

    /// Take ownership of the ADC driver, bringing it out of reset and configuring the R1 mode
    /// (see [`Adc::new`]; `control1` is the current word of the ADC digital interface control
    /// register).
    ///
    /// Returns `None` if the ADC driver has already been taken.
    pub fn take_and_init_adc(&mut self, r1_mode: R1Mode, control1: regs::adc::fields::Control1) -> (r: Option<(Adc, Vec<RegWrite>)>)
        ensures
            old(self).adc_taken() ==> r is None,
            !old(self).adc_taken() ==> (r matches Some((adc, w)) && adc.spec_base_addr() == old(self).spec_base_addr()
                && w@ == adc::init_writes(r1_mode, control1)),
            final(self).adc_taken(),
            final(self).dac_taken() == old(self).dac_taken(),
            final(self).spec_base_addr() == old(self).spec_base_addr(),
    {
        if self.adc_taken {
            return None;
        }
        self.adc_taken = true;
        Some(Adc::new(self.base_addr_ip_core, r1_mode, control1))
    }

    /// Take ownership of the ADC driver without touching any of its registers.
    ///
    /// Returns `None` if the ADC driver has already been taken.
    pub fn take_adc_no_init(&mut self) -> (r: Option<Adc>)
        ensures
            old(self).adc_taken() ==> r is None,
            !old(self).adc_taken() ==> (r matches Some(adc) && adc.spec_base_addr() == old(self).spec_base_addr()),
            final(self).adc_taken(),
            final(self).dac_taken() == old(self).dac_taken(),
            final(self).spec_base_addr() == old(self).spec_base_addr(),
    {
        if self.adc_taken {
            return None;
        }
        self.adc_taken = true;
        Some(Adc::new_no_init(self.base_addr_ip_core))
    }

    /// Take ownership of the DAC driver, bringing it out of reset, configuring the R1 mode,
    /// the rate divider and synchronizing the channels (see [`Dac::new`]; `control2` is the
    /// current word of the DAC digital interface control register).
    ///
    /// Returns `None` if the DAC driver has already been taken.
    pub fn take_and_init_dac(&mut self, rate_div: u8, r1_mode: R1Mode, control2: regs::dac::regs::Control2) -> (r: Option<(Dac, Vec<RegWrite>)>)
        requires
            rate_div >= 1,
        ensures
            old(self).dac_taken() ==> r is None,
            !old(self).dac_taken() ==> (r matches Some((dac, w)) && dac.spec_base_addr() == old(self).spec_base_addr()
                && w@ == dac::init_writes(rate_div, r1_mode, control2)),
            final(self).dac_taken(),
            final(self).adc_taken() == old(self).adc_taken(),
            final(self).spec_base_addr() == old(self).spec_base_addr(),
    {
        if self.dac_taken {
            return None;
        }
        self.dac_taken = true;
        Some(Dac::new(self.base_addr_ip_core, rate_div, r1_mode, control2))
    }

    /// Take ownership of the DAC driver without touching any of its registers.
    ///
    /// Returns `None` if the DAC driver has already been taken.
    pub fn take_dac_no_init(&mut self) -> (r: Option<Dac>)
        ensures
            old(self).dac_taken() ==> r is None,
            !old(self).dac_taken() ==> (r matches Some(dac) && dac.spec_base_addr() == old(self).spec_base_addr()),
            final(self).dac_taken(),
            final(self).adc_taken() == old(self).adc_taken(),
            final(self).spec_base_addr() == old(self).spec_base_addr(),
    {
        if self.dac_taken {
            return None;
        }
        self.dac_taken = true;
        Some(Dac::new_no_init(self.base_addr_ip_core))
    }
}

} // verus!
