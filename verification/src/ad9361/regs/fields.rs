//! Register field types shared by the top-level, ADC and DAC register blocks.
use vstd::prelude::*;
use crate::bits::{bit, field, set_bit, set_field, get_bit, get_field, with_bit, with_field, lemma_field_bound};

verus! {

/// Single-Data-Rate vs. Double-Data-Rate digital interface selection.
#[derive(Clone, Copy, PartialEq, Eq, Structural, Debug)]
pub enum InterfaceType {
    /// Single data rate.
    Sdr,
    /// Double data rate.
    Ddr,
}

impl InterfaceType {
    /// The raw field encoding of this variant.
    pub open spec fn spec_raw_value(self) -> u8 {
        match self {
            InterfaceType::Sdr => 0x0,
            InterfaceType::Ddr => 0x1,
        }
    }

    /// The field encoding of each variant is the core's, and decoding it gives the variant
    /// back.
    pub proof fn lemma_raw_values()
        ensures
            InterfaceType::Sdr.spec_raw_value() == 0x0,
            InterfaceType::Ddr.spec_raw_value() == 0x1,
            forall|v: InterfaceType| #[trigger] InterfaceType::spec_new_with_raw_value(v.spec_raw_value()) == v,
    {
    }

    /// The raw field encoding of this variant.
    #[verifier::when_used_as_spec(spec_raw_value)]
    pub fn raw_value(self) -> (r: u8)
        ensures
            r == self.spec_raw_value(),
    {
        match self {
            InterfaceType::Sdr => 0x0,
            InterfaceType::Ddr => 0x1,
        }
    }

    /// Decodes a one-bit field value.
    pub open spec fn spec_new_with_raw_value(value: u8) -> Self {
        if value == 1 { InterfaceType::Ddr } else { InterfaceType::Sdr }
    }

    /// Decodes a one-bit field value.
    #[verifier::when_used_as_spec(spec_new_with_raw_value)]
    pub fn new_with_raw_value(value: u8) -> (r: Self)
        requires
            value < 2,
        ensures
            r == Self::spec_new_with_raw_value(value),
            r.spec_raw_value() == value,
    {
        if value == 1 { InterfaceType::Ddr } else { InterfaceType::Sdr }
    }
}

/// Symbol width used by the digital interface.
#[derive(Clone, Copy, PartialEq, Eq, Structural, Debug)]
pub enum SymbolModeBits {
    /// 8-bit symbols.
    _8,
    /// 16-bit symbols.
    _16,
}

impl SymbolModeBits {
    /// The raw field encoding of this variant.
    pub open spec fn spec_raw_value(self) -> u8 {
        match self {
            SymbolModeBits::_8 => 0x1,
            SymbolModeBits::_16 => 0x0,
        }
    }

    /// The field encoding of each variant is the core's, and decoding it gives the variant
    /// back.
    pub proof fn lemma_raw_values()
        ensures
            SymbolModeBits::_8.spec_raw_value() == 0x1,
            SymbolModeBits::_16.spec_raw_value() == 0x0,
            forall|v: SymbolModeBits| #[trigger] SymbolModeBits::spec_new_with_raw_value(v.spec_raw_value()) == v,
    {
    }

    /// The raw field encoding of this variant.
    #[verifier::when_used_as_spec(spec_raw_value)]
    pub fn raw_value(self) -> (r: u8)
        ensures
            r == self.spec_raw_value(),
    {
        match self {
            SymbolModeBits::_8 => 0x1,
            SymbolModeBits::_16 => 0x0,
        }
    }

    /// Decodes a one-bit field value.
    pub open spec fn spec_new_with_raw_value(value: u8) -> Self {
        if value == 1 { SymbolModeBits::_8 } else { SymbolModeBits::_16 }
    }

    /// Decodes a one-bit field value.
    #[verifier::when_used_as_spec(spec_new_with_raw_value)]
    pub fn new_with_raw_value(value: u8) -> (r: Self)
        requires
            value < 2,
        ensures
            r == Self::spec_new_with_raw_value(value),
            r.spec_raw_value() == value,
    {
        if value == 1 { SymbolModeBits::_8 } else { SymbolModeBits::_16 }
    }
}

/// Number of channels transferred per interface beat.
#[derive(Clone, Copy, PartialEq, Eq, Structural, Debug)]
pub enum R1Mode {
    /// One channel per beat (e.g. 1R1T).
    OneChannel,
    /// Two channels per beat (e.g. 2R2T).
    TwoChannels,
}

impl R1Mode {
    /// The raw field encoding of this variant.
    pub open spec fn spec_raw_value(self) -> u8 {
        match self {
            R1Mode::OneChannel => 0x1,
            R1Mode::TwoChannels => 0x0,
        }
    }

    /// The field encoding of each variant is the core's, and decoding it gives the variant
    /// back.
    pub proof fn lemma_raw_values()
        ensures
            R1Mode::OneChannel.spec_raw_value() == 0x1,
            R1Mode::TwoChannels.spec_raw_value() == 0x0,
            forall|v: R1Mode| #[trigger] R1Mode::spec_new_with_raw_value(v.spec_raw_value()) == v,
    {
    }

    /// The raw field encoding of this variant.
    #[verifier::when_used_as_spec(spec_raw_value)]
    pub fn raw_value(self) -> (r: u8)
        ensures
            r == self.spec_raw_value(),
    {
        match self {
            R1Mode::OneChannel => 0x1,
            R1Mode::TwoChannels => 0x0,
        }
    }

    /// Decodes a one-bit field value.
    pub open spec fn spec_new_with_raw_value(value: u8) -> Self {
        if value == 1 { R1Mode::OneChannel } else { R1Mode::TwoChannels }
    }

    /// Decodes a one-bit field value.
    #[verifier::when_used_as_spec(spec_new_with_raw_value)]
    pub fn new_with_raw_value(value: u8) -> (r: Self)
        requires
            value < 2,
        ensures
            r == Self::spec_new_with_raw_value(value),
            r.spec_raw_value() == value,
    {
        if value == 1 { R1Mode::OneChannel } else { R1Mode::TwoChannels }
    }
}

/// Digital interface signaling standard.
#[derive(Clone, Copy, PartialEq, Eq, Structural, Debug)]
pub enum InterfaceMode {
    /// LVDS interface.
    Lvds,
    /// CMOS interface.
    Cmos,
}

impl InterfaceMode {
    /// The raw field encoding of this variant.
    pub open spec fn spec_raw_value(self) -> u8 {
        match self {
            InterfaceMode::Lvds => 0x0,
            InterfaceMode::Cmos => 0x1,
        }
    }

    /// The field encoding of each variant is the core's, and decoding it gives the variant
    /// back.
    pub proof fn lemma_raw_values()
        ensures
            InterfaceMode::Lvds.spec_raw_value() == 0x0,
            InterfaceMode::Cmos.spec_raw_value() == 0x1,
            forall|v: InterfaceMode| #[trigger] InterfaceMode::spec_new_with_raw_value(v.spec_raw_value()) == v,
    {
    }

    /// The raw field encoding of this variant.
    #[verifier::when_used_as_spec(spec_raw_value)]
    pub fn raw_value(self) -> (r: u8)
        ensures
            r == self.spec_raw_value(),
    {
        match self {
            InterfaceMode::Lvds => 0x0,
            InterfaceMode::Cmos => 0x1,
        }
    }

    /// Decodes a one-bit field value.
    pub open spec fn spec_new_with_raw_value(value: u8) -> Self {
        if value == 1 { InterfaceMode::Cmos } else { InterfaceMode::Lvds }
    }

    /// Decodes a one-bit field value.
    #[verifier::when_used_as_spec(spec_new_with_raw_value)]
    pub fn new_with_raw_value(value: u8) -> (r: Self)
        requires
            value < 2,
        ensures
            r == Self::spec_new_with_raw_value(value),
            r.spec_raw_value() == value,
    {
        if value == 1 { InterfaceMode::Cmos } else { InterfaceMode::Lvds }
    }
}

/// FPGA process technology, encoded by Vivado at build time from the target part.
///
/// See `adi_xilinx_device_info_enc.tcl` (`fpga_technology_list`) in the ADI HDL repository.
#[derive(Clone, Copy, PartialEq, Eq, Structural, Debug)]
pub enum FpgaTechnology {
    /// Technology not recognized by the encoding.
    Unknown,
    /// Xilinx 7 series.
    Series7,
    /// Xilinx/AMD UltraScale.
    UltraScale,
    /// Xilinx/AMD UltraScale+.
    UltraScalePlus,
    /// AMD Versal.
    Versal,
}

impl FpgaTechnology {
    /// The raw field encoding of this variant.
    pub open spec fn spec_raw_value(self) -> u8 {
        match self {
            FpgaTechnology::Unknown => 0x0,
            FpgaTechnology::Series7 => 0x1,
            FpgaTechnology::UltraScale => 0x2,
            FpgaTechnology::UltraScalePlus => 0x3,
            FpgaTechnology::Versal => 0x4,
        }
    }

    /// The field encoding of each variant is the core's, and decoding it gives the variant
    /// back.
    pub proof fn lemma_raw_values()
        ensures
            FpgaTechnology::Unknown.spec_raw_value() == 0x0,
            FpgaTechnology::Series7.spec_raw_value() == 0x1,
            FpgaTechnology::UltraScale.spec_raw_value() == 0x2,
            FpgaTechnology::UltraScalePlus.spec_raw_value() == 0x3,
            FpgaTechnology::Versal.spec_raw_value() == 0x4,
            forall|v: FpgaTechnology| #[trigger] FpgaTechnology::spec_from_raw(v.spec_raw_value()) == Some(v),
    {
    }

    /// The raw field encoding of this variant.
    #[verifier::when_used_as_spec(spec_raw_value)]
    pub fn raw_value(self) -> (r: u8)
        ensures
            r == self.spec_raw_value(),
    {
        match self {
            FpgaTechnology::Unknown => 0x0,
            FpgaTechnology::Series7 => 0x1,
            FpgaTechnology::UltraScale => 0x2,
            FpgaTechnology::UltraScalePlus => 0x3,
            FpgaTechnology::Versal => 0x4,
        }
    }

    /// Decodes a field value; `None` for an encoding that names no variant.
    pub open spec fn spec_from_raw(value: u8) -> Option<Self> {
        if value == 0x0 {
            Some(FpgaTechnology::Unknown)
        } else if value == 0x1 {
            Some(FpgaTechnology::Series7)
        } else if value == 0x2 {
            Some(FpgaTechnology::UltraScale)
        } else if value == 0x3 {
            Some(FpgaTechnology::UltraScalePlus)
        } else if value == 0x4 {
            Some(FpgaTechnology::Versal)
        } else {
            None
        }
    }

    /// Decodes a field value, handing back the raw value where it names no variant.
    pub fn new_with_raw_value(value: u8) -> (r: Result<Self, u8>)
        ensures
            match r {
                Ok(v) => Self::spec_from_raw(value) == Some(v) && v.spec_raw_value() == value,
                Err(e) => Self::spec_from_raw(value) is None && e == value,
            },
    {
        if value == 0x0 {
            Ok(FpgaTechnology::Unknown)
        } else if value == 0x1 {
            Ok(FpgaTechnology::Series7)
        } else if value == 0x2 {
            Ok(FpgaTechnology::UltraScale)
        } else if value == 0x3 {
            Ok(FpgaTechnology::UltraScalePlus)
        } else if value == 0x4 {
            Ok(FpgaTechnology::Versal)
        } else {
            Err(value)
        }
    }
}

/// FPGA family, encoded by Vivado at build time from the target part.
///
/// See `adi_xilinx_device_info_enc.tcl` (`fpga_family_list`) in the ADI HDL repository.
#[derive(Clone, Copy, PartialEq, Eq, Structural, Debug)]
pub enum FpgaFamily {
    /// Family not recognized by the encoding.
    Unknown,
    /// Xilinx Artix.
    Artix,
    /// Xilinx Kintex.
    Kintex,
    /// Xilinx Virtex.
    Virtex,
    /// Xilinx/AMD Zynq.
    Zynq,
    /// AMD Versal Prime.
    VersalPrime,
    /// AMD Versal AI Core.
    VersalAiCore,
    /// AMD Versal Premium.
    VersalPremium,
}

impl FpgaFamily {
    /// The raw field encoding of this variant.
    pub open spec fn spec_raw_value(self) -> u8 {
        match self {
            FpgaFamily::Unknown => 0x0,
            FpgaFamily::Artix => 0x1,
            FpgaFamily::Kintex => 0x2,
            FpgaFamily::Virtex => 0x3,
            FpgaFamily::Zynq => 0x4,
            FpgaFamily::VersalPrime => 0x5,
            FpgaFamily::VersalAiCore => 0x6,
            FpgaFamily::VersalPremium => 0x7,
        }
    }

    /// The field encoding of each variant is the core's, and decoding it gives the variant
    /// back.
    pub proof fn lemma_raw_values()
        ensures
            FpgaFamily::Unknown.spec_raw_value() == 0x0,
            FpgaFamily::Artix.spec_raw_value() == 0x1,
            FpgaFamily::Kintex.spec_raw_value() == 0x2,
            FpgaFamily::Virtex.spec_raw_value() == 0x3,
            FpgaFamily::Zynq.spec_raw_value() == 0x4,
            FpgaFamily::VersalPrime.spec_raw_value() == 0x5,
            FpgaFamily::VersalAiCore.spec_raw_value() == 0x6,
            FpgaFamily::VersalPremium.spec_raw_value() == 0x7,
            forall|v: FpgaFamily| #[trigger] FpgaFamily::spec_from_raw(v.spec_raw_value()) == Some(v),
    {
    }

    /// The raw field encoding of this variant.
    #[verifier::when_used_as_spec(spec_raw_value)]
    pub fn raw_value(self) -> (r: u8)
        ensures
            r == self.spec_raw_value(),
    {
        match self {
            FpgaFamily::Unknown => 0x0,
            FpgaFamily::Artix => 0x1,
            FpgaFamily::Kintex => 0x2,
            FpgaFamily::Virtex => 0x3,
            FpgaFamily::Zynq => 0x4,
            FpgaFamily::VersalPrime => 0x5,
            FpgaFamily::VersalAiCore => 0x6,
            FpgaFamily::VersalPremium => 0x7,
        }
    }

    /// Decodes a field value; `None` for an encoding that names no variant.
    pub open spec fn spec_from_raw(value: u8) -> Option<Self> {
        if value == 0x0 {
            Some(FpgaFamily::Unknown)
        } else if value == 0x1 {
            Some(FpgaFamily::Artix)
        } else if value == 0x2 {
            Some(FpgaFamily::Kintex)
        } else if value == 0x3 {
            Some(FpgaFamily::Virtex)
        } else if value == 0x4 {
            Some(FpgaFamily::Zynq)
        } else if value == 0x5 {
            Some(FpgaFamily::VersalPrime)
        } else if value == 0x6 {
            Some(FpgaFamily::VersalAiCore)
        } else if value == 0x7 {
            Some(FpgaFamily::VersalPremium)
        } else {
            None
        }
    }

    /// Decodes a field value, handing back the raw value where it names no variant.
    pub fn new_with_raw_value(value: u8) -> (r: Result<Self, u8>)
        ensures
            match r {
                Ok(v) => Self::spec_from_raw(value) == Some(v) && v.spec_raw_value() == value,
                Err(e) => Self::spec_from_raw(value) is None && e == value,
            },
    {
        if value == 0x0 {
            Ok(FpgaFamily::Unknown)
        } else if value == 0x1 {
            Ok(FpgaFamily::Artix)
        } else if value == 0x2 {
            Ok(FpgaFamily::Kintex)
        } else if value == 0x3 {
            Ok(FpgaFamily::Virtex)
        } else if value == 0x4 {
            Ok(FpgaFamily::Zynq)
        } else if value == 0x5 {
            Ok(FpgaFamily::VersalPrime)
        } else if value == 0x6 {
            Ok(FpgaFamily::VersalAiCore)
        } else if value == 0x7 {
            Ok(FpgaFamily::VersalPremium)
        } else {
            Err(value)
        }
    }
}

/// Core reset/clock-enable register, `AXI_ADC_REG_RSTN`/`AXI_DAC_REG_RSTN`.
#[derive(Clone, Copy, PartialEq, Eq, Structural, Debug)]
pub struct Reset {
    /// The raw register word.
    pub raw: u32,
}

impl View for Reset {
    type V = u32;

    open spec fn view(&self) -> u32 {
        self.raw
    }
}

impl Reset {
    /// The all-zero register word.
    pub open spec fn spec_zero() -> Self {
        Reset { raw: 0 }
    }

    /// The all-zero register word.
    #[verifier::when_used_as_spec(spec_zero)]
    pub fn zero() -> (r: Self)
        ensures
            r == Self::spec_zero(),
    {
        Reset { raw: 0 }
    }

    /// Wraps a raw register word.
    pub fn new_with_raw_value(raw: u32) -> (r: Self)
        ensures
            r@ == raw,
    {
        Reset { raw }
    }

    /// The raw register word.
    pub fn raw_value(self) -> (r: u32)
        ensures
            r == self@,
    {
        self.raw
    }

    /// Set to 0x0 to enable the clock. Clock enabled by default.
    pub open spec fn spec_clock_disable(self) -> bool {
        bit(self.raw, 2)
    }

    /// Set to 0x0 to enable the clock. Clock enabled by default.
    #[verifier::when_used_as_spec(spec_clock_disable)]
    pub fn clock_disable(self) -> (r: bool)
        ensures
            r == self.spec_clock_disable(),
    {
        get_bit(self.raw, 2)
    }

    /// Sets `clock_disable`, every other bit unchanged.
    pub open spec fn spec_with_clock_disable(self, value: bool) -> Self {
        Reset { raw: set_bit(self.raw, 2, value) }
    }

    /// Sets `clock_disable`, every other bit unchanged.
    #[verifier::when_used_as_spec(spec_with_clock_disable)]
    pub fn with_clock_disable(self, value: bool) -> (r: Self)
        ensures
            r == self.spec_with_clock_disable(value),
    {
        Reset { raw: with_bit(self.raw, 2, value) }
    }

    /// Software must write 1 to bring up core.
    pub open spec fn spec_mmcm_reset_n(self) -> bool {
        bit(self.raw, 1)
    }

    /// Software must write 1 to bring up core.
    #[verifier::when_used_as_spec(spec_mmcm_reset_n)]
    pub fn mmcm_reset_n(self) -> (r: bool)
        ensures
            r == self.spec_mmcm_reset_n(),
    {
        get_bit(self.raw, 1)
    }

    /// Sets `mmcm_reset_n`, every other bit unchanged.
    pub open spec fn spec_with_mmcm_reset_n(self, value: bool) -> Self {
        Reset { raw: set_bit(self.raw, 1, value) }
    }

    /// Sets `mmcm_reset_n`, every other bit unchanged.
    #[verifier::when_used_as_spec(spec_with_mmcm_reset_n)]
    pub fn with_mmcm_reset_n(self, value: bool) -> (r: Self)
        ensures
            r == self.spec_with_mmcm_reset_n(value),
    {
        Reset { raw: with_bit(self.raw, 1, value) }
    }

    /// Software must write 1 to bring up core.
    pub open spec fn spec_reset_n(self) -> bool {
        bit(self.raw, 0)
    }

    /// Software must write 1 to bring up core.
    #[verifier::when_used_as_spec(spec_reset_n)]
    pub fn reset_n(self) -> (r: bool)
        ensures
            r == self.spec_reset_n(),
    {
        get_bit(self.raw, 0)
    }

    /// Sets `reset_n`, every other bit unchanged.
    pub open spec fn spec_with_reset_n(self, value: bool) -> Self {
        Reset { raw: set_bit(self.raw, 0, value) }
    }

    /// Sets `reset_n`, every other bit unchanged.
    #[verifier::when_used_as_spec(spec_with_reset_n)]
    pub fn with_reset_n(self, value: bool) -> (r: Self)
        ensures
            r == self.spec_with_reset_n(value),
    {
        Reset { raw: with_bit(self.raw, 0, value) }
    }
}

impl Default for Reset {
    fn default() -> (r: Self)
        ensures
            r@ == 0,
    {
        Reset { raw: 0 }
    }
}

/// Dynamic Reconfiguration Port (DRP) access request, `AXI_{ADC,DAC}_REG_DRP_CNTRL`. Shared
/// layout between the ADC and DAC register blocks.
#[derive(Clone, Copy, PartialEq, Eq, Structural, Debug)]
pub struct DrpControl {
    /// The raw register word.
    pub raw: u32,
}

impl View for DrpControl {
    type V = u32;

    open spec fn view(&self) -> u32 {
        self.raw
    }
}

impl DrpControl {
    /// The all-zero register word.
    pub open spec fn spec_zero() -> Self {
        DrpControl { raw: 0 }
    }

    /// The all-zero register word.
    #[verifier::when_used_as_spec(spec_zero)]
    pub fn zero() -> (r: Self)
        ensures
            r == Self::spec_zero(),
    {
        DrpControl { raw: 0 }
    }

    /// Wraps a raw register word.
    pub fn new_with_raw_value(raw: u32) -> (r: Self)
        ensures
            r@ == raw,
    {
        DrpControl { raw }
    }

    /// The raw register word.
    pub fn raw_value(self) -> (r: u32)
        ensures
            r == self@,
    {
        self.raw
    }

    /// Read (true) or write (false) the addressed DRP register.
    pub open spec fn spec_drp_rwn(self) -> bool {
        bit(self.raw, 28)
    }

    /// Read (true) or write (false) the addressed DRP register.
    #[verifier::when_used_as_spec(spec_drp_rwn)]
    pub fn drp_rwn(self) -> (r: bool)
        ensures
            r == self.spec_drp_rwn(),
    {
        get_bit(self.raw, 28)
    }

    /// Sets `drp_rwn`, every other bit unchanged.
    pub open spec fn spec_with_drp_rwn(self, value: bool) -> Self {
        DrpControl { raw: set_bit(self.raw, 28, value) }
    }

    /// Sets `drp_rwn`, every other bit unchanged.
    #[verifier::when_used_as_spec(spec_with_drp_rwn)]
    pub fn with_drp_rwn(self, value: bool) -> (r: Self)
        ensures
            r == self.spec_with_drp_rwn(value),
    {
        DrpControl { raw: with_bit(self.raw, 28, value) }
    }

    /// DRP address; designs with multiple DRP primitives select between them here.
    pub open spec fn spec_drp_address(self) -> u16 {
        field(self.raw, 16, 12) as u16
    }

    /// DRP address; designs with multiple DRP primitives select between them here.
    #[verifier::when_used_as_spec(spec_drp_address)]
    pub fn drp_address(self) -> (r: u16)
        ensures
            r == self.spec_drp_address(),
            r <= 0xFFF,
    {
        proof {
            lemma_field_bound(self.raw, 16, 12);
        }
        get_field(self.raw, 16, 12) as u16
    }

    /// Sets `drp_address`, every other bit unchanged.
    pub open spec fn spec_with_drp_address(self, value: u16) -> Self {
        DrpControl { raw: set_field(self.raw, 16, 12, value as u32) }
    }

    /// Sets `drp_address`, every other bit unchanged.
    #[verifier::when_used_as_spec(spec_with_drp_address)]
    pub fn with_drp_address(self, value: u16) -> (r: Self)
        requires
            value <= 0xFFF,
        ensures
            r == self.spec_with_drp_address(value),
    {
        DrpControl { raw: with_field(self.raw, 16, 12, value as u32) }
    }
}

impl Default for DrpControl {
    fn default() -> (r: Self)
        ensures
            r@ == 0,
    {
        DrpControl { raw: 0 }
    }
}

/// DRP access status, `AXI_{ADC,DAC}_REG_DRP_STATUS`. Shared layout between the ADC and DAC
/// register blocks.
#[derive(Clone, Copy, PartialEq, Eq, Structural, Debug)]
pub struct DrpStatus {
    /// The raw register word.
    pub raw: u32,
}

impl View for DrpStatus {
    type V = u32;

    open spec fn view(&self) -> u32 {
        self.raw
    }
}

impl DrpStatus {
    /// The all-zero register word.
    pub open spec fn spec_zero() -> Self {
        DrpStatus { raw: 0 }
    }

    /// The all-zero register word.
    #[verifier::when_used_as_spec(spec_zero)]
    pub fn zero() -> (r: Self)
        ensures
            r == Self::spec_zero(),
    {
        DrpStatus { raw: 0 }
    }

    /// Wraps a raw register word.
    pub fn new_with_raw_value(raw: u32) -> (r: Self)
        ensures
            r@ == raw,
    {
        DrpStatus { raw }
    }

    /// The raw register word.
    pub fn raw_value(self) -> (r: u32)
        ensures
            r == self@,
    {
        self.raw
    }

    /// The DRP-driven MMCM/PLL has achieved lock.
    pub open spec fn spec_drp_locked(self) -> bool {
        bit(self.raw, 17)
    }

    /// The DRP-driven MMCM/PLL has achieved lock.
    #[verifier::when_used_as_spec(spec_drp_locked)]
    pub fn drp_locked(self) -> (r: bool)
        ensures
            r == self.spec_drp_locked(),
    {
        get_bit(self.raw, 17)
    }

    /// A DRP access is pending (busy).
    pub open spec fn spec_drp_status(self) -> bool {
        bit(self.raw, 16)
    }

    /// A DRP access is pending (busy).
    #[verifier::when_used_as_spec(spec_drp_status)]
    pub fn drp_status(self) -> (r: bool)
        ensures
            r == self.spec_drp_status(),
    {
        get_bit(self.raw, 16)
    }
}

impl Default for DrpStatus {
    fn default() -> (r: Self)
        ensures
            r@ == 0,
    {
        DrpStatus { raw: 0 }
    }
}

/// IP core capability/configuration register, `AXI_ADC_REG_CONFIG`.
#[derive(Clone, Copy, PartialEq, Eq, Structural, Debug)]
pub struct Config {
    /// The raw register word.
    pub raw: u32,
}

impl View for Config {
    type V = u32;

    open spec fn view(&self) -> u32 {
        self.raw
    }
}

impl Config {
    /// The all-zero register word.
    pub open spec fn spec_zero() -> Self {
        Config { raw: 0 }
    }

    /// The all-zero register word.
    #[verifier::when_used_as_spec(spec_zero)]
    pub fn zero() -> (r: Self)
        ensures
            r == Self::spec_zero(),
    {
        Config { raw: 0 }
    }

    /// Wraps a raw register word.
    pub fn new_with_raw_value(raw: u32) -> (r: Self)
        ensures
            r@ == raw,
    {
        Config { raw }
    }

    /// The raw register word.
    pub fn raw_value(self) -> (r: u32)
        ensures
            r == self@,
    {
        self.raw
    }

    /// Raw (uncorrected) ADC data can be read back.
    pub open spec fn spec_rd_raw_data(self) -> bool {
        bit(self.raw, 11)
    }

    /// Raw (uncorrected) ADC data can be read back.
    #[verifier::when_used_as_spec(spec_rd_raw_data)]
    pub fn rd_raw_data(self) -> (r: bool)
        ensures
            r == self.spec_rd_raw_data(),
    {
        get_bit(self.raw, 11)
    }

    /// Sets `rd_raw_data`, every other bit unchanged.
    pub open spec fn spec_with_rd_raw_data(self, value: bool) -> Self {
        Config { raw: set_bit(self.raw, 11, value) }
    }

    /// Sets `rd_raw_data`, every other bit unchanged.
    #[verifier::when_used_as_spec(spec_with_rd_raw_data)]
    pub fn with_rd_raw_data(self, value: bool) -> (r: Self)
        ensures
            r == self.spec_with_rd_raw_data(value),
    {
        Config { raw: with_bit(self.raw, 11, value) }
    }

    /// External synchronization support is present.
    pub open spec fn spec_external_sync(self) -> bool {
        bit(self.raw, 10)
    }

    /// External synchronization support is present.
    #[verifier::when_used_as_spec(spec_external_sync)]
    pub fn external_sync(self) -> (r: bool)
        ensures
            r == self.spec_external_sync(),
    {
        get_bit(self.raw, 10)
    }

    /// Sets `external_sync`, every other bit unchanged.
    pub open spec fn spec_with_external_sync(self, value: bool) -> Self {
        Config { raw: set_bit(self.raw, 10, value) }
    }

    /// Sets `external_sync`, every other bit unchanged.
    #[verifier::when_used_as_spec(spec_with_external_sync)]
    pub fn with_external_sync(self, value: bool) -> (r: Self)
        ensures
            r == self.spec_with_external_sync(value),
    {
        Config { raw: with_bit(self.raw, 10, value) }
    }

    /// Only scale correction is supported, not full IQ correction.
    pub open spec fn spec_scale_correction_only(self) -> bool {
        bit(self.raw, 9)
    }

    /// Only scale correction is supported, not full IQ correction.
    #[verifier::when_used_as_spec(spec_scale_correction_only)]
    pub fn scale_correction_only(self) -> (r: bool)
        ensures
            r == self.spec_scale_correction_only(),
    {
        get_bit(self.raw, 9)
    }

    /// Sets `scale_correction_only`, every other bit unchanged.
    pub open spec fn spec_with_scale_correction_only(self, value: bool) -> Self {
        Config { raw: set_bit(self.raw, 9, value) }
    }

    /// Sets `scale_correction_only`, every other bit unchanged.
    #[verifier::when_used_as_spec(spec_with_scale_correction_only)]
    pub fn with_scale_correction_only(self, value: bool) -> (r: Self)
        ensures
            r == self.spec_with_scale_correction_only(value),
    {
        Config { raw: with_bit(self.raw, 9, value) }
    }

    /// A PPS receiver is present.
    pub open spec fn spec_pps_receiver(self) -> bool {
        bit(self.raw, 8)
    }

    /// A PPS receiver is present.
    #[verifier::when_used_as_spec(spec_pps_receiver)]
    pub fn pps_receiver(self) -> (r: bool)
        ensures
            r == self.spec_pps_receiver(),
    {
        get_bit(self.raw, 8)
    }

    /// Sets `pps_receiver`, every other bit unchanged.
    pub open spec fn spec_with_pps_receiver(self, value: bool) -> Self {
        Config { raw: set_bit(self.raw, 8, value) }
    }

    /// Sets `pps_receiver`, every other bit unchanged.
    #[verifier::when_used_as_spec(spec_with_pps_receiver)]
    pub fn with_pps_receiver(self, value: bool) -> (r: Self)
        ensures
            r == self.spec_with_pps_receiver(value),
    {
        Config { raw: with_bit(self.raw, 8, value) }
    }

    /// Digital interface standard configured for this core.
    pub open spec fn spec_cmos_or_lvds(self) -> InterfaceMode {
        InterfaceMode::spec_new_with_raw_value(field(self.raw, 7, 1) as u8)
    }

    /// Digital interface standard configured for this core.
    #[verifier::when_used_as_spec(spec_cmos_or_lvds)]
    pub fn cmos_or_lvds(self) -> (r: InterfaceMode)
        ensures
            r == self.spec_cmos_or_lvds(),
    {
        proof {
            lemma_field_bound(self.raw, 7, 1);
        }
        let value = get_field(self.raw, 7, 1) as u8;
        InterfaceMode::new_with_raw_value(value)
    }

    /// Sets `cmos_or_lvds`, every other bit unchanged.
    pub open spec fn spec_with_cmos_or_lvds(self, value: InterfaceMode) -> Self {
        Config { raw: set_field(self.raw, 7, 1, value.spec_raw_value() as u32) }
    }

    /// Sets `cmos_or_lvds`, every other bit unchanged.
    #[verifier::when_used_as_spec(spec_with_cmos_or_lvds)]
    pub fn with_cmos_or_lvds(self, value: InterfaceMode) -> (r: Self)
        ensures
            r == self.spec_with_cmos_or_lvds(value),
    {
        Config { raw: with_field(self.raw, 7, 1, value.raw_value() as u32) }
    }

    /// DDS support is disabled.
    pub open spec fn spec_dds_disable(self) -> bool {
        bit(self.raw, 6)
    }

    /// DDS support is disabled.
    #[verifier::when_used_as_spec(spec_dds_disable)]
    pub fn dds_disable(self) -> (r: bool)
        ensures
            r == self.spec_dds_disable(),
    {
        get_bit(self.raw, 6)
    }

    /// Sets `dds_disable`, every other bit unchanged.
    pub open spec fn spec_with_dds_disable(self, value: bool) -> Self {
        Config { raw: set_bit(self.raw, 6, value) }
    }

    /// Sets `dds_disable`, every other bit unchanged.
    #[verifier::when_used_as_spec(spec_with_dds_disable)]
    pub fn with_dds_disable(self, value: bool) -> (r: Self)
        ensures
            r == self.spec_with_dds_disable(value),
    {
        Config { raw: with_bit(self.raw, 6, value) }
    }

    /// Delay control support is disabled.
    pub open spec fn spec_delay_control_disable(self) -> bool {
        bit(self.raw, 5)
    }

    /// Delay control support is disabled.
    #[verifier::when_used_as_spec(spec_delay_control_disable)]
    pub fn delay_control_disable(self) -> (r: bool)
        ensures
            r == self.spec_delay_control_disable(),
    {
        get_bit(self.raw, 5)
    }

    /// Sets `delay_control_disable`, every other bit unchanged.
    pub open spec fn spec_with_delay_control_disable(self, value: bool) -> Self {
        Config { raw: set_bit(self.raw, 5, value) }
    }

    /// Sets `delay_control_disable`, every other bit unchanged.
    #[verifier::when_used_as_spec(spec_with_delay_control_disable)]
    pub fn with_delay_control_disable(self, value: bool) -> (r: Self)
        ensures
            r == self.spec_with_delay_control_disable(value),
    {
        Config { raw: with_bit(self.raw, 5, value) }
    }

    /// Core is built for 1R1T/1T1R mode only.
    pub open spec fn spec_mode_1r1t(self) -> bool {
        bit(self.raw, 4)
    }

    /// Core is built for 1R1T/1T1R mode only.
    #[verifier::when_used_as_spec(spec_mode_1r1t)]
    pub fn mode_1r1t(self) -> (r: bool)
        ensures
            r == self.spec_mode_1r1t(),
    {
        get_bit(self.raw, 4)
    }

    /// Sets `mode_1r1t`, every other bit unchanged.
    pub open spec fn spec_with_mode_1r1t(self, value: bool) -> Self {
        Config { raw: set_bit(self.raw, 4, value) }
    }

    /// Sets `mode_1r1t`, every other bit unchanged.
    #[verifier::when_used_as_spec(spec_with_mode_1r1t)]
    pub fn with_mode_1r1t(self, value: bool) -> (r: Self)
        ensures
            r == self.spec_with_mode_1r1t(value),
    {
        Config { raw: with_bit(self.raw, 4, value) }
    }

    /// User-port support is disabled.
    pub open spec fn spec_userports_disabled(self) -> bool {
        bit(self.raw, 3)
    }

    /// User-port support is disabled.
    #[verifier::when_used_as_spec(spec_userports_disabled)]
    pub fn userports_disabled(self) -> (r: bool)
        ensures
            r == self.spec_userports_disabled(),
    {
        get_bit(self.raw, 3)
    }

    /// Sets `userports_disabled`, every other bit unchanged.
    pub open spec fn spec_with_userports_disabled(self, value: bool) -> Self {
        Config { raw: set_bit(self.raw, 3, value) }
    }

    /// Sets `userports_disabled`, every other bit unchanged.
    #[verifier::when_used_as_spec(spec_with_userports_disabled)]
    pub fn with_userports_disabled(self, value: bool) -> (r: Self)
        ensures
            r == self.spec_with_userports_disabled(value),
    {
        Config { raw: with_bit(self.raw, 3, value) }
    }

    /// Data format conversion support is disabled.
    pub open spec fn spec_dataformat_disabled(self) -> bool {
        bit(self.raw, 2)
    }

    /// Data format conversion support is disabled.
    #[verifier::when_used_as_spec(spec_dataformat_disabled)]
    pub fn dataformat_disabled(self) -> (r: bool)
        ensures
            r == self.spec_dataformat_disabled(),
    {
        get_bit(self.raw, 2)
    }

    /// Sets `dataformat_disabled`, every other bit unchanged.
    pub open spec fn spec_with_dataformat_disabled(self, value: bool) -> Self {
        Config { raw: set_bit(self.raw, 2, value) }
    }

    /// Sets `dataformat_disabled`, every other bit unchanged.
    #[verifier::when_used_as_spec(spec_with_dataformat_disabled)]
    pub fn with_dataformat_disabled(self, value: bool) -> (r: Self)
        ensures
            r == self.spec_with_dataformat_disabled(value),
    {
        Config { raw: with_bit(self.raw, 2, value) }
    }

    /// DC filtering support is disabled.
    pub open spec fn spec_dc_filter_disabled(self) -> bool {
        bit(self.raw, 1)
    }

    /// DC filtering support is disabled.
    #[verifier::when_used_as_spec(spec_dc_filter_disabled)]
    pub fn dc_filter_disabled(self) -> (r: bool)
        ensures
            r == self.spec_dc_filter_disabled(),
    {
        get_bit(self.raw, 1)
    }

    /// IQ correction support is disabled.
    pub open spec fn spec_iq_correction_disabled(self) -> bool {
        bit(self.raw, 0)
    }

    /// IQ correction support is disabled.
    #[verifier::when_used_as_spec(spec_iq_correction_disabled)]
    pub fn iq_correction_disabled(self) -> (r: bool)
        ensures
            r == self.spec_iq_correction_disabled(),
    {
        get_bit(self.raw, 0)
    }
}

impl Default for Config {
    fn default() -> (r: Self)
        ensures
            r@ == 0,
    {
        Config { raw: 0 }
    }
}

/// FPGA part information encoded by Vivado at build time, read from `up_config_info`.
#[derive(Clone, Copy, PartialEq, Eq, Structural, Debug)]
pub struct FpgaInfo {
    /// The raw register word.
    pub raw: u32,
}

impl View for FpgaInfo {
    type V = u32;

    open spec fn view(&self) -> u32 {
        self.raw
    }
}

impl FpgaInfo {
    /// The all-zero register word.
    pub open spec fn spec_zero() -> Self {
        FpgaInfo { raw: 0 }
    }

    /// The all-zero register word.
    #[verifier::when_used_as_spec(spec_zero)]
    pub fn zero() -> (r: Self)
        ensures
            r == Self::spec_zero(),
    {
        FpgaInfo { raw: 0 }
    }

    /// Wraps a raw register word.
    pub fn new_with_raw_value(raw: u32) -> (r: Self)
        ensures
            r@ == raw,
    {
        FpgaInfo { raw }
    }

    /// The raw register word.
    pub fn raw_value(self) -> (r: u32)
        ensures
            r == self@,
    {
        self.raw
    }

    /// FPGA process technology.
    pub open spec fn spec_technology(self) -> Option<FpgaTechnology> {
        FpgaTechnology::spec_from_raw(field(self.raw, 24, 8) as u8)
    }

    /// FPGA process technology.
    #[verifier::when_used_as_spec(spec_technology)]
    pub fn technology(self) -> (r: Option<FpgaTechnology>)
        ensures
            r == self.spec_technology(),
    {
        proof {
            lemma_field_bound(self.raw, 24, 8);
        }
        let value = get_field(self.raw, 24, 8) as u8;
        match FpgaTechnology::new_with_raw_value(value) {
            Ok(v) => Some(v),
            Err(_) => None,
        }
    }

    /// Sets `technology`, every other bit unchanged.
    pub open spec fn spec_with_technology(self, value: FpgaTechnology) -> Self {
        FpgaInfo { raw: set_field(self.raw, 24, 8, value.spec_raw_value() as u32) }
    }

    /// Sets `technology`, every other bit unchanged.
    #[verifier::when_used_as_spec(spec_with_technology)]
    pub fn with_technology(self, value: FpgaTechnology) -> (r: Self)
        ensures
            r == self.spec_with_technology(value),
    {
        FpgaInfo { raw: with_field(self.raw, 24, 8, value.raw_value() as u32) }
    }

    /// FPGA family.
    pub open spec fn spec_family(self) -> Option<FpgaFamily> {
        FpgaFamily::spec_from_raw(field(self.raw, 16, 8) as u8)
    }

    /// FPGA family.
    #[verifier::when_used_as_spec(spec_family)]
    pub fn family(self) -> (r: Option<FpgaFamily>)
        ensures
            r == self.spec_family(),
    {
        proof {
            lemma_field_bound(self.raw, 16, 8);
        }
        let value = get_field(self.raw, 16, 8) as u8;
        match FpgaFamily::new_with_raw_value(value) {
            Ok(v) => Some(v),
            Err(_) => None,
        }
    }

    /// Sets `family`, every other bit unchanged.
    pub open spec fn spec_with_family(self, value: FpgaFamily) -> Self {
        FpgaInfo { raw: set_field(self.raw, 16, 8, value.spec_raw_value() as u32) }
    }

    /// Sets `family`, every other bit unchanged.
    #[verifier::when_used_as_spec(spec_with_family)]
    pub fn with_family(self, value: FpgaFamily) -> (r: Self)
        ensures
            r == self.spec_with_family(value),
    {
        FpgaInfo { raw: with_field(self.raw, 16, 8, value.raw_value() as u32) }
    }

    /// Speed grade, as encoded by Vivado.
    pub open spec fn spec_speed(self) -> u8 {
        field(self.raw, 8, 8) as u8
    }

    /// Speed grade, as encoded by Vivado.
    #[verifier::when_used_as_spec(spec_speed)]
    pub fn speed(self) -> (r: u8)
        ensures
            r == self.spec_speed(),
            r <= 0xFF,
    {
        proof {
            lemma_field_bound(self.raw, 8, 8);
        }
        get_field(self.raw, 8, 8) as u8
    }

    /// Sets `speed`, every other bit unchanged.
    pub open spec fn spec_with_speed(self, value: u8) -> Self {
        FpgaInfo { raw: set_field(self.raw, 8, 8, value as u32) }
    }

    /// Sets `speed`, every other bit unchanged.
    #[verifier::when_used_as_spec(spec_with_speed)]
    pub fn with_speed(self, value: u8) -> (r: Self)
        ensures
            r == self.spec_with_speed(value),
    {
        FpgaInfo { raw: with_field(self.raw, 8, 8, value as u32) }
    }

    /// Device package, as encoded by Vivado.
    pub open spec fn spec_dev_package(self) -> u8 {
        field(self.raw, 0, 8) as u8
    }

    /// Device package, as encoded by Vivado.
    #[verifier::when_used_as_spec(spec_dev_package)]
    pub fn dev_package(self) -> (r: u8)
        ensures
            r == self.spec_dev_package(),
            r <= 0xFF,
    {
        proof {
            lemma_field_bound(self.raw, 0, 8);
        }
        get_field(self.raw, 0, 8) as u8
    }

    /// Sets `dev_package`, every other bit unchanged.
    pub open spec fn spec_with_dev_package(self, value: u8) -> Self {
        FpgaInfo { raw: set_field(self.raw, 0, 8, value as u32) }
    }

    /// Sets `dev_package`, every other bit unchanged.
    #[verifier::when_used_as_spec(spec_with_dev_package)]
    pub fn with_dev_package(self, value: u8) -> (r: Self)
        ensures
            r == self.spec_with_dev_package(value),
    {
        FpgaInfo { raw: with_field(self.raw, 0, 8, value as u32) }
    }
}

impl Default for FpgaInfo {
    fn default() -> (r: Self)
        ensures
            r@ == 0,
    {
        FpgaInfo { raw: 0 }
    }
}

impl Reset {
    /// Both core reset lines released, clock enabled: the value written to bring the core out
    /// of reset.
    pub open spec fn spec_released() -> Reset {
        Reset::spec_zero().spec_with_mmcm_reset_n(true).spec_with_reset_n(true)
    }

    /// Both core reset lines released, clock enabled: the value written to bring the core out
    /// of reset.
    #[verifier::when_used_as_spec(spec_released)]
    pub fn released() -> (r: Reset)
        ensures
            r == Reset::spec_released(),
    {
        Reset::zero().with_mmcm_reset_n(true).with_reset_n(true)
    }
}

} // verus!
