//! DAC-specific register field types.
use vstd::prelude::*;
use crate::bits::{bit, field, set_bit, set_field, get_bit, get_field, with_bit, with_field, lemma_field_bound};
pub use crate::ad9361::regs::fields::{InterfaceType, R1Mode, SymbolModeBits};

verus! {

/// Frame/parity bit polarity.
#[derive(Clone, Copy, PartialEq, Eq, Structural, Debug)]
pub enum ParityType {
    /// Even parity.
    Even,
    /// Odd parity.
    Odd,
}

impl ParityType {
    /// The raw field encoding of this variant.
    pub open spec fn spec_raw_value(self) -> u8 {
        match self {
            ParityType::Even => 0x0,
            ParityType::Odd => 0x1,
        }
    }

    /// The field encoding of each variant is the core's, and decoding it gives the variant
    /// back.
    pub proof fn lemma_raw_values()
        ensures
            ParityType::Even.spec_raw_value() == 0x0,
            ParityType::Odd.spec_raw_value() == 0x1,
            forall|v: ParityType| #[trigger] ParityType::spec_new_with_raw_value(v.spec_raw_value()) == v,
    {
    }

    /// The raw field encoding of this variant.
    #[verifier::when_used_as_spec(spec_raw_value)]
    pub fn raw_value(self) -> (r: u8)
        ensures
            r == self.spec_raw_value(),
    {
        match self {
            ParityType::Even => 0x0,
            ParityType::Odd => 0x1,
        }
    }

    /// Decodes a one-bit field value.
    pub open spec fn spec_new_with_raw_value(value: u8) -> Self {
        if value == 1 { ParityType::Odd } else { ParityType::Even }
    }

    /// Decodes a one-bit field value.
    #[verifier::when_used_as_spec(spec_new_with_raw_value)]
    pub fn new_with_raw_value(value: u8) -> (r: Self)
        requires
            value < 2,
        ensures
            r == Self::spec_new_with_raw_value(value),
            r.spec_raw_value() == value,
    {
        if value == 1 { ParityType::Odd } else { ParityType::Even }
    }
}

/// Frame/parity bit meaning.
#[derive(Clone, Copy, PartialEq, Eq, Structural, Debug)]
pub enum ParityMode {
    /// Bit carries frame information.
    Frame,
    /// Bit carries parity information.
    Parity,
}

impl ParityMode {
    /// The raw field encoding of this variant.
    pub open spec fn spec_raw_value(self) -> u8 {
        match self {
            ParityMode::Frame => 0x0,
            ParityMode::Parity => 0x1,
        }
    }

    /// The field encoding of each variant is the core's, and decoding it gives the variant
    /// back.
    pub proof fn lemma_raw_values()
        ensures
            ParityMode::Frame.spec_raw_value() == 0x0,
            ParityMode::Parity.spec_raw_value() == 0x1,
            forall|v: ParityMode| #[trigger] ParityMode::spec_new_with_raw_value(v.spec_raw_value()) == v,
    {
    }

    /// The raw field encoding of this variant.
    #[verifier::when_used_as_spec(spec_raw_value)]
    pub fn raw_value(self) -> (r: u8)
        ensures
            r == self.spec_raw_value(),
    {
        match self {
            ParityMode::Frame => 0x0,
            ParityMode::Parity => 0x1,
        }
    }

    /// Decodes a one-bit field value.
    pub open spec fn spec_new_with_raw_value(value: u8) -> Self {
        if value == 1 { ParityMode::Parity } else { ParityMode::Frame }
    }

    /// Decodes a one-bit field value.
    #[verifier::when_used_as_spec(spec_new_with_raw_value)]
    pub fn new_with_raw_value(value: u8) -> (r: Self)
        requires
            value < 2,
        ensures
            r == Self::spec_new_with_raw_value(value),
            r.spec_raw_value() == value,
    {
        if value == 1 { ParityMode::Parity } else { ParityMode::Frame }
    }
}

/// Data source mux, written to a channel's [`ChannelDataSource`] register.
///
/// Per the `case (dac_data_sel_s)` mux in `axi_ad9361_tx_channel.v`, only 0x1, 0x2,
/// 0x3, 0x8 and 0x9 are matched by an explicit arm. The underscore-prefixed variants
/// fall through to `default` and behave like [`Self::InternalTone`].
#[derive(Clone, Copy, PartialEq, Eq, Structural, Debug)]
pub enum DataSource {
    /// Internally generated tone (DDS).
    InternalTone,
    /// [`PatternSed`] test pattern.
    Pattern,
    /// Data supplied by software/user logic.
    InputData,
    /// Constant zero output.
    Zero,
    /// Not matched by an explicit arm; falls through to [`Self::InternalTone`].
    _InvertedPn7,
    /// Not matched by an explicit arm; falls through to [`Self::InternalTone`].
    _InvertedPn15,
    /// Not matched by an explicit arm; falls through to [`Self::InternalTone`].
    _Pn7,
    /// Not matched by an explicit arm; falls through to [`Self::InternalTone`].
    _Pn15,
    /// Loop the corresponding ADC channel's data back out on this DAC channel.
    LoopbackDataAdc,
    /// PN sequence output.
    PnX,
    /// Not matched by an explicit arm; falls through to [`Self::InternalTone`].
    _NibbleRamp,
    /// Not matched by an explicit arm; falls through to [`Self::InternalTone`].
    _BitRam16Bit,
}

impl DataSource {
    /// The raw field encoding of this variant.
    pub open spec fn spec_raw_value(self) -> u8 {
        match self {
            DataSource::InternalTone => 0x0,
            DataSource::Pattern => 0x1,
            DataSource::InputData => 0x2,
            DataSource::Zero => 0x3,
            DataSource::_InvertedPn7 => 0x4,
            DataSource::_InvertedPn15 => 0x5,
            DataSource::_Pn7 => 0x6,
            DataSource::_Pn15 => 0x7,
            DataSource::LoopbackDataAdc => 0x8,
            DataSource::PnX => 0x9,
            DataSource::_NibbleRamp => 0xA,
            DataSource::_BitRam16Bit => 0xB,
        }
    }

    /// The field encoding of each variant is the core's, and decoding it gives the variant
    /// back.
    pub proof fn lemma_raw_values()
        ensures
            DataSource::InternalTone.spec_raw_value() == 0x0,
            DataSource::Pattern.spec_raw_value() == 0x1,
            DataSource::InputData.spec_raw_value() == 0x2,
            DataSource::Zero.spec_raw_value() == 0x3,
            DataSource::_InvertedPn7.spec_raw_value() == 0x4,
            DataSource::_InvertedPn15.spec_raw_value() == 0x5,
            DataSource::_Pn7.spec_raw_value() == 0x6,
            DataSource::_Pn15.spec_raw_value() == 0x7,
            DataSource::LoopbackDataAdc.spec_raw_value() == 0x8,
            DataSource::PnX.spec_raw_value() == 0x9,
            DataSource::_NibbleRamp.spec_raw_value() == 0xA,
            DataSource::_BitRam16Bit.spec_raw_value() == 0xB,
            forall|v: DataSource| #[trigger] DataSource::spec_from_raw(v.spec_raw_value()) == Some(v),
    {
    }

    /// The raw field encoding of this variant.
    #[verifier::when_used_as_spec(spec_raw_value)]
    pub fn raw_value(self) -> (r: u8)
        ensures
            r == self.spec_raw_value(),
    {
        match self {
            DataSource::InternalTone => 0x0,
            DataSource::Pattern => 0x1,
            DataSource::InputData => 0x2,
            DataSource::Zero => 0x3,
            DataSource::_InvertedPn7 => 0x4,
            DataSource::_InvertedPn15 => 0x5,
            DataSource::_Pn7 => 0x6,
            DataSource::_Pn15 => 0x7,
            DataSource::LoopbackDataAdc => 0x8,
            DataSource::PnX => 0x9,
            DataSource::_NibbleRamp => 0xA,
            DataSource::_BitRam16Bit => 0xB,
        }
    }

    /// Decodes a field value; `None` for an encoding that names no variant.
    pub open spec fn spec_from_raw(value: u8) -> Option<Self> {
        if value == 0x0 {
            Some(DataSource::InternalTone)
        } else if value == 0x1 {
            Some(DataSource::Pattern)
        } else if value == 0x2 {
            Some(DataSource::InputData)
        } else if value == 0x3 {
            Some(DataSource::Zero)
        } else if value == 0x4 {
            Some(DataSource::_InvertedPn7)
        } else if value == 0x5 {
            Some(DataSource::_InvertedPn15)
        } else if value == 0x6 {
            Some(DataSource::_Pn7)
        } else if value == 0x7 {
            Some(DataSource::_Pn15)
        } else if value == 0x8 {
            Some(DataSource::LoopbackDataAdc)
        } else if value == 0x9 {
            Some(DataSource::PnX)
        } else if value == 0xA {
            Some(DataSource::_NibbleRamp)
        } else if value == 0xB {
            Some(DataSource::_BitRam16Bit)
        } else {
            None
        }
    }

    /// Decodes a field value, handing back the raw value where it names no variant.
    pub fn new_with_raw_value(value: u8) -> (r: Result<Self, u8>)
        ensures
            match r {
                Ok(v) => Self::spec_from_raw(value) == Some(v) && v.spec_raw_value() == value,
                Err(e) => Self::spec_from_raw(value) is None && e == value,
            },
    {
        if value == 0x0 {
            Ok(DataSource::InternalTone)
        } else if value == 0x1 {
            Ok(DataSource::Pattern)
        } else if value == 0x2 {
            Ok(DataSource::InputData)
        } else if value == 0x3 {
            Ok(DataSource::Zero)
        } else if value == 0x4 {
            Ok(DataSource::_InvertedPn7)
        } else if value == 0x5 {
            Ok(DataSource::_InvertedPn15)
        } else if value == 0x6 {
            Ok(DataSource::_Pn7)
        } else if value == 0x7 {
            Ok(DataSource::_Pn15)
        } else if value == 0x8 {
            Ok(DataSource::LoopbackDataAdc)
        } else if value == 0x9 {
            Ok(DataSource::PnX)
        } else if value == 0xA {
            Ok(DataSource::_NibbleRamp)
        } else if value == 0xB {
            Ok(DataSource::_BitRam16Bit)
        } else {
            Err(value)
        }
    }
}

/// DAC channel synchronization control register, `AXI_DAC_REG_CNTRL_1`.
#[derive(Clone, Copy, PartialEq, Eq, Structural, Debug)]
pub struct Control1 {
    /// The raw register word.
    pub raw: u32,
}

impl View for Control1 {
    type V = u32;

    open spec fn view(&self) -> u32 {
        self.raw
    }
}

impl Control1 {
    /// The all-zero register word.
    pub open spec fn spec_zero() -> Self {
        Control1 { raw: 0 }
    }

    /// The all-zero register word.
    #[verifier::when_used_as_spec(spec_zero)]
    pub fn zero() -> (r: Self)
        ensures
            r == Self::spec_zero(),
    {
        Control1 { raw: 0 }
    }

    /// Wraps a raw register word.
    pub fn new_with_raw_value(raw: u32) -> (r: Self)
        ensures
            r@ == raw,
    {
        Control1 { raw }
    }

    /// The raw register word.
    pub fn raw_value(self) -> (r: u32)
        ensures
            r == self@,
    {
        self.raw
    }

    /// Manually request a synchronization pulse.
    pub open spec fn spec_manual_sync_request(self) -> bool {
        bit(self.raw, 8)
    }

    /// Manually request a synchronization pulse.
    #[verifier::when_used_as_spec(spec_manual_sync_request)]
    pub fn manual_sync_request(self) -> (r: bool)
        ensures
            r == self.spec_manual_sync_request(),
    {
        get_bit(self.raw, 8)
    }

    /// Sets `manual_sync_request`, every other bit unchanged.
    pub open spec fn spec_with_manual_sync_request(self, value: bool) -> Self {
        Control1 { raw: set_bit(self.raw, 8, value) }
    }

    /// Sets `manual_sync_request`, every other bit unchanged.
    #[verifier::when_used_as_spec(spec_with_manual_sync_request)]
    pub fn with_manual_sync_request(self, value: bool) -> (r: Self)
        ensures
            r == self.spec_with_manual_sync_request(value),
    {
        Control1 { raw: with_bit(self.raw, 8, value) }
    }

    /// Disarm external synchronization.
    pub open spec fn spec_disarm_ext_sync(self) -> bool {
        bit(self.raw, 2)
    }

    /// Disarm external synchronization.
    #[verifier::when_used_as_spec(spec_disarm_ext_sync)]
    pub fn disarm_ext_sync(self) -> (r: bool)
        ensures
            r == self.spec_disarm_ext_sync(),
    {
        get_bit(self.raw, 2)
    }

    /// Sets `disarm_ext_sync`, every other bit unchanged.
    pub open spec fn spec_with_disarm_ext_sync(self, value: bool) -> Self {
        Control1 { raw: set_bit(self.raw, 2, value) }
    }

    /// Sets `disarm_ext_sync`, every other bit unchanged.
    #[verifier::when_used_as_spec(spec_with_disarm_ext_sync)]
    pub fn with_disarm_ext_sync(self, value: bool) -> (r: Self)
        ensures
            r == self.spec_with_disarm_ext_sync(value),
    {
        Control1 { raw: with_bit(self.raw, 2, value) }
    }

    /// Arm external synchronization.
    pub open spec fn spec_arm_ext_sync(self) -> bool {
        bit(self.raw, 1)
    }

    /// Arm external synchronization.
    #[verifier::when_used_as_spec(spec_arm_ext_sync)]
    pub fn arm_ext_sync(self) -> (r: bool)
        ensures
            r == self.spec_arm_ext_sync(),
    {
        get_bit(self.raw, 1)
    }

    /// Sets `arm_ext_sync`, every other bit unchanged.
    pub open spec fn spec_with_arm_ext_sync(self, value: bool) -> Self {
        Control1 { raw: set_bit(self.raw, 1, value) }
    }

    /// Sets `arm_ext_sync`, every other bit unchanged.
    #[verifier::when_used_as_spec(spec_with_arm_ext_sync)]
    pub fn with_arm_ext_sync(self, value: bool) -> (r: Self)
        ensures
            r == self.spec_with_arm_ext_sync(value),
    {
        Control1 { raw: with_bit(self.raw, 1, value) }
    }

    /// Request a channel data path synchronization pulse.
    pub open spec fn spec_sync(self) -> bool {
        bit(self.raw, 0)
    }

    /// Request a channel data path synchronization pulse.
    #[verifier::when_used_as_spec(spec_sync)]
    pub fn sync(self) -> (r: bool)
        ensures
            r == self.spec_sync(),
    {
        get_bit(self.raw, 0)
    }

    /// Sets `sync`, every other bit unchanged.
    pub open spec fn spec_with_sync(self, value: bool) -> Self {
        Control1 { raw: set_bit(self.raw, 0, value) }
    }

    /// Sets `sync`, every other bit unchanged.
    #[verifier::when_used_as_spec(spec_with_sync)]
    pub fn with_sync(self, value: bool) -> (r: Self)
        ensures
            r == self.spec_with_sync(value),
    {
        Control1 { raw: with_bit(self.raw, 0, value) }
    }
}

impl Default for Control1 {
    fn default() -> (r: Self)
        ensures
            r@ == 0,
    {
        Control1 { raw: 0 }
    }
}

/// DAC digital interface control register, `AXI_DAC_REG_CNTRL_2`.
#[derive(Clone, Copy, PartialEq, Eq, Structural, Debug)]
pub struct Control2 {
    /// The raw register word.
    pub raw: u32,
}

impl View for Control2 {
    type V = u32;

    open spec fn view(&self) -> u32 {
        self.raw
    }
}

impl Control2 {
    /// The all-zero register word.
    pub open spec fn spec_zero() -> Self {
        Control2 { raw: 0 }
    }

    /// The all-zero register word.
    #[verifier::when_used_as_spec(spec_zero)]
    pub fn zero() -> (r: Self)
        ensures
            r == Self::spec_zero(),
    {
        Control2 { raw: 0 }
    }

    /// Wraps a raw register word.
    pub fn new_with_raw_value(raw: u32) -> (r: Self)
        ensures
            r@ == raw,
    {
        Control2 { raw }
    }

    /// The raw register word.
    pub fn raw_value(self) -> (r: u32)
        ensures
            r == self@,
    {
        self.raw
    }

    /// Interface type (SDR/DDR).
    pub open spec fn spec_interface_type(self) -> InterfaceType {
        InterfaceType::spec_new_with_raw_value(field(self.raw, 16, 1) as u8)
    }

    /// Interface type (SDR/DDR).
    #[verifier::when_used_as_spec(spec_interface_type)]
    pub fn interface_type(self) -> (r: InterfaceType)
        ensures
            r == self.spec_interface_type(),
    {
        proof {
            lemma_field_bound(self.raw, 16, 1);
        }
        let value = get_field(self.raw, 16, 1) as u8;
        InterfaceType::new_with_raw_value(value)
    }

    /// Sets `interface_type`, every other bit unchanged.
    pub open spec fn spec_with_interface_type(self, value: InterfaceType) -> Self {
        Control2 { raw: set_field(self.raw, 16, 1, value.spec_raw_value() as u32) }
    }

    /// Sets `interface_type`, every other bit unchanged.
    #[verifier::when_used_as_spec(spec_with_interface_type)]
    pub fn with_interface_type(self, value: InterfaceType) -> (r: Self)
        ensures
            r == self.spec_with_interface_type(value),
    {
        Control2 { raw: with_field(self.raw, 16, 1, value.raw_value() as u32) }
    }

    /// Select symbol data format mode.
    pub open spec fn spec_symb_op(self) -> bool {
        bit(self.raw, 15)
    }

    /// Select symbol data format mode.
    #[verifier::when_used_as_spec(spec_symb_op)]
    pub fn symb_op(self) -> (r: bool)
        ensures
            r == self.spec_symb_op(),
    {
        get_bit(self.raw, 15)
    }

    /// Sets `symb_op`, every other bit unchanged.
    pub open spec fn spec_with_symb_op(self, value: bool) -> Self {
        Control2 { raw: set_bit(self.raw, 15, value) }
    }

    /// Sets `symb_op`, every other bit unchanged.
    #[verifier::when_used_as_spec(spec_with_symb_op)]
    pub fn with_symb_op(self, value: bool) -> (r: Self)
        ensures
            r == self.spec_with_symb_op(value),
    {
        Control2 { raw: with_bit(self.raw, 15, value) }
    }

    /// Symbol width used by the digital interface.
    pub open spec fn spec_symb_8_16b(self) -> SymbolModeBits {
        SymbolModeBits::spec_new_with_raw_value(field(self.raw, 14, 1) as u8)
    }

    /// Symbol width used by the digital interface.
    #[verifier::when_used_as_spec(spec_symb_8_16b)]
    pub fn symb_8_16b(self) -> (r: SymbolModeBits)
        ensures
            r == self.spec_symb_8_16b(),
    {
        proof {
            lemma_field_bound(self.raw, 14, 1);
        }
        let value = get_field(self.raw, 14, 1) as u8;
        SymbolModeBits::new_with_raw_value(value)
    }

    /// Sets `symb_8_16b`, every other bit unchanged.
    pub open spec fn spec_with_symb_8_16b(self, value: SymbolModeBits) -> Self {
        Control2 { raw: set_field(self.raw, 14, 1, value.spec_raw_value() as u32) }
    }

    /// Sets `symb_8_16b`, every other bit unchanged.
    #[verifier::when_used_as_spec(spec_with_symb_8_16b)]
    pub fn with_symb_8_16b(self, value: SymbolModeBits) -> (r: Self)
        ensures
            r == self.spec_with_symb_8_16b(value),
    {
        Control2 { raw: with_field(self.raw, 14, 1, value.raw_value() as u32) }
    }

    /// Number of active interface lanes.
    pub open spec fn spec_num_of_lanes(self) -> u8 {
        field(self.raw, 8, 5) as u8
    }

    /// Number of active interface lanes.
    #[verifier::when_used_as_spec(spec_num_of_lanes)]
    pub fn num_of_lanes(self) -> (r: u8)
        ensures
            r == self.spec_num_of_lanes(),
            r <= 0x1F,
    {
        proof {
            lemma_field_bound(self.raw, 8, 5);
        }
        get_field(self.raw, 8, 5) as u8
    }

    /// Sets `num_of_lanes`, every other bit unchanged.
    pub open spec fn spec_with_num_of_lanes(self, value: u8) -> Self {
        Control2 { raw: set_field(self.raw, 8, 5, value as u32) }
    }

    /// Sets `num_of_lanes`, every other bit unchanged.
    #[verifier::when_used_as_spec(spec_with_num_of_lanes)]
    pub fn with_num_of_lanes(self, value: u8) -> (r: Self)
        requires
            value <= 0x1F,
        ensures
            r == self.spec_with_num_of_lanes(value),
    {
        Control2 { raw: with_field(self.raw, 8, 5, value as u32) }
    }

    /// Frame/parity bit polarity.
    pub open spec fn spec_parity_type(self) -> ParityType {
        ParityType::spec_new_with_raw_value(field(self.raw, 7, 1) as u8)
    }

    /// Frame/parity bit polarity.
    #[verifier::when_used_as_spec(spec_parity_type)]
    pub fn parity_type(self) -> (r: ParityType)
        ensures
            r == self.spec_parity_type(),
    {
        proof {
            lemma_field_bound(self.raw, 7, 1);
        }
        let value = get_field(self.raw, 7, 1) as u8;
        ParityType::new_with_raw_value(value)
    }

    /// Sets `parity_type`, every other bit unchanged.
    pub open spec fn spec_with_parity_type(self, value: ParityType) -> Self {
        Control2 { raw: set_field(self.raw, 7, 1, value.spec_raw_value() as u32) }
    }

    /// Sets `parity_type`, every other bit unchanged.
    #[verifier::when_used_as_spec(spec_with_parity_type)]
    pub fn with_parity_type(self, value: ParityType) -> (r: Self)
        ensures
            r == self.spec_with_parity_type(value),
    {
        Control2 { raw: with_field(self.raw, 7, 1, value.raw_value() as u32) }
    }

    /// Frame/parity bit meaning.
    pub open spec fn spec_parity_mode(self) -> ParityType {
        ParityType::spec_new_with_raw_value(field(self.raw, 6, 1) as u8)
    }

    /// Frame/parity bit meaning.
    #[verifier::when_used_as_spec(spec_parity_mode)]
    pub fn parity_mode(self) -> (r: ParityType)
        ensures
            r == self.spec_parity_mode(),
    {
        proof {
            lemma_field_bound(self.raw, 6, 1);
        }
        let value = get_field(self.raw, 6, 1) as u8;
        ParityType::new_with_raw_value(value)
    }

    /// Sets `parity_mode`, every other bit unchanged.
    pub open spec fn spec_with_parity_mode(self, value: ParityType) -> Self {
        Control2 { raw: set_field(self.raw, 6, 1, value.spec_raw_value() as u32) }
    }

    /// Sets `parity_mode`, every other bit unchanged.
    #[verifier::when_used_as_spec(spec_with_parity_mode)]
    pub fn with_parity_mode(self, value: ParityType) -> (r: Self)
        ensures
            r == self.spec_with_parity_mode(value),
    {
        Control2 { raw: with_field(self.raw, 6, 1, value.raw_value() as u32) }
    }

    /// Number of channels transferred per interface beat.
    pub open spec fn spec_r1_mode(self) -> R1Mode {
        R1Mode::spec_new_with_raw_value(field(self.raw, 5, 1) as u8)
    }

    /// Number of channels transferred per interface beat.
    #[verifier::when_used_as_spec(spec_r1_mode)]
    pub fn r1_mode(self) -> (r: R1Mode)
        ensures
            r == self.spec_r1_mode(),
    {
        proof {
            lemma_field_bound(self.raw, 5, 1);
        }
        let value = get_field(self.raw, 5, 1) as u8;
        R1Mode::new_with_raw_value(value)
    }

    /// Sets `r1_mode`, every other bit unchanged.
    pub open spec fn spec_with_r1_mode(self, value: R1Mode) -> Self {
        Control2 { raw: set_field(self.raw, 5, 1, value.spec_raw_value() as u32) }
    }

    /// Sets `r1_mode`, every other bit unchanged.
    #[verifier::when_used_as_spec(spec_with_r1_mode)]
    pub fn with_r1_mode(self, value: R1Mode) -> (r: Self)
        ensures
            r == self.spec_with_r1_mode(value),
    {
        Control2 { raw: with_field(self.raw, 5, 1, value.raw_value() as u32) }
    }

    /// Sample data format (offset binary vs. two's complement).
    pub open spec fn spec_data_format(self) -> bool {
        bit(self.raw, 4)
    }

    /// Sample data format (offset binary vs. two's complement).
    #[verifier::when_used_as_spec(spec_data_format)]
    pub fn data_format(self) -> (r: bool)
        ensures
            r == self.spec_data_format(),
    {
        get_bit(self.raw, 4)
    }

    /// Sets `data_format`, every other bit unchanged.
    pub open spec fn spec_with_data_format(self, value: bool) -> Self {
        Control2 { raw: set_bit(self.raw, 4, value) }
    }

    /// Sets `data_format`, every other bit unchanged.
    #[verifier::when_used_as_spec(spec_with_data_format)]
    pub fn with_data_format(self, value: bool) -> (r: Self)
        ensures
            r == self.spec_with_data_format(value),
    {
        Control2 { raw: with_bit(self.raw, 4, value) }
    }
}

impl Default for Control2 {
    fn default() -> (r: Self)
        ensures
            r@ == 0,
    {
        Control2 { raw: 0 }
    }
}

/// DAC sample rate divider register, `AXI_DAC_REG_RATECNTRL`.
#[derive(Clone, Copy, PartialEq, Eq, Structural, Debug)]
pub struct RateControl {
    /// The raw register word.
    pub raw: u32,
}

impl View for RateControl {
    type V = u32;

    open spec fn view(&self) -> u32 {
        self.raw
    }
}

impl RateControl {
    /// The all-zero register word.
    pub open spec fn spec_zero() -> Self {
        RateControl { raw: 0 }
    }

    /// The all-zero register word.
    #[verifier::when_used_as_spec(spec_zero)]
    pub fn zero() -> (r: Self)
        ensures
            r == Self::spec_zero(),
    {
        RateControl { raw: 0 }
    }

    /// Wraps a raw register word.
    pub fn new_with_raw_value(raw: u32) -> (r: Self)
        ensures
            r@ == raw,
    {
        RateControl { raw }
    }

    /// The raw register word.
    pub fn raw_value(self) -> (r: u32)
        ensures
            r == self@,
    {
        self.raw
    }

    /// Rate divider value, see [`crate::ad9361::dac::Dac::set_rate_div`].
    pub open spec fn spec_rate(self) -> u8 {
        field(self.raw, 0, 8) as u8
    }

    /// Rate divider value, see [`crate::ad9361::dac::Dac::set_rate_div`].
    #[verifier::when_used_as_spec(spec_rate)]
    pub fn rate(self) -> (r: u8)
        ensures
            r == self.spec_rate(),
            r <= 0xFF,
    {
        proof {
            lemma_field_bound(self.raw, 0, 8);
        }
        get_field(self.raw, 0, 8) as u8
    }

    /// Sets `rate`, every other bit unchanged.
    pub open spec fn spec_with_rate(self, value: u8) -> Self {
        RateControl { raw: set_field(self.raw, 0, 8, value as u32) }
    }

    /// Sets `rate`, every other bit unchanged.
    #[verifier::when_used_as_spec(spec_with_rate)]
    pub fn with_rate(self, value: u8) -> (r: Self)
        ensures
            r == self.spec_with_rate(value),
    {
        RateControl { raw: with_field(self.raw, 0, 8, value as u32) }
    }
}

impl Default for RateControl {
    fn default() -> (r: Self)
        ensures
            r@ == 0,
    {
        RateControl { raw: 0 }
    }
}

/// User interface FIFO status, `AXI_DAC_REG_UI_STATUS`. Overflow/underflow bits are
/// write-1-to-clear.
#[derive(Clone, Copy, PartialEq, Eq, Structural, Debug)]
pub struct UiStatus {
    /// The raw register word.
    pub raw: u32,
}

impl View for UiStatus {
    type V = u32;

    open spec fn view(&self) -> u32 {
        self.raw
    }
}

impl UiStatus {
    /// The all-zero register word.
    pub open spec fn spec_zero() -> Self {
        UiStatus { raw: 0 }
    }

    /// The all-zero register word.
    #[verifier::when_used_as_spec(spec_zero)]
    pub fn zero() -> (r: Self)
        ensures
            r == Self::spec_zero(),
    {
        UiStatus { raw: 0 }
    }

    /// Wraps a raw register word.
    pub fn new_with_raw_value(raw: u32) -> (r: Self)
        ensures
            r@ == raw,
    {
        UiStatus { raw }
    }

    /// The raw register word.
    pub fn raw_value(self) -> (r: u32)
        ensures
            r == self@,
    {
        self.raw
    }

    /// The data interface is busy.
    pub open spec fn spec_if_busy(self) -> bool {
        bit(self.raw, 4)
    }

    /// The data interface is busy.
    #[verifier::when_used_as_spec(spec_if_busy)]
    pub fn if_busy(self) -> (r: bool)
        ensures
            r == self.spec_if_busy(),
    {
        get_bit(self.raw, 4)
    }

    /// User interface FIFO overflow occurred.
    pub open spec fn spec_ui_ovf(self) -> bool {
        bit(self.raw, 1)
    }

    /// User interface FIFO overflow occurred.
    #[verifier::when_used_as_spec(spec_ui_ovf)]
    pub fn ui_ovf(self) -> (r: bool)
        ensures
            r == self.spec_ui_ovf(),
    {
        get_bit(self.raw, 1)
    }

    /// Sets `ui_ovf`, every other bit unchanged.
    pub open spec fn spec_with_ui_ovf(self, value: bool) -> Self {
        UiStatus { raw: set_bit(self.raw, 1, value) }
    }

    /// Sets `ui_ovf`, every other bit unchanged.
    #[verifier::when_used_as_spec(spec_with_ui_ovf)]
    pub fn with_ui_ovf(self, value: bool) -> (r: Self)
        ensures
            r == self.spec_with_ui_ovf(value),
    {
        UiStatus { raw: with_bit(self.raw, 1, value) }
    }

    /// User interface FIFO underflow occurred.
    pub open spec fn spec_ui_unf(self) -> bool {
        bit(self.raw, 0)
    }

    /// User interface FIFO underflow occurred.
    #[verifier::when_used_as_spec(spec_ui_unf)]
    pub fn ui_unf(self) -> (r: bool)
        ensures
            r == self.spec_ui_unf(),
    {
        get_bit(self.raw, 0)
    }

    /// Sets `ui_unf`, every other bit unchanged.
    pub open spec fn spec_with_ui_unf(self, value: bool) -> Self {
        UiStatus { raw: set_bit(self.raw, 0, value) }
    }

    /// Sets `ui_unf`, every other bit unchanged.
    #[verifier::when_used_as_spec(spec_with_ui_unf)]
    pub fn with_ui_unf(self, value: bool) -> (r: Self)
        ensures
            r == self.spec_with_ui_unf(value),
    {
        UiStatus { raw: with_bit(self.raw, 0, value) }
    }
}

impl Default for UiStatus {
    fn default() -> (r: Self)
        ensures
            r@ == 0,
    {
        UiStatus { raw: 0 }
    }
}

/// Legacy per-channel loopback/PN/IQ-correction enable, `control6`.
///
/// Superseded on modern cores by [`ChannelDataSource::data_source`]
/// (`DataSource::LoopbackDataAdc`/`DataSource::PnX`), but the AD9361 TX digital-tune
/// sequence still clears and restores this register unconditionally.
#[derive(Clone, Copy, PartialEq, Eq, Structural, Debug)]
pub struct ChannelLegacyControl {
    /// The raw register word.
    pub raw: u32,
}

impl View for ChannelLegacyControl {
    type V = u32;

    open spec fn view(&self) -> u32 {
        self.raw
    }
}

impl ChannelLegacyControl {
    /// The all-zero register word.
    pub open spec fn spec_zero() -> Self {
        ChannelLegacyControl { raw: 0 }
    }

    /// The all-zero register word.
    #[verifier::when_used_as_spec(spec_zero)]
    pub fn zero() -> (r: Self)
        ensures
            r == Self::spec_zero(),
    {
        ChannelLegacyControl { raw: 0 }
    }

    /// Wraps a raw register word.
    pub fn new_with_raw_value(raw: u32) -> (r: Self)
        ensures
            r@ == raw,
    {
        ChannelLegacyControl { raw }
    }

    /// The raw register word.
    pub fn raw_value(self) -> (r: u32)
        ensures
            r == self@,
    {
        self.raw
    }

    /// Enable IQ correction on this channel.
    pub open spec fn spec_iqcor_enable(self) -> bool {
        bit(self.raw, 2)
    }

    /// Enable IQ correction on this channel.
    #[verifier::when_used_as_spec(spec_iqcor_enable)]
    pub fn iqcor_enable(self) -> (r: bool)
        ensures
            r == self.spec_iqcor_enable(),
    {
        get_bit(self.raw, 2)
    }

    /// Sets `iqcor_enable`, every other bit unchanged.
    pub open spec fn spec_with_iqcor_enable(self, value: bool) -> Self {
        ChannelLegacyControl { raw: set_bit(self.raw, 2, value) }
    }

    /// Sets `iqcor_enable`, every other bit unchanged.
    #[verifier::when_used_as_spec(spec_with_iqcor_enable)]
    pub fn with_iqcor_enable(self, value: bool) -> (r: Self)
        ensures
            r == self.spec_with_iqcor_enable(value),
    {
        ChannelLegacyControl { raw: with_bit(self.raw, 2, value) }
    }

    /// Loop the channel's data path back on itself.
    pub open spec fn spec_loopback_enable(self) -> bool {
        bit(self.raw, 1)
    }

    /// Loop the channel's data path back on itself.
    #[verifier::when_used_as_spec(spec_loopback_enable)]
    pub fn loopback_enable(self) -> (r: bool)
        ensures
            r == self.spec_loopback_enable(),
    {
        get_bit(self.raw, 1)
    }

    /// Sets `loopback_enable`, every other bit unchanged.
    pub open spec fn spec_with_loopback_enable(self, value: bool) -> Self {
        ChannelLegacyControl { raw: set_bit(self.raw, 1, value) }
    }

    /// Sets `loopback_enable`, every other bit unchanged.
    #[verifier::when_used_as_spec(spec_with_loopback_enable)]
    pub fn with_loopback_enable(self, value: bool) -> (r: Self)
        ensures
            r == self.spec_with_loopback_enable(value),
    {
        ChannelLegacyControl { raw: with_bit(self.raw, 1, value) }
    }

    /// Enable PN sequence output on this channel.
    pub open spec fn spec_pn_enable(self) -> bool {
        bit(self.raw, 0)
    }

    /// Enable PN sequence output on this channel.
    #[verifier::when_used_as_spec(spec_pn_enable)]
    pub fn pn_enable(self) -> (r: bool)
        ensures
            r == self.spec_pn_enable(),
    {
        get_bit(self.raw, 0)
    }

    /// Sets `pn_enable`, every other bit unchanged.
    pub open spec fn spec_with_pn_enable(self, value: bool) -> Self {
        ChannelLegacyControl { raw: set_bit(self.raw, 0, value) }
    }

    /// Sets `pn_enable`, every other bit unchanged.
    #[verifier::when_used_as_spec(spec_with_pn_enable)]
    pub fn with_pn_enable(self, value: bool) -> (r: Self)
        ensures
            r == self.spec_with_pn_enable(value),
    {
        ChannelLegacyControl { raw: with_bit(self.raw, 0, value) }
    }
}

impl Default for ChannelLegacyControl {
    fn default() -> (r: Self)
        ensures
            r@ == 0,
    {
        ChannelLegacyControl { raw: 0 }
    }
}

/// Per-channel data source mux register, `AXI_DAC_REG_CHAN_CNTRL_7`.
#[derive(Clone, Copy, PartialEq, Eq, Structural, Debug)]
pub struct ChannelDataSource {
    /// The raw register word.
    pub raw: u32,
}

impl View for ChannelDataSource {
    type V = u32;

    open spec fn view(&self) -> u32 {
        self.raw
    }
}

impl ChannelDataSource {
    /// The all-zero register word.
    pub open spec fn spec_zero() -> Self {
        ChannelDataSource { raw: 0 }
    }

    /// The all-zero register word.
    #[verifier::when_used_as_spec(spec_zero)]
    pub fn zero() -> (r: Self)
        ensures
            r == Self::spec_zero(),
    {
        ChannelDataSource { raw: 0 }
    }

    /// Wraps a raw register word.
    pub fn new_with_raw_value(raw: u32) -> (r: Self)
        ensures
            r@ == raw,
    {
        ChannelDataSource { raw }
    }

    /// The raw register word.
    pub fn raw_value(self) -> (r: u32)
        ensures
            r == self@,
    {
        self.raw
    }

    /// Selected data source.
    pub open spec fn spec_data_source(self) -> Option<DataSource> {
        DataSource::spec_from_raw(field(self.raw, 0, 4) as u8)
    }

    /// Selected data source.
    #[verifier::when_used_as_spec(spec_data_source)]
    pub fn data_source(self) -> (r: Option<DataSource>)
        ensures
            r == self.spec_data_source(),
    {
        proof {
            lemma_field_bound(self.raw, 0, 4);
        }
        let value = get_field(self.raw, 0, 4) as u8;
        match DataSource::new_with_raw_value(value) {
            Ok(v) => Some(v),
            Err(_) => None,
        }
    }

    /// Sets `data_source`, every other bit unchanged.
    pub open spec fn spec_with_data_source(self, value: DataSource) -> Self {
        ChannelDataSource { raw: set_field(self.raw, 0, 4, value.spec_raw_value() as u32) }
    }

    /// Sets `data_source`, every other bit unchanged.
    #[verifier::when_used_as_spec(spec_with_data_source)]
    pub fn with_data_source(self, value: DataSource) -> (r: Self)
        ensures
            r == self.spec_with_data_source(value),
    {
        ChannelDataSource { raw: with_field(self.raw, 0, 4, value.raw_value() as u32) }
    }
}

impl Default for ChannelDataSource {
    fn default() -> (r: Self)
        ensures
            r@ == 0,
    {
        ChannelDataSource { raw: 0 }
    }
}

/// SED test pattern data.
///
/// `pattern_1` and `pattern_2` are output alternately, sample by sample, when the
/// channel's data source is set to [`DataSource::Pattern`].
#[derive(Clone, Copy, PartialEq, Eq, Structural, Debug)]
pub struct PatternSed {
    /// The raw register word.
    pub raw: u32,
}

impl View for PatternSed {
    type V = u32;

    open spec fn view(&self) -> u32 {
        self.raw
    }
}

impl PatternSed {
    /// The all-zero register word.
    pub open spec fn spec_zero() -> Self {
        PatternSed { raw: 0 }
    }

    /// The all-zero register word.
    #[verifier::when_used_as_spec(spec_zero)]
    pub fn zero() -> (r: Self)
        ensures
            r == Self::spec_zero(),
    {
        PatternSed { raw: 0 }
    }

    /// Wraps a raw register word.
    pub fn new_with_raw_value(raw: u32) -> (r: Self)
        ensures
            r@ == raw,
    {
        PatternSed { raw }
    }

    /// The raw register word.
    pub fn raw_value(self) -> (r: u32)
        ensures
            r == self@,
    {
        self.raw
    }

    /// Second alternating pattern value.
    pub open spec fn spec_pattern_2(self) -> i16 {
        (field(self.raw, 16, 16) as u16) as i16
    }

    /// Second alternating pattern value.
    #[verifier::when_used_as_spec(spec_pattern_2)]
    pub fn pattern_2(self) -> (r: i16)
        ensures
            r == self.spec_pattern_2(),
    {
        proof {
            lemma_field_bound(self.raw, 16, 16);
        }
        (get_field(self.raw, 16, 16) as u16) as i16
    }

    /// Sets `pattern_2`, every other bit unchanged.
    pub open spec fn spec_with_pattern_2(self, value: i16) -> Self {
        PatternSed { raw: set_field(self.raw, 16, 16, (value as u16) as u32) }
    }

    /// Sets `pattern_2`, every other bit unchanged.
    #[verifier::when_used_as_spec(spec_with_pattern_2)]
    pub fn with_pattern_2(self, value: i16) -> (r: Self)
        ensures
            r == self.spec_with_pattern_2(value),
    {
        PatternSed { raw: with_field(self.raw, 16, 16, (value as u16) as u32) }
    }

    /// First alternating pattern value.
    pub open spec fn spec_pattern_1(self) -> i16 {
        (field(self.raw, 0, 16) as u16) as i16
    }

    /// First alternating pattern value.
    #[verifier::when_used_as_spec(spec_pattern_1)]
    pub fn pattern_1(self) -> (r: i16)
        ensures
            r == self.spec_pattern_1(),
    {
        proof {
            lemma_field_bound(self.raw, 0, 16);
        }
        (get_field(self.raw, 0, 16) as u16) as i16
    }

    /// Sets `pattern_1`, every other bit unchanged.
    pub open spec fn spec_with_pattern_1(self, value: i16) -> Self {
        PatternSed { raw: set_field(self.raw, 0, 16, (value as u16) as u32) }
    }

    /// Sets `pattern_1`, every other bit unchanged.
    #[verifier::when_used_as_spec(spec_with_pattern_1)]
    pub fn with_pattern_1(self, value: i16) -> (r: Self)
        ensures
            r == self.spec_with_pattern_1(value),
    {
        PatternSed { raw: with_field(self.raw, 0, 16, (value as u16) as u32) }
    }
}

impl Default for PatternSed {
    fn default() -> (r: Self)
        ensures
            r@ == 0,
    {
        PatternSed { raw: 0 }
    }
}

} // verus!
