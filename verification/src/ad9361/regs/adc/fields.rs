//! ADC-specific register field types.
use vstd::prelude::*;
use crate::bits::{bit, field, set_bit, set_field, get_bit, get_field, with_bit, with_field, lemma_field_bound};
pub use crate::ad9361::regs::fields::{InterfaceType, R1Mode, SymbolModeBits};

verus! {

/// DDR data capture edge selection.
#[derive(Clone, Copy, PartialEq, Eq, Structural, Debug)]
pub enum DdrEdgeSelect {
    /// Capture on the rising edge.
    Rising,
    /// Capture on the falling edge.
    Falling,
}

impl DdrEdgeSelect {
    /// The raw field encoding of this variant.
    pub open spec fn spec_raw_value(self) -> u8 {
        match self {
            DdrEdgeSelect::Rising => 0x0,
            DdrEdgeSelect::Falling => 0x1,
        }
    }

    /// The field encoding of each variant is the core's, and decoding it gives the variant
    /// back.
    pub proof fn lemma_raw_values()
        ensures
            DdrEdgeSelect::Rising.spec_raw_value() == 0x0,
            DdrEdgeSelect::Falling.spec_raw_value() == 0x1,
            forall|v: DdrEdgeSelect| #[trigger] DdrEdgeSelect::spec_new_with_raw_value(v.spec_raw_value()) == v,
    {
    }

    /// The raw field encoding of this variant.
    #[verifier::when_used_as_spec(spec_raw_value)]
    pub fn raw_value(self) -> (r: u8)
        ensures
            r == self.spec_raw_value(),
    {
        match self {
            DdrEdgeSelect::Rising => 0x0,
            DdrEdgeSelect::Falling => 0x1,
        }
    }

    /// Decodes a one-bit field value.
    pub open spec fn spec_new_with_raw_value(value: u8) -> Self {
        if value == 1 { DdrEdgeSelect::Falling } else { DdrEdgeSelect::Rising }
    }

    /// Decodes a one-bit field value.
    #[verifier::when_used_as_spec(spec_new_with_raw_value)]
    pub fn new_with_raw_value(value: u8) -> (r: Self)
        requires
            value < 2,
        ensures
            r == Self::spec_new_with_raw_value(value),
            r.spec_raw_value() == value,
    {
        if value == 1 { DdrEdgeSelect::Falling } else { DdrEdgeSelect::Rising }
    }
}

/// Digital interface pin/clock multiplexing scheme.
#[derive(Clone, Copy, PartialEq, Eq, Structural, Debug)]
pub enum PinMode {
    /// Clock-multiplexed interface.
    ClockMultiplexed,
    /// Pin-multiplexed interface.
    PinMultiplexed,
}

impl PinMode {
    /// The raw field encoding of this variant.
    pub open spec fn spec_raw_value(self) -> u8 {
        match self {
            PinMode::ClockMultiplexed => 0x1,
            PinMode::PinMultiplexed => 0x0,
        }
    }

    /// The field encoding of each variant is the core's, and decoding it gives the variant
    /// back.
    pub proof fn lemma_raw_values()
        ensures
            PinMode::ClockMultiplexed.spec_raw_value() == 0x1,
            PinMode::PinMultiplexed.spec_raw_value() == 0x0,
            forall|v: PinMode| #[trigger] PinMode::spec_new_with_raw_value(v.spec_raw_value()) == v,
    {
    }

    /// The raw field encoding of this variant.
    #[verifier::when_used_as_spec(spec_raw_value)]
    pub fn raw_value(self) -> (r: u8)
        ensures
            r == self.spec_raw_value(),
    {
        match self {
            PinMode::ClockMultiplexed => 0x1,
            PinMode::PinMultiplexed => 0x0,
        }
    }

    /// Decodes a one-bit field value.
    pub open spec fn spec_new_with_raw_value(value: u8) -> Self {
        if value == 1 { PinMode::ClockMultiplexed } else { PinMode::PinMultiplexed }
    }

    /// Decodes a one-bit field value.
    #[verifier::when_used_as_spec(spec_new_with_raw_value)]
    pub fn new_with_raw_value(value: u8) -> (r: Self)
        requires
            value < 2,
        ensures
            r == Self::spec_new_with_raw_value(value),
            r.spec_raw_value() == value,
    {
        if value == 1 { PinMode::ClockMultiplexed } else { PinMode::PinMultiplexed }
    }
}

/// PN sequence selection, written to a channel's [`ChannelPnSelect`] register.
///
/// Per `axi_ad9361_rx_pnmon.v`, only `== 0x9` vs `!= 0x9` is actually decoded. The
/// underscore-prefixed variants are unimplemented on AD9361 and behave like [`Self::Pn9`].
#[derive(Clone, Copy, PartialEq, Eq, Structural, Debug)]
pub enum PnSel {
    /// PN9 sequence (the only variant actually decoded, along with [`Self::PnCustom`]).
    Pn9,
    /// Unimplemented on AD9361; behaves like [`Self::Pn9`].
    _Pn23A,
    /// Unimplemented on AD9361; behaves like [`Self::Pn9`].
    _Pn7,
    /// Unimplemented on AD9361; behaves like [`Self::Pn9`].
    _Pn15,
    /// Unimplemented on AD9361; behaves like [`Self::Pn9`].
    _Pn23,
    /// Unimplemented on AD9361; behaves like [`Self::Pn9`].
    _Pn31,
    /// Custom PN sequence (decoded distinctly from [`Self::Pn9`]).
    PnCustom,
    /// Unimplemented on AD9361; behaves like [`Self::Pn9`].
    _PnRampNibble,
    /// Unimplemented on AD9361; behaves like [`Self::Pn9`].
    _PnRamp16,
}

impl PnSel {
    /// The raw field encoding of this variant.
    pub open spec fn spec_raw_value(self) -> u8 {
        match self {
            PnSel::Pn9 => 0x0,
            PnSel::_Pn23A => 0x1,
            PnSel::_Pn7 => 0x4,
            PnSel::_Pn15 => 0x5,
            PnSel::_Pn23 => 0x6,
            PnSel::_Pn31 => 0x7,
            PnSel::PnCustom => 0x9,
            PnSel::_PnRampNibble => 0xA,
            PnSel::_PnRamp16 => 0xB,
        }
    }

    /// The field encoding of each variant is the core's, and decoding it gives the variant
    /// back.
    pub proof fn lemma_raw_values()
        ensures
            PnSel::Pn9.spec_raw_value() == 0x0,
            PnSel::_Pn23A.spec_raw_value() == 0x1,
            PnSel::_Pn7.spec_raw_value() == 0x4,
            PnSel::_Pn15.spec_raw_value() == 0x5,
            PnSel::_Pn23.spec_raw_value() == 0x6,
            PnSel::_Pn31.spec_raw_value() == 0x7,
            PnSel::PnCustom.spec_raw_value() == 0x9,
            PnSel::_PnRampNibble.spec_raw_value() == 0xA,
            PnSel::_PnRamp16.spec_raw_value() == 0xB,
            forall|v: PnSel| #[trigger] PnSel::spec_from_raw(v.spec_raw_value()) == Some(v),
    {
    }

    /// The raw field encoding of this variant.
    #[verifier::when_used_as_spec(spec_raw_value)]
    pub fn raw_value(self) -> (r: u8)
        ensures
            r == self.spec_raw_value(),
    {
        match self {
            PnSel::Pn9 => 0x0,
            PnSel::_Pn23A => 0x1,
            PnSel::_Pn7 => 0x4,
            PnSel::_Pn15 => 0x5,
            PnSel::_Pn23 => 0x6,
            PnSel::_Pn31 => 0x7,
            PnSel::PnCustom => 0x9,
            PnSel::_PnRampNibble => 0xA,
            PnSel::_PnRamp16 => 0xB,
        }
    }

    /// Decodes a field value; `None` for an encoding that names no variant.
    pub open spec fn spec_from_raw(value: u8) -> Option<Self> {
        if value == 0x0 {
            Some(PnSel::Pn9)
        } else if value == 0x1 {
            Some(PnSel::_Pn23A)
        } else if value == 0x4 {
            Some(PnSel::_Pn7)
        } else if value == 0x5 {
            Some(PnSel::_Pn15)
        } else if value == 0x6 {
            Some(PnSel::_Pn23)
        } else if value == 0x7 {
            Some(PnSel::_Pn31)
        } else if value == 0x9 {
            Some(PnSel::PnCustom)
        } else if value == 0xA {
            Some(PnSel::_PnRampNibble)
        } else if value == 0xB {
            Some(PnSel::_PnRamp16)
        } else {
            None
        }
    }

    /// Decodes a field value, handing back the raw value where it names no variant.
    pub fn new_with_raw_value(value: u8) -> (r: Result<Self, u8>)
        ensures
            match r {
                Ok(v) => Self::spec_from_raw(value) == Some(v) && v.spec_raw_value() == value,
                Err(e) => Self::spec_from_raw(value) is None && e == value,
            },
    {
        if value == 0x0 {
            Ok(PnSel::Pn9)
        } else if value == 0x1 {
            Ok(PnSel::_Pn23A)
        } else if value == 0x4 {
            Ok(PnSel::_Pn7)
        } else if value == 0x5 {
            Ok(PnSel::_Pn15)
        } else if value == 0x6 {
            Ok(PnSel::_Pn23)
        } else if value == 0x7 {
            Ok(PnSel::_Pn31)
        } else if value == 0x9 {
            Ok(PnSel::PnCustom)
        } else if value == 0xA {
            Ok(PnSel::_PnRampNibble)
        } else if value == 0xB {
            Ok(PnSel::_PnRamp16)
        } else {
            Err(value)
        }
    }
}

/// ADC digital interface control register, `AXI_ADC_REG_CNTRL_1`.
#[derive(Clone, Copy, PartialEq, Eq, Structural, Debug)]
pub struct Control1 {
    /// The raw register word.
    pub raw: u32,
}

impl View for Control1 {
    type V = u32;

    open spec fn view(&self) -> u32 {
        self.raw
    }
}

impl Control1 {
    /// The all-zero register word.
    pub open spec fn spec_zero() -> Self {
        Control1 { raw: 0 }
    }

    /// The all-zero register word.
    #[verifier::when_used_as_spec(spec_zero)]
    pub fn zero() -> (r: Self)
        ensures
            r == Self::spec_zero(),
    {
        Control1 { raw: 0 }
    }

    /// Wraps a raw register word.
    pub fn new_with_raw_value(raw: u32) -> (r: Self)
        ensures
            r@ == raw,
    {
        Control1 { raw }
    }

    /// The raw register word.
    pub fn raw_value(self) -> (r: u32)
        ensures
            r == self@,
    {
        self.raw
    }

    /// Interface type (SDR/DDR).
    pub open spec fn spec_interface_type(self) -> InterfaceType {
        InterfaceType::spec_new_with_raw_value(field(self.raw, 16, 1) as u8)
    }

    /// Interface type (SDR/DDR).
    #[verifier::when_used_as_spec(spec_interface_type)]
    pub fn interface_type(self) -> (r: InterfaceType)
        ensures
            r == self.spec_interface_type(),
    {
        proof {
            lemma_field_bound(self.raw, 16, 1);
        }
        let value = get_field(self.raw, 16, 1) as u8;
        InterfaceType::new_with_raw_value(value)
    }

    /// Sets `interface_type`, every other bit unchanged.
    pub open spec fn spec_with_interface_type(self, value: InterfaceType) -> Self {
        Control1 { raw: set_field(self.raw, 16, 1, value.spec_raw_value() as u32) }
    }

    /// Sets `interface_type`, every other bit unchanged.
    #[verifier::when_used_as_spec(spec_with_interface_type)]
    pub fn with_interface_type(self, value: InterfaceType) -> (r: Self)
        ensures
            r == self.spec_with_interface_type(value),
    {
        Control1 { raw: with_field(self.raw, 16, 1, value.raw_value() as u32) }
    }

    /// Select symbol data format mode.
    pub open spec fn spec_symb_op(self) -> bool {
        bit(self.raw, 15)
    }

    /// Select symbol data format mode.
    #[verifier::when_used_as_spec(spec_symb_op)]
    pub fn symb_op(self) -> (r: bool)
        ensures
            r == self.spec_symb_op(),
    {
        get_bit(self.raw, 15)
    }

    /// Sets `symb_op`, every other bit unchanged.
    pub open spec fn spec_with_symb_op(self, value: bool) -> Self {
        Control1 { raw: set_bit(self.raw, 15, value) }
    }

    /// Sets `symb_op`, every other bit unchanged.
    #[verifier::when_used_as_spec(spec_with_symb_op)]
    pub fn with_symb_op(self, value: bool) -> (r: Self)
        ensures
            r == self.spec_with_symb_op(value),
    {
        Control1 { raw: with_bit(self.raw, 15, value) }
    }

    /// Symbol width used by the digital interface.
    pub open spec fn spec_symb_8_16b(self) -> SymbolModeBits {
        SymbolModeBits::spec_new_with_raw_value(field(self.raw, 14, 1) as u8)
    }

    /// Symbol width used by the digital interface.
    #[verifier::when_used_as_spec(spec_symb_8_16b)]
    pub fn symb_8_16b(self) -> (r: SymbolModeBits)
        ensures
            r == self.spec_symb_8_16b(),
    {
        proof {
            lemma_field_bound(self.raw, 14, 1);
        }
        let value = get_field(self.raw, 14, 1) as u8;
        SymbolModeBits::new_with_raw_value(value)
    }

    /// Sets `symb_8_16b`, every other bit unchanged.
    pub open spec fn spec_with_symb_8_16b(self, value: SymbolModeBits) -> Self {
        Control1 { raw: set_field(self.raw, 14, 1, value.spec_raw_value() as u32) }
    }

    /// Sets `symb_8_16b`, every other bit unchanged.
    #[verifier::when_used_as_spec(spec_with_symb_8_16b)]
    pub fn with_symb_8_16b(self, value: SymbolModeBits) -> (r: Self)
        ensures
            r == self.spec_with_symb_8_16b(value),
    {
        Control1 { raw: with_field(self.raw, 14, 1, value.raw_value() as u32) }
    }

    /// Number of active interface lanes.
    pub open spec fn spec_num_of_lanes(self) -> u8 {
        field(self.raw, 8, 5) as u8
    }

    /// Number of active interface lanes.
    #[verifier::when_used_as_spec(spec_num_of_lanes)]
    pub fn num_of_lanes(self) -> (r: u8)
        ensures
            r == self.spec_num_of_lanes(),
            r <= 0x1F,
    {
        proof {
            lemma_field_bound(self.raw, 8, 5);
        }
        get_field(self.raw, 8, 5) as u8
    }

    /// Sets `num_of_lanes`, every other bit unchanged.
    pub open spec fn spec_with_num_of_lanes(self, value: u8) -> Self {
        Control1 { raw: set_field(self.raw, 8, 5, value as u32) }
    }

    /// Sets `num_of_lanes`, every other bit unchanged.
    #[verifier::when_used_as_spec(spec_with_num_of_lanes)]
    pub fn with_num_of_lanes(self, value: u8) -> (r: Self)
        requires
            value <= 0x1F,
        ensures
            r == self.spec_with_num_of_lanes(value),
    {
        Control1 { raw: with_field(self.raw, 8, 5, value as u32) }
    }

    /// Request a channel data path synchronization pulse.
    pub open spec fn spec_sync(self) -> bool {
        bit(self.raw, 3)
    }

    /// Request a channel data path synchronization pulse.
    #[verifier::when_used_as_spec(spec_sync)]
    pub fn sync(self) -> (r: bool)
        ensures
            r == self.spec_sync(),
    {
        get_bit(self.raw, 3)
    }

    /// Sets `sync`, every other bit unchanged.
    pub open spec fn spec_with_sync(self, value: bool) -> Self {
        Control1 { raw: set_bit(self.raw, 3, value) }
    }

    /// Sets `sync`, every other bit unchanged.
    #[verifier::when_used_as_spec(spec_with_sync)]
    pub fn with_sync(self, value: bool) -> (r: Self)
        ensures
            r == self.spec_with_sync(value),
    {
        Control1 { raw: with_bit(self.raw, 3, value) }
    }

    /// Number of channels transferred per interface beat.
    pub open spec fn spec_r1_mode(self) -> R1Mode {
        R1Mode::spec_new_with_raw_value(field(self.raw, 2, 1) as u8)
    }

    /// Number of channels transferred per interface beat.
    #[verifier::when_used_as_spec(spec_r1_mode)]
    pub fn r1_mode(self) -> (r: R1Mode)
        ensures
            r == self.spec_r1_mode(),
    {
        proof {
            lemma_field_bound(self.raw, 2, 1);
        }
        let value = get_field(self.raw, 2, 1) as u8;
        R1Mode::new_with_raw_value(value)
    }

    /// Sets `r1_mode`, every other bit unchanged.
    pub open spec fn spec_with_r1_mode(self, value: R1Mode) -> Self {
        Control1 { raw: set_field(self.raw, 2, 1, value.spec_raw_value() as u32) }
    }

    /// Sets `r1_mode`, every other bit unchanged.
    #[verifier::when_used_as_spec(spec_with_r1_mode)]
    pub fn with_r1_mode(self, value: R1Mode) -> (r: Self)
        ensures
            r == self.spec_with_r1_mode(value),
    {
        Control1 { raw: with_field(self.raw, 2, 1, value.raw_value() as u32) }
    }

    /// DDR data capture edge.
    pub open spec fn spec_ddr_edgesel(self) -> DdrEdgeSelect {
        DdrEdgeSelect::spec_new_with_raw_value(field(self.raw, 1, 1) as u8)
    }

    /// DDR data capture edge.
    #[verifier::when_used_as_spec(spec_ddr_edgesel)]
    pub fn ddr_edgesel(self) -> (r: DdrEdgeSelect)
        ensures
            r == self.spec_ddr_edgesel(),
    {
        proof {
            lemma_field_bound(self.raw, 1, 1);
        }
        let value = get_field(self.raw, 1, 1) as u8;
        DdrEdgeSelect::new_with_raw_value(value)
    }

    /// Sets `ddr_edgesel`, every other bit unchanged.
    pub open spec fn spec_with_ddr_edgesel(self, value: DdrEdgeSelect) -> Self {
        Control1 { raw: set_field(self.raw, 1, 1, value.spec_raw_value() as u32) }
    }

    /// Sets `ddr_edgesel`, every other bit unchanged.
    #[verifier::when_used_as_spec(spec_with_ddr_edgesel)]
    pub fn with_ddr_edgesel(self, value: DdrEdgeSelect) -> (r: Self)
        ensures
            r == self.spec_with_ddr_edgesel(value),
    {
        Control1 { raw: with_field(self.raw, 1, 1, value.raw_value() as u32) }
    }

    /// Pin/clock multiplexing scheme.
    pub open spec fn spec_pin_mode(self) -> PinMode {
        PinMode::spec_new_with_raw_value(field(self.raw, 0, 1) as u8)
    }

    /// Pin/clock multiplexing scheme.
    #[verifier::when_used_as_spec(spec_pin_mode)]
    pub fn pin_mode(self) -> (r: PinMode)
        ensures
            r == self.spec_pin_mode(),
    {
        proof {
            lemma_field_bound(self.raw, 0, 1);
        }
        let value = get_field(self.raw, 0, 1) as u8;
        PinMode::new_with_raw_value(value)
    }

    /// Sets `pin_mode`, every other bit unchanged.
    pub open spec fn spec_with_pin_mode(self, value: PinMode) -> Self {
        Control1 { raw: set_field(self.raw, 0, 1, value.spec_raw_value() as u32) }
    }

    /// Sets `pin_mode`, every other bit unchanged.
    #[verifier::when_used_as_spec(spec_with_pin_mode)]
    pub fn with_pin_mode(self, value: PinMode) -> (r: Self)
        ensures
            r == self.spec_with_pin_mode(value),
    {
        Control1 { raw: with_field(self.raw, 0, 1, value.raw_value() as u32) }
    }
}

impl Default for Control1 {
    fn default() -> (r: Self)
        ensures
            r@ == 0,
    {
        Control1 { raw: 0 }
    }
}

/// External-sync trigger control, `AXI_ADC_REG_CNTRL_2`.
#[derive(Clone, Copy, PartialEq, Eq, Structural, Debug)]
pub struct Control2 {
    /// The raw register word.
    pub raw: u32,
}

impl View for Control2 {
    type V = u32;

    open spec fn view(&self) -> u32 {
        self.raw
    }
}

impl Control2 {
    /// The all-zero register word.
    pub open spec fn spec_zero() -> Self {
        Control2 { raw: 0 }
    }

    /// The all-zero register word.
    #[verifier::when_used_as_spec(spec_zero)]
    pub fn zero() -> (r: Self)
        ensures
            r == Self::spec_zero(),
    {
        Control2 { raw: 0 }
    }

    /// Wraps a raw register word.
    pub fn new_with_raw_value(raw: u32) -> (r: Self)
        ensures
            r@ == raw,
    {
        Control2 { raw }
    }

    /// The raw register word.
    pub fn raw_value(self) -> (r: u32)
        ensures
            r == self@,
    {
        self.raw
    }

    /// Issue a manual external synchronization event.
    pub open spec fn spec_manual_sync_request(self) -> bool {
        bit(self.raw, 8)
    }

    /// Issue a manual external synchronization event.
    #[verifier::when_used_as_spec(spec_manual_sync_request)]
    pub fn manual_sync_request(self) -> (r: bool)
        ensures
            r == self.spec_manual_sync_request(),
    {
        get_bit(self.raw, 8)
    }

    /// Sets `manual_sync_request`, every other bit unchanged.
    pub open spec fn spec_with_manual_sync_request(self, value: bool) -> Self {
        Control2 { raw: set_bit(self.raw, 8, value) }
    }

    /// Sets `manual_sync_request`, every other bit unchanged.
    #[verifier::when_used_as_spec(spec_with_manual_sync_request)]
    pub fn with_manual_sync_request(self, value: bool) -> (r: Self)
        ensures
            r == self.spec_with_manual_sync_request(value),
    {
        Control2 { raw: with_bit(self.raw, 8, value) }
    }

    /// Disarm the external synchronization trigger mechanism.
    pub open spec fn spec_ext_sync_disarm(self) -> bool {
        bit(self.raw, 2)
    }

    /// Disarm the external synchronization trigger mechanism.
    #[verifier::when_used_as_spec(spec_ext_sync_disarm)]
    pub fn ext_sync_disarm(self) -> (r: bool)
        ensures
            r == self.spec_ext_sync_disarm(),
    {
        get_bit(self.raw, 2)
    }

    /// Sets `ext_sync_disarm`, every other bit unchanged.
    pub open spec fn spec_with_ext_sync_disarm(self, value: bool) -> Self {
        Control2 { raw: set_bit(self.raw, 2, value) }
    }

    /// Sets `ext_sync_disarm`, every other bit unchanged.
    #[verifier::when_used_as_spec(spec_with_ext_sync_disarm)]
    pub fn with_ext_sync_disarm(self, value: bool) -> (r: Self)
        ensures
            r == self.spec_with_ext_sync_disarm(value),
    {
        Control2 { raw: with_bit(self.raw, 2, value) }
    }

    /// Arm the external synchronization trigger mechanism.
    pub open spec fn spec_ext_sync_arm(self) -> bool {
        bit(self.raw, 1)
    }

    /// Arm the external synchronization trigger mechanism.
    #[verifier::when_used_as_spec(spec_ext_sync_arm)]
    pub fn ext_sync_arm(self) -> (r: bool)
        ensures
            r == self.spec_ext_sync_arm(),
    {
        get_bit(self.raw, 1)
    }

    /// Sets `ext_sync_arm`, every other bit unchanged.
    pub open spec fn spec_with_ext_sync_arm(self, value: bool) -> Self {
        Control2 { raw: set_bit(self.raw, 1, value) }
    }

    /// Sets `ext_sync_arm`, every other bit unchanged.
    #[verifier::when_used_as_spec(spec_with_ext_sync_arm)]
    pub fn with_ext_sync_arm(self, value: bool) -> (r: Self)
        ensures
            r == self.spec_with_ext_sync_arm(value),
    {
        Control2 { raw: with_bit(self.raw, 1, value) }
    }
}

impl Default for Control2 {
    fn default() -> (r: Self)
        ensures
            r@ == 0,
    {
        Control2 { raw: 0 }
    }
}

/// CRC and output format control, `AXI_ADC_REG_CNTRL_3`.
#[derive(Clone, Copy, PartialEq, Eq, Structural, Debug)]
pub struct Control3 {
    /// The raw register word.
    pub raw: u32,
}

impl View for Control3 {
    type V = u32;

    open spec fn view(&self) -> u32 {
        self.raw
    }
}

impl Control3 {
    /// The all-zero register word.
    pub open spec fn spec_zero() -> Self {
        Control3 { raw: 0 }
    }

    /// The all-zero register word.
    #[verifier::when_used_as_spec(spec_zero)]
    pub fn zero() -> (r: Self)
        ensures
            r == Self::spec_zero(),
    {
        Control3 { raw: 0 }
    }

    /// Wraps a raw register word.
    pub fn new_with_raw_value(raw: u32) -> (r: Self)
        ensures
            r@ == raw,
    {
        Control3 { raw }
    }

    /// The raw register word.
    pub fn raw_value(self) -> (r: u32)
        ensures
            r == self@,
    {
        self.raw
    }

    /// Enable CRC generation.
    pub open spec fn spec_crc_en(self) -> bool {
        bit(self.raw, 8)
    }

    /// Enable CRC generation.
    #[verifier::when_used_as_spec(spec_crc_en)]
    pub fn crc_en(self) -> (r: bool)
        ensures
            r == self.spec_crc_en(),
    {
        get_bit(self.raw, 8)
    }

    /// Sets `crc_en`, every other bit unchanged.
    pub open spec fn spec_with_crc_en(self, value: bool) -> Self {
        Control3 { raw: set_bit(self.raw, 8, value) }
    }

    /// Sets `crc_en`, every other bit unchanged.
    #[verifier::when_used_as_spec(spec_with_crc_en)]
    pub fn with_crc_en(self, value: bool) -> (r: Self)
        ensures
            r == self.spec_with_crc_en(value),
    {
        Control3 { raw: with_bit(self.raw, 8, value) }
    }

    /// Select the output format decode mode.
    pub open spec fn spec_custom_control(self) -> u8 {
        field(self.raw, 0, 8) as u8
    }

    /// Select the output format decode mode.
    #[verifier::when_used_as_spec(spec_custom_control)]
    pub fn custom_control(self) -> (r: u8)
        ensures
            r == self.spec_custom_control(),
            r <= 0xFF,
    {
        proof {
            lemma_field_bound(self.raw, 0, 8);
        }
        get_field(self.raw, 0, 8) as u8
    }

    /// Sets `custom_control`, every other bit unchanged.
    pub open spec fn spec_with_custom_control(self, value: u8) -> Self {
        Control3 { raw: set_field(self.raw, 0, 8, value as u32) }
    }

    /// Sets `custom_control`, every other bit unchanged.
    #[verifier::when_used_as_spec(spec_with_custom_control)]
    pub fn with_custom_control(self, value: u8) -> (r: Self)
        ensures
            r == self.spec_with_custom_control(value),
    {
        Control3 { raw: with_field(self.raw, 0, 8, value as u32) }
    }
}

impl Default for Control3 {
    fn default() -> (r: Self)
        ensures
            r@ == 0,
    {
        Control3 { raw: 0 }
    }
}

/// Per-channel enable/format control, `AXI_ADC_REG_CHAN_CNTRL`.
///
/// `loopback_enable` (bit 11) is not documented in the no-OS `axi_adc_core.h` header,
/// only present in `up_adc_channel.v`.
#[derive(Clone, Copy, PartialEq, Eq, Structural, Debug)]
pub struct ChannelDataPathControl {
    /// The raw register word.
    pub raw: u32,
}

impl View for ChannelDataPathControl {
    type V = u32;

    open spec fn view(&self) -> u32 {
        self.raw
    }
}

impl ChannelDataPathControl {
    /// The all-zero register word.
    pub open spec fn spec_zero() -> Self {
        ChannelDataPathControl { raw: 0 }
    }

    /// The all-zero register word.
    #[verifier::when_used_as_spec(spec_zero)]
    pub fn zero() -> (r: Self)
        ensures
            r == Self::spec_zero(),
    {
        ChannelDataPathControl { raw: 0 }
    }

    /// Wraps a raw register word.
    pub fn new_with_raw_value(raw: u32) -> (r: Self)
        ensures
            r@ == raw,
    {
        ChannelDataPathControl { raw }
    }

    /// The raw register word.
    pub fn raw_value(self) -> (r: u32)
        ensures
            r == self@,
    {
        self.raw
    }

    /// Loop the channel's data path back on itself.
    pub open spec fn spec_loopback_enable(self) -> bool {
        bit(self.raw, 11)
    }

    /// Loop the channel's data path back on itself.
    #[verifier::when_used_as_spec(spec_loopback_enable)]
    pub fn loopback_enable(self) -> (r: bool)
        ensures
            r == self.spec_loopback_enable(),
    {
        get_bit(self.raw, 11)
    }

    /// Sets `loopback_enable`, every other bit unchanged.
    pub open spec fn spec_with_loopback_enable(self, value: bool) -> Self {
        ChannelDataPathControl { raw: set_bit(self.raw, 11, value) }
    }

    /// Sets `loopback_enable`, every other bit unchanged.
    #[verifier::when_used_as_spec(spec_with_loopback_enable)]
    pub fn with_loopback_enable(self, value: bool) -> (r: Self)
        ensures
            r == self.spec_with_loopback_enable(value),
    {
        ChannelDataPathControl { raw: with_bit(self.raw, 11, value) }
    }

    /// Legacy single-bit PN select, distinct from [`ChannelPnSelect::pn_sel`].
    pub open spec fn spec_pn_sel_legacy(self) -> bool {
        bit(self.raw, 10)
    }

    /// Legacy single-bit PN select, distinct from [`ChannelPnSelect::pn_sel`].
    #[verifier::when_used_as_spec(spec_pn_sel_legacy)]
    pub fn pn_sel_legacy(self) -> (r: bool)
        ensures
            r == self.spec_pn_sel_legacy(),
    {
        get_bit(self.raw, 10)
    }

    /// Sets `pn_sel_legacy`, every other bit unchanged.
    pub open spec fn spec_with_pn_sel_legacy(self, value: bool) -> Self {
        ChannelDataPathControl { raw: set_bit(self.raw, 10, value) }
    }

    /// Sets `pn_sel_legacy`, every other bit unchanged.
    #[verifier::when_used_as_spec(spec_with_pn_sel_legacy)]
    pub fn with_pn_sel_legacy(self, value: bool) -> (r: Self)
        ensures
            r == self.spec_with_pn_sel_legacy(value),
    {
        ChannelDataPathControl { raw: with_bit(self.raw, 10, value) }
    }

    /// Enable IQ correction on this channel.
    pub open spec fn spec_iqcor_enable(self) -> bool {
        bit(self.raw, 9)
    }

    /// Enable IQ correction on this channel.
    #[verifier::when_used_as_spec(spec_iqcor_enable)]
    pub fn iqcor_enable(self) -> (r: bool)
        ensures
            r == self.spec_iqcor_enable(),
    {
        get_bit(self.raw, 9)
    }

    /// Sets `iqcor_enable`, every other bit unchanged.
    pub open spec fn spec_with_iqcor_enable(self, value: bool) -> Self {
        ChannelDataPathControl { raw: set_bit(self.raw, 9, value) }
    }

    /// Sets `iqcor_enable`, every other bit unchanged.
    #[verifier::when_used_as_spec(spec_with_iqcor_enable)]
    pub fn with_iqcor_enable(self, value: bool) -> (r: Self)
        ensures
            r == self.spec_with_iqcor_enable(value),
    {
        ChannelDataPathControl { raw: with_bit(self.raw, 9, value) }
    }

    /// Enable DC filtering on this channel.
    pub open spec fn spec_dcfilt_enable(self) -> bool {
        bit(self.raw, 8)
    }

    /// Enable DC filtering on this channel.
    #[verifier::when_used_as_spec(spec_dcfilt_enable)]
    pub fn dcfilt_enable(self) -> (r: bool)
        ensures
            r == self.spec_dcfilt_enable(),
    {
        get_bit(self.raw, 8)
    }

    /// Sets `dcfilt_enable`, every other bit unchanged.
    pub open spec fn spec_with_dcfilt_enable(self, value: bool) -> Self {
        ChannelDataPathControl { raw: set_bit(self.raw, 8, value) }
    }

    /// Sets `dcfilt_enable`, every other bit unchanged.
    #[verifier::when_used_as_spec(spec_with_dcfilt_enable)]
    pub fn with_dcfilt_enable(self, value: bool) -> (r: Self)
        ensures
            r == self.spec_with_dcfilt_enable(value),
    {
        ChannelDataPathControl { raw: with_bit(self.raw, 8, value) }
    }

    /// Sign-extend the formatted sample.
    pub open spec fn spec_format_signext(self) -> bool {
        bit(self.raw, 6)
    }

    /// Sign-extend the formatted sample.
    #[verifier::when_used_as_spec(spec_format_signext)]
    pub fn format_signext(self) -> (r: bool)
        ensures
            r == self.spec_format_signext(),
    {
        get_bit(self.raw, 6)
    }

    /// Sets `format_signext`, every other bit unchanged.
    pub open spec fn spec_with_format_signext(self, value: bool) -> Self {
        ChannelDataPathControl { raw: set_bit(self.raw, 6, value) }
    }

    /// Sets `format_signext`, every other bit unchanged.
    #[verifier::when_used_as_spec(spec_with_format_signext)]
    pub fn with_format_signext(self, value: bool) -> (r: Self)
        ensures
            r == self.spec_with_format_signext(value),
    {
        ChannelDataPathControl { raw: with_bit(self.raw, 6, value) }
    }

    /// Sample format type (offset binary vs. two's complement).
    pub open spec fn spec_format_type(self) -> bool {
        bit(self.raw, 5)
    }

    /// Sample format type (offset binary vs. two's complement).
    #[verifier::when_used_as_spec(spec_format_type)]
    pub fn format_type(self) -> (r: bool)
        ensures
            r == self.spec_format_type(),
    {
        get_bit(self.raw, 5)
    }

    /// Sets `format_type`, every other bit unchanged.
    pub open spec fn spec_with_format_type(self, value: bool) -> Self {
        ChannelDataPathControl { raw: set_bit(self.raw, 5, value) }
    }

    /// Sets `format_type`, every other bit unchanged.
    #[verifier::when_used_as_spec(spec_with_format_type)]
    pub fn with_format_type(self, value: bool) -> (r: Self)
        ensures
            r == self.spec_with_format_type(value),
    {
        ChannelDataPathControl { raw: with_bit(self.raw, 5, value) }
    }

    /// Enable sample format conversion.
    pub open spec fn spec_format_enable(self) -> bool {
        bit(self.raw, 4)
    }

    /// Enable sample format conversion.
    #[verifier::when_used_as_spec(spec_format_enable)]
    pub fn format_enable(self) -> (r: bool)
        ensures
            r == self.spec_format_enable(),
    {
        get_bit(self.raw, 4)
    }

    /// Sets `format_enable`, every other bit unchanged.
    pub open spec fn spec_with_format_enable(self, value: bool) -> Self {
        ChannelDataPathControl { raw: set_bit(self.raw, 4, value) }
    }

    /// Sets `format_enable`, every other bit unchanged.
    #[verifier::when_used_as_spec(spec_with_format_enable)]
    pub fn with_format_enable(self, value: bool) -> (r: Self)
        ensures
            r == self.spec_with_format_enable(value),
    {
        ChannelDataPathControl { raw: with_bit(self.raw, 4, value) }
    }

    /// PN sequence type used by the legacy PN monitor.
    pub open spec fn spec_pn_type(self) -> bool {
        bit(self.raw, 1)
    }

    /// PN sequence type used by the legacy PN monitor.
    #[verifier::when_used_as_spec(spec_pn_type)]
    pub fn pn_type(self) -> (r: bool)
        ensures
            r == self.spec_pn_type(),
    {
        get_bit(self.raw, 1)
    }

    /// Sets `pn_type`, every other bit unchanged.
    pub open spec fn spec_with_pn_type(self, value: bool) -> Self {
        ChannelDataPathControl { raw: set_bit(self.raw, 1, value) }
    }

    /// Sets `pn_type`, every other bit unchanged.
    #[verifier::when_used_as_spec(spec_with_pn_type)]
    pub fn with_pn_type(self, value: bool) -> (r: Self)
        ensures
            r == self.spec_with_pn_type(value),
    {
        ChannelDataPathControl { raw: with_bit(self.raw, 1, value) }
    }

    /// Enable the channel's data path.
    pub open spec fn spec_enable(self) -> bool {
        bit(self.raw, 0)
    }

    /// Enable the channel's data path.
    #[verifier::when_used_as_spec(spec_enable)]
    pub fn enable(self) -> (r: bool)
        ensures
            r == self.spec_enable(),
    {
        get_bit(self.raw, 0)
    }

    /// Sets `enable`, every other bit unchanged.
    pub open spec fn spec_with_enable(self, value: bool) -> Self {
        ChannelDataPathControl { raw: set_bit(self.raw, 0, value) }
    }

    /// Sets `enable`, every other bit unchanged.
    #[verifier::when_used_as_spec(spec_with_enable)]
    pub fn with_enable(self, value: bool) -> (r: Self)
        ensures
            r == self.spec_with_enable(value),
    {
        ChannelDataPathControl { raw: with_bit(self.raw, 0, value) }
    }
}

impl Default for ChannelDataPathControl {
    fn default() -> (r: Self)
        ensures
            r@ == 0,
    {
        ChannelDataPathControl { raw: 0 }
    }
}

/// Per-channel status register, `AXI_ADC_REG_CHAN_STATUS`.
#[derive(Clone, Copy, PartialEq, Eq, Structural, Debug)]
pub struct ChannelStatus {
    /// The raw register word.
    pub raw: u32,
}

impl View for ChannelStatus {
    type V = u32;

    open spec fn view(&self) -> u32 {
        self.raw
    }
}

impl ChannelStatus {
    /// The all-zero register word.
    pub open spec fn spec_zero() -> Self {
        ChannelStatus { raw: 0 }
    }

    /// The all-zero register word.
    #[verifier::when_used_as_spec(spec_zero)]
    pub fn zero() -> (r: Self)
        ensures
            r == Self::spec_zero(),
    {
        ChannelStatus { raw: 0 }
    }

    /// Wraps a raw register word.
    pub fn new_with_raw_value(raw: u32) -> (r: Self)
        ensures
            r@ == raw,
    {
        ChannelStatus { raw }
    }

    /// The raw register word.
    pub fn raw_value(self) -> (r: u32)
        ensures
            r == self@,
    {
        self.raw
    }

    /// CRC error detected on the channel's samples.
    pub open spec fn spec_crc_err(self) -> bool {
        bit(self.raw, 12)
    }

    /// CRC error detected on the channel's samples.
    #[verifier::when_used_as_spec(spec_crc_err)]
    pub fn crc_err(self) -> (r: bool)
        ensures
            r == self.spec_crc_err(),
    {
        get_bit(self.raw, 12)
    }

    /// Sets `crc_err`, every other bit unchanged.
    pub open spec fn spec_with_crc_err(self, value: bool) -> Self {
        ChannelStatus { raw: set_bit(self.raw, 12, value) }
    }

    /// Sets `crc_err`, every other bit unchanged.
    #[verifier::when_used_as_spec(spec_with_crc_err)]
    pub fn with_crc_err(self, value: bool) -> (r: Self)
        ensures
            r == self.spec_with_crc_err(value),
    {
        ChannelStatus { raw: with_bit(self.raw, 12, value) }
    }

    /// Sample status header byte.
    pub open spec fn spec_status_header(self) -> u8 {
        field(self.raw, 4, 8) as u8
    }

    /// Sample status header byte.
    #[verifier::when_used_as_spec(spec_status_header)]
    pub fn status_header(self) -> (r: u8)
        ensures
            r == self.spec_status_header(),
            r <= 0xFF,
    {
        proof {
            lemma_field_bound(self.raw, 4, 8);
        }
        get_field(self.raw, 4, 8) as u8
    }

    /// Sets `status_header`, every other bit unchanged.
    pub open spec fn spec_with_status_header(self, value: u8) -> Self {
        ChannelStatus { raw: set_field(self.raw, 4, 8, value as u32) }
    }

    /// Sets `status_header`, every other bit unchanged.
    #[verifier::when_used_as_spec(spec_with_status_header)]
    pub fn with_status_header(self, value: u8) -> (r: Self)
        ensures
            r == self.spec_with_status_header(value),
    {
        ChannelStatus { raw: with_field(self.raw, 4, 8, value as u32) }
    }

    /// PN sequence mismatch detected.
    pub open spec fn spec_pn_error(self) -> bool {
        bit(self.raw, 2)
    }

    /// PN sequence mismatch detected.
    #[verifier::when_used_as_spec(spec_pn_error)]
    pub fn pn_error(self) -> (r: bool)
        ensures
            r == self.spec_pn_error(),
    {
        get_bit(self.raw, 2)
    }

    /// Sets `pn_error`, every other bit unchanged.
    pub open spec fn spec_with_pn_error(self, value: bool) -> Self {
        ChannelStatus { raw: set_bit(self.raw, 2, value) }
    }

    /// Sets `pn_error`, every other bit unchanged.
    #[verifier::when_used_as_spec(spec_with_pn_error)]
    pub fn with_pn_error(self, value: bool) -> (r: Self)
        ensures
            r == self.spec_with_pn_error(value),
    {
        ChannelStatus { raw: with_bit(self.raw, 2, value) }
    }

    /// PN sequence checker has lost synchronization.
    pub open spec fn spec_pn_out_of_sync(self) -> bool {
        bit(self.raw, 1)
    }

    /// PN sequence checker has lost synchronization.
    #[verifier::when_used_as_spec(spec_pn_out_of_sync)]
    pub fn pn_out_of_sync(self) -> (r: bool)
        ensures
            r == self.spec_pn_out_of_sync(),
    {
        get_bit(self.raw, 1)
    }

    /// Sets `pn_out_of_sync`, every other bit unchanged.
    pub open spec fn spec_with_pn_out_of_sync(self, value: bool) -> Self {
        ChannelStatus { raw: set_bit(self.raw, 1, value) }
    }

    /// Sets `pn_out_of_sync`, every other bit unchanged.
    #[verifier::when_used_as_spec(spec_with_pn_out_of_sync)]
    pub fn with_pn_out_of_sync(self, value: bool) -> (r: Self)
        ensures
            r == self.spec_with_pn_out_of_sync(value),
    {
        ChannelStatus { raw: with_bit(self.raw, 1, value) }
    }

    /// Sample value exceeded the representable range.
    pub open spec fn spec_over_range(self) -> bool {
        bit(self.raw, 0)
    }

    /// Sample value exceeded the representable range.
    #[verifier::when_used_as_spec(spec_over_range)]
    pub fn over_range(self) -> (r: bool)
        ensures
            r == self.spec_over_range(),
    {
        get_bit(self.raw, 0)
    }

    /// Sets `over_range`, every other bit unchanged.
    pub open spec fn spec_with_over_range(self, value: bool) -> Self {
        ChannelStatus { raw: set_bit(self.raw, 0, value) }
    }

    /// Sets `over_range`, every other bit unchanged.
    #[verifier::when_used_as_spec(spec_with_over_range)]
    pub fn with_over_range(self, value: bool) -> (r: Self)
        ensures
            r == self.spec_with_over_range(value),
    {
        ChannelStatus { raw: with_bit(self.raw, 0, value) }
    }
}

impl Default for ChannelStatus {
    fn default() -> (r: Self)
        ensures
            r@ == 0,
    {
        ChannelStatus { raw: 0 }
    }
}

/// Global PN/interface status, read from `adc_status` (`AXI_ADC_REG_STATUS`).
///
/// `ctrl_status` (bit 4) is not documented in the no-OS `axi_adc_core.h` header, only
/// present in `up_adc_common.v`.
#[derive(Clone, Copy, PartialEq, Eq, Structural, Debug)]
pub struct Status {
    /// The raw register word.
    pub raw: u32,
}

impl View for Status {
    type V = u32;

    open spec fn view(&self) -> u32 {
        self.raw
    }
}

impl Status {
    /// The all-zero register word.
    pub open spec fn spec_zero() -> Self {
        Status { raw: 0 }
    }

    /// The all-zero register word.
    #[verifier::when_used_as_spec(spec_zero)]
    pub fn zero() -> (r: Self)
        ensures
            r == Self::spec_zero(),
    {
        Status { raw: 0 }
    }

    /// Wraps a raw register word.
    pub fn new_with_raw_value(raw: u32) -> (r: Self)
        ensures
            r@ == raw,
    {
        Status { raw }
    }

    /// The raw register word.
    pub fn raw_value(self) -> (r: u32)
        ensures
            r == self@,
    {
        self.raw
    }

    /// Global control status, not documented in the no-OS header.
    pub open spec fn spec_ctrl_status(self) -> bool {
        bit(self.raw, 4)
    }

    /// Global control status, not documented in the no-OS header.
    #[verifier::when_used_as_spec(spec_ctrl_status)]
    pub fn ctrl_status(self) -> (r: bool)
        ensures
            r == self.spec_ctrl_status(),
    {
        get_bit(self.raw, 4)
    }

    /// PN error asserted on any muxed channel.
    pub open spec fn spec_mux_pn_error(self) -> bool {
        bit(self.raw, 3)
    }

    /// PN error asserted on any muxed channel.
    #[verifier::when_used_as_spec(spec_mux_pn_error)]
    pub fn mux_pn_error(self) -> (r: bool)
        ensures
            r == self.spec_mux_pn_error(),
    {
        get_bit(self.raw, 3)
    }

    /// PN synchronization lost on any muxed channel.
    pub open spec fn spec_mux_pn_out_of_sync(self) -> bool {
        bit(self.raw, 2)
    }

    /// PN synchronization lost on any muxed channel.
    #[verifier::when_used_as_spec(spec_mux_pn_out_of_sync)]
    pub fn mux_pn_out_of_sync(self) -> (r: bool)
        ensures
            r == self.spec_mux_pn_out_of_sync(),
    {
        get_bit(self.raw, 2)
    }

    /// Over-range condition on any muxed channel.
    pub open spec fn spec_mux_over_range(self) -> bool {
        bit(self.raw, 1)
    }

    /// Over-range condition on any muxed channel.
    #[verifier::when_used_as_spec(spec_mux_over_range)]
    pub fn mux_over_range(self) -> (r: bool)
        ensures
            r == self.spec_mux_over_range(),
    {
        get_bit(self.raw, 1)
    }

    /// Interface has achieved lock.
    pub open spec fn spec_locked(self) -> bool {
        bit(self.raw, 0)
    }

    /// Interface has achieved lock.
    #[verifier::when_used_as_spec(spec_locked)]
    pub fn locked(self) -> (r: bool)
        ensures
            r == self.spec_locked(),
    {
        get_bit(self.raw, 0)
    }
}

impl Default for Status {
    fn default() -> (r: Self)
        ensures
            r@ == 0,
    {
        Status { raw: 0 }
    }
}

/// Per-channel PN monitor selection register.
#[derive(Clone, Copy, PartialEq, Eq, Structural, Debug)]
pub struct ChannelPnSelect {
    /// The raw register word.
    pub raw: u32,
}

impl View for ChannelPnSelect {
    type V = u32;

    open spec fn view(&self) -> u32 {
        self.raw
    }
}

impl ChannelPnSelect {
    /// The all-zero register word.
    pub open spec fn spec_zero() -> Self {
        ChannelPnSelect { raw: 0 }
    }

    /// The all-zero register word.
    #[verifier::when_used_as_spec(spec_zero)]
    pub fn zero() -> (r: Self)
        ensures
            r == Self::spec_zero(),
    {
        ChannelPnSelect { raw: 0 }
    }

    /// Wraps a raw register word.
    pub fn new_with_raw_value(raw: u32) -> (r: Self)
        ensures
            r@ == raw,
    {
        ChannelPnSelect { raw }
    }

    /// The raw register word.
    pub fn raw_value(self) -> (r: u32)
        ensures
            r == self@,
    {
        self.raw
    }

    /// Selected PN sequence.
    pub open spec fn spec_pn_sel(self) -> Option<PnSel> {
        PnSel::spec_from_raw(field(self.raw, 16, 4) as u8)
    }

    /// Selected PN sequence.
    #[verifier::when_used_as_spec(spec_pn_sel)]
    pub fn pn_sel(self) -> (r: Option<PnSel>)
        ensures
            r == self.spec_pn_sel(),
    {
        proof {
            lemma_field_bound(self.raw, 16, 4);
        }
        let value = get_field(self.raw, 16, 4) as u8;
        match PnSel::new_with_raw_value(value) {
            Ok(v) => Some(v),
            Err(_) => None,
        }
    }

    /// Sets `pn_sel`, every other bit unchanged.
    pub open spec fn spec_with_pn_sel(self, value: PnSel) -> Self {
        ChannelPnSelect { raw: set_field(self.raw, 16, 4, value.spec_raw_value() as u32) }
    }

    /// Sets `pn_sel`, every other bit unchanged.
    #[verifier::when_used_as_spec(spec_with_pn_sel)]
    pub fn with_pn_sel(self, value: PnSel) -> (r: Self)
        ensures
            r == self.spec_with_pn_sel(value),
    {
        ChannelPnSelect { raw: with_field(self.raw, 16, 4, value.raw_value() as u32) }
    }

    /// Data source selection for the PN monitor.
    pub open spec fn spec_data_sel(self) -> u8 {
        field(self.raw, 0, 4) as u8
    }

    /// Data source selection for the PN monitor.
    #[verifier::when_used_as_spec(spec_data_sel)]
    pub fn data_sel(self) -> (r: u8)
        ensures
            r == self.spec_data_sel(),
            r <= 0xF,
    {
        proof {
            lemma_field_bound(self.raw, 0, 4);
        }
        get_field(self.raw, 0, 4) as u8
    }

    /// Sets `data_sel`, every other bit unchanged.
    pub open spec fn spec_with_data_sel(self, value: u8) -> Self {
        ChannelPnSelect { raw: set_field(self.raw, 0, 4, value as u32) }
    }

    /// Sets `data_sel`, every other bit unchanged.
    #[verifier::when_used_as_spec(spec_with_data_sel)]
    pub fn with_data_sel(self, value: u8) -> (r: Self)
        requires
            value <= 0xF,
        ensures
            r == self.spec_with_data_sel(value),
    {
        ChannelPnSelect { raw: with_field(self.raw, 0, 4, value as u32) }
    }
}

impl Default for ChannelPnSelect {
    fn default() -> (r: Self)
        ensures
            r@ == 0,
    {
        ChannelPnSelect { raw: 0 }
    }
}

/// IDELAY tap control, `AXI_ADC_REG_DELAY_CNTRL`.
///
/// Deprecated since HDL v9 in favor of [`DrpControl`](crate::ad9361::regs::fields::DrpControl)-based delay
/// access on newer interface primitives, but still present in the register map.
#[derive(Clone, Copy, PartialEq, Eq, Structural, Debug)]
pub struct DelayControl {
    /// The raw register word.
    pub raw: u32,
}

impl View for DelayControl {
    type V = u32;

    open spec fn view(&self) -> u32 {
        self.raw
    }
}

impl DelayControl {
    /// The all-zero register word.
    pub open spec fn spec_zero() -> Self {
        DelayControl { raw: 0 }
    }

    /// The all-zero register word.
    #[verifier::when_used_as_spec(spec_zero)]
    pub fn zero() -> (r: Self)
        ensures
            r == Self::spec_zero(),
    {
        DelayControl { raw: 0 }
    }

    /// Wraps a raw register word.
    pub fn new_with_raw_value(raw: u32) -> (r: Self)
        ensures
            r@ == raw,
    {
        DelayControl { raw }
    }

    /// The raw register word.
    pub fn raw_value(self) -> (r: u32)
        ensures
            r == self@,
    {
        self.raw
    }

    /// A 0 -> 1 transition on this bit initiates a delay access.
    pub open spec fn spec_delay_sel(self) -> bool {
        bit(self.raw, 17)
    }

    /// A 0 -> 1 transition on this bit initiates a delay access.
    #[verifier::when_used_as_spec(spec_delay_sel)]
    pub fn delay_sel(self) -> (r: bool)
        ensures
            r == self.spec_delay_sel(),
    {
        get_bit(self.raw, 17)
    }

    /// Sets `delay_sel`, every other bit unchanged.
    pub open spec fn spec_with_delay_sel(self, value: bool) -> Self {
        DelayControl { raw: set_bit(self.raw, 17, value) }
    }

    /// Sets `delay_sel`, every other bit unchanged.
    #[verifier::when_used_as_spec(spec_with_delay_sel)]
    pub fn with_delay_sel(self, value: bool) -> (r: Self)
        ensures
            r == self.spec_with_delay_sel(value),
    {
        DelayControl { raw: with_bit(self.raw, 17, value) }
    }

    /// Read (true) or write (false) the addressed delay tap.
    pub open spec fn spec_delay_rwn(self) -> bool {
        bit(self.raw, 16)
    }

    /// Read (true) or write (false) the addressed delay tap.
    #[verifier::when_used_as_spec(spec_delay_rwn)]
    pub fn delay_rwn(self) -> (r: bool)
        ensures
            r == self.spec_delay_rwn(),
    {
        get_bit(self.raw, 16)
    }

    /// Sets `delay_rwn`, every other bit unchanged.
    pub open spec fn spec_with_delay_rwn(self, value: bool) -> Self {
        DelayControl { raw: set_bit(self.raw, 16, value) }
    }

    /// Sets `delay_rwn`, every other bit unchanged.
    #[verifier::when_used_as_spec(spec_with_delay_rwn)]
    pub fn with_delay_rwn(self, value: bool) -> (r: Self)
        ensures
            r == self.spec_with_delay_rwn(value),
    {
        DelayControl { raw: with_bit(self.raw, 16, value) }
    }

    /// Delay tap address; the valid range depends on the interface pins.
    pub open spec fn spec_delay_address(self) -> u8 {
        field(self.raw, 8, 8) as u8
    }

    /// Delay tap address; the valid range depends on the interface pins.
    #[verifier::when_used_as_spec(spec_delay_address)]
    pub fn delay_address(self) -> (r: u8)
        ensures
            r == self.spec_delay_address(),
            r <= 0xFF,
    {
        proof {
            lemma_field_bound(self.raw, 8, 8);
        }
        get_field(self.raw, 8, 8) as u8
    }

    /// Sets `delay_address`, every other bit unchanged.
    pub open spec fn spec_with_delay_address(self, value: u8) -> Self {
        DelayControl { raw: set_field(self.raw, 8, 8, value as u32) }
    }

    /// Sets `delay_address`, every other bit unchanged.
    #[verifier::when_used_as_spec(spec_with_delay_address)]
    pub fn with_delay_address(self, value: u8) -> (r: Self)
        ensures
            r == self.spec_with_delay_address(value),
    {
        DelayControl { raw: with_field(self.raw, 8, 8, value as u32) }
    }

    /// Delay write data. A value of 1 corresponds to (1/200) ns.
    pub open spec fn spec_delay_wdata(self) -> u8 {
        field(self.raw, 0, 5) as u8
    }

    /// Delay write data. A value of 1 corresponds to (1/200) ns.
    #[verifier::when_used_as_spec(spec_delay_wdata)]
    pub fn delay_wdata(self) -> (r: u8)
        ensures
            r == self.spec_delay_wdata(),
            r <= 0x1F,
    {
        proof {
            lemma_field_bound(self.raw, 0, 5);
        }
        get_field(self.raw, 0, 5) as u8
    }

    /// Sets `delay_wdata`, every other bit unchanged.
    pub open spec fn spec_with_delay_wdata(self, value: u8) -> Self {
        DelayControl { raw: set_field(self.raw, 0, 5, value as u32) }
    }

    /// Sets `delay_wdata`, every other bit unchanged.
    #[verifier::when_used_as_spec(spec_with_delay_wdata)]
    pub fn with_delay_wdata(self, value: u8) -> (r: Self)
        requires
            value <= 0x1F,
        ensures
            r == self.spec_with_delay_wdata(value),
    {
        DelayControl { raw: with_field(self.raw, 0, 5, value as u32) }
    }
}

impl Default for DelayControl {
    fn default() -> (r: Self)
        ensures
            r@ == 0,
    {
        DelayControl { raw: 0 }
    }
}

/// IDELAY tap status, `AXI_ADC_REG_DELAY_STATUS`. See [`DelayControl`] for deprecation
/// notes.
#[derive(Clone, Copy, PartialEq, Eq, Structural, Debug)]
pub struct DelayStatusLegacy {
    /// The raw register word.
    pub raw: u32,
}

impl View for DelayStatusLegacy {
    type V = u32;

    open spec fn view(&self) -> u32 {
        self.raw
    }
}

impl DelayStatusLegacy {
    /// The all-zero register word.
    pub open spec fn spec_zero() -> Self {
        DelayStatusLegacy { raw: 0 }
    }

    /// The all-zero register word.
    #[verifier::when_used_as_spec(spec_zero)]
    pub fn zero() -> (r: Self)
        ensures
            r == Self::spec_zero(),
    {
        DelayStatusLegacy { raw: 0 }
    }

    /// Wraps a raw register word.
    pub fn new_with_raw_value(raw: u32) -> (r: Self)
        ensures
            r@ == raw,
    {
        DelayStatusLegacy { raw }
    }

    /// The raw register word.
    pub fn raw_value(self) -> (r: u32)
        ensures
            r == self@,
    {
        self.raw
    }

    /// The delay tap has locked.
    pub open spec fn spec_delay_locked(self) -> bool {
        bit(self.raw, 9)
    }

    /// The delay tap has locked.
    #[verifier::when_used_as_spec(spec_delay_locked)]
    pub fn delay_locked(self) -> (r: bool)
        ensures
            r == self.spec_delay_locked(),
    {
        get_bit(self.raw, 9)
    }

    /// A delay access is pending (busy).
    pub open spec fn spec_delay_status(self) -> bool {
        bit(self.raw, 8)
    }

    /// A delay access is pending (busy).
    #[verifier::when_used_as_spec(spec_delay_status)]
    pub fn delay_status(self) -> (r: bool)
        ensures
            r == self.spec_delay_status(),
    {
        get_bit(self.raw, 8)
    }

    /// Current delay tap value.
    pub open spec fn spec_delay_rdata(self) -> u8 {
        field(self.raw, 0, 5) as u8
    }

    /// Current delay tap value.
    #[verifier::when_used_as_spec(spec_delay_rdata)]
    pub fn delay_rdata(self) -> (r: u8)
        ensures
            r == self.spec_delay_rdata(),
            r <= 0x1F,
    {
        proof {
            lemma_field_bound(self.raw, 0, 5);
        }
        get_field(self.raw, 0, 5) as u8
    }
}

impl Default for DelayStatusLegacy {
    fn default() -> (r: Self)
        ensures
            r@ == 0,
    {
        DelayStatusLegacy { raw: 0 }
    }
}

/// User interface FIFO status, `AXI_ADC_REG_UI_STATUS`. Overflow/underflow bits are
/// write-1-to-clear.
#[derive(Clone, Copy, PartialEq, Eq, Structural, Debug)]
pub struct UiStatus {
    /// The raw register word.
    pub raw: u32,
}

impl View for UiStatus {
    type V = u32;

    open spec fn view(&self) -> u32 {
        self.raw
    }
}

impl UiStatus {
    /// The all-zero register word.
    pub open spec fn spec_zero() -> Self {
        UiStatus { raw: 0 }
    }

    /// The all-zero register word.
    #[verifier::when_used_as_spec(spec_zero)]
    pub fn zero() -> (r: Self)
        ensures
            r == Self::spec_zero(),
    {
        UiStatus { raw: 0 }
    }

    /// Wraps a raw register word.
    pub fn new_with_raw_value(raw: u32) -> (r: Self)
        ensures
            r@ == raw,
    {
        UiStatus { raw }
    }

    /// The raw register word.
    pub fn raw_value(self) -> (r: u32)
        ensures
            r == self@,
    {
        self.raw
    }

    /// User interface FIFO overflow occurred.
    pub open spec fn spec_ui_ovf(self) -> bool {
        bit(self.raw, 2)
    }

    /// User interface FIFO overflow occurred.
    #[verifier::when_used_as_spec(spec_ui_ovf)]
    pub fn ui_ovf(self) -> (r: bool)
        ensures
            r == self.spec_ui_ovf(),
    {
        get_bit(self.raw, 2)
    }

    /// Sets `ui_ovf`, every other bit unchanged.
    pub open spec fn spec_with_ui_ovf(self, value: bool) -> Self {
        UiStatus { raw: set_bit(self.raw, 2, value) }
    }

    /// Sets `ui_ovf`, every other bit unchanged.
    #[verifier::when_used_as_spec(spec_with_ui_ovf)]
    pub fn with_ui_ovf(self, value: bool) -> (r: Self)
        ensures
            r == self.spec_with_ui_ovf(value),
    {
        UiStatus { raw: with_bit(self.raw, 2, value) }
    }

    /// User interface FIFO underflow occurred.
    pub open spec fn spec_ui_unf(self) -> bool {
        bit(self.raw, 1)
    }

    /// User interface FIFO underflow occurred.
    #[verifier::when_used_as_spec(spec_ui_unf)]
    pub fn ui_unf(self) -> (r: bool)
        ensures
            r == self.spec_ui_unf(),
    {
        get_bit(self.raw, 1)
    }

    /// Sets `ui_unf`, every other bit unchanged.
    pub open spec fn spec_with_ui_unf(self, value: bool) -> Self {
        UiStatus { raw: set_bit(self.raw, 1, value) }
    }

    /// Sets `ui_unf`, every other bit unchanged.
    #[verifier::when_used_as_spec(spec_with_ui_unf)]
    pub fn with_ui_unf(self, value: bool) -> (r: Self)
        ensures
            r == self.spec_with_ui_unf(value),
    {
        UiStatus { raw: with_bit(self.raw, 1, value) }
    }
}

impl Default for UiStatus {
    fn default() -> (r: Self)
        ensures
            r@ == 0,
    {
        UiStatus { raw: 0 }
    }
}

} // verus!
