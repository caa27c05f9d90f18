use axi_hdl::ad9361::adc::{self, Adc};
use axi_hdl::ad9361::dac::{self, Dac};
use axi_hdl::ad9361::regs::adc::fields::{
    ChannelDataPathControl, ChannelPnSelect, Control1 as AdcControl1, DelayControl, PinMode, PnSel, Status as AdcStatus,
};
use axi_hdl::ad9361::regs::dac::regs::{Control2 as DacControl2, DataSource, PatternSed, RateControl};
use axi_hdl::ad9361::regs::fields::{Config, FpgaFamily, FpgaInfo, FpgaTechnology, InterfaceMode, R1Mode, Reset};
use axi_hdl::ad9361::regs::Registers;
use axi_hdl::ad9361::AxiAd9361;
use axi_hdl::mmio::RegWrite;

fn w(offset: usize, value: u32) -> RegWrite {
    RegWrite { offset, value }
}

#[test]
fn reset_released_value() {
    assert_eq!(Reset::released().raw_value(), 0x3);
    assert!(Reset::released().reset_n());
    assert!(Reset::released().mmcm_reset_n());
    assert!(!Reset::released().clock_disable());
}

#[test]
fn block_offsets() {
    assert_eq!(Registers::ADC, 0x40);
    assert_eq!(Registers::DAC, 0x4000);
    assert_eq!(Registers::new_adc_block(0x7900_0000), 0x7900_0040);
    assert_eq!(Registers::new_dac_block(0x7900_0000), 0x7900_4000);
    assert_eq!(adc::RESET_OFFSET, 0x40);
    assert_eq!(adc::STATUS_OFFSET, 0x5C);
    assert_eq!(dac::RESET_OFFSET, 0x4040);
    assert_eq!(dac::RATE_CONTROL_OFFSET, 0x404C);
    assert_eq!(dac::INTERFACE_STATUS_OFFSET, 0x405C);
}

#[test]
fn adc_init_one_channel_mode_enables_two_channels() {
    let (_adc, writes) = Adc::new(0x7900_0000, R1Mode::OneChannel, AdcControl1::zero());
    assert_eq!(
        writes,
        vec![
            w(0x44, 0x4),
            w(0x40, 0x0),
            w(0x40, 0x3),
            w(0x400, 0x251),
            w(0x414, 0x4000_0000),
            w(0x440, 0x251),
            w(0x454, 0x0000_4000),
        ]
    );
}

#[test]
fn adc_init_two_channel_mode_enables_four_channels() {
    let (_adc, writes) = Adc::new(0, R1Mode::TwoChannels, AdcControl1::new_with_raw_value(0xFFFF_FFFF));
    assert_eq!(writes.len(), 11);
    assert_eq!(writes[0], w(0x44, 0xFFFF_FFFB));
    assert_eq!(writes[7], w(0x480, 0x251));
    assert_eq!(writes[8], w(0x494, 0x4000_0000));
    assert_eq!(writes[9], w(0x4C0, 0x251));
    assert_eq!(writes[10], w(0x4D4, 0x0000_4000));
}

#[test]
fn adc_reset_pulse_keeps_mmcm_running() {
    let mut adc = Adc::new_no_init(0);
    assert_eq!(adc.reset_pulse(), vec![w(0x40, 0x2), w(0x40, 0x3)]);
    assert_eq!(adc.enable(), vec![w(0x40, 0x0), w(0x40, 0x3)]);
    assert_eq!(adc.channel_mut(15), 0x400 + 15 * 0x40);
    assert_eq!(adc.enable_channel(3), vec![w(0x4C0, 0x251), w(0x4D4, 0x4000)]);
}

#[test]
fn dac_init_sequence() {
    let (_dac, writes) = Dac::new(0, 2, R1Mode::OneChannel, DacControl2::zero());
    assert_eq!(writes, vec![w(0x4048, 0x20), w(0x4040, 0x0), w(0x4040, 0x3), w(0x404C, 0x1), w(0x4044, 0x1)]);
}

#[test]
fn dac_rate_divider_register_holds_div_minus_one() {
    let mut dac = Dac::new_no_init(0);
    assert_eq!(dac.set_rate_div(1), w(0x404C, 0));
    assert_eq!(dac.set_rate_div(255), w(0x404C, 254));
    assert_eq!(RateControl::new_with_raw_value(dac.set_rate_div(4).value).rate() as u32 + 1, 4);
}

#[test]
fn dac_data_source_selection() {
    let mut dac = Dac::new_no_init(0);
    assert_eq!(dac.set_data_source(3, DataSource::PnX), vec![w(0x44D8, 0x9), w(0x4044, 0x1)]);
    assert_eq!(
        dac.set_data_source_all_channels_up_to(2, DataSource::Zero),
        vec![w(0x4418, 0x3), w(0x4458, 0x3), w(0x4044, 0x1)]
    );
    assert_eq!(dac.set_data_source_all_channels_up_to(0, DataSource::Zero), vec![w(0x4044, 0x1)]);
    assert_eq!(dac.release_reset(), w(0x4040, 0x3));
    assert_eq!(dac.synchronize(), w(0x4044, 0x1));
    assert_eq!(dac.enable(), vec![w(0x4040, 0x0), w(0x4040, 0x3)]);
}

#[test]
fn drivers_taken_once() {
    let mut core = AxiAd9361::new(0x7900_0000);
    let (_adc, writes) = core.take_and_init_adc(R1Mode::OneChannel, AdcControl1::zero()).unwrap();
    assert_eq!(writes.len(), 7);
    assert!(core.take_adc_no_init().is_none());
    assert!(core.take_and_init_adc(R1Mode::TwoChannels, AdcControl1::zero()).is_none());
    assert!(core.take_dac_no_init().is_some());
    assert!(core.take_and_init_dac(1, R1Mode::OneChannel, DacControl2::zero()).is_none());
}

#[test]
fn config_and_fpga_info_decoding() {
    let config = Config::new_with_raw_value(0x0000_0091);
    assert_eq!(config.cmos_or_lvds(), InterfaceMode::Cmos);
    assert!(config.mode_1r1t());
    assert!(config.iq_correction_disabled());
    assert!(config.pps_receiver() == false);
    let info = FpgaInfo::new_with_raw_value(0x0304_0A0B);
    assert_eq!(info.technology(), Some(FpgaTechnology::UltraScalePlus));
    assert_eq!(info.family(), Some(FpgaFamily::Zynq));
    assert_eq!(info.speed(), 0x0A);
    assert_eq!(info.dev_package(), 0x0B);
    assert_eq!(FpgaInfo::new_with_raw_value(0x0900_0000).technology(), None);
    assert_eq!(FpgaInfo::zero().with_family(FpgaFamily::VersalPremium).raw_value(), 0x0007_0000);
}

#[test]
fn adc_field_layouts() {
    assert_eq!(ChannelDataPathControl::zero().with_enable(true).with_format_signext(true).with_format_enable(true).with_iqcor_enable(true).raw_value(), 0x251);
    let c = AdcControl1::zero().with_num_of_lanes(0x1F).with_pin_mode(PinMode::ClockMultiplexed);
    assert_eq!(c.raw_value(), 0x1F01);
    assert_eq!(c.num_of_lanes(), 0x1F);
    assert_eq!(c.r1_mode(), R1Mode::TwoChannels);
    let p = ChannelPnSelect::zero().with_pn_sel(PnSel::PnCustom).with_data_sel(0x5);
    assert_eq!(p.raw_value(), 0x0009_0005);
    assert_eq!(p.pn_sel(), Some(PnSel::PnCustom));
    assert_eq!(ChannelPnSelect::new_with_raw_value(0x0002_0000).pn_sel(), None);
    assert_eq!(DelayControl::zero().with_delay_address(0x12).with_delay_wdata(0x1F).with_delay_sel(true).raw_value(), 0x0002_121F);
    assert!(AdcStatus::new_with_raw_value(0x1).locked());
    assert_eq!(PnSel::new_with_raw_value(0x9), Ok(PnSel::PnCustom));
    assert_eq!(PnSel::new_with_raw_value(0x3), Err(0x3));
}

#[test]
fn dac_pattern_sed_signed_fields() {
    let p = PatternSed::zero().with_pattern_1(-2).with_pattern_2(0x1234);
    assert_eq!(p.raw_value(), 0x1234_FFFE);
    assert_eq!(p.pattern_1(), -2);
    assert_eq!(PatternSed::new_with_raw_value(0x8000_0000).pattern_2(), i16::MIN);
    assert_eq!(DataSource::new_with_raw_value(0xC), Err(0xC));
    assert_eq!(DataSource::LoopbackDataAdc.raw_value(), 0x8);
    assert_eq!(R1Mode::new_with_raw_value(1), R1Mode::OneChannel);
    assert_eq!(R1Mode::TwoChannels.raw_value(), 0);
}
