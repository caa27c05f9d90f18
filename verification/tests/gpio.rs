use axi_hdl::gpio::asynch::{on_interrupt, AsyncChannel, ChannelToken, ClaimWakerError, EventFlags, NUM_WAKERS};
use axi_hdl::gpio::regs::fields::{GlobalInterruptEnable, InterruptBits, Pins};
use axi_hdl::gpio::regs::{
    CH1_DATA_OFFSET, CH1_TRI_STATE_OFFSET, CH2_DATA_OFFSET, CH2_TRI_STATE_OFFSET, GLOBAL_INTERRUPT_ENABLE_OFFSET,
    INTERRUPT_ENABLE_OFFSET, INTERRUPT_STATUS_OFFSET, REGISTER_BLOCK_SIZE,
};
use axi_hdl::gpio::{AxiGpio, Channel1Marker, Channel2Marker, ChannelId, Input, LowLevelGpio, Output, Pin};
use axi_hdl::mmio::RegWrite;
use axi_hdl::wakers::WakerSlots;

fn w(offset: usize, value: u32) -> RegWrite {
    RegWrite { offset, value }
}

#[test]
fn register_layout_matches_ip_core() {
    assert_eq!(CH1_DATA_OFFSET, 0x0);
    assert_eq!(CH1_TRI_STATE_OFFSET, 0x4);
    assert_eq!(CH2_DATA_OFFSET, 0x8);
    assert_eq!(CH2_TRI_STATE_OFFSET, 0xC);
    assert_eq!(GLOBAL_INTERRUPT_ENABLE_OFFSET, 0x11C);
    assert_eq!(INTERRUPT_STATUS_OFFSET, 0x120);
    assert_eq!(INTERRUPT_ENABLE_OFFSET, 0x128);
    assert_eq!(REGISTER_BLOCK_SIZE, 0x12C);
}

#[test]
fn pins_field_reads_and_writes_single_bits() {
    let p = Pins::new_with_raw_value(0).with_pins(3, true);
    assert_eq!(p.raw_value(), 0x8);
    assert!(p.pins(3));
    assert!(!p.pins(2));
    let p = Pins::new_with_raw_value(0xFFFF_FFFF).with_pins(31, false);
    assert_eq!(p.raw_value(), 0x7FFF_FFFF);
    assert!(!p.pins(31));
    assert!(p.pins(30));
}

#[test]
fn interrupt_fields_positions() {
    assert_eq!(GlobalInterruptEnable::zero().with_enable(true).raw_value(), 0x8000_0000);
    assert!(GlobalInterruptEnable::new_with_raw_value(0x8000_0000).enable());
    assert_eq!(InterruptBits::zero().with_channel2(true).raw_value(), 0b10);
    assert_eq!(InterruptBits::zero().with_channel1(true).raw_value(), 0b01);
    assert!(InterruptBits::new_with_raw_value(0b10).channel2());
    assert!(!InterruptBits::new_with_raw_value(0b10).channel1());
    assert_eq!(GlobalInterruptEnable::default().raw_value(), 0);
}

#[test]
fn global_interrupt_enable_and_disable() {
    let (mut gpio, _pins) = AxiGpio::new_single_channel(0x4120_0000);
    assert_eq!(gpio.enable_global_interrupt(), w(0x11C, 0x8000_0000));
    assert_eq!(gpio.disable_global_interrupt(), w(0x11C, 0));
    assert_eq!(gpio.regs(), 0x4120_0000);
}

#[test]
fn channel_interrupt_enable_keeps_other_channel() {
    let (mut gpio, _p1, _p2) = AxiGpio::new_dual_channel(0x4120_0000);
    let ier = InterruptBits::new_with_raw_value(0b01);
    assert_eq!(gpio.enable_channel_interrupt(ChannelId::Ch2, ier), w(0x128, 0b11));
    let ier = InterruptBits::new_with_raw_value(0b11);
    assert_eq!(gpio.disable_channel_interrupt(ChannelId::Ch1, ier), w(0x128, 0b10));
    assert_eq!(gpio.disable_channel_interrupt(ChannelId::Ch2, ier), w(0x128, 0b01));
}

#[test]
fn channel_events_taken_once() {
    let (mut gpio, _p1, _p2) = AxiGpio::new_dual_channel(0x4120_0000);
    let mut wakers = WakerSlots::new(NUM_WAKERS);
    let events = gpio.event_channel(ChannelId::Ch1, 0, &mut wakers).unwrap().unwrap();
    let token = events.token();
    assert_eq!(token.base_addr(), 0x4120_0000);
    assert_eq!(token.channel(), ChannelId::Ch1);
    assert_eq!(token.waker_idx(), 0);
    assert!(wakers.is_claimed(0));
    // Taken already: no second event source, and no claim attempted.
    assert!(matches!(gpio.event_channel(ChannelId::Ch1, 0, &mut wakers), Ok(None)));
    // The other channel cannot share the waker slot, and stays untaken.
    assert!(matches!(gpio.event_channel(ChannelId::Ch2, 0, &mut wakers), Err(ClaimWakerError::WakerIndexInUse(0))));
    assert!(matches!(gpio.event_channel(ChannelId::Ch2, 7, &mut wakers), Err(ClaimWakerError::InvalidWakerIndex(7))));
}

#[test]
fn failed_claim_leaves_channel_available() {
    let (mut gpio, _p1, _p2) = AxiGpio::new_dual_channel(0x4120_0000);
    let mut wakers = WakerSlots::new(2);
    assert!(matches!(gpio.event_channel(ChannelId::Ch2, 2, &mut wakers), Err(ClaimWakerError::InvalidWakerIndex(2))));
    let events = gpio.event_channel(ChannelId::Ch2, 1, &mut wakers).unwrap().unwrap();
    assert_eq!(events.token().waker_idx(), 1);
    assert!(!wakers.is_claimed(0));
    assert!(wakers.is_claimed(1));
}

#[test]
fn interrupt_handler_acknowledges_only_own_channel() {
    let token = ChannelToken::steal(0x4120_0000, ChannelId::Ch1, 0);
    let enabled = InterruptBits::new_with_raw_value(0b11);
    let pending = InterruptBits::new_with_raw_value(0b11);
    let mut flags = EventFlags::new(NUM_WAKERS);
    assert_eq!(on_interrupt(&token, enabled, pending, &mut flags), Some(w(0x120, 0b01)));
    let token2 = ChannelToken::steal(0x4120_0000, ChannelId::Ch2, 0);
    assert_eq!(on_interrupt(&token2, enabled, pending, &mut flags), Some(w(0x120, 0b10)));
}

#[test]
fn interrupt_handler_ignores_disabled_idle_or_unknown_slot() {
    let token = ChannelToken::steal(0x4120_0000, ChannelId::Ch2, 0);
    let mut flags = EventFlags::new(NUM_WAKERS);
    // Channel 2 interrupt not enabled.
    assert_eq!(on_interrupt(&token, InterruptBits::new_with_raw_value(0b01), InterruptBits::new_with_raw_value(0b10), &mut flags), None);
    // Nothing pending on channel 2.
    assert_eq!(on_interrupt(&token, InterruptBits::new_with_raw_value(0b10), InterruptBits::new_with_raw_value(0b01), &mut flags), None);
    // Waker slot out of range.
    let bad = ChannelToken::steal(0x4120_0000, ChannelId::Ch2, NUM_WAKERS);
    assert_eq!(on_interrupt(&bad, InterruptBits::new_with_raw_value(0b10), InterruptBits::new_with_raw_value(0b10), &mut flags), None);
}

#[test]
fn async_channel_wait_enables_and_future_reads_data() {
    let mut wakers = WakerSlots::new(1);
    let mut events = AsyncChannel::new(0x4000, ChannelId::Ch2, 0, &mut wakers).unwrap();
    assert!(matches!(AsyncChannel::new(0x4000, ChannelId::Ch1, 0, &mut wakers), Err(ClaimWakerError::WakerIndexInUse(0))));
    let mut flags = EventFlags::new(NUM_WAKERS);
    // An event signalled before the wait started does not resolve it.
    let token = events.token();
    let both = InterruptBits::new_with_raw_value(0b11);
    assert!(on_interrupt(&token, both, both, &mut flags).is_some());
    let (mut fut, enable) = events.wait(&mut flags, InterruptBits::new_with_raw_value(0b01));
    assert_eq!(enable, w(0x128, 0b11));
    assert_eq!(fut.poll(&mut flags), None);
    assert!(on_interrupt(&token, both, both, &mut flags).is_some());
    assert_eq!(fut.poll(&mut flags), Some(CH2_DATA_OFFSET));
    // Consumed: a second poll waits again.
    assert_eq!(fut.poll(&mut flags), None);
    assert_eq!(fut.on_drop(InterruptBits::new_with_raw_value(0b11)), w(0x128, 0b01));
    assert_eq!(events.set_channel_interrupt_enabled(false, InterruptBits::new_with_raw_value(0b11)), w(0x128, 0b01));
}

#[test]
fn low_level_pin_operations() {
    let mut pin = LowLevelGpio::steal(0x4000, ChannelId::Ch2, 5);
    let data = Pins::new_with_raw_value(0x0000_0001);
    assert_eq!(pin.set_high(data), w(0x8, 0x21));
    assert_eq!(pin.set_low(Pins::new_with_raw_value(0xFFFF_FFFF)), w(0x8, 0xFFFF_FFDF));
    assert_eq!(pin.toggle(data), w(0x8, 0x21));
    assert_eq!(pin.toggle(Pins::new_with_raw_value(0x21)), w(0x8, 0x01));
    assert_eq!(pin.configure_as_input_pin(Pins::new_with_raw_value(0)), w(0xC, 0x20));
    assert_eq!(pin.configure_as_output_pin(Pins::new_with_raw_value(0xFF)), w(0xC, 0xDF));
    assert!(pin.is_high(Pins::new_with_raw_value(0x20)));
    assert!(pin.is_low(Pins::new_with_raw_value(0xDF)));
    assert!(pin.is_set_high(Pins::new_with_raw_value(0x20)));
    assert!(pin.is_set_low(Pins::new_with_raw_value(0)));
    assert_eq!(pin.data_offset(), CH2_DATA_OFFSET);
    assert_eq!(pin.tri_state_offset(), CH2_TRI_STATE_OFFSET);
}

#[test]
fn toggling_twice_restores_the_data_word() {
    let mut pin = LowLevelGpio::steal(0, ChannelId::Ch1, 31);
    let data = Pins::new_with_raw_value(0x1234_5678);
    let once = pin.toggle(data);
    let twice = pin.toggle(Pins::new_with_raw_value(once.value));
    assert_eq!(once.value, 0x9234_5678);
    assert_eq!(twice.value, 0x1234_5678);
}

#[test]
fn output_pin_drives_initial_level_then_enables_driver() {
    let (gpio, pins) = AxiGpio::new_single_channel(0x4120_0000);
    let data = Pins::new_with_raw_value(0x1);
    let tri = Pins::new_with_raw_value(0xFFFF_FFFF);
    let (mut out, writes) = gpio.output_pin(pins.p7, true, data, tri);
    assert_eq!(writes, vec![w(0x0, 0x81), w(0x4, 0xFFFF_FF7F)]);
    assert_eq!(out.set_low(Pins::new_with_raw_value(0x81)), w(0x0, 0x01));
    assert_eq!(out.set_high(Pins::new_with_raw_value(0)), w(0x0, 0x80));
    assert_eq!(out.toggle(Pins::new_with_raw_value(0x80)), w(0x0, 0x00));
    assert!(out.is_set_high(Pins::new_with_raw_value(0x80)));
    assert!(out.is_set_low(Pins::new_with_raw_value(0x7F)));
    let (_out, writes) = Output::new(0, Pin::<Channel2Marker, 0>::steal(), false, Pins::new_with_raw_value(0x3), Pins::new_with_raw_value(0x1));
    assert_eq!(writes, vec![w(0x8, 0x2), w(0xC, 0x0)]);
}

#[test]
fn input_pin_releases_driver() {
    let (gpio, _p1, p2) = AxiGpio::new_dual_channel(0x4120_0000);
    let (input, write) = gpio.input_pin(p2.p30, Pins::new_with_raw_value(0));
    assert_eq!(write, w(0xC, 0x4000_0000));
    assert!(input.is_high(Pins::new_with_raw_value(0x4000_0000)));
    assert!(input.is_low(Pins::new_with_raw_value(0x0)));
    let (_input, write) = Input::new(0, Pin::<Channel1Marker, 1>::steal(), Pins::new_with_raw_value(0x1));
    assert_eq!(write, w(0x4, 0x3));
}
