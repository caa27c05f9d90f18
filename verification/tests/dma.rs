use axi_hdl::dma::regs::direct_register::{Mm2sRegisters, Registers, S2mmRegisters, TransferLength};
use axi_hdl::dma::regs::fields::{Control, RunStop, Status};
use axi_hdl::dma::regs::scatter_gather::fields::{DescriptorControl, DescriptorStatus, SgControl};
use axi_hdl::dma::regs::scatter_gather::{configure_descriptors_cyclic, set_buffer_address, split_address, DESCRIPTOR_SIZE};
use axi_hdl::dma::{
    start_read, start_write, DmaController, DmaInterruptRxToken, DmaReadError, DmaReaderInterruptDriven, DmaTransferError,
    DmaTxToken, DmaWriteError, DmaWriterAsync, TxTransferSlots, DoubleBufferHelper, DoubleBufferInitError, InvalidBufferLengthError,
    InvalidTxWakerIndexError, LengthNotEqualError, ResetTimeoutError, ResetWait, TakeAsyncError, TxWakerIndexInUseError,
    MAX_TRANSFER_LENGTH, NUM_TX_WAKERS, RESET_POLL_ATTEMPTS,
};
use axi_hdl::mmio::RegWrite;
use axi_hdl::wakers::WakerSlots;

fn w(offset: usize, value: u32) -> RegWrite {
    RegWrite { offset, value }
}

/// A controller whose channels both come out of reset at the first poll.
fn controller(base_addr: usize) -> DmaController {
    let (mut reset, _) = DmaController::new(base_addr);
    assert!(reset.poll(false).is_none());
    match reset.poll(false) {
        Some(Ok(c)) => c,
        _ => panic!("reset did not finish"),
    }
}

#[test]
fn dma_register_layout() {
    assert_eq!(Mm2sRegisters::CONTROL, 0x00);
    assert_eq!(Mm2sRegisters::STATUS, 0x04);
    assert_eq!(Mm2sRegisters::SOURCE_ADDRESS_LOWER_WORD, 0x18);
    assert_eq!(Mm2sRegisters::TRANSFER_LENGTH, 0x28);
    assert_eq!(S2mmRegisters::DEST_ADDRESS_LOWER_WORD, 0x18);
    assert_eq!(Registers::S2MM, 0x30);
    assert_eq!(Registers::SIZE, 0x5C);
}

#[test]
fn control_and_status_fields() {
    let c = Control::zero().with_reset(true);
    assert_eq!(c.raw_value(), 0x4);
    assert!(c.reset());
    let c = Control::zero().with_interrupt_threshold(0x12).with_interrupt_delay(0xAB).with_run_stop(RunStop::Run);
    assert_eq!(c.raw_value(), 0xAB12_0001);
    assert_eq!(c.interrupt_threshold(), 0x12);
    assert_eq!(c.interrupt_delay(), 0xAB);
    assert_eq!(c.run_stop(), RunStop::Run);
    assert_eq!(Control::new_with_raw_value(0xFFFF_FFFF).with_run_stop(RunStop::Stop).raw_value(), 0xFFFF_FFFE);
    let s = Status::new_with_raw_value(0x0203_5032);
    assert_eq!(s.interrupt_delay(), 0x02);
    assert_eq!(s.interrupt_threshold(), 0x03);
    assert!(s.error_interrupt());
    assert!(s.completion_interrupt());
    assert!(!s.delay_timer_interrupt());
    assert!(s.dma_slave_error());
    assert!(s.dma_internal_error());
    assert!(!s.dma_decode_error());
    assert!(s.idle());
    assert!(!s.halted());
    assert_eq!(TransferLength::zero().with_length(0x3FF_FFFF).raw_value(), 0x3FF_FFFF);
    assert_eq!(TransferLength::new_with_raw_value(0xFFFF_FFFF).length(), 0x3FF_FFFF);
}

#[test]
fn scatter_gather_fields() {
    let c = DescriptorControl::zero().with_tx_start_of_frame(true).with_tx_end_of_frame(true).with_buffer_length(100);
    assert_eq!(c.raw_value(), 0x0C00_0064);
    let s = DescriptorStatus::new_with_raw_value(0x8000_0040);
    assert!(s.completed());
    assert_eq!(s.transferred_bytes(), 0x40);
    assert!(!s.dma_slave_error());
    assert_eq!(SgControl::zero().with_user(0xA).with_cache(0x3).raw_value(), 0xA03);
}

#[test]
fn transfer_error_byte_encoding() {
    let e = DmaTransferError { decode: true, slave: false, internal: true };
    assert_eq!(e.to_bits(), 0b1101);
    assert_eq!(DmaTransferError::from_bits(0), None);
    assert_eq!(DmaTransferError::from_bits(0b0111), None);
    assert_eq!(DmaTransferError::from_bits(0b1000), Some(DmaTransferError { decode: false, slave: false, internal: false }));
}

#[test]
fn transfer_error_round_trip_all_combinations() {
    for bits in 0u8..8 {
        let e = DmaTransferError { decode: bits & 1 != 0, slave: bits & 2 != 0, internal: bits & 4 != 0 };
        assert_eq!(DmaTransferError::from_bits(e.to_bits()), Some(e));
    }
}

#[test]
fn start_write_programs_run_address_length() {
    let writes = start_write(Control::zero(), 0x1000_0000, 64).unwrap();
    assert_eq!(writes, vec![w(0x00, 0x1), w(0x18, 0x1000_0000), w(0x28, 64)]);
    let writes = start_read(Control::new_with_raw_value(0x5000), 0x2000, MAX_TRANSFER_LENGTH).unwrap();
    assert_eq!(writes, vec![w(0x00, 0x5001), w(0x18, 0x2000), w(0x28, 0x3FF_FFFF)]);
}

#[test]
fn start_rejects_too_long_buffer() {
    assert_eq!(start_write(Control::zero(), 0, MAX_TRANSFER_LENGTH + 1), Err(InvalidBufferLengthError { len: 0x400_0000 }));
    assert_eq!(start_read(Control::zero(), 0, 0x500_0000), Err(InvalidBufferLengthError { len: 0x500_0000 }));
}

#[test]
fn controller_resets_both_channels() {
    let (reset, writes) = DmaController::new(0x4040_0000);
    assert_eq!(writes, vec![w(0x00, 0x4), w(0x30, 0x4)]);
    assert_eq!(reset.control_offset(), 0x00);
}

#[test]
fn controller_reset_polls_mm2s_then_s2mm() {
    let (mut reset, _) = DmaController::new(0x4040_0000);
    assert_eq!(reset.control_offset(), 0x00);
    assert!(reset.poll(true).is_none());
    assert_eq!(reset.control_offset(), 0x00);
    assert!(reset.poll(false).is_none());
    // Only once MM2S cleared is S2MM polled.
    assert_eq!(reset.control_offset(), 0x30);
    assert!(reset.poll(true).is_none());
    match reset.poll(false) {
        Some(Ok(mut c)) => assert!(c.take_simple_writer().is_some()),
        _ => panic!("reset did not finish"),
    }
}

#[test]
fn controller_reset_times_out_per_channel() {
    let (mut reset, _) = DmaController::new(0);
    for _ in 0..RESET_POLL_ATTEMPTS - 1 {
        assert!(reset.poll(true).is_none());
    }
    assert!(matches!(reset.poll(true), Some(Err(ResetTimeoutError))));
    // The S2MM channel gets its own full count of polls.
    let (mut reset, _) = DmaController::new(0);
    assert!(reset.poll(false).is_none());
    for _ in 0..RESET_POLL_ATTEMPTS - 1 {
        assert!(reset.poll(true).is_none());
    }
    assert!(matches!(reset.poll(true), Some(Err(ResetTimeoutError))));
}

#[test]
fn reset_wait_succeeds_once_bit_clears() {
    let mut wait = ResetWait::new();
    assert_eq!(wait.poll(true), None);
    assert_eq!(wait.poll(true), None);
    assert_eq!(wait.poll(false), Some(Ok(())));
}

#[test]
fn reset_wait_times_out_after_poll_attempts() {
    let mut wait = ResetWait::new();
    for _ in 0..RESET_POLL_ATTEMPTS - 1 {
        assert_eq!(wait.poll(true), None);
    }
    assert_eq!(wait.poll(true), Some(Err(ResetTimeoutError)));
}

#[test]
fn writer_and_reader_taken_once() {
    let mut c = controller(0x4040_0000);
    let writer = c.take_simple_writer().unwrap();
    assert_eq!(writer.base_addr(), 0x4040_0000);
    assert!(c.take_simple_writer().is_none());
    let mut wakers = WakerSlots::new(NUM_TX_WAKERS);
    assert!(matches!(c.take_writer_async(0, &mut wakers), Ok(None)));
    // The refused take did not claim the slot.
    assert!(!wakers.is_claimed(0));
    let reader = c.take_simple_reader().unwrap();
    assert_eq!(reader.base_addr(), 0x4040_0030);
    assert!(c.take_reader_interrupt_driven().is_none());
}

#[test]
fn async_writer_claims_waker_slot() {
    let mut wakers = WakerSlots::new(NUM_TX_WAKERS);
    let mut a = controller(0x4040_0000);
    let mut b = controller(0x4050_0000);
    assert!(matches!(
        a.take_writer_async(3, &mut wakers),
        Err(TakeAsyncError::InvalidWakerIndex(InvalidTxWakerIndexError(3)))
    ));
    let writer = a.take_writer_async(0, &mut wakers).unwrap().unwrap();
    assert_eq!(writer.token(), DmaTxToken::steal(0, 0x4040_0000));
    assert_eq!(writer.token().tx_waker_index(), 0);
    assert_eq!(writer.token().base_addr(), 0x4040_0000);
    assert!(matches!(
        b.take_writer_async(0, &mut wakers),
        Err(TakeAsyncError::WakerIndexInUse(TxWakerIndexInUseError(0)))
    ));
    // The failed claim left `b`'s writer available.
    assert!(b.take_simple_writer().is_some());
}

#[test]
fn simple_transfers_poll_idle() {
    let mut c = controller(0);
    let mut writer = c.take_simple_writer().unwrap();
    let (mut transfer, writes) = writer.start_write(Control::zero(), 0x100, 8).unwrap();
    assert_eq!(writes.len(), 3);
    assert!(!transfer.poll(Status::new_with_raw_value(0x0)));
    assert!(transfer.poll(Status::new_with_raw_value(0x2)));
    assert!(matches!(writer.start_write(Control::zero(), 0, 0x400_0000), Err(InvalidBufferLengthError { len: 0x400_0000 })));
    let mut reader = c.take_simple_reader().unwrap();
    let (mut rx, writes) = reader.start_read(Control::zero(), 0x200, 32).unwrap();
    assert_eq!(writes, vec![w(0x00, 0x1), w(0x18, 0x200), w(0x28, 32)]);
    assert_eq!(rx.poll(Status::new_with_raw_value(0x0), TransferLength::new_with_raw_value(5)), None);
    assert_eq!(rx.poll(Status::new_with_raw_value(0x2), TransferLength::new_with_raw_value(5)), Some(5));
}

#[test]
fn async_write_arms_interrupts_then_starts() {
    let mut wakers = WakerSlots::new(1);
    let mut c = controller(0);
    let mut writer: DmaWriterAsync = c.take_writer_async(0, &mut wakers).unwrap().unwrap();
    let mut slots = TxTransferSlots::new(NUM_TX_WAKERS);
    let arm = writer.arm(&mut slots, Control::zero());
    assert_eq!(arm, vec![w(0x00, 0x5000), w(0x04, 0x7000)]);
    assert_eq!(writer.outcome(&slots), None);
    // The transfer starts on the control word read back after arming.
    let writes = writer.write(Control::new_with_raw_value(0x5000), 0x3000, 16).unwrap();
    assert_eq!(writes, vec![w(0x00, 0x5001), w(0x18, 0x3000), w(0x28, 16)]);
    let writes = writer.write(Control::new_with_raw_value(0x1000), 0x3000, 16).unwrap();
    assert_eq!(writes[0], w(0x00, 0x1001));
    assert_eq!(
        writer.write(Control::zero(), 0x3000, 0x400_0000),
        Err(DmaWriteError::InvalidBufferLength(InvalidBufferLengthError { len: 0x400_0000 }))
    );
}

#[test]
fn async_write_result_is_its_own_interrupt() {
    let mut wakers = WakerSlots::new(1);
    let mut c = controller(0);
    let mut writer: DmaWriterAsync = c.take_writer_async(0, &mut wakers).unwrap().unwrap();
    let token = writer.token();
    let mut slots = TxTransferSlots::new(NUM_TX_WAKERS);
    // A first transfer fails.
    writer.arm(&mut slots, Control::zero());
    DmaWriterAsync::on_interrupt(&token, Status::new_with_raw_value((1 << 14) | (1 << 6)), &mut slots);
    assert_eq!(
        writer.outcome(&slots),
        Some(Err(DmaWriteError::Transfer(DmaTransferError { decode: true, slave: false, internal: false })))
    );
    // The next one does not see that error: it is pending until its interrupt, then succeeds.
    writer.arm(&mut slots, Control::zero());
    assert_eq!(writer.outcome(&slots), None);
    DmaWriterAsync::on_interrupt(&token, Status::new_with_raw_value(0x2), &mut slots);
    assert_eq!(writer.outcome(&slots), None);
    DmaWriterAsync::on_interrupt(&token, Status::new_with_raw_value(1 << 12), &mut slots);
    assert_eq!(writer.outcome(&slots), Some(Ok(())));
}

#[test]
fn mm2s_interrupt_error_wakes_and_reports() {
    let status = Status::new_with_raw_value((1 << 14) | (1 << 6) | (1 << 4));
    let service = DmaWriterAsync::on_interrupt(&DmaTxToken::steal(0, 0), status, &mut TxTransferSlots::new(1));
    assert_eq!(service.error_ack, Some(w(0x04, 0x4000)));
    assert_eq!(service.error, Some(DmaTransferError { decode: true, slave: false, internal: true }));
    assert!(service.wake);
    assert_eq!(service.completion_ack, None);
}

#[test]
fn mm2s_interrupt_completion_and_spurious() {
    let service = DmaWriterAsync::on_interrupt(&DmaTxToken::steal(0, 0), Status::new_with_raw_value(1 << 12), &mut TxTransferSlots::new(1));
    assert_eq!(service.error_ack, None);
    assert_eq!(service.error, None);
    assert!(service.wake);
    assert_eq!(service.completion_ack, Some(w(0x04, 0x1000)));
    let service = DmaWriterAsync::on_interrupt(&DmaTxToken::steal(0, 0), Status::new_with_raw_value(0x2), &mut TxTransferSlots::new(1));
    assert_eq!(service.error_ack, None);
    assert!(!service.wake);
    assert_eq!(service.completion_ack, None);
}

#[test]
fn s2mm_interrupt_outcomes() {
    let s = DmaReaderInterruptDriven::on_interrupt(Status::new_with_raw_value((1 << 14) | (1 << 12) | (1 << 5)));
    assert_eq!(s.error_ack, Some(w(0x04, 0x4000)));
    // Only the error is acknowledged when the transfer failed.
    assert_eq!(s.completion_ack, None);
    assert_eq!(s.outcome, Err(DmaReadError::Transfer(DmaTransferError { decode: false, slave: true, internal: false })));
    let s = DmaReaderInterruptDriven::on_interrupt(Status::new_with_raw_value(1 << 12));
    assert_eq!(s.error_ack, None);
    assert_eq!(s.completion_ack, Some(w(0x04, 0x1000)));
    assert_eq!(s.outcome, Ok(true));
    let s = DmaReaderInterruptDriven::on_interrupt(Status::new_with_raw_value(0));
    assert_eq!(s.completion_ack, None);
    assert_eq!(s.outcome, Ok(false));
}

#[test]
fn interrupt_driven_reader_start_and_rearm() {
    let mut c = controller(0x1000);
    let mut reader = c.take_reader_interrupt_driven().unwrap();
    assert_eq!(reader.token(), DmaInterruptRxToken::steal(0x1030));
    assert_eq!(reader.token().base_addr(), 0x1030);
    assert_eq!(reader.arm(Control::zero()), vec![w(0x00, 0x5000), w(0x04, 0x7000)]);
    let (writes, token) = reader.start(Control::new_with_raw_value(0x5000), 0x8000, 128).unwrap();
    assert_eq!(token, DmaInterruptRxToken::steal(0x1030));
    assert_eq!(writes, vec![w(0x00, 0x5001), w(0x18, 0x8000), w(0x28, 128)]);
    assert!(matches!(
        reader.start(Control::zero(), 0x8000, 0x400_0000),
        Err(InvalidBufferLengthError { len: 0x400_0000 })
    ));
    let (writes, received) = DmaReaderInterruptDriven::rearm(0x8000, 100, Some((0x9000, 128)), Control::new_with_raw_value(0x5001));
    assert_eq!(received, Ok((0x8000, 100)));
    assert_eq!(writes, vec![w(0x00, 0x5001), w(0x18, 0x9000), w(0x28, 128)]);
    let (writes, received) = DmaReaderInterruptDriven::rearm(0x8000, 100, None, Control::zero());
    assert!(writes.is_empty());
    assert_eq!(received, Ok((0x8000, 100)));
    let (writes, received) = DmaReaderInterruptDriven::rearm(0x8000, 100, Some((0x9000, 0x400_0000)), Control::zero());
    assert!(writes.is_empty());
    assert_eq!(
        received,
        Err(DmaReadError::Rearm { data_addr: 0x8000, data_len: 100, error: InvalidBufferLengthError { len: 0x400_0000 } })
    );
}

#[test]
fn double_buffer_helper_init_once_and_alternate() {
    let mut helper = DoubleBufferHelper::new();
    assert_eq!(helper.init(0x1000, 16, 0x2000, 32), Err(DoubleBufferInitError::LengthNotEqual(LengthNotEqualError)));
    assert_eq!(helper.init(0x1000, 16, 0x2000, 16), Ok(()));
    assert_eq!(helper.init(0x3000, 16, 0x4000, 16), Err(DoubleBufferInitError::AlreadyInitialized));
    assert_eq!(helper.init(0x3000, 16, 0x4000, 8), Err(DoubleBufferInitError::LengthNotEqual(LengthNotEqualError)));
    assert_eq!(helper.buffer_0(), (0x1000, 16));
    assert_eq!(helper.buffer_1(), (0x2000, 16));
    assert_eq!(helper.other(0x1000), (0x2000, 16));
    assert_eq!(helper.other(0x2000), (0x1000, 16));
}

#[test]
fn descriptor_ring_links_wrap_around() {
    assert_eq!(DESCRIPTOR_SIZE, 0x40);
    let writes = configure_descriptors_cyclic(0x1000, 3);
    assert_eq!(
        writes,
        vec![w(0x00, 0x1040), w(0x04, 0), w(0x40, 0x1080), w(0x44, 0), w(0x80, 0x1000), w(0x84, 0)]
    );
    assert!(configure_descriptors_cyclic(0x1000, 0).is_empty());
    assert_eq!(configure_descriptors_cyclic(0x2000, 1), vec![w(0x00, 0x2000), w(0x04, 0)]);
}

#[test]
fn descriptor_buffer_address_split() {
    assert_eq!(set_buffer_address(0x1234_5678), vec![w(0x08, 0x1234_5678), w(0x0C, 0)]);
    assert_eq!(split_address(0x0000_0001_0000_0010), (0x10, 0x1));
    assert_eq!(split_address(0xFFFF_FFFF_0000_0000), (0, 0xFFFF_FFFF));
}
