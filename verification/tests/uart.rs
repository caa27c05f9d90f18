use axi_hdl::uart16550;
use axi_hdl::uart16550::tx_async::{InvalidWakerIndex, TxAsync, TxContext, TxFuture, TxInterruptAction, TxToken, NUM_WAKERS};
use axi_hdl::uartlite;
use axi_hdl::uart16550::tx_async::on_interrupt_tx;
use axi_hdl::uart_tx::initial_fill_count;

#[test]
fn tx_async_rejects_unknown_waker_slot() {
    assert!(matches!(TxAsync::new(0x4060_0000, NUM_WAKERS), Err(InvalidWakerIndex(1))));
    let tx = TxAsync::new(0x4060_0000, 0).unwrap();
    assert_eq!(tx.token(), TxToken::steal(0x4060_0000, 0));
    assert_eq!(tx.token().base_addr(), 0x4060_0000);
    assert_eq!(tx.token().waker_idx(), 0);
    assert!(tx.token().has_valid_waker());
    assert!(!TxToken::steal(0, 5).has_valid_waker());
    assert_eq!(tx.release(), 0x4060_0000);
}

#[test]
fn tx_transfer_fills_fifo_then_refills_until_done() {
    let mut tx = TxAsync::new(0, 0).unwrap();
    let mut ctx = TxContext::new();
    let (mut fut, fill) = tx.write(&mut ctx, 20);
    assert_eq!(fill, uart16550::FIFO_DEPTH);
    assert_eq!(ctx.progress(), 16);
    // Interrupts not enabled: nothing happens.
    assert_eq!(ctx.on_interrupt(false, true), TxInterruptAction::Ignore);
    assert_eq!(ctx.on_interrupt(true, false), TxInterruptAction::Refill);
    let mut written = 0;
    while ctx.has_pending() {
        ctx.record_byte_written();
        written += 1;
    }
    assert_eq!(written, 4);
    // All bytes written, but the transmitter is still busy.
    assert_eq!(ctx.on_interrupt(true, false), TxInterruptAction::Refill);
    assert!(!ctx.has_pending());
    assert_eq!(ctx.on_interrupt(true, true), TxInterruptAction::Complete);
    assert_eq!(fut.poll(false, &mut ctx), None);
    assert_eq!(fut.poll(true, &mut ctx), Some(20));
    assert!(!ctx.is_active());
    assert_eq!(ctx.on_interrupt(true, true), TxInterruptAction::Ignore);
    fut.on_drop(&mut ctx);
    assert_eq!(ctx.progress(), 20);
}

#[test]
fn short_and_empty_transfers() {
    let mut ctx = TxContext::new();
    let (_fut, fill) = TxFuture::new(&mut ctx, 0, 5).unwrap();
    assert_eq!(fill, 5);
    assert!(!ctx.has_pending());
    assert_eq!(ctx.on_interrupt(true, true), TxInterruptAction::Complete);
    let mut ctx = TxContext::new();
    let (_fut, fill) = TxFuture::new(&mut ctx, 0, 0).unwrap();
    assert_eq!(fill, 0);
    assert_eq!(ctx.on_interrupt(true, false), TxInterruptAction::Complete);
}

#[test]
fn cancelled_transfer_is_abandoned() {
    let mut ctx = TxContext::new();
    let (fut, _) = TxFuture::new(&mut ctx, 0, 40).unwrap();
    assert!(ctx.is_active());
    fut.on_drop(&mut ctx);
    assert!(!ctx.is_active());
    assert_eq!(ctx.progress(), 0);
    assert_eq!(ctx.transfer_len(), 40);
    assert_eq!(ctx.on_interrupt(true, true), TxInterruptAction::Ignore);
}

#[test]
fn uartlite_drop_checks_done_flag() {
    let mut tx = uartlite::tx_async::TxAsync::new(0x4060_0000, 0).unwrap();
    assert!(matches!(uartlite::tx_async::TxAsync::new(0, 3), Err(uartlite::tx_async::InvalidWakerIndex(3))));
    let mut ctx = uartlite::tx_async::TxContext::new();
    let (mut fut, fill) = tx.write(&mut ctx, 3);
    assert_eq!(fill, 3);
    assert_eq!(fut.poll(true, &mut ctx), Some(3));
    fut.on_drop(true, &mut ctx);
    assert_eq!(ctx.progress(), 3);
    let (fut, _) = tx.write(&mut ctx, 30);
    fut.on_drop(false, &mut ctx);
    assert_eq!(ctx.progress(), 0);
    assert!(!ctx.is_active());
    assert_eq!(uartlite::FIFO_DEPTH, 16);
}

#[test]
fn interrupt_handler_decisions() {
    let token = TxToken::steal(0x4060_0000, 0);
    let bad = TxToken::steal(0x4060_0000, 4);
    let mut ctx = TxContext::new();
    // No transfer active.
    assert_eq!(on_interrupt_tx(&token, &ctx, true, true), TxInterruptAction::Ignore);
    let (_fut, _) = TxFuture::new(&mut ctx, 0, 17).unwrap();
    assert_eq!(on_interrupt_tx(&bad, &ctx, true, true), TxInterruptAction::Ignore);
    assert_eq!(on_interrupt_tx(&token, &ctx, false, true), TxInterruptAction::Ignore);
    assert_eq!(on_interrupt_tx(&token, &ctx, true, true), TxInterruptAction::Refill);
    ctx.record_byte_written();
    assert_eq!(on_interrupt_tx(&token, &ctx, true, true), TxInterruptAction::Complete);
    let lite = uartlite::tx_async::TxToken::steal(0, 0);
    assert_eq!(uartlite::tx_async::on_interrupt_tx(&lite, &ctx, true, false), TxInterruptAction::Refill);
}

#[test]
fn initial_fill_is_bounded_by_fifo_depth() {
    assert_eq!(initial_fill_count(0, 16), 0);
    assert_eq!(initial_fill_count(15, 16), 15);
    assert_eq!(initial_fill_count(16, 16), 16);
    assert_eq!(initial_fill_count(1000, 16), 16);
}
