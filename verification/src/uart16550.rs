//! # Driver logic for the AXI UART 16550 IP core
pub mod tx_async;

use vstd::prelude::*;

verus! {

/// Depth of the transmit FIFO in bytes.
pub const FIFO_DEPTH: usize = 16;

} // verus!
