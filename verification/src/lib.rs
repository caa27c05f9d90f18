//! Verified register-level logic for a family of AMD/Xilinx and ADI AXI FPGA IP core drivers.
pub mod ad9361;
pub mod bits;
pub mod dma;
pub mod gpio;
pub mod mmio;
pub mod uart16550;
pub mod uart_tx;
pub mod uartlite;
pub mod wakers;

use vstd::prelude::*;

verus! {

} // verus!
