# axi_hdl

Drivers for a family of FPGA IP cores: the AMD AXI GPIO, AXI DMA, AXI UART 16550 and AXI
UARTLite cores and the ADI AXI AD9361 transceiver core.

The register logic is a Verus library (`src/`): register field layouts, register maps, the
driver state (which handles were handed out, which waker slots are claimed, how far a UART
transfer has progressed, how long a channel reset is waited for) and the decisions of the
interrupt handlers, each with a contract that Verus proves. The library does not access
hardware: an operation takes the register words it reads as arguments and returns the register
writes it makes as `mmio::RegWrite` values, in order.

`app/` is the hardware-facing shell: volatile register reads and writes, the global waker tables
shared between interrupt handlers and async tasks, the futures, the in-memory scatter-gather
descriptors, the error types with their `Display` texts, and the `embedded-hal`/`embedded-io`
trait implementations.

Layout of `src/`:

- `bits`: bit and bit-field arithmetic on register words, with the laws of writing and reading
  a field.
- `mmio`: the `RegWrite` value.
- `wakers`: the table of waker slots; a slot is claimed at most once and never released.
- `gpio`, `gpio::asynch`, `gpio::regs`: AXI GPIO pins, channel interrupts and event sources.
- `dma`, `dma::regs`: AXI DMA controller, simple and interrupt-driven readers and writers,
  double buffering, the descriptor ring of scatter-gather mode.
- `ad9361`, `ad9361::adc`, `ad9361::dac`, `ad9361::regs`: AXI AD9361 ADC and DAC bring-up.
- `uart_tx`, `uart16550::tx_async`, `uartlite::tx_async`: interrupt-driven UART transmission.
