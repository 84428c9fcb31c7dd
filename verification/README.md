# mnemos-platforms

The platform support of the MnemOS operating system — the Allwinner D1
boards (MangoPi MQ Pro, Lichee RV, Beepy), the ESP32-C3, and the desktop
and browser simulators — with its logic written in Verus and proved
against its contracts.

- `src/` is the verified library: DMA descriptor encoding (`dmac`), RISC-V
  trap decoding (`trap`), the interrupt controller's bookkeeping (`plic`),
  GPIO pin ownership (`gpio`, `gpio_service`), the TWI and SMHC interrupt
  state machines (`twi`, `smhc`), the Sharp memory display's frame buffer
  and wire format (`sharp_display`, `lichee_display`), the simulators'
  frame buffer and key events (`sim_display`, `keyboard`), the
  `i2c_puppet` keyboard (`i2c_puppet`), the SPI and UART senders
  (`spi_sender`, `uart`), COBS framing (`net_friends`), the run loops' idle
  decisions (`idle`), and the platform configuration (`config`).
- `tests/` runs the library on concrete values.
- `app/` holds what stays outside the proofs: register access through the
  D1 peripheral access crate, the `mcause` CSR, raw memory regions, and the
  serde forms of the configuration.
