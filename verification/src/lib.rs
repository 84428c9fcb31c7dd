//! Verified core logic of the MnemOS hardware platforms: DMA descriptor
//! encoding, RISC-V trap decoding, interrupt-controller bookkeeping, GPIO pin
//! ownership, the TWI (I²C) and SMHC (SD/MMC) interrupt state machines, frame
//! buffer rendering for the Sharp memory display and the simulators, colour
//! conversion for the `i2c_puppet` LED, and the platform configuration
//! defaults.
use vstd::prelude::*;

pub mod bitfield;
pub mod ccu;
pub mod config;
pub mod dmac;
pub mod gpio;
pub mod gpio_service;
pub mod i2c_puppet;
pub mod idle;
pub mod keyboard;
pub mod lichee_display;
pub mod net_friends;
pub mod plic;
pub mod trap;
pub mod sharp_display;
pub mod sim_display;
pub mod smhc;
pub mod spi_sender;
pub mod tcp_serial;
pub mod time;
pub mod timer;
pub mod twi;
pub mod uart;
pub mod wifi;
