//! Driver core for 74hc595 (compatible) serial-in/parallel-out shift registers.
//!
//! The shift register hangs off an SPI bus (mode 0: clock idle low, data
//! sampled on the rising edge) plus three discrete control lines: output
//! enable (active low), clear (active low) and latch (active high). Because
//! the device has no chip-select line, the bus must be dedicated to it.
//!
//! Every operation of the device is a short, fixed sequence of hardware
//! interactions: drive a line, wait a microsecond, move bytes over the bus.
//! This crate states those sequences as [`command::Command`] plans and proves
//! their shape; an executing layer that owns real pin, bus and delay handles
//! performs the commands one by one and reports each outcome back through a
//! [`session::Session`], which passes the first fault through verbatim.

pub mod command;
pub mod driver;
pub mod session;
