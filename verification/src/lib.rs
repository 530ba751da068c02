//! Driver logic for two on-chip communication peripherals of a small
//! single-core microcontroller: a buffered, interrupt-driven UART and a
//! 32-mailbox CAN controller.
//!
//! The hardware register blocks are modelled as plain data owned by each
//! driver value ([`uart::SciRegs`], [`can::CanRegs`]): every register the
//! driver logic reads or writes is a field, and the transmit-data register
//! additionally records the sequence of bytes written to it, so that the
//! driver's externally visible behaviour is stated exactly in its contracts.
//! Foreground code and interrupt handlers are methods on the same driver
//! value; exclusive `&mut` access stands for the critical sections under
//! which the shared state is touched on the device.
//! The thin layer that mirrors these fields onto the memory-mapped
//! registers of a real part lives outside this library.

pub mod can;
pub mod clk;
pub mod codec;
pub mod interrupts;
pub mod ring;
pub mod uart;
