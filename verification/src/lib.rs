//! AArch64 platform bring-up layer.
//!
//! The crate covers the logic of an AArch64 kernel platform: boot-time
//! relocation and boot page-table construction, the boot sequencing state
//! machines for primary and secondary CPUs, a GICv3-style interrupt
//! dispatcher with its fixed-capacity handler table, and the console and
//! input-device state machines (UART byte stream, PS/2 scancode decoding,
//! framebuffer text console with ANSI escape handling).
//!
//! Hardware registers are modelled as plain data: the framebuffer is a
//! vector of pixels, an acknowledged interrupt arrives as an argument, and
//! the non-portable instruction sequences live outside the library behind
//! the actions that these state machines hand back.

pub mod boot;
pub mod driver_input;
pub mod gicv3;
pub mod pl011;
pub mod ps2_keyboard;
pub mod simplefb;
pub mod vga;
