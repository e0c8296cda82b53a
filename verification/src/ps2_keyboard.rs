//! PS/2 keyboard driver logic.
//!
//! The memory-mapped status and data ports are read outside the library;
//! every decision the driver takes is a function of the bytes those reads
//! returned, and those functions live here.

use vstd::prelude::*;

use crate::driver_input::InputEvent;

verus! {

/// Status-register bit that signals a byte waiting in the output buffer.
pub const STATUS_OUTPUT_FULL: u8 = 0x01;

/// Controller command that enables scanning.
pub const ENABLE_SCANNING: u8 = 0xF4;

/// Controller response that acknowledges a command.
pub const ACK: u8 = 0xFA;

/// Whether a status read says the device is absent or not mapped: the
/// bus returns all ones and bring-up must stop.
pub fn device_absent(status: u8) -> (r: bool)
    ensures
        r == (status == 0xFF),
{
    status == 0xFF
}

/// Whether a controller response acknowledges the last command.
pub fn is_ack(data: u8) -> (r: bool)
    ensures
        r == (data == ACK),
{
    data == ACK
}

/// PS/2 keyboard device, identified by the base virtual address of its
/// mapped register window.
pub struct Ps2Keyboard {
    base_vaddr: usize,
}

/// Scancode set 1 make-code to ASCII, for the keys the console accepts.
pub open spec fn spec_scancode_to_ascii(scancode: u8) -> Option<u8> {
    match scancode {
        0x1E => Some(0x61), 0x30 => Some(0x62), 0x2E => Some(0x63), 0x20 => Some(0x64),
        0x12 => Some(0x65), 0x21 => Some(0x66), 0x22 => Some(0x67), 0x23 => Some(0x68),
        0x17 => Some(0x69), 0x24 => Some(0x6A), 0x25 => Some(0x6B), 0x26 => Some(0x6C),
        0x32 => Some(0x6D), 0x31 => Some(0x6E), 0x18 => Some(0x6F), 0x19 => Some(0x70),
        0x10 => Some(0x71), 0x13 => Some(0x72), 0x1F => Some(0x73), 0x14 => Some(0x74),
        0x16 => Some(0x75), 0x2F => Some(0x76), 0x11 => Some(0x77), 0x2D => Some(0x78),
        0x15 => Some(0x79), 0x2C => Some(0x7A),
        0x02 => Some(0x31), 0x03 => Some(0x32), 0x04 => Some(0x33), 0x05 => Some(0x34),
        0x06 => Some(0x35), 0x07 => Some(0x36), 0x08 => Some(0x37), 0x09 => Some(0x38),
        0x0A => Some(0x39), 0x0B => Some(0x30),
        0x1C => Some(0x0D),
        0x39 => Some(0x20),
        0x0E => Some(0x08),
        _ => None,
    }
}

/// Maps a scancode set 1 make code to the ASCII byte it produces, or
/// `None` for codes the console does not accept (including break codes).
pub fn ps2_scancode_to_ascii(scancode: u8) -> (r: Option<u8>)
    ensures
        r == spec_scancode_to_ascii(scancode),
{
    match scancode {
        0x1E => Some(0x61), 0x30 => Some(0x62), 0x2E => Some(0x63), 0x20 => Some(0x64),
        0x12 => Some(0x65), 0x21 => Some(0x66), 0x22 => Some(0x67), 0x23 => Some(0x68),
        0x17 => Some(0x69), 0x24 => Some(0x6A), 0x25 => Some(0x6B), 0x26 => Some(0x6C),
        0x32 => Some(0x6D), 0x31 => Some(0x6E), 0x18 => Some(0x6F), 0x19 => Some(0x70),
        0x10 => Some(0x71), 0x13 => Some(0x72), 0x1F => Some(0x73), 0x14 => Some(0x74),
        0x16 => Some(0x75), 0x2F => Some(0x76), 0x11 => Some(0x77), 0x2D => Some(0x78),
        0x15 => Some(0x79), 0x2C => Some(0x7A),
        0x02 => Some(0x31), 0x03 => Some(0x32), 0x04 => Some(0x33), 0x05 => Some(0x34),
        0x06 => Some(0x35), 0x07 => Some(0x36), 0x08 => Some(0x37), 0x09 => Some(0x38),
        0x0A => Some(0x39), 0x0B => Some(0x30),
        0x1C => Some(0x0D),
        0x39 => Some(0x20),
        0x0E => Some(0x08),
        _ => None,
    }
}

impl Ps2Keyboard {
    /// Base virtual address the device was created with.
    pub closed spec fn spec_base_vaddr(&self) -> usize {
        self.base_vaddr
    }

    /// Creates a driver for the device mapped at `base_vaddr`.
    pub fn new(base_vaddr: usize) -> (kbd: Self)
        ensures
            kbd.spec_base_vaddr() == base_vaddr,
    {
        Self { base_vaddr }
    }

    /// Whether a status-register value signals pending input.
    pub fn pending_input_from(&self, status: u8) -> (r: bool)
        ensures
            r == ((status & STATUS_OUTPUT_FULL) != 0),
    {
        (status & STATUS_OUTPUT_FULL) != 0
    }

    /// The event produced by one poll of the device, given the bytes the
    /// status and data ports returned: a key press for an accepted make
    /// code once the output buffer reports a byte, nothing otherwise.
    pub fn read_event_from(&self, status: u8, data: u8) -> (r: Option<InputEvent>)
        ensures
            r == (if (status & STATUS_OUTPUT_FULL) != 0 {
                match spec_scancode_to_ascii(data) {
                    Some(ascii) => Some(InputEvent::KeyPress(ascii)),
                    None => None::<InputEvent>,
                }
            } else {
                None::<InputEvent>
            }),
    {
        if self.pending_input_from(status) {
            let scancode = data;
            if let Some(ascii) = ps2_scancode_to_ascii(scancode) {
                return Some(InputEvent::KeyPress(ascii));
            }
        }
        None
    }
}

} // verus!
