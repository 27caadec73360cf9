//! The control bytes that introduce a printer command, and the ASCII digits
//! that some commands take as their parameter.

use vstd::prelude::*;

verus! {

/// Escape: introduces most commands.
pub const ESC: u8 = 0x1b;

/// Line feed: prints the line buffer and advances one line.
pub const LF: u8 = 0x0a;

/// Group separator: introduces the extended commands.
pub const GS: u8 = 0x1d;

/// `@`, the second byte of the command that resets the printer.
pub const INITIALIZE_PRINTER: u8 = 0x40;

/// The ASCII digit `0`.
pub const DIGIT_0: u8 = 0x30;

/// The ASCII digit `1`.
pub const DIGIT_1: u8 = 0x31;

/// The ASCII digit `2`.
pub const DIGIT_2: u8 = 0x32;

} // verus!
