//! Control codes for ESC/POS receipt printers, and the rules of two chat
//! bots that print with them.
//!
//! The printer's side: [`cmds`] holds the commands and their encoding,
//! [`print_mode`] the flags of the print mode, [`format`] text with
//! attributes and the bytes that print it, [`printer`] whole print jobs.
//!
//! The bots' side: [`message`] is what a bot reads of a chat message,
//! [`settings`] the roles and users, [`storage`] the records of the shopping
//! list, [`printer_bot`] and [`shopping_bot`] the rules of the two bots, and
//! [`text`] the operations on text that they share.
//!
//! Nothing here reads or writes anything: every function takes plain values
//! and returns plain values, and the caller does the sending.

pub mod chars;
pub mod cmds;
pub mod format;
pub mod message;
pub mod print_mode;
pub mod printer;
pub mod printer_bot;
pub mod settings;
pub mod shopping_bot;
pub mod storage;
pub mod text;

pub use cmds::{
    CharCodeTable, CutMode, EncodeError, EscPosCmd, Font, Justification, PaperSensorMode,
    PrintMode, UnderlineMode,
};
pub use format::{FmtStr, FormattedStr};
