//! A verified model of a console input/output adapter.
//!
//! The adapter offers the operations of a classic console: query and move the
//! cursor, write text at a position, read pending key events, switch the code
//! pages to UTF-8, enable virtual-terminal processing, and clear the screen
//! buffer. All of the adapter's decisions are verified here against a
//! mathematical view of the console; performing the operations on a real
//! operating-system console is left to an unverified shell around this crate.

pub mod console;
pub mod input;
pub mod laws;
pub mod screen;
