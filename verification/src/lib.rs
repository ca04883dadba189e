//! The instruction cycle of an eight-bit virtual machine with sixteen
//! registers, four kilobytes of memory, a monochrome display and a keypad of
//! sixteen keys: words are decoded into instructions, and instructions are
//! carried out on the machine's state.
//!
//! The display and the keyboard are not part of the machine. The machine is
//! told which key is held, and says what it asks of the display.

pub mod emulator;
pub mod instruction;
pub mod machine;
