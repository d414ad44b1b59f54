//! A verified emulator for the Mic-1 microprogrammed machine.
pub mod io;
pub mod machine;
pub mod memory;
pub mod menu;
pub mod messages;
pub mod parse;
pub mod registers;
pub mod text;
