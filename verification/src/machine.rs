//! The Mic-1 data path: its clock, its microinstructions and the machine itself.
pub mod clock;
pub mod emulator;
pub mod microcode;
