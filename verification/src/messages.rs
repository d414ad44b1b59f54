//! Messages between the emulator and the program that drives it.
use crate::machine::microcode::MicroInstruction;
use crate::registers::{RegisterSize, Registers};
use vstd::prelude::*;

verus! {

/// A line of output.
#[derive(Debug, PartialEq, Eq, Clone)]
pub enum Line {
    String(String),
    Bytes(Vec<u8>),
}

/// A request to the emulator.
#[derive(Debug)]
pub enum Command {
    /// An input line for the receiver.
    Line(String),
    ViewMemory(Vec<usize>),
    ViewRegisters,
    ViewMicrocode,
    /// Run for `count` clock phases (at least one).
    Tick { count: usize },
    Quit,
    Continue,
    ViewCycles,
}

/// A report from the emulator, with memory words of type `T`.
#[derive(Debug, PartialEq, Eq, Clone)]
pub enum Event<T> {
    Memory(Vec<(usize, T)>),
    Continue,
    Write(Line),
    Registers(Registers),
    Cycles(usize),
    Microcode(Vec<MicroInstruction>),
    Halted,
    Finished,
    AwaitingLine,
    AwaitingCommand,
    AwaitingMemoryLocation,
    DoneProcessing,
    DoneInit {
        sp: RegisterSize,
        pc: RegisterSize,
        read_micro_instructions: usize,
        read_machine_instructions: usize,
    },
}

} // verus!
