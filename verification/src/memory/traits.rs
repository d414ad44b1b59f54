//! Interfaces shared by the memories.
use crate::parse::{parse_binary_u16, parse_unsigned, ParseIntError};
use vstd::prelude::*;
use vstd::string::StringSliceAdditionalSpecFns;

verus! {

/// A memory of cells of type `MemoryType`.
pub trait Memory {
    type MemoryType;
}

/// A memory whose cells can be read; a read may change the memory (a device may react).
pub trait ReadableMemory: Memory {
    type MemoryError;

    fn read(&mut self, index: usize) -> Result<Self::MemoryType, Self::MemoryError>;
}

/// A memory whose cells can be written.
pub trait WritableMemory: Memory {
    type MemoryError;

    fn write(&mut self, index: usize, value: Self::MemoryType) -> Result<(), Self::MemoryError>;
}

/// A value that can be read from a string of binary digits.
pub trait FromBinaryStr: Sized {
    type Error;

    /// The outcome of reading the UTF-8 bytes `bytes`.
    spec fn binary_str_spec(bytes: Seq<u8>) -> Result<Self, Self::Error>;

    fn from_binary_str(s: &str) -> (r: Result<Self, Self::Error>)
        ensures
            r == Self::binary_str_spec(s.spec_bytes()),
    ;
}

/// A value that can be read from lines of binary digits, one cell per line.
pub trait FromBinaryStrLines: Sized {
    type Error;

    fn from_binary_str_lines(lines: &[&str]) -> Result<Self, Self::Error>;
}

/// The outcome of reading `bytes` as a 16-bit word of binary digits.
pub open spec fn binary_u16_spec(bytes: Seq<u8>) -> Result<u16, ParseIntError> {
    match parse_unsigned(bytes, 2, u16::MAX as nat) {
        Ok(v) => Ok(v as u16),
        Err(kind) => Err(ParseIntError { kind }),
    }
}

impl FromBinaryStr for u16 {
    type Error = ParseIntError;

    open spec fn binary_str_spec(bytes: Seq<u8>) -> Result<u16, ParseIntError> {
        binary_u16_spec(bytes)
    }

    fn from_binary_str(s: &str) -> (r: Result<u16, ParseIntError>) {
        match parse_binary_u16(s) {
            Ok(v) => Ok(v),
            Err(e) => Err(e),
        }
    }
}

} // verus!
