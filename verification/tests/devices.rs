use emulator::memory::io_memory::access::{LineGetter, LineSender};
use emulator::memory::io_memory::{
    IOMemory, IOMemoryBuilder, IOMemoryBuilderError, IOMemoryError, MEMORY_SIZE,
};
use emulator::memory::mutable::MutableMemory;
use emulator::memory::traits::{ReadableMemory, WritableMemory};
use std::cell::RefCell;

struct ScriptedIo {
    lines: RefCell<Vec<String>>,
    sent: RefCell<Vec<String>>,
}

impl ScriptedIo {
    fn new(lines: &[&str]) -> Self {
        ScriptedIo {
            lines: RefCell::new(lines.iter().map(|s| s.to_string()).collect()),
            sent: RefCell::new(Vec::new()),
        }
    }
}

impl LineGetter<String> for ScriptedIo {
    fn get_line(&self) -> String {
        let mut lines = self.lines.borrow_mut();
        if lines.is_empty() {
            String::new()
        } else {
            lines.remove(0)
        }
    }
}

impl LineSender<String> for ScriptedIo {
    fn send_line(&self, line: &String) {
        self.sent.borrow_mut().push(line.clone());
    }
}

fn memory(lines: &[&str]) -> IOMemory<ScriptedIo> {
    IOMemory::new(MutableMemory::default(), ScriptedIo::new(lines))
}

#[test]
fn plain_words_read_back() {
    let mut m = memory(&[]);
    assert_eq!(m.len(), MEMORY_SIZE);
    assert_eq!(m.write(10, 0xBEEF), Ok(()));
    assert_eq!(m.read(10), Ok(0xBEEF));
    assert_eq!(m.read(11), Ok(0));
    assert_eq!(m.write(0x1000, 1), Err(IOMemoryError::OutOfBounds(0x1000)));
    assert_eq!(m.read(0x2000), Err(IOMemoryError::OutOfBounds(0x2000)));
}

#[test]
fn status_words_are_normalised() {
    let mut m = memory(&[]);
    assert_eq!(m.write(0xFFD, 0b1001), Ok(()));
    assert_eq!(m.receiver_status().into_bits(), 0b1010);
    assert_eq!(m.read(0xFFD), Ok(0b1010));
    assert_eq!(m.write(0xFFD, 0b0111), Ok(()));
    assert_eq!(m.receiver_status().into_bits(), 0);
    assert_eq!(m.write(0xFFF, 0x1238), Ok(()));
    assert_eq!(m.transmitter_status().into_bits(), 0x123A);
}

#[test]
fn transmitter_sends_characters() {
    let mut m = memory(&[]);
    // Off: the write is ignored.
    assert_eq!(m.write(0xFFE, 0x41), Ok(()));
    assert_eq!(m.read(0xFFE), Ok(0));
    assert!(m.line_accessor().sent.borrow().is_empty());
    // On: characters go out one line each.
    assert_eq!(m.write(0xFFF, 0b1000), Ok(()));
    assert_eq!(m.write(0xFFE, 0x1241), Ok(()));
    assert_eq!(m.write(0xFFE, 0x0A), Ok(()));
    assert_eq!(m.read(0xFFE), Ok(0x0A));
    assert_eq!(*m.line_accessor().sent.borrow(), vec!["A".to_string(), "\n".to_string()]);
    assert!(m.transmitter_status().done());
    // A byte that is not a character alone fails; the word is stored.
    assert_eq!(m.write(0xFFE, 0xC8), Err(IOMemoryError::WriteFail));
    assert_eq!(m.read(0xFFE), Ok(0xC8));
    assert_eq!(m.line_accessor().sent.borrow().len(), 2);
}

#[test]
fn receiver_delivers_each_character_to_two_reads() {
    let mut m = memory(&["hi"]);
    // Off: nothing is fetched.
    assert_eq!(m.read(0xFFC), Ok(0));
    assert_eq!(m.line_accessor().lines.borrow().len(), 1);
    assert_eq!(m.write(0xFFD, 0b1000), Ok(()));
    assert_eq!(m.read(0xFFC), Ok(u16::from(b'h')));
    assert!(m.receiver_status().done());
    assert_eq!(m.read(0xFFC), Ok(u16::from(b'h')));
    assert_eq!(m.read(0xFFC), Ok(u16::from(b'i')));
    assert_eq!(m.read(0xFFC), Ok(u16::from(b'i')));
    // The line is used up: the next read asks for another, which is empty.
    assert_eq!(m.read(0xFFC), Ok(u16::from(b'i')));
    assert!(m.line_accessor().lines.borrow().is_empty());
}

#[test]
fn read_fetched_uses_the_given_line() {
    let mut m = memory(&[]);
    assert_eq!(m.write(0xFFD, 0b1000), Ok(()));
    assert_eq!(m.read_fetched(0xFFC, b"xy"), Ok(u16::from(b'x')));
    // Characters are waiting, so the line given now is not used.
    assert_eq!(m.read_fetched(0xFFC, b"zz"), Ok(u16::from(b'x')));
    assert_eq!(m.read_fetched(0xFFC, b"zz"), Ok(u16::from(b'y')));
}

#[test]
fn builder_reports_missing_parts() {
    let b: IOMemoryBuilder<ScriptedIo> = IOMemoryBuilder::new();
    assert_eq!(b.build().err(), Some(IOMemoryBuilderError::UninitializedField("memory")));
    let b: IOMemoryBuilder<ScriptedIo> = IOMemoryBuilder::new().memory(MutableMemory::default());
    assert_eq!(b.build().err(), Some(IOMemoryBuilderError::UninitializedField("line_accessor")));
    let m = IOMemoryBuilder::new()
        .memory(MutableMemory::from_array([3u16; MEMORY_SIZE]))
        .line_accessor(ScriptedIo::new(&[]))
        .build();
    let mut m = m.ok().unwrap();
    assert_eq!(m.read(7), Ok(3));
}

#[test]
fn receiver_delivers_lines_in_order() {
    let mut m = memory(&["ab", "", "c"]);
    assert_eq!(m.write(0xFFD, 0b1000), Ok(()));
    let values: Vec<u8> = (0..8).map(|_| m.read(0xFFC).unwrap() as u8).collect();
    assert_eq!(values, b"aabbbccc".to_vec());
    assert!(m.receiver_status().can_read());
    assert!(m.line_accessor().lines.borrow().is_empty());
}
