use emulator::machine::microcode::MicroInstruction;
use emulator::memory::immutable::{ImmutableMemory, ImmutableMemoryFromBinaryStrLinesError};
use emulator::memory::mutable::MutableMemory;
use emulator::memory::traits::{FromBinaryStrLines, ReadableMemory, WritableMemory};
use emulator::parse::IntErrorKind;

#[test]
fn mutable_memory_read_after_write() {
    let mut m: MutableMemory<u16, 4> = MutableMemory::default();
    assert_eq!(m.len(), 4);
    assert_eq!(m.read(2), Ok(0));
    assert_eq!(m.write(2, 9), Ok(()));
    assert_eq!(m.read(2), Ok(9));
    assert_eq!(m.read(1), Ok(0));
    assert_eq!(m.write(4, 1), Err(()));
    assert_eq!(m.read(4), Err(()));
}

#[test]
fn mutable_memory_from_vec_needs_exact_size() {
    let m: Result<MutableMemory<u16, 3>, Vec<u16>> = MutableMemory::try_from_vec(vec![1, 2, 3]);
    assert_eq!(m.unwrap().get(2), Ok(3));
    let m: Result<MutableMemory<u16, 3>, Vec<u16>> = MutableMemory::try_from_vec(vec![1, 2]);
    assert_eq!(m.unwrap_err(), vec![1, 2]);
    let m: MutableMemory<u16, 2> = MutableMemory::from_array([5, 6]);
    assert_eq!(m.get(1), Ok(6));
    let copy = m.clone();
    assert_eq!(copy, m);
}

#[test]
fn mutable_memory_from_lines() {
    let m: MutableMemory<u16, 4> =
        MutableMemory::from_binary_str_lines(&["1", "10", "11"]).unwrap();
    assert_eq!(m.get(0), Ok(1));
    assert_eq!(m.get(1), Ok(2));
    assert_eq!(m.get(2), Ok(3));
    assert_eq!(m.get(3), Ok(0));
    // Lines past the size are not read, so they cannot fail.
    let m: MutableMemory<u16, 2> =
        MutableMemory::from_binary_str_lines(&["1", "1", "not binary"]).unwrap();
    assert_eq!(m.get(1), Ok(1));
    let e = MutableMemory::<u16, 4>::from_binary_str_lines(&["1", "x", "2"]).unwrap_err();
    assert_eq!(e.kind(), IntErrorKind::InvalidDigit);
}

#[test]
fn immutable_memory_pads_and_truncates() {
    let m: ImmutableMemory<u16, 3> = ImmutableMemory::from_vec(vec![7]);
    assert_eq!(m.to_vec(), vec![7, 0, 0]);
    let m: ImmutableMemory<u16, 2> = ImmutableMemory::from_vec(vec![1, 2, 3]);
    assert_eq!(m.into_vec(), vec![1, 2]);
    let mut m: ImmutableMemory<u16, 2> = ImmutableMemory::from_array([4, 5]);
    assert_eq!(m.read(1), Ok(5));
    assert_eq!(m.read(2), Err(()));
    assert_eq!(m.immutable_read(0), Some(&4));
    assert_eq!(m.immutable_read(2), None);
    let d: ImmutableMemory<u16, 2> = ImmutableMemory::default();
    assert_eq!(d.to_vec(), vec![0, 0]);
    assert!(ImmutableMemory::<u16, 2>::try_from_vec(vec![1]).is_err());
}

#[test]
fn immutable_memory_from_lines_reports_line() {
    let m: ImmutableMemory<MicroInstruction, 4> =
        ImmutableMemory::from_binary_str_lines(&["1", "11"]).unwrap();
    assert_eq!(m.immutable_read(1).unwrap().into_bits(), 3);
    assert_eq!(m.immutable_read(2).unwrap().into_bits(), 0x0060_0000);
    let e = ImmutableMemory::<MicroInstruction, 4>::from_binary_str_lines(&["1", "1", "12", "x"])
        .unwrap_err();
    assert_eq!(
        e,
        ImmutableMemoryFromBinaryStrLinesError::ParseError { line: 3, content: "12".to_string() }
    );
    // Every line is read, also past the size.
    let e = ImmutableMemory::<MicroInstruction, 1>::from_binary_str_lines(&["1", "z"]).unwrap_err();
    assert_eq!(
        e,
        ImmutableMemoryFromBinaryStrLinesError::ParseError { line: 2, content: "z".to_string() }
    );
}
