use emulator::machine::clock::Subtick;
use emulator::machine::emulator::{
    Machine, MachineBuilder, MachineBuilderError, MachineState, MICROCODE_LENGTH,
};
use emulator::machine::microcode::{Jump, MicroInstruction, Operation, Shift};
use emulator::memory::immutable::ImmutableMemory;
use emulator::memory::io_memory::access::{LineGetter, LineSender};
use emulator::memory::io_memory::IOMemory;
use emulator::memory::mutable::MutableMemory;
use emulator::registers::Registers;
use std::cell::RefCell;

struct Io {
    sent: RefCell<Vec<String>>,
}

impl LineGetter<String> for Io {
    fn get_line(&self) -> String {
        "k".to_string()
    }
}

impl LineSender<String> for Io {
    fn send_line(&self, line: &String) {
        self.sent.borrow_mut().push(line.clone());
    }
}

#[allow(clippy::too_many_arguments)]
fn word(
    amux: u32,
    cond: u32,
    alu: u32,
    sh: u32,
    mbr: u32,
    mar: u32,
    rd: u32,
    wr: u32,
    enc: u32,
    c: u32,
    b: u32,
    a: u32,
    addr: u32,
) -> u32 {
    (amux << 31)
        | (cond << 29)
        | (alu << 27)
        | (sh << 25)
        | (mbr << 24)
        | (mar << 23)
        | (rd << 22)
        | (wr << 21)
        | (enc << 20)
        | (c << 16)
        | (b << 12)
        | (a << 8)
        | addr
}

const HALT: u32 = 0x0060_0000;

fn machine(program: &[u32], memory: &[(usize, u16)], registers: Registers) -> Machine<Io> {
    let mut words: Vec<MicroInstruction> =
        program.iter().map(|w| MicroInstruction::from_bits(*w)).collect();
    words.resize(MICROCODE_LENGTH, MicroInstruction::from_bits(HALT));
    let code: ImmutableMemory<MicroInstruction, MICROCODE_LENGTH> =
        ImmutableMemory::from_vec(words);
    let mut cells = [0u16; 0x1000];
    for (addr, value) in memory {
        cells[*addr] = *value;
    }
    let io = IOMemory::new(MutableMemory::from_array(cells), Io { sent: RefCell::new(vec![]) });
    Machine::new(io, code, registers)
}

fn run_until_halt(m: &mut Machine<Io>, limit: usize) -> usize {
    for pulses in 0..limit {
        assert!(!m.pulse_would_fault());
        if m.pulse() == MachineState::Halted {
            return pulses + 1;
        }
    }
    panic!("no halt within {limit} pulses");
}

#[test]
fn increment_accumulator_then_halt() {
    // AC := AC + 1; jump to 1, which halts.
    let inc = word(0, 3, 0, 0, 0, 0, 0, 0, 1, 1, 6, 1, 1);
    let mut m = machine(&[inc, HALT], &[], Registers::default());
    assert_eq!(m.current_micro_instruction().into_bits(), inc);
    assert_eq!(run_until_halt(&mut m, 10), 5);
    assert_eq!(m.registers().ac(), 1);
    assert_eq!(m.clock().tick(), 2);
    assert_eq!(m.clock().subtick(), Subtick::Load);
    assert!(m.is_halted());
    assert_eq!(m.micro_pc(), 1);
    // Halted stays halted.
    assert_eq!(m.pulse(), MachineState::Halted);
    assert_eq!(m.clock().tick(), 2);
}

#[test]
fn continue_restarts_the_microprogram() {
    let inc = word(0, 3, 0, 0, 0, 0, 0, 0, 1, 1, 6, 1, 1);
    let mut m = machine(&[inc, HALT], &[], Registers::default().with_pc(4));
    run_until_halt(&mut m, 10);
    m.resume();
    assert!(!m.is_halted());
    assert_eq!(m.micro_pc(), 0);
    assert_eq!(m.clock().tick(), 3);
    assert_eq!(m.registers().pc(), 5);
    run_until_halt(&mut m, 10);
    assert_eq!(m.registers().ac(), 2);
}

#[test]
fn memory_read_through_mar_and_mbr() {
    // 0: MAR := PC.   1: read (MBR := memory[MAR]).   2: AC := MBR.   3: halt.
    let set_mar = word(0, 0, 0, 0, 0, 1, 0, 0, 0, 0, 0, 0, 0);
    let read = word(0, 0, 0, 0, 0, 0, 1, 0, 0, 0, 0, 0, 0);
    let to_ac = word(1, 0, 2, 0, 0, 0, 0, 0, 1, 1, 0, 0, 0);
    let mut m = machine(&[set_mar, read, to_ac, HALT], &[(7, 0x1234)], Registers::default().with_pc(7));
    run_until_halt(&mut m, 40);
    assert_eq!(m.mar(), 7);
    assert_eq!(m.mbr(), 0x1234);
    assert_eq!(m.registers().ac(), 0x1234);
    assert_eq!(m.clock().tick(), 4);
}

#[test]
fn memory_write_and_transmit() {
    // 0: MAR := SP (0xFFF).  1: MBR := AMASK + 0... write status word 0x0FFF? Use A := 8.
    // Registers: A = 8 (switches the transmitter on), B = 'Z', SP = 0xFFF, TIR = 0xFFE.
    let regs = Registers::default().with_a(8).with_b(u16::from(b'Z')).with_sp(0xFFF).with_tir(0xFFE);
    // MAR := SP; MBR := A.
    let w0 = word(0, 0, 2, 0, 1, 1, 0, 0, 0, 0, 2, 10, 0);
    // write.
    let w1 = word(0, 0, 0, 0, 0, 0, 0, 1, 0, 0, 0, 0, 0);
    // MAR := TIR; MBR := B.
    let w2 = word(0, 0, 2, 0, 1, 1, 0, 0, 0, 0, 4, 11, 0);
    // write.
    let w3 = word(0, 0, 0, 0, 0, 0, 0, 1, 0, 0, 0, 0, 0);
    let mut m = machine(&[w0, w1, w2, w3, HALT], &[], regs);
    run_until_halt(&mut m, 40);
    assert_eq!(*m.memory().line_accessor().sent.borrow(), vec!["Z".to_string()]);
    assert_eq!(m.memory().transmitter_status().into_bits(), 0b1010);
}

#[test]
fn write_of_non_character_is_flagged() {
    let regs = Registers::default().with_a(8).with_b(0xC8).with_sp(0xFFF).with_tir(0xFFE);
    let w0 = word(0, 0, 2, 0, 1, 1, 0, 0, 0, 0, 2, 10, 0);
    let w1 = word(0, 0, 0, 0, 0, 0, 0, 1, 0, 0, 0, 0, 0);
    let w2 = word(0, 0, 2, 0, 1, 1, 0, 0, 0, 0, 4, 11, 0);
    let w3 = word(0, 0, 0, 0, 0, 0, 0, 1, 0, 0, 0, 0, 0);
    let mut m = machine(&[w0, w1, w2, w3, HALT], &[], regs);
    let mut faulted = false;
    for _ in 0..40 {
        if m.pulse_would_fault() {
            faulted = true;
            break;
        }
        if m.pulse() == MachineState::Halted {
            break;
        }
    }
    assert!(faulted);
    assert_eq!(m.micro_pc(), 3);
}

#[test]
fn alu_and_shifter() {
    assert_eq!(Machine::<Io>::alu(0xFFFF, 2, Operation::Add), 1);
    assert_eq!(Machine::<Io>::alu(0b1100, 0b1010, Operation::And), 0b1000);
    assert_eq!(Machine::<Io>::alu(5, 9, Operation::Assign), 5);
    assert_eq!(Machine::<Io>::alu(0x00F0, 0, Operation::Invert), 0xFF0F);
    assert_eq!(Machine::<Io>::shift(0x8001, Shift::Left), 0x0002);
    assert_eq!(Machine::<Io>::shift(0x8001, Shift::Right), 0x4000);
    assert_eq!(Machine::<Io>::shift(0x8001, Shift::NoShift), 0x8001);
}

#[test]
fn conditional_jumps() {
    // 0: AC := -1 (jump to 5 when negative).  5: halt.  1: halt too.
    let neg = word(0, 1, 2, 0, 0, 0, 0, 0, 1, 1, 0, 7, 5);
    let mut m = machine(&[neg, HALT, 0, 0, 0, HALT], &[], Registers::default());
    run_until_halt(&mut m, 10);
    assert_eq!(m.micro_pc(), 5);
    assert_eq!(m.registers().ac(), 0xFFFF);
    // 0: AC := 1 (jump to 5 when zero): not taken.
    let one = word(0, 2, 2, 0, 0, 0, 0, 0, 1, 1, 0, 6, 5);
    let mut m = machine(&[one, HALT], &[], Registers::default());
    run_until_halt(&mut m, 10);
    assert_eq!(m.micro_pc(), 1);
}

#[test]
fn get_memory_skips_out_of_range() {
    let mut m = machine(&[HALT], &[(1, 11), (0xFFF, 9)], Registers::default());
    assert_eq!(m.get_memory(&[1, 0x1000, 0xFFF, 2]), vec![(1, 11), (0xFFF, 9), (2, 0)]);
    assert_eq!(m.current_instruction(), 0);
    assert_eq!(m.microcode().len(), MICROCODE_LENGTH);
}

#[test]
fn machine_builder_reports_missing_parts() {
    let b: MachineBuilder<Io> = MachineBuilder::new();
    assert!(matches!(b.build(), Err(MachineBuilderError::UninitializedField("memory"))));
    let b: MachineBuilder<Io> = MachineBuilder::new();
    assert_eq!(b.default_mir(), Err("Missing Microcode".to_string()));
    let io = IOMemory::new(MutableMemory::default(), Io { sent: RefCell::new(vec![]) });
    let b = MachineBuilder::new().memory(io);
    assert!(matches!(b.build(), Err(MachineBuilderError::UninitializedField("micro_code"))));
    let io = IOMemory::new(MutableMemory::default(), Io { sent: RefCell::new(vec![]) });
    let code: ImmutableMemory<MicroInstruction, MICROCODE_LENGTH> =
        ImmutableMemory::from_vec(vec![MicroInstruction::from_bits(5)]);
    let b = MachineBuilder::new().memory(io).micro_code(code);
    assert_eq!(b.default_mir().unwrap().into_bits(), 5);
    assert!(matches!(b.build(), Err(MachineBuilderError::UninitializedField("registers"))));
}

#[test]
fn registers_change_only_in_store_phase() {
    let inc = word(0, 3, 0, 0, 0, 0, 0, 0, 1, 1, 6, 1, 1);
    let mut m = machine(&[inc, HALT], &[], Registers::default());
    for phase in [Subtick::Load, Subtick::Gate, Subtick::Operation] {
        assert_eq!(m.clock().subtick(), phase);
        assert_eq!(m.pulse(), MachineState::Running);
        assert_eq!(m.registers().ac(), 0);
    }
    assert_eq!(m.clock().subtick(), Subtick::Store);
    assert_eq!(m.pulse(), MachineState::Running);
    assert_eq!(m.registers().ac(), 1);
}

#[test]
fn next_micro_instruction_under_any_condition() {
    // 0: jump always to 255.  255: jump always to 0x40.
    let to_top = word(0, 3, 0, 0, 0, 0, 0, 0, 0, 0, 0, 0, 255);
    let mut program = vec![to_top];
    program.resize(256, HALT);
    program[255] = word(0, 3, 0, 0, 0, 0, 0, 0, 0, 0, 0, 0, 0x40);
    let mut m = machine(&program, &[], Registers::default());
    assert_eq!(m.next_micro_instruction(0, Jump::Always), 255);
    assert_eq!(m.next_micro_instruction(0, Jump::NoJump), 1);
    for _ in 0..5 {
        m.pulse();
    }
    assert_eq!(m.micro_pc(), 255);
    assert_eq!(m.current_micro_instruction().addr(), 0x40);
    assert_eq!(m.next_micro_instruction(0, Jump::NoJump), 0);
    assert_eq!(m.next_micro_instruction(0x8000, Jump::Negative), 0x40);
    assert_eq!(m.next_micro_instruction(0x7FFF, Jump::Negative), 0);
    assert_eq!(m.next_micro_instruction(0, Jump::Zero), 0x40);
    assert_eq!(m.next_micro_instruction(1, Jump::Zero), 0);
}
