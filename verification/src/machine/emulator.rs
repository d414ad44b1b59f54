//! The Mic-1 data path, stepped one clock phase at a time.
use crate::machine::clock::{can_pulse, pulsed, Clock, ClockView, Subtick};
use crate::machine::microcode::{
    bit_field, field, jump_of, operation_of, shift_of, Jump, MicroInstruction, Operation, Shift,
    ALU_SHIFT, AMUX_SHIFT, A_SHIFT, B_SHIFT, COND_SHIFT, C_SHIFT, DEFAULT_MICRO_INSTRUCTION,
    ENC_SHIFT, MAR_SHIFT, MBR_SHIFT, RD_SHIFT, SH_SHIFT, WR_SHIFT,
};
use crate::memory::immutable::ImmutableMemory;
use crate::memory::io_memory::access::LineAccessor;
use crate::memory::io_memory::{
    needs_line, read_outcome, write_outcome, IOMemory, IOMemoryError, IOMemoryView,
};
use crate::memory::traits::{ReadableMemory, WritableMemory};
use crate::registers::{RegisterSize, Registers};
use vstd::prelude::*;
use vstd::utf8::encode_utf8;

verus! {

/// Number of microinstructions in the control store.
pub const MICROCODE_LENGTH: usize = 256;

/// Whether the machine is still running after a pulse.
#[derive(Clone, Copy, Debug, PartialEq, Eq, Hash, Structural)]
pub enum MachineState {
    /// A microinstruction asked for both a read and a write: the machine waits.
    Halted,
    Running,
}

/// The state of the machine.
#[verifier::ext_equal]
pub struct MachineView {
    pub memory: IOMemoryView,
    pub micro_code: Seq<MicroInstruction>,
    pub registers: Seq<RegisterSize>,
    pub blocking_io: bool,
    pub clock: ClockView,
    pub mir: MicroInstruction,
    pub micro_pc: u8,
    pub a_bus: RegisterSize,
    pub b_bus: RegisterSize,
    pub c_bus: RegisterSize,
    pub mbr: RegisterSize,
    pub mar: RegisterSize,
}

/// The Mic-1: main memory, control store, registers and the latches of the data path.
pub struct Machine<A: LineAccessor<String>> {
    memory: IOMemory<A>,
    micro_code: ImmutableMemory<MicroInstruction, MICROCODE_LENGTH>,
    registers: Registers,
    blocking_io: bool,
    clock: Clock,
    mir: MicroInstruction,
    micro_pc: u8,
    a_bus: RegisterSize,
    b_bus: RegisterSize,
    c_bus: RegisterSize,
    mbr: RegisterSize,
    mar: RegisterSize,
}

impl<A: LineAccessor<String>> View for Machine<A> {
    type V = MachineView;

    closed spec fn view(&self) -> MachineView {
        MachineView {
            memory: self.memory@,
            micro_code: self.micro_code@,
            registers: self.registers@,
            blocking_io: self.blocking_io,
            clock: self.clock@,
            mir: self.mir,
            micro_pc: self.micro_pc,
            a_bus: self.a_bus,
            b_bus: self.b_bus,
            c_bus: self.c_bus,
            mbr: self.mbr,
            mar: self.mar,
        }
    }
}

/// The machine is well formed: the MAR holds a twelve-bit address and the
/// control store has its full length.
pub open spec fn machine_wf(m: MachineView) -> bool {
    &&& m.mar < 0x1000
    &&& m.micro_code.len() == MICROCODE_LENGTH
    &&& m.registers.len() == 16
}

/// The ALU: addition wrapping at 16 bits, bitwise and, the left input, or its complement.
pub open spec fn alu_spec(a: RegisterSize, b: RegisterSize, op: Operation) -> RegisterSize {
    match op {
        Operation::Add => ((a + b) % 0x10000) as RegisterSize,
        Operation::And => a & b,
        Operation::Assign => a,
        Operation::Invert => (0xFFFF - a) as RegisterSize,
    }
}

/// The shifter: nothing, one bit right, or one bit left (dropping the top bit).
pub open spec fn shift_spec(value: RegisterSize, sh: Shift) -> RegisterSize {
    match sh {
        Shift::NoShift => value,
        Shift::Left => ((value * 2) % 0x10000) as RegisterSize,
        Shift::Right => value / 2,
    }
}

/// The control-store address after `pc` under the jump condition `cond` when
/// the ALU gave `value`: the ADDR field of `mir` when the condition holds
/// (always; when the value is negative as a signed word; when it is zero),
/// else the next address, wrapping at 256.
pub open spec fn next_micro_pc(pc: u8, mir: u32, cond: Jump, value: RegisterSize) -> u8 {
    let next = ((pc + 1) % 256) as u8;
    let target = field(mir, 0, 255) as u8;
    match cond {
        Jump::NoJump => next,
        Jump::Negative => if value >= 0x8000 {
            target
        } else {
            next
        },
        Jump::Zero => if value == 0 {
            target
        } else {
            next
        },
        Jump::Always => target,
    }
}

/// The microinstruction at `addr`; the default one past the end.
pub open spec fn instruction_at(code: Seq<MicroInstruction>, addr: u8) -> MicroInstruction {
    if addr < code.len() {
        code[addr as int]
    } else {
        MicroInstruction(DEFAULT_MICRO_INSTRUCTION)
    }
}

/// Load: the microinstruction at the micro program counter goes into the MIR.
pub open spec fn load_phase(m: MachineView) -> MachineView {
    MachineView { mir: instruction_at(m.micro_code, m.micro_pc), ..m }
}

/// Gate: the registers selected by A and B go onto the A and B buses.
pub open spec fn gate_phase(m: MachineView) -> MachineView {
    MachineView {
        a_bus: m.registers[field(m.mir@, A_SHIFT, 15) as int],
        b_bus: m.registers[field(m.mir@, B_SHIFT, 15) as int],
        ..m
    }
}

/// The ALU result of the Operation phase.
pub open spec fn alu_result(m: MachineView) -> RegisterSize {
    let a_value = if bit_field(m.mir@, AMUX_SHIFT) {
        m.mbr
    } else {
        m.a_bus
    };
    alu_spec(a_value, m.b_bus, operation_of(field(m.mir@, ALU_SHIFT, 3)))
}

/// Operation: the MAR may take the low twelve bits of the B bus, the ALU and
/// shifter compute the C bus, the next micro address is chosen, and the MBR
/// may take the C bus.
pub open spec fn calc_phase(m: MachineView) -> MachineView {
    let c_value = alu_result(m);
    let c_bus = shift_spec(c_value, shift_of(field(m.mir@, SH_SHIFT, 3)));
    MachineView {
        mar: if bit_field(m.mir@, MAR_SHIFT) {
            m.b_bus & 0xFFF
        } else {
            m.mar
        },
        micro_pc: next_micro_pc(
            m.micro_pc,
            m.mir@,
            jump_of(field(m.mir@, COND_SHIFT, 3)),
            c_value,
        ),
        c_bus,
        mbr: if bit_field(m.mir@, MBR_SHIFT) {
            c_bus
        } else {
            m.mbr
        },
        ..m
    }
}

/// Store: the C bus goes into the register selected by C when ENC is set,
/// and into the MBR when MBR is set.
pub open spec fn store_phase(m: MachineView) -> MachineView {
    MachineView {
        registers: if bit_field(m.mir@, ENC_SHIFT) {
            m.registers.update(field(m.mir@, C_SHIFT, 15) as int, m.c_bus)
        } else {
            m.registers
        },
        mbr: if bit_field(m.mir@, MBR_SHIFT) {
            m.c_bus
        } else {
            m.mbr
        },
        ..m
    }
}

/// The work of the current phase.
pub open spec fn phase_step(m: MachineView) -> MachineView {
    match m.clock.subtick {
        Subtick::Load => load_phase(m),
        Subtick::Gate => gate_phase(m),
        Subtick::Operation => calc_phase(m),
        Subtick::Store => store_phase(m),
    }
}

/// Whether the microinstruction asks to read memory (RD without WR).
pub open spec fn reads_memory(mir: MicroInstruction) -> bool {
    bit_field(mir@, RD_SHIFT) && !bit_field(mir@, WR_SHIFT)
}

/// Whether the microinstruction asks to write memory (WR without RD).
pub open spec fn writes_memory(mir: MicroInstruction) -> bool {
    !bit_field(mir@, RD_SHIFT) && bit_field(mir@, WR_SHIFT)
}

/// Whether the microinstruction halts the machine (both RD and WR).
pub open spec fn halts(mir: MicroInstruction) -> bool {
    bit_field(mir@, RD_SHIFT) && bit_field(mir@, WR_SHIFT)
}

/// The state and outcome of one pulse, where `line` is the input line that a
/// memory read fetches if it needs one.
///
/// The work of the current phase is done. In the Load phase the freshly
/// loaded microinstruction then halts the machine (which leaves the clock
/// where it is), writes the MBR to the address in the MAR, or reads that
/// address into the MBR. Unless the machine halted, the clock moves on by a phase.
pub open spec fn pulse_outcome(m: MachineView, line: Seq<u8>) -> (MachineView, MachineState) {
    let p = phase_step(m);
    if m.clock.subtick is Load && halts(p.mir) {
        (MachineView { blocking_io: true, ..p }, MachineState::Halted)
    } else if m.clock.subtick is Load && writes_memory(p.mir) {
        (
            MachineView {
                memory: write_outcome(p.memory, p.mar as usize, p.mbr).0,
                clock: pulsed(p.clock),
                ..p
            },
            MachineState::Running,
        )
    } else if m.clock.subtick is Load && reads_memory(p.mir) {
        let (memory, r) = read_outcome(p.memory, p.mar as usize, line);
        (
            MachineView { memory, mbr: r->Ok_0, clock: pulsed(p.clock), ..p },
            MachineState::Running,
        )
    } else {
        (MachineView { clock: pulsed(p.clock), ..p }, MachineState::Running)
    }
}

/// The memory after reading the addresses `indices` in order, and the
/// address-value pairs of the reads that succeeded, where `lines[k]` is the
/// input line fetched by read `k` if it needs one.
pub open spec fn reads_outcome(m: IOMemoryView, indices: Seq<usize>, lines: Seq<Seq<u8>>) -> (
    IOMemoryView,
    Seq<(usize, u16)>,
)
    decreases indices.len(),
{
    if indices.len() == 0 || lines.len() == 0 {
        (m, seq![])
    } else {
        let (m1, found) = reads_outcome(m, indices.drop_last(), lines.drop_last());
        let (m2, r) = read_outcome(m1, indices.last(), lines.last());
        (
            m2,
            match r {
                Ok(v) => found.push((indices.last(), v)),
                Err(_) => found,
            },
        )
    }
}

/// Whether the pulse reads the receiver when it needs a new input line.
pub open spec fn pulse_needs_line(m: MachineView) -> bool {
    &&& m.clock.subtick is Load
    &&& reads_memory(load_phase(m).mir)
    &&& needs_line(m.memory, m.mar as usize)
}

/// Whether the pulse would write a byte that the transmitter cannot send.
pub open spec fn pulse_faults(m: MachineView) -> bool {
    &&& m.clock.subtick is Load
    &&& writes_memory(load_phase(m).mir)
    &&& write_outcome(m.memory, m.mar as usize, m.mbr).1 is Err
}

/// The machine after `continue`: the halt is lifted, the micro program starts
/// again at address 0 in the Load phase of the next cycle, and the program
/// counter moves to the next instruction; both counters stop at their maximum.
pub open spec fn continued(m: MachineView) -> MachineView {
    MachineView {
        blocking_io: false,
        micro_pc: 0,
        clock: ClockView {
            tick: if m.clock.tick + 1 > usize::MAX {
                m.clock.tick
            } else {
                m.clock.tick + 1
            },
            subtick: Subtick::Load,
        },
        registers: m.registers.update(
            0,
            if m.registers[0] + 1 > u16::MAX {
                m.registers[0]
            } else {
                (m.registers[0] + 1) as u16
            },
        ),
        ..m
    }
}

proof fn lemma_alu_bits(a: u16, b: u16)
    ensures
        !a == (0xFFFF - a) as u16,
        a << 1u16 == ((a * 2) % 0x10000) as u16,
        a >> 1u16 == a / 2,
        (a as i16) < 0 <==> a >= 0x8000,
        b & 0xFFF < 0x1000,
{
    assert(!a == (0xFFFF - a) as u16) by (bit_vector);
    assert(a << 1u16 == ((a * 2) % 0x10000) as u16) by (bit_vector);
    assert(a >> 1u16 == a / 2) by (bit_vector);
    assert((a as i16) < 0 <==> a >= 0x8000) by (bit_vector);
    assert(b & 0xFFF < 0x1000) by (bit_vector);
}

proof fn lemma_low_byte(v: u16)
    ensures
        v & 0xFF < 0x100,
{
    assert(v & 0xFF < 0x100) by (bit_vector);
}

/// The register fields of a microinstruction name one of the sixteen registers.
pub proof fn lemma_register_fields(w: u32)
    ensures
        field(w, A_SHIFT, 15) < 16,
        field(w, B_SHIFT, 15) < 16,
        field(w, C_SHIFT, 15) < 16,
{
    assert((w >> 8u32) & 15u32 < 16u32) by (bit_vector);
    assert((w >> 12u32) & 15u32 < 16u32) by (bit_vector);
    assert((w >> 16u32) & 15u32 < 16u32) by (bit_vector);
}

/// Every phase keeps the machine well formed.
pub proof fn lemma_phase_keeps_wf(m: MachineView)
    requires
        machine_wf(m),
    ensures
        machine_wf(phase_step(m)),
{
    lemma_alu_bits(m.b_bus, m.b_bus);
    lemma_register_fields(m.mir.0);
    assert(machine_wf(load_phase(m)));
    assert(machine_wf(gate_phase(m)));
    assert(machine_wf(calc_phase(m)));
    assert(machine_wf(store_phase(m)));
}

impl<A: LineAccessor<String>> Machine<A> {
    /// A machine with main memory `memory`, control store `micro_code` and
    /// registers `registers`, standing at the Load phase of cycle 1 with the
    /// first microinstruction in the MIR and every latch clear.
    pub fn new(
        memory: IOMemory<A>,
        micro_code: ImmutableMemory<MicroInstruction, MICROCODE_LENGTH>,
        registers: Registers,
    ) -> (r: Self)
        ensures
            r@ == (MachineView {
                memory: memory@,
                micro_code: micro_code@,
                registers: registers@,
                blocking_io: false,
                clock: ClockView { tick: 1, subtick: Subtick::Load },
                mir: micro_code@[0],
                micro_pc: 0,
                a_bus: 0,
                b_bus: 0,
                c_bus: 0,
                mbr: 0,
                mar: 0,
            }),
            machine_wf(r@),
    {
        let _ = micro_code.len();
        proof {
            registers.lemma_len();
        }
        let mir = match micro_code.immutable_read(0) {
            Some(m) => *m,
            None => MicroInstruction::default(),
        };
        Machine {
            memory,
            micro_code,
            registers,
            blocking_io: false,
            clock: Clock::default(),
            mir,
            micro_pc: 0,
            a_bus: 0,
            b_bus: 0,
            c_bus: 0,
            mbr: 0,
            mar: 0,
        }
    }

    /// The microinstruction in the MIR.
    pub fn current_micro_instruction(&self) -> (r: MicroInstruction)
        ensures
            r == self@.mir,
    {
        self.mir
    }

    /// The texts of the input lines fetched from the line accessor so far.
    pub closed spec fn received_lines(&self) -> Seq<Seq<char>> {
        self.memory.received_lines()
    }

    /// The clock.
    pub fn clock(&self) -> (r: &Clock)
        ensures
            r@ == self@.clock,
    {
        &self.clock
    }

    /// The microinstructions of the control store, in order.
    pub fn microcode(&self) -> (r: Vec<MicroInstruction>)
        ensures
            r@ == self@.micro_code,
    {
        self.micro_code.to_vec()
    }

    /// The registers.
    pub fn registers(&self) -> (r: &Registers)
        ensures
            r@ == self@.registers,
    {
        &self.registers
    }

    /// Whether the machine is halted, waiting for `continue`.
    pub fn is_halted(&self) -> (r: bool)
        ensures
            r == self@.blocking_io,
    {
        self.blocking_io
    }

    /// The micro program counter.
    pub fn micro_pc(&self) -> (r: u8)
        ensures
            r == self@.micro_pc,
    {
        self.micro_pc
    }

    /// The memory buffer register.
    pub fn mbr(&self) -> (r: RegisterSize)
        ensures
            r == self@.mbr,
    {
        self.mbr
    }

    /// The memory address register.
    pub fn mar(&self) -> (r: RegisterSize)
        ensures
            r == self@.mar,
    {
        self.mar
    }

    /// Main memory.
    pub fn memory(&self) -> (r: &IOMemory<A>)
        ensures
            r@ == self@.memory,
    {
        &self.memory
    }

    /// Reads the addresses `indices` in order and gives the address and value
    /// of each read that succeeds (the addresses below `MEMORY_SIZE`). Reading
    /// the receiver's data word takes a character, as any read of it does.
    pub fn get_memory(&mut self, indices: &[usize]) -> (r: Vec<(usize, u16)>)
        ensures
            exists|lines: Seq<Seq<u8>>|
                lines.len() == indices@.len() && (final(self)@.memory, r@) == #[trigger] reads_outcome(
                    old(self)@.memory,
                    indices@,
                    lines,
                ),
            final(self)@ == (MachineView { memory: final(self)@.memory, ..old(self)@ }),
    {
        let ghost m0 = self@;
        let ghost mut lines: Seq<Seq<u8>> = Seq::empty();
        let mut data: Vec<(usize, u16)> = Vec::new();
        let mut k: usize = 0;
        while k < indices.len()
            invariant
                k <= indices@.len(),
                lines.len() == k,
                (self@.memory, data@) == reads_outcome(
                    m0.memory,
                    indices@.subrange(0, k as int),
                    lines,
                ),
                self@ == (MachineView { memory: self@.memory, ..m0 }),
            decreases indices@.len() - k,
        {
            let addr = indices[k];
            let ghost before = self@.memory;
            let r = self.memory.read(addr);
            let ghost line = choose|line: Seq<u8>|
                (self@.memory, r) == #[trigger] read_outcome(before, addr, line);
            match r {
                Ok(v) => {
                    data.push((addr, v));
                },
                Err(_) => {},
            }
            proof {
                let next = indices@.subrange(0, k as int + 1);
                assert(next.drop_last() =~= indices@.subrange(0, k as int));
                assert(lines.push(line).drop_last() =~= lines);
                lines = lines.push(line);
            }
            k = k + 1;
        }
        assert(indices@.subrange(0, k as int) =~= indices@);
        data
    }

    /// The machine instruction that the program counter points at, which must
    /// be an address of main memory. Reading it is a memory read: at the
    /// receiver's data word it takes a character.
    pub fn current_instruction(&mut self) -> (r: u16)
        requires
            (old(self)@.registers[0] as int) < crate::memory::io_memory::MEMORY_SIZE,
        ensures
            exists|line: Seq<u8>|
                (final(self)@.memory, Ok::<u16, IOMemoryError>(r)) == #[trigger] read_outcome(
                    old(self)@.memory,
                    old(self)@.registers[0] as usize,
                    line,
                ),
            final(self)@ == (MachineView { memory: final(self)@.memory, ..old(self)@ }),
            !needs_line(old(self)@.memory, old(self)@.registers[0] as usize) ==> final(self).received_lines() == old(self).received_lines(),
            needs_line(old(self)@.memory, old(self)@.registers[0] as usize) ==> {
                &&& final(self).received_lines().drop_last() == old(self).received_lines()
                &&& final(self).received_lines().len() == old(self).received_lines().len() + 1
                &&& (final(self)@.memory, Ok::<u16, IOMemoryError>(r)) == read_outcome(
                    old(self)@.memory,
                    old(self)@.registers[0] as usize,
                    encode_utf8(final(self).received_lines().last()),
                )
            },
    {
        let pc = self.registers.pc() as usize;
        let ghost before = self@.memory;
        let r = self.memory.read(pc);
        let ghost line = choose|line: Seq<u8>| (self@.memory, r) == #[trigger] read_outcome(before, pc, line);
        assert(r is Ok);
        match r {
            Ok(v) => v,
            Err(_) => 0,
        }
    }

    fn instruction_at(&self, addr: u8) -> (r: MicroInstruction)
        ensures
            r == instruction_at(self@.micro_code, addr),
    {
        let _ = self.micro_code.len();
        match self.micro_code.immutable_read(addr as usize) {
            Some(m) => *m,
            None => MicroInstruction::default(),
        }
    }

    fn load(&mut self)
        ensures
            final(self)@ == load_phase(old(self)@),
            final(self).memory == old(self).memory,
    {
        self.mir = self.instruction_at(self.micro_pc);
    }

    fn gate(&mut self)
        requires
            old(self)@.registers.len() == 16,
        ensures
            final(self)@ == gate_phase(old(self)@),
            final(self).memory == old(self).memory,
    {
        self.a_bus = self.registers.read_from_reg(self.mir.a());
        self.b_bus = self.registers.read_from_reg(self.mir.b());
    }

    /// The ALU.
    pub fn alu(a_value: RegisterSize, b_value: RegisterSize, op: Operation) -> (r: RegisterSize)
        ensures
            r == alu_spec(a_value, b_value, op),
    {
        proof {
            lemma_alu_bits(a_value, b_value);
        }
        match op {
            Operation::Add => a_value.wrapping_add(b_value),
            Operation::And => a_value & b_value,
            Operation::Assign => a_value,
            Operation::Invert => !a_value,
        }
    }

    /// The shifter.
    pub fn shift(value: RegisterSize, sh: Shift) -> (r: RegisterSize)
        ensures
            r == shift_spec(value, sh),
    {
        proof {
            lemma_alu_bits(value, value);
        }
        match sh {
            Shift::NoShift => value,
            Shift::Left => value << 1u16,
            Shift::Right => value >> 1u16,
        }
    }

    /// The control-store address that follows under condition `cond` when the
    /// ALU gave `value`; see `next_micro_pc`.
    pub fn next_micro_instruction(&self, value: RegisterSize, cond: Jump) -> (r: u8)
        ensures
            r == next_micro_pc(self@.micro_pc, self@.mir@, cond, value),
    {
        proof {
            lemma_alu_bits(value, value);
        }
        match cond {
            Jump::NoJump => self.micro_pc.wrapping_add(1),
            Jump::Negative => {
                if (value as i16) < 0 {
                    self.mir.addr()
                } else {
                    self.micro_pc.wrapping_add(1)
                }
            },
            Jump::Zero => {
                if value == 0 {
                    self.mir.addr()
                } else {
                    self.micro_pc.wrapping_add(1)
                }
            },
            Jump::Always => self.mir.addr(),
        }
    }

    fn calc(&mut self)
        requires
            machine_wf(old(self)@),
        ensures
            final(self)@ == calc_phase(old(self)@),
            machine_wf(final(self)@),
            final(self).memory == old(self).memory,
    {
        let a_value = if self.mir.amux() {
            self.mbr
        } else {
            self.a_bus
        };
        if self.mir.mar() {
            proof {
                lemma_alu_bits(self.b_bus, self.b_bus);
            }
            self.mar = self.b_bus & 0xFFF;
        }
        let b_value = self.b_bus;
        let c_value = Self::alu(a_value, b_value, self.mir.alu());
        self.micro_pc = self.next_micro_instruction(c_value, self.mir.cond());
        self.c_bus = Self::shift(c_value, self.mir.sh());
        if self.mir.mbr() {
            self.mbr = self.c_bus;
        }
    }

    fn store(&mut self)
        requires
            old(self)@.registers.len() == 16,
        ensures
            final(self)@ == store_phase(old(self)@),
            final(self).memory == old(self).memory,
    {
        if self.mir.enc() {
            self.registers.write_to_reg(self.mir.c(), self.c_bus);
        }
        if self.mir.mbr() {
            self.mbr = self.c_bus;
        }
    }

    fn halt(&mut self)
        ensures
            final(self)@ == (MachineView { blocking_io: true, ..old(self)@ }),
            final(self).memory == old(self).memory,
    {
        self.blocking_io = true;
    }

    /// Lifts a halt and moves on to the next instruction: see `continued`.
    pub fn resume(&mut self)
        ensures
            final(self)@ == continued(old(self)@),
    {
        self.blocking_io = false;
        self.micro_pc = 0;
        let tick = self.clock.tick().saturating_add(1);
        self.clock.set_tick(tick);
        self.clock.set_subtick(Subtick::Load);
        let pc = self.registers.pc().saturating_add(1);
        self.registers.set_pc(pc);
    }

    /// Whether the next pulse would write a byte that the transmitter cannot send.
    pub fn pulse_would_fault(&self) -> (r: bool)
        requires
            machine_wf(self@),
        ensures
            r == pulse_faults(self@),
    {
        if !self.clock.subtick().is_load() {
            return false;
        }
        let mir = self.instruction_at(self.micro_pc);
        if mir.rd() || !mir.wr() {
            return false;
        }
        let address = self.mar as usize;
        let _ = self.memory.len();
        proof {
            lemma_low_byte(self.mbr);
        }
        address == crate::memory::io_memory::TRANSMITTER_ADDRESS
            && self.memory.transmitter_status().can_write() && (self.mbr & 0xFF) >= 0x80
    }

    /// Advances the machine by one clock phase, as `pulse_outcome` says.
    pub fn pulse(&mut self) -> (r: MachineState)
        requires
            machine_wf(old(self)@),
            can_pulse(old(self)@.clock),
            !pulse_faults(old(self)@),
        ensures
            machine_wf(final(self)@),
            !pulse_needs_line(old(self)@) ==> (final(self)@, r) == pulse_outcome(
                old(self)@,
                Seq::empty(),
            ),
            exists|line: Seq<u8>| (final(self)@, r) == #[trigger] pulse_outcome(old(self)@, line),
            !pulse_needs_line(old(self)@) ==> final(self).received_lines() == old(
                self,
            ).received_lines(),
            pulse_needs_line(old(self)@) ==> {
                &&& final(self).received_lines().len() == old(self).received_lines().len() + 1
                &&& final(self).received_lines().drop_last() == old(self).received_lines()
                &&& (final(self)@, r) == pulse_outcome(
                    old(self)@,
                    encode_utf8(final(self).received_lines().last()),
                )
            },
    {
        let ghost m0 = self@;
        let phase = self.clock.subtick();
        match phase {
            Subtick::Load => self.load(),
            Subtick::Gate => self.gate(),
            Subtick::Operation => self.calc(),
            Subtick::Store => self.store(),
        }
        let ghost p = self@;
        assert(p == phase_step(m0));
        proof {
            lemma_phase_keeps_wf(m0);
        }
        if phase.is_load() {
            let rd = self.mir.rd();
            let wr = self.mir.wr();
            if rd && wr {
                self.halt();
                assert((self@, MachineState::Halted) == pulse_outcome(m0, Seq::empty()));
                return MachineState::Halted;
            } else if !rd && wr {
                let _ = self.memory.write(self.mar as usize, self.mbr);
            } else if rd && !wr {
                match self.memory.read(self.mar as usize) {
                    Ok(v) => {
                        self.mbr = v;
                    },
                    Err(_) => {},
                }
            }
        }
        self.clock.pulse();
        let ghost line = if pulse_needs_line(m0) {
            encode_utf8(self.memory.received_lines().last())
        } else {
            Seq::<u8>::empty()
        };
        assert((self@, MachineState::Running) == pulse_outcome(m0, line));
        MachineState::Running
    }
}

/// One microinstruction takes four pulses: from the Load phase, a
/// microinstruction that does not halt runs through Gate, Operation and
/// Store, and the clock is back at Load one cycle later, whatever lines the
/// pulses fetch.
pub proof fn lemma_cycle_takes_four_pulses(
    m: MachineView,
    l1: Seq<u8>,
    l2: Seq<u8>,
    l3: Seq<u8>,
    l4: Seq<u8>,
)
    requires
        m.clock.subtick is Load,
        !halts(instruction_at(m.micro_code, m.micro_pc)),
    ensures
        ({
            let (m1, s1) = pulse_outcome(m, l1);
            let (m2, s2) = pulse_outcome(m1, l2);
            let (m3, s3) = pulse_outcome(m2, l3);
            let (m4, s4) = pulse_outcome(m3, l4);
            &&& s1 == MachineState::Running
            &&& s2 == MachineState::Running
            &&& s3 == MachineState::Running
            &&& s4 == MachineState::Running
            &&& m1.clock.subtick == Subtick::Gate
            &&& m2.clock.subtick == Subtick::Operation
            &&& m3.clock.subtick == Subtick::Store
            &&& m4.clock == (ClockView { tick: m.clock.tick + 1, subtick: Subtick::Load })
        }),
{
}

/// A halting microinstruction stops the machine where it is: the pulse that
/// loads it reports `Halted` and changes nothing but the MIR and the halt
/// flag, and every further pulse reports `Halted` and changes nothing.
pub proof fn lemma_halt_is_stable(m: MachineView, l1: Seq<u8>, l2: Seq<u8>)
    requires
        m.clock.subtick is Load,
        halts(instruction_at(m.micro_code, m.micro_pc)),
    ensures
        pulse_outcome(m, l1) == (MachineView {
            mir: instruction_at(m.micro_code, m.micro_pc),
            blocking_io: true,
            ..m
        }, MachineState::Halted),
        pulse_outcome(pulse_outcome(m, l1).0, l2) == pulse_outcome(m, l1),
{
}

/// After `continue` the machine is no longer halted and its next pulse loads
/// the first microinstruction of the control store.
pub proof fn lemma_continue_restarts_microprogram(m: MachineView, line: Seq<u8>)
    requires
        machine_wf(m),
    ensures
        !continued(m).blocking_io,
        continued(m).clock.subtick is Load,
        pulse_outcome(continued(m), line).0.mir == m.micro_code[0],
        continued(m).registers[0] == if m.registers[0] == u16::MAX {
            u16::MAX
        } else {
            (m.registers[0] + 1) as u16
        },
{
}

/// The MAR always holds a twelve-bit address: a pulse keeps it below 0x1000,
/// whatever line it fetches, so the memory access of the Load phase is never
/// out of bounds (a read always succeeds, a write fails at most with
/// `WriteFail`).
pub proof fn lemma_mar_stays_in_memory(m: MachineView, line: Seq<u8>)
    requires
        m.mar < 0x1000,
    ensures
        pulse_outcome(m, line).0.mar < 0x1000,
        read_outcome(m.memory, m.mar as usize, line).1 is Ok,
        write_outcome(m.memory, m.mar as usize, m.mbr).1 is Err ==> write_outcome(
            m.memory,
            m.mar as usize,
            m.mbr,
        ).1 == Err::<(), IOMemoryError>(IOMemoryError::WriteFail),
{
    lemma_alu_bits(m.b_bus, m.b_bus);
}

/// A halted machine meets every precondition of `pulse` that it met before:
/// the clock stands at Load and a halting microinstruction neither writes nor
/// moves the clock, so the machine can be pulsed again, and stays halted.
pub proof fn lemma_halted_machine_can_pulse(m: MachineView, line: Seq<u8>)
    requires
        machine_wf(m),
        m.clock.subtick is Load,
        halts(instruction_at(m.micro_code, m.micro_pc)),
    ensures
        machine_wf(pulse_outcome(m, line).0),
        can_pulse(pulse_outcome(m, line).0.clock),
        !pulse_faults(pulse_outcome(m, line).0),
        !pulse_needs_line(pulse_outcome(m, line).0),
        pulse_outcome(pulse_outcome(m, line).0, line) == pulse_outcome(m, line),
{
}

/// The registers change only in the Store phase, and main memory only in the
/// Load phase.
pub proof fn lemma_phases_touch_their_state(m: MachineView, line: Seq<u8>)
    ensures
        !(m.clock.subtick is Store) ==> pulse_outcome(m, line).0.registers == m.registers,
        !(m.clock.subtick is Load) ==> pulse_outcome(m, line).0.memory == m.memory,
{
}

/// The ALU computes 16-bit two's-complement arithmetic: addition is the sum
/// modulo 2^16 (so it commutes), "and" gives no bit that is not in both
/// inputs, "invert" is the complement (a word plus its complement is all
/// ones), and adding the complement of `b` plus one subtracts `b` modulo
/// 2^16, as the microcode does.
pub proof fn lemma_alu_arithmetic(a: RegisterSize, b: RegisterSize)
    ensures
        alu_spec(a, b, Operation::Add) as int == (a as int + b as int) % 65536,
        alu_spec(a, b, Operation::Add) == alu_spec(b, a, Operation::Add),
        alu_spec(a, b, Operation::And) == a & b,
        alu_spec(a, b, Operation::And) <= a && alu_spec(a, b, Operation::And) <= b,
        alu_spec(a, b, Operation::Assign) == a,
        alu_spec(a, b, Operation::Invert) as int + a as int == 65535,
        (alu_spec(a, alu_spec(b, b, Operation::Invert), Operation::Add) as int + 1) % 65536 == (
        a as int - b as int) % 65536,
{
    assert(a & b <= a && a & b <= b) by (bit_vector);
}

/// The shifter moves the word one place: left doubles it modulo 2^16 (only
/// bit 15 is lost), right halves it (only bit 0 is lost), so a left shift
/// followed by a right shift clears bit 15 alone, and a right shift followed
/// by a left shift clears bit 0 alone.
pub proof fn lemma_shifter(v: RegisterSize)
    ensures
        shift_spec(v, Shift::Left) as int == (v as int * 2) % 65536,
        shift_spec(v, Shift::Right) as int == v as int / 2,
        shift_spec(v, Shift::NoShift) == v,
        shift_spec(shift_spec(v, Shift::Left), Shift::Right) as int == v as int % 32768,
        shift_spec(shift_spec(v, Shift::Right), Shift::Left) as int == v as int - v as int % 2,
{
}

/// The Operation phase, read off the fields of the microinstruction word:
/// the ALU input A is the MBR when AMUX is set, else the A bus; the ALU
/// output is the sum modulo 2^16, the bitwise and, input A, or its
/// complement, by the ALU field. The next micro address is ADDR when COND is
/// "always", when COND is "negative" and the ALU output (before the
/// shifter) has bit 15 set, or when COND is "zero" and the ALU output is 0;
/// otherwise the micro program counter plus one, modulo 256. The C bus is the
/// ALU output doubled modulo 2^16 (SH = 2), halved (SH = 1), or as it is.
pub proof fn lemma_operation_phase(m: MachineView)
    ensures
        ({
            let w = m.mir@;
            let a_in: RegisterSize = if (w >> 31u32) & 1 == 1 {
                m.mbr
            } else {
                m.a_bus
            };
            let op = (w >> 27u32) & 3;
            let v: int = if op == 0 {
                (a_in as int + m.b_bus as int) % 65536
            } else if op == 1 {
                (a_in & m.b_bus) as int
            } else if op == 2 {
                a_in as int
            } else {
                65535 - a_in as int
            };
            let cond = (w >> 29u32) & 3;
            let sh = (w >> 25u32) & 3;
            &&& calc_phase(m).micro_pc as int == if cond == 3 || (cond == 1 && v >= 32768) || (
            cond == 2 && v == 0) {
                (w & 255) as int
            } else {
                (m.micro_pc as int + 1) % 256
            }
            &&& calc_phase(m).c_bus as int == if sh == 2 {
                (v * 2) % 65536
            } else if sh == 1 {
                v / 2
            } else {
                v
            }
        }),
{
    let w = m.mir@;
    assert(w >> 0u32 == w) by (bit_vector);
    assert((w >> 29u32) & 3 < 4 && (w >> 27u32) & 3 < 4 && (w >> 25u32) & 3 < 4 && w & 255 < 256)
        by (bit_vector);
    lemma_alu_arithmetic(m.mbr, m.b_bus);
    lemma_alu_arithmetic(m.a_bus, m.b_bus);
    let a_in: RegisterSize = if (w >> 31u32) & 1 == 1 {
        m.mbr
    } else {
        m.a_bus
    };
    let op = (w >> 27u32) & 3;
    let v: int = if op == 0 {
        (a_in as int + m.b_bus as int) % 65536
    } else if op == 1 {
        (a_in & m.b_bus) as int
    } else if op == 2 {
        a_in as int
    } else {
        65535 - a_in as int
    };
    let r = alu_result(m);
    assert(r as int == v);
    lemma_shifter(r);
    let cond = (w >> 29u32) & 3;
    let target = (w & 255) as int;
    assert(field(w, 0, 255) == w & 255);
    if cond == 0 {
        assert(jump_of(field(w, COND_SHIFT, 3)) == Jump::NoJump);
    } else if cond == 1 {
        assert(jump_of(field(w, COND_SHIFT, 3)) == Jump::Negative);
    } else if cond == 2 {
        assert(jump_of(field(w, COND_SHIFT, 3)) == Jump::Zero);
    } else {
        assert(jump_of(field(w, COND_SHIFT, 3)) == Jump::Always);
    }
    let sh = (w >> 25u32) & 3;
    if sh == 1 {
        assert(shift_of(field(w, SH_SHIFT, 3)) == Shift::Right);
    } else if sh == 2 {
        assert(shift_of(field(w, SH_SHIFT, 3)) == Shift::Left);
    } else {
        assert(shift_of(field(w, SH_SHIFT, 3)) == Shift::NoShift);
    }
}

/// The next micro address does not depend on the shifter: two
/// microinstructions that differ only in their SH field lead to the same
/// next micro address.
pub proof fn lemma_jump_ignores_shifter(m: MachineView, other: u32)
    requires
        other & 0xF9FF_FFFFu32 == m.mir@ & 0xF9FF_FFFFu32,
    ensures
        calc_phase(MachineView { mir: MicroInstruction(other), ..m }).micro_pc == calc_phase(
            m,
        ).micro_pc,
{
    let w = m.mir@;
    assert((other >> 31u32) & 1 == (w >> 31u32) & 1 && (other >> 29u32) & 3 == (w >> 29u32) & 3
        && (other >> 27u32) & 3 == (w >> 27u32) & 3 && other & 255 == w & 255) by (bit_vector)
        requires
            other & 0xF9FF_FFFFu32 == w & 0xF9FF_FFFFu32,
    ;
    lemma_operation_phase(m);
    lemma_operation_phase(MachineView { mir: MicroInstruction(other), ..m });
}

/// The bus and store phases, read off the fields of the microinstruction
/// word: the bus phase puts register A (bits 8..11) on the A bus and register B (bits
/// 12..15) on the B bus, changing nothing else; Store writes the C bus into
/// register C (bits 16..19) when ENC (bit 20) is set and leaves every other
/// register alone, and writes it into the MBR when bit 24 is set.
pub proof fn lemma_gate_and_store(m: MachineView)
    requires
        m.registers.len() == 16,
    ensures
        ({
            let w = m.mir@;
            &&& gate_phase(m).a_bus == m.registers[((w >> 8u32) & 15) as int]
            &&& gate_phase(m).b_bus == m.registers[((w >> 12u32) & 15) as int]
            &&& gate_phase(m).registers == m.registers
            &&& gate_phase(m).mbr == m.mbr && gate_phase(m).mar == m.mar
            &&& store_phase(m).registers.len() == 16
            &&& forall|i: int|
                0 <= i < 16 ==> #[trigger] store_phase(m).registers[i] == if (w >> 20u32) & 1 == 1
                    && i == ((w >> 16u32) & 15) as int {
                    m.c_bus
                } else {
                    m.registers[i]
                }
            &&& store_phase(m).mbr == if (w >> 24u32) & 1 == 1 {
                m.c_bus
            } else {
                m.mbr
            }
        }),
{
    lemma_register_fields(m.mir@);
}

/// Why a machine could not be built.
#[derive(Debug, Clone, PartialEq, Eq)]
pub enum MachineBuilderError {
    /// A part that has no default was not given.
    UninitializedField(&'static str),
    /// A part could not be derived from the others.
    ValidationError(String),
}

/// Collects the parts of a machine: main memory, control store and registers.
pub struct MachineBuilder<A: LineAccessor<String>> {
    memory: Option<IOMemory<A>>,
    micro_code: Option<ImmutableMemory<MicroInstruction, MICROCODE_LENGTH>>,
    registers: Option<Registers>,
}

impl<A: LineAccessor<String>> MachineBuilder<A> {
    /// The main memory given so far.
    pub closed spec fn memory_part(&self) -> Option<IOMemory<A>> {
        self.memory
    }

    /// The control store given so far.
    pub closed spec fn micro_code_part(&self) -> Option<ImmutableMemory<MicroInstruction, MICROCODE_LENGTH>> {
        self.micro_code
    }

    /// The registers given so far.
    pub closed spec fn registers_part(&self) -> Option<Registers> {
        self.registers
    }

    /// A builder with no parts.
    pub fn new() -> (r: Self)
        ensures
            r.memory_part() is None,
            r.micro_code_part() is None,
            r.registers_part() is None,
    {
        MachineBuilder { memory: None, micro_code: None, registers: None }
    }

    /// Gives the main memory.
    pub fn memory(self, memory: IOMemory<A>) -> (r: Self)
        ensures
            r.memory_part() == Some(memory),
            r.micro_code_part() == self.micro_code_part(),
            r.registers_part() == self.registers_part(),
    {
        MachineBuilder { memory: Some(memory), ..self }
    }

    /// Gives the control store.
    pub fn micro_code(self, micro_code: ImmutableMemory<MicroInstruction, MICROCODE_LENGTH>) -> (r: Self)
        ensures
            r.micro_code_part() == Some(micro_code),
            r.memory_part() == self.memory_part(),
            r.registers_part() == self.registers_part(),
    {
        MachineBuilder { micro_code: Some(micro_code), ..self }
    }

    /// Gives the registers.
    pub fn registers(self, registers: Registers) -> (r: Self)
        ensures
            r.registers_part() == Some(registers),
            r.memory_part() == self.memory_part(),
            r.micro_code_part() == self.micro_code_part(),
    {
        MachineBuilder { registers: Some(registers), ..self }
    }

    /// The microinstruction that a new machine starts with: the first one of the
    /// control store; an error when no control store was given.
    pub fn default_mir(&self) -> (r: Result<MicroInstruction, String>)
        ensures
            match self.micro_code_part() {
                Some(code) => r == Ok::<MicroInstruction, String>(code@[0]),
                None => r matches Err(e) && e@ == "Missing Microcode"@,
            },
    {
        match &self.micro_code {
            Some(code) => match code.immutable_read(0) {
                Some(mir) => Ok(*mir),
                None => Err("Failed Read".to_owned()),
            },
            None => Err("Missing Microcode".to_owned()),
        }
    }

    /// The machine made of the parts, as `Machine::new` makes it; a missing
    /// part is reported by its name, the first of memory, microcode and
    /// registers that is missing.
    pub fn build(self) -> (r: Result<Machine<A>, MachineBuilderError>)
        ensures
            match (self.memory_part(), self.micro_code_part(), self.registers_part()) {
                (Some(memory), Some(micro_code), Some(registers)) => r matches Ok(m) && m@ == (
                MachineView {
                    memory: memory@,
                    micro_code: micro_code@,
                    registers: registers@,
                    blocking_io: false,
                    clock: ClockView { tick: 1, subtick: Subtick::Load },
                    mir: micro_code@[0],
                    micro_pc: 0,
                    a_bus: 0,
                    b_bus: 0,
                    c_bus: 0,
                    mbr: 0,
                    mar: 0,
                }) && machine_wf(m@),
                (None, _, _) => r == Err::<Machine<A>, MachineBuilderError>(
                    MachineBuilderError::UninitializedField("memory"),
                ),
                (Some(_), None, _) => r == Err::<Machine<A>, MachineBuilderError>(
                    MachineBuilderError::UninitializedField("micro_code"),
                ),
                (Some(_), Some(_), None) => r == Err::<Machine<A>, MachineBuilderError>(
                    MachineBuilderError::UninitializedField("registers"),
                ),
            },
    {
        match self.memory {
            None => Err(MachineBuilderError::UninitializedField("memory")),
            Some(memory) => match self.micro_code {
                None => Err(MachineBuilderError::UninitializedField("micro_code")),
                Some(micro_code) => match self.registers {
                    None => Err(MachineBuilderError::UninitializedField("registers")),
                    Some(registers) => Ok(Machine::new(memory, micro_code, registers)),
                },
            },
        }
    }
}

} // verus!
