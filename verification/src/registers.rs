//! The sixteen registers of the Mic-1 scratchpad.
use vstd::prelude::*;

verus! {

/// Width of a Mic-1 register.
pub type RegisterSize = u16;

/// Number of registers in the scratchpad.
pub const REGISTER_COUNT: usize = 16;

/// The scratchpad, in register-number order: PC, AC, SP, IR, TIR, 0, +1, -1,
/// AMASK, SMASK, A, B, C, D, E, F.
#[derive(Clone, Copy, Debug, PartialEq, Eq, Hash)]
pub struct Registers {
    pc: RegisterSize,
    ac: RegisterSize,
    sp: RegisterSize,
    ir: RegisterSize,
    tir: RegisterSize,
    zero: RegisterSize,
    one: RegisterSize,
    neg_one: RegisterSize,
    amask: RegisterSize,
    smask: RegisterSize,
    a: RegisterSize,
    b: RegisterSize,
    c: RegisterSize,
    d: RegisterSize,
    e: RegisterSize,
    f: RegisterSize,
}

impl View for Registers {
    type V = Seq<RegisterSize>;

    /// The registers by number.
    closed spec fn view(&self) -> Seq<RegisterSize> {
        seq![self.pc, self.ac, self.sp, self.ir, self.tir, self.zero, self.one, self.neg_one, self.amask, self.smask, self.a, self.b, self.c, self.d, self.e, self.f]
    }
}

/// The registers as a machine starts with them: the constant registers hold
/// 0, +1, -1, 0x0FFF and 0x00FF, every other register 0.
pub open spec fn default_registers() -> Seq<RegisterSize> {
    seq![0, 0, 0, 0, 0, 0, 1, 0xFFFF, 0x0FFF, 0x00FF, 0, 0, 0, 0, 0, 0]
}

impl Registers {
    /// Every register has a number below 16.
    pub proof fn lemma_len(&self)
        ensures
            self@.len() == REGISTER_COUNT,
    {
    }

    /// The registers holding the sixteen values of `values`, in register-number order.
    pub fn from_array(values: [RegisterSize; 16]) -> (r: Self)
        ensures
            r@ == values@,
    {
        let r = Registers {
            pc: values[0],
            ac: values[1],
            sp: values[2],
            ir: values[3],
            tir: values[4],
            zero: values[5],
            one: values[6],
            neg_one: values[7],
            amask: values[8],
            smask: values[9],
            a: values[10],
            b: values[11],
            c: values[12],
            d: values[13],
            e: values[14],
            f: values[15],
        };
        assert(r@ =~= values@);
        r
    }

    /// The value of register `index`.
    pub fn read_from_reg(&self, index: u8) -> (r: RegisterSize)
        requires
            index < 16,
        ensures
            r == self@[index as int],
    {
        match index {
            0 => self.pc,
            1 => self.ac,
            2 => self.sp,
            3 => self.ir,
            4 => self.tir,
            5 => self.zero,
            6 => self.one,
            7 => self.neg_one,
            8 => self.amask,
            9 => self.smask,
            10 => self.a,
            11 => self.b,
            12 => self.c,
            13 => self.d,
            14 => self.e,
            _ => self.f,
        }
    }

    /// Stores `value` into register `index`; every other register keeps its value.
    pub fn write_to_reg(&mut self, index: u8, value: RegisterSize)
        requires
            index < 16,
        ensures
            final(self)@ == old(self)@.update(index as int, value),
    {
        match index {
            0 => self.pc = value,
            1 => self.ac = value,
            2 => self.sp = value,
            3 => self.ir = value,
            4 => self.tir = value,
            5 => self.zero = value,
            6 => self.one = value,
            7 => self.neg_one = value,
            8 => self.amask = value,
            9 => self.smask = value,
            10 => self.a = value,
            11 => self.b = value,
            12 => self.c = value,
            13 => self.d = value,
            14 => self.e = value,
            _ => self.f = value,
        }
        assert(self@ =~= old(self)@.update(index as int, value));
    }

    /// The program counter.
    pub fn pc(&self) -> (r: RegisterSize)
        ensures
            r == self@[0],
    {
        self.pc
    }

    /// Sets the program counter; every other register keeps its value.
    pub fn set_pc(&mut self, value: RegisterSize)
        ensures
            final(self)@ == old(self)@.update(0, value),
    {
        self.pc = value;
        assert(self@ =~= old(self)@.update(0, value));
    }

    /// These registers with the program counter set to `value`.
    pub fn with_pc(self, value: RegisterSize) -> (r: Self)
        ensures
            r@ == self@.update(0, value),
    {
        let mut r = self;
        r.set_pc(value);
        r
    }

    /// The accumulator.
    pub fn ac(&self) -> (r: RegisterSize)
        ensures
            r == self@[1],
    {
        self.ac
    }

    /// Sets the accumulator; every other register keeps its value.
    pub fn set_ac(&mut self, value: RegisterSize)
        ensures
            final(self)@ == old(self)@.update(1, value),
    {
        self.ac = value;
        assert(self@ =~= old(self)@.update(1, value));
    }

    /// These registers with the accumulator set to `value`.
    pub fn with_ac(self, value: RegisterSize) -> (r: Self)
        ensures
            r@ == self@.update(1, value),
    {
        let mut r = self;
        r.set_ac(value);
        r
    }

    /// The stack pointer.
    pub fn sp(&self) -> (r: RegisterSize)
        ensures
            r == self@[2],
    {
        self.sp
    }

    /// Sets the stack pointer; every other register keeps its value.
    pub fn set_sp(&mut self, value: RegisterSize)
        ensures
            final(self)@ == old(self)@.update(2, value),
    {
        self.sp = value;
        assert(self@ =~= old(self)@.update(2, value));
    }

    /// These registers with the stack pointer set to `value`.
    pub fn with_sp(self, value: RegisterSize) -> (r: Self)
        ensures
            r@ == self@.update(2, value),
    {
        let mut r = self;
        r.set_sp(value);
        r
    }

    /// The instruction register.
    pub fn ir(&self) -> (r: RegisterSize)
        ensures
            r == self@[3],
    {
        self.ir
    }

    /// Sets the instruction register; every other register keeps its value.
    pub fn set_ir(&mut self, value: RegisterSize)
        ensures
            final(self)@ == old(self)@.update(3, value),
    {
        self.ir = value;
        assert(self@ =~= old(self)@.update(3, value));
    }

    /// These registers with the instruction register set to `value`.
    pub fn with_ir(self, value: RegisterSize) -> (r: Self)
        ensures
            r@ == self@.update(3, value),
    {
        let mut r = self;
        r.set_ir(value);
        r
    }

    /// The temporary instruction register.
    pub fn tir(&self) -> (r: RegisterSize)
        ensures
            r == self@[4],
    {
        self.tir
    }

    /// Sets the temporary instruction register; every other register keeps its value.
    pub fn set_tir(&mut self, value: RegisterSize)
        ensures
            final(self)@ == old(self)@.update(4, value),
    {
        self.tir = value;
        assert(self@ =~= old(self)@.update(4, value));
    }

    /// These registers with the temporary instruction register set to `value`.
    pub fn with_tir(self, value: RegisterSize) -> (r: Self)
        ensures
            r@ == self@.update(4, value),
    {
        let mut r = self;
        r.set_tir(value);
        r
    }

    /// The constant 0 register.
    pub fn zero(&self) -> (r: RegisterSize)
        ensures
            r == self@[5],
    {
        self.zero
    }

    /// Sets the constant 0 register; every other register keeps its value.
    pub fn set_zero(&mut self, value: RegisterSize)
        ensures
            final(self)@ == old(self)@.update(5, value),
    {
        self.zero = value;
        assert(self@ =~= old(self)@.update(5, value));
    }

    /// These registers with the constant 0 register set to `value`.
    pub fn with_zero(self, value: RegisterSize) -> (r: Self)
        ensures
            r@ == self@.update(5, value),
    {
        let mut r = self;
        r.set_zero(value);
        r
    }

    /// The constant +1 register.
    pub fn one(&self) -> (r: RegisterSize)
        ensures
            r == self@[6],
    {
        self.one
    }

    /// Sets the constant +1 register; every other register keeps its value.
    pub fn set_one(&mut self, value: RegisterSize)
        ensures
            final(self)@ == old(self)@.update(6, value),
    {
        self.one = value;
        assert(self@ =~= old(self)@.update(6, value));
    }

    /// These registers with the constant +1 register set to `value`.
    pub fn with_one(self, value: RegisterSize) -> (r: Self)
        ensures
            r@ == self@.update(6, value),
    {
        let mut r = self;
        r.set_one(value);
        r
    }

    /// The constant -1 register.
    pub fn neg_one(&self) -> (r: RegisterSize)
        ensures
            r == self@[7],
    {
        self.neg_one
    }

    /// Sets the constant -1 register; every other register keeps its value.
    pub fn set_neg_one(&mut self, value: RegisterSize)
        ensures
            final(self)@ == old(self)@.update(7, value),
    {
        self.neg_one = value;
        assert(self@ =~= old(self)@.update(7, value));
    }

    /// These registers with the constant -1 register set to `value`.
    pub fn with_neg_one(self, value: RegisterSize) -> (r: Self)
        ensures
            r@ == self@.update(7, value),
    {
        let mut r = self;
        r.set_neg_one(value);
        r
    }

    /// The address mask register.
    pub fn amask(&self) -> (r: RegisterSize)
        ensures
            r == self@[8],
    {
        self.amask
    }

    /// Sets the address mask register; every other register keeps its value.
    pub fn set_amask(&mut self, value: RegisterSize)
        ensures
            final(self)@ == old(self)@.update(8, value),
    {
        self.amask = value;
        assert(self@ =~= old(self)@.update(8, value));
    }

    /// These registers with the address mask register set to `value`.
    pub fn with_amask(self, value: RegisterSize) -> (r: Self)
        ensures
            r@ == self@.update(8, value),
    {
        let mut r = self;
        r.set_amask(value);
        r
    }

    /// The stack mask register.
    pub fn smask(&self) -> (r: RegisterSize)
        ensures
            r == self@[9],
    {
        self.smask
    }

    /// Sets the stack mask register; every other register keeps its value.
    pub fn set_smask(&mut self, value: RegisterSize)
        ensures
            final(self)@ == old(self)@.update(9, value),
    {
        self.smask = value;
        assert(self@ =~= old(self)@.update(9, value));
    }

    /// These registers with the stack mask register set to `value`.
    pub fn with_smask(self, value: RegisterSize) -> (r: Self)
        ensures
            r@ == self@.update(9, value),
    {
        let mut r = self;
        r.set_smask(value);
        r
    }

    /// The scratch register A.
    pub fn a(&self) -> (r: RegisterSize)
        ensures
            r == self@[10],
    {
        self.a
    }

    /// Sets the scratch register A; every other register keeps its value.
    pub fn set_a(&mut self, value: RegisterSize)
        ensures
            final(self)@ == old(self)@.update(10, value),
    {
        self.a = value;
        assert(self@ =~= old(self)@.update(10, value));
    }

    /// These registers with the scratch register A set to `value`.
    pub fn with_a(self, value: RegisterSize) -> (r: Self)
        ensures
            r@ == self@.update(10, value),
    {
        let mut r = self;
        r.set_a(value);
        r
    }

    /// The scratch register B.
    pub fn b(&self) -> (r: RegisterSize)
        ensures
            r == self@[11],
    {
        self.b
    }

    /// Sets the scratch register B; every other register keeps its value.
    pub fn set_b(&mut self, value: RegisterSize)
        ensures
            final(self)@ == old(self)@.update(11, value),
    {
        self.b = value;
        assert(self@ =~= old(self)@.update(11, value));
    }

    /// These registers with the scratch register B set to `value`.
    pub fn with_b(self, value: RegisterSize) -> (r: Self)
        ensures
            r@ == self@.update(11, value),
    {
        let mut r = self;
        r.set_b(value);
        r
    }

    /// The scratch register C.
    pub fn c(&self) -> (r: RegisterSize)
        ensures
            r == self@[12],
    {
        self.c
    }

    /// Sets the scratch register C; every other register keeps its value.
    pub fn set_c(&mut self, value: RegisterSize)
        ensures
            final(self)@ == old(self)@.update(12, value),
    {
        self.c = value;
        assert(self@ =~= old(self)@.update(12, value));
    }

    /// These registers with the scratch register C set to `value`.
    pub fn with_c(self, value: RegisterSize) -> (r: Self)
        ensures
            r@ == self@.update(12, value),
    {
        let mut r = self;
        r.set_c(value);
        r
    }

    /// The scratch register D.
    pub fn d(&self) -> (r: RegisterSize)
        ensures
            r == self@[13],
    {
        self.d
    }

    /// Sets the scratch register D; every other register keeps its value.
    pub fn set_d(&mut self, value: RegisterSize)
        ensures
            final(self)@ == old(self)@.update(13, value),
    {
        self.d = value;
        assert(self@ =~= old(self)@.update(13, value));
    }

    /// These registers with the scratch register D set to `value`.
    pub fn with_d(self, value: RegisterSize) -> (r: Self)
        ensures
            r@ == self@.update(13, value),
    {
        let mut r = self;
        r.set_d(value);
        r
    }

    /// The scratch register E.
    pub fn e(&self) -> (r: RegisterSize)
        ensures
            r == self@[14],
    {
        self.e
    }

    /// Sets the scratch register E; every other register keeps its value.
    pub fn set_e(&mut self, value: RegisterSize)
        ensures
            final(self)@ == old(self)@.update(14, value),
    {
        self.e = value;
        assert(self@ =~= old(self)@.update(14, value));
    }

    /// These registers with the scratch register E set to `value`.
    pub fn with_e(self, value: RegisterSize) -> (r: Self)
        ensures
            r@ == self@.update(14, value),
    {
        let mut r = self;
        r.set_e(value);
        r
    }

    /// The scratch register F.
    pub fn f(&self) -> (r: RegisterSize)
        ensures
            r == self@[15],
    {
        self.f
    }

    /// Sets the scratch register F; every other register keeps its value.
    pub fn set_f(&mut self, value: RegisterSize)
        ensures
            final(self)@ == old(self)@.update(15, value),
    {
        self.f = value;
        assert(self@ =~= old(self)@.update(15, value));
    }

    /// These registers with the scratch register F set to `value`.
    pub fn with_f(self, value: RegisterSize) -> (r: Self)
        ensures
            r@ == self@.update(15, value),
    {
        let mut r = self;
        r.set_f(value);
        r
    }
}

impl Default for Registers {
    fn default() -> (r: Self)
        ensures
            r@ == default_registers(),
    {
        let r = Registers {
            pc: 0,
            ac: 0,
            sp: 0,
            ir: 0,
            tir: 0,
            zero: 0,
            one: 1,
            neg_one: 0xFFFF,
            amask: 0x0FFF,
            smask: 0x00FF,
            a: 0,
            b: 0,
            c: 0,
            d: 0,
            e: 0,
            f: 0,
        };
        assert(r@ =~= default_registers());
        r
    }
}

/// Reading a register gives back the value last written to it, and writing one
/// register leaves every other register as it was.
pub proof fn lemma_read_after_write(regs: Registers, written: u8, value: RegisterSize, read: u8)
    requires
        written < 16,
        read < 16,
    ensures
        regs@.update(written as int, value)[read as int] == if read == written {
            value
        } else {
            regs@[read as int]
        },
        regs@.update(written as int, value).len() == REGISTER_COUNT,
{
    regs.lemma_len();
}

} // verus!
