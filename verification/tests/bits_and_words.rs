use emulator::io::{IOBits, MoloneyIOBits};
use emulator::machine::clock::{Clock, Subtick};
use emulator::machine::microcode::{Jump, MicroInstruction, Operation, Shift};
use emulator::memory::traits::FromBinaryStr;
use emulator::parse::{parse_binary_u16, parse_binary_u32, parse_decimal_usize, IntErrorKind};
use emulator::registers::Registers;

#[test]
fn io_bits_flags_and_setters() {
    let bits = MoloneyIOBits::from_bits(0b1010);
    assert!(bits.on());
    assert!(!bits.interupt());
    assert!(bits.done());
    assert!(!bits.busy());
    assert!(bits.can_read());
    assert!(bits.can_write());
    let busy = bits.with_busy(true);
    assert_eq!(busy.into_bits(), 0b1011);
    assert!(!busy.can_write());
    assert_eq!(busy.with_busy(false).into_bits(), 0b1010);
    assert_eq!(bits.with_on(false).into_bits(), 0b0010);
    assert_eq!(bits.with_interupt(true).into_bits(), 0b1110);
    assert_eq!(bits.with_done(false).into_bits(), 0b1000);
    assert_eq!(IOBits::default().into_bits(), 0);
}

#[test]
fn io_bits_keep_padding() {
    let bits = MoloneyIOBits::from_bits(0xABC0);
    assert_eq!(bits.with_on(true).with_done(true).into_bits(), 0xABCA);
    assert!(!bits.on());
    assert!(!bits.can_read());
}

fn word(
    amux: u32,
    cond: u32,
    alu: u32,
    sh: u32,
    mbr: u32,
    mar: u32,
    rd: u32,
    wr: u32,
    enc: u32,
    c: u32,
    b: u32,
    a: u32,
    addr: u32,
) -> u32 {
    (amux << 31)
        | (cond << 29)
        | (alu << 27)
        | (sh << 25)
        | (mbr << 24)
        | (mar << 23)
        | (rd << 22)
        | (wr << 21)
        | (enc << 20)
        | (c << 16)
        | (b << 12)
        | (a << 8)
        | addr
}

#[test]
fn micro_instruction_fields() {
    let mi = MicroInstruction::from_bits(word(1, 2, 3, 1, 1, 0, 1, 0, 1, 9, 5, 12, 200));
    assert!(mi.amux());
    assert_eq!(mi.cond(), Jump::Zero);
    assert_eq!(mi.alu(), Operation::Invert);
    assert_eq!(mi.sh(), Shift::Right);
    assert!(mi.mbr());
    assert!(!mi.mar());
    assert!(mi.rd());
    assert!(!mi.wr());
    assert!(mi.enc());
    assert_eq!(mi.c(), 9);
    assert_eq!(mi.b(), 5);
    assert_eq!(mi.a(), 12);
    assert_eq!(mi.addr(), 200);
}

#[test]
fn micro_instruction_unused_shift_code_is_no_shift() {
    let mi = MicroInstruction::from_bits(word(0, 0, 0, 3, 0, 0, 0, 0, 0, 0, 0, 0, 0));
    assert_eq!(mi.sh(), Shift::NoShift);
    assert_eq!(Shift::from_bits(2), Shift::Left);
    assert_eq!(Jump::from_bits(1), Jump::Negative);
    assert_eq!(Operation::from_bits(2), Operation::Assign);
    assert_eq!(Operation::Invert.into_bits(), 3);
}

#[test]
fn default_micro_instruction_halts() {
    let mi = MicroInstruction::default();
    assert_eq!(mi.into_bits(), 0x0060_0000);
    assert!(mi.rd());
    assert!(mi.wr());
    assert!(!mi.enc());
    assert_eq!(mi.cond(), Jump::NoJump);
}

#[test]
fn micro_instruction_from_binary_str() {
    let mi = MicroInstruction::from_binary_str("00010000000000000110000100000000").unwrap();
    assert_eq!(mi.into_bits(), 0x1000_6100);
    assert_eq!(mi.alu(), Operation::Assign);
    assert_eq!(mi.b(), 6);
    assert_eq!(mi.a(), 1);
    assert!(MicroInstruction::from_binary_str("102").is_err());
}

#[test]
fn parse_binary_words() {
    assert_eq!(parse_binary_u16("0000000000000101"), Ok(5));
    assert_eq!(parse_binary_u16("+11"), Ok(3));
    assert_eq!(parse_binary_u16("1111111111111111"), Ok(0xFFFF));
    assert_eq!(parse_binary_u16("00000000000000000001"), Ok(1));
    assert_eq!(parse_binary_u16("").unwrap_err().kind(), IntErrorKind::Empty);
    assert_eq!(parse_binary_u16("+").unwrap_err().kind(), IntErrorKind::InvalidDigit);
    assert_eq!(parse_binary_u16("-").unwrap_err().kind(), IntErrorKind::InvalidDigit);
    assert_eq!(parse_binary_u16("-1").unwrap_err().kind(), IntErrorKind::InvalidDigit);
    assert_eq!(parse_binary_u16("12").unwrap_err().kind(), IntErrorKind::InvalidDigit);
    assert_eq!(parse_binary_u16(" 1").unwrap_err().kind(), IntErrorKind::InvalidDigit);
    assert_eq!(
        parse_binary_u16("10000000000000000").unwrap_err().kind(),
        IntErrorKind::PosOverflow
    );
    assert_eq!(parse_binary_u32("11111111111111111111111111111111"), Ok(u32::MAX));
    assert_eq!(u16::from_binary_str("101"), Ok(5));
}

#[test]
fn parse_binary_reports_first_problem() {
    // An overflow comes before the bad digit that follows it.
    assert_eq!(
        parse_binary_u16("100000000000000002").unwrap_err().kind(),
        IntErrorKind::PosOverflow
    );
    // A bad digit comes before the overflow that would follow it.
    assert_eq!(
        parse_binary_u16("2100000000000000000").unwrap_err().kind(),
        IntErrorKind::InvalidDigit
    );
}

#[test]
fn parse_decimal() {
    assert_eq!(parse_decimal_usize("4095"), Ok(4095));
    assert_eq!(parse_decimal_usize("+7"), Ok(7));
    assert_eq!(parse_decimal_usize("18446744073709551615"), Ok(usize::MAX));
    assert_eq!(
        parse_decimal_usize("18446744073709551616").unwrap_err().kind(),
        IntErrorKind::PosOverflow
    );
    assert_eq!(parse_decimal_usize("4a").unwrap_err().kind(), IntErrorKind::InvalidDigit);
}

#[test]
fn registers_default_constants() {
    let r = Registers::default();
    assert_eq!(r.read_from_reg(5), 0);
    assert_eq!(r.read_from_reg(6), 1);
    assert_eq!(r.read_from_reg(7), 0xFFFF);
    assert_eq!(r.read_from_reg(8), 0x0FFF);
    assert_eq!(r.read_from_reg(9), 0x00FF);
    assert_eq!(r.pc(), 0);
    assert_eq!(r.neg_one(), u16::MAX);
}

#[test]
fn registers_read_after_write() {
    let mut r = Registers::default();
    r.write_to_reg(3, 42);
    assert_eq!(r.read_from_reg(3), 42);
    assert_eq!(r.ir(), 42);
    assert_eq!(r.read_from_reg(6), 1);
    r.write_to_reg(15, 7);
    assert_eq!(r.f(), 7);
    let r = r.with_sp(0x0F80).with_pc(3);
    assert_eq!(r.sp(), 0x0F80);
    assert_eq!(r.read_from_reg(0), 3);
    let values: [u16; 16] = core::array::from_fn(|i| i as u16 * 2);
    let r = Registers::from_array(values);
    assert_eq!(r.read_from_reg(10), 20);
    assert_eq!(r.smask(), 18);
}

#[test]
fn subtick_cycle() {
    let s = Subtick::default();
    assert_eq!(s, Subtick::Load);
    assert_eq!(s.next_tick(), Subtick::Gate);
    assert_eq!(s.next_tick().next_tick(), Subtick::Operation);
    assert_eq!(s.next_tick().next_tick().next_tick(), Subtick::Store);
    assert_eq!(s.next_tick().next_tick().next_tick().next_tick(), Subtick::Load);
    assert!(s.is_load());
    assert!(Subtick::Store.is_store());
}

#[test]
fn clock_four_pulses_make_a_cycle() {
    let mut c = Clock::default();
    assert_eq!(c.tick(), 1);
    for expected in [Subtick::Gate, Subtick::Operation, Subtick::Store] {
        c.pulse();
        assert_eq!(c.subtick(), expected);
        assert_eq!(c.tick(), 1);
    }
    c.pulse();
    assert_eq!(c.subtick(), Subtick::Load);
    assert_eq!(c.tick(), 2);
}

#[test]
fn fields_rebuild_the_word() {
    let w = word(1, 1, 2, 2, 0, 1, 0, 1, 1, 15, 0, 3, 77);
    let mi = MicroInstruction::from_bits(w);
    let rebuilt = word(
        mi.amux() as u32,
        mi.cond().into_bits() as u32,
        mi.alu().into_bits() as u32,
        mi.sh().into_bits() as u32,
        mi.mbr() as u32,
        mi.mar() as u32,
        mi.rd() as u32,
        mi.wr() as u32,
        mi.enc() as u32,
        mi.c() as u32,
        mi.b() as u32,
        mi.a() as u32,
        mi.addr() as u32,
    );
    assert_eq!(rebuilt, w);
}
