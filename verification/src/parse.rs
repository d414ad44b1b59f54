//! Parsing of unsigned integers written in binary or decimal digits, with the
//! grammar and error reporting of the standard `from_str_radix`.
use vstd::prelude::*;
use vstd::string::StringSliceAdditionalSpecFns;

verus! {

/// Why a string is not an unsigned integer.
#[derive(Clone, Copy, Debug, PartialEq, Eq, Hash, Structural)]
pub enum IntErrorKind {
    /// The string is empty.
    Empty,
    /// A character is not a digit of the radix, or the string is a lone sign.
    InvalidDigit,
    /// The value is too large for the target type.
    PosOverflow,
}

/// The error of a failed parse.
#[derive(Clone, Copy, Debug, PartialEq, Eq, Hash, Structural)]
pub struct ParseIntError {
    pub kind: IntErrorKind,
}

impl ParseIntError {
    /// Why the parse failed.
    pub fn kind(&self) -> (r: IntErrorKind)
        ensures
            r == self.kind,
    {
        self.kind
    }
}

/// The ASCII code of '+'.
pub const PLUS: u8 = 0x2B;

/// The ASCII code of '-'.
pub const MINUS: u8 = 0x2D;

/// The ASCII code of '0'.
pub const ZERO: u8 = 0x30;

/// Whether byte `c` is a digit of `radix` (at most 10): '0' up to '0' + radix - 1.
pub open spec fn is_digit(c: u8, radix: nat) -> bool {
    ZERO <= c && c < ZERO + radix
}

/// The value of the digit `c`.
pub open spec fn digit_value(c: u8) -> nat {
    (c - ZERO) as nat
}

/// Reads the digits of `rest` onto the value `acc`, left to right; the first
/// character that is not a digit gives `InvalidDigit`, and the first digit that
/// takes the value above `max` gives `PosOverflow`.
pub open spec fn scan_digits(acc: nat, rest: Seq<u8>, radix: nat, max: nat) -> Result<
    nat,
    IntErrorKind,
>
    decreases rest.len(),
{
    if rest.len() == 0 {
        Ok(acc)
    } else if !is_digit(rest[0], radix) {
        Err(IntErrorKind::InvalidDigit)
    } else if acc * radix + digit_value(rest[0]) > max {
        Err(IntErrorKind::PosOverflow)
    } else {
        scan_digits(acc * radix + digit_value(rest[0]), rest.drop_first(), radix, max)
    }
}

/// The unsigned integer that the bytes `s` write in `radix`, if it is at most
/// `max`: an optional leading '+' and then one or more digits. A lone sign is
/// an invalid digit, and so is a leading '-'.
pub open spec fn parse_unsigned(s: Seq<u8>, radix: nat, max: nat) -> Result<nat, IntErrorKind> {
    if s.len() == 0 {
        Err(IntErrorKind::Empty)
    } else if (s[0] == PLUS || s[0] == MINUS) && s.len() == 1 {
        Err(IntErrorKind::InvalidDigit)
    } else if s[0] == PLUS {
        scan_digits(0, s.drop_first(), radix, max)
    } else {
        scan_digits(0, s, radix, max)
    }
}

/// What a successful scan gives is at most `max`.
proof fn lemma_scan_bounded(acc: nat, rest: Seq<u8>, radix: nat, max: nat)
    requires
        acc <= max,
    ensures
        scan_digits(acc, rest, radix, max) matches Ok(v) ==> v <= max,
    decreases rest.len(),
{
    if rest.len() > 0 && is_digit(rest[0], radix) && acc * radix + digit_value(rest[0]) <= max {
        lemma_scan_bounded(acc * radix + digit_value(rest[0]), rest.drop_first(), radix, max);
    }
}

/// The parse of `s` in `radix` (2 up to 10) as a value of at most `max`.
pub fn parse_unsigned_bytes(s: &[u8], radix: u64, max: u64) -> (r: Result<u64, ParseIntError>)
    requires
        2 <= radix <= 10,
    ensures
        match r {
            Ok(v) => parse_unsigned(s@, radix as nat, max as nat) == Ok::<nat, IntErrorKind>(
                v as nat,
            ),
            Err(e) => parse_unsigned(s@, radix as nat, max as nat) == Err::<nat, IntErrorKind>(
                e.kind,
            ),
        },
{
    let n = s.len();
    if n == 0 {
        return Err(ParseIntError { kind: IntErrorKind::Empty });
    }
    if (s[0] == PLUS || s[0] == MINUS) && n == 1 {
        return Err(ParseIntError { kind: IntErrorKind::InvalidDigit });
    }
    let start: usize = if s[0] == PLUS {
        1
    } else {
        0
    };
    let ghost digits = s@.subrange(start as int, n as int);
    assert(start == 1 ==> digits =~= s@.drop_first());
    assert(start == 0 ==> digits =~= s@);
    let mut acc: u64 = 0;
    let mut i: usize = start;
    while i < n
        invariant
            start <= i <= n,
            n == s@.len(),
            2 <= radix <= 10,
            acc <= max,
            digits == s@.subrange(start as int, n as int),
            parse_unsigned(s@, radix as nat, max as nat) == scan_digits(
                0,
                digits,
                radix as nat,
                max as nat,
            ),
            scan_digits(0, digits, radix as nat, max as nat) == scan_digits(
                acc as nat,
                s@.subrange(i as int, n as int),
                radix as nat,
                max as nat,
            ),
        decreases n - i,
    {
        let ghost rest = s@.subrange(i as int, n as int);
        assert(rest[0] == s@[i as int]);
        assert(rest.drop_first() =~= s@.subrange(i as int + 1, n as int));
        let c = s[i];
        if c < ZERO || c >= ZERO + (radix as u8) {
            return Err(ParseIntError { kind: IntErrorKind::InvalidDigit });
        }
        let d = (c - ZERO) as u64;
        let next = match acc.checked_mul(radix) {
            Some(m) => m.checked_add(d),
            None => None,
        };
        match next {
            Some(v) => {
                if v > max {
                    return Err(ParseIntError { kind: IntErrorKind::PosOverflow });
                }
                acc = v;
            },
            None => {
                assert(acc * radix + d > max);
                return Err(ParseIntError { kind: IntErrorKind::PosOverflow });
            },
        }
        i = i + 1;
    }
    assert(s@.subrange(n as int, n as int).len() == 0);
    Ok(acc)
}

/// The value of the binary digits of `s` as a 16-bit word.
pub fn parse_binary_u16(s: &str) -> (r: Result<u16, ParseIntError>)
    ensures
        match r {
            Ok(v) => parse_unsigned(s.spec_bytes(), 2, u16::MAX as nat) == Ok::<
                nat,
                IntErrorKind,
            >(v as nat),
            Err(e) => parse_unsigned(s.spec_bytes(), 2, u16::MAX as nat) == Err::<
                nat,
                IntErrorKind,
            >(e.kind),
        },
{
    let bytes = s.as_bytes();
    match parse_unsigned_bytes(bytes, 2, 0xFFFF) {
        Ok(v) => {
            proof {
                lemma_parse_bounded(bytes@, 2, 0xFFFF);
            }
            Ok(v as u16)
        },
        Err(e) => Err(e),
    }
}

/// The value of the binary digits of `s` as a 32-bit word.
pub fn parse_binary_u32(s: &str) -> (r: Result<u32, ParseIntError>)
    ensures
        match r {
            Ok(v) => parse_unsigned(s.spec_bytes(), 2, u32::MAX as nat) == Ok::<
                nat,
                IntErrorKind,
            >(v as nat),
            Err(e) => parse_unsigned(s.spec_bytes(), 2, u32::MAX as nat) == Err::<
                nat,
                IntErrorKind,
            >(e.kind),
        },
{
    let bytes = s.as_bytes();
    match parse_unsigned_bytes(bytes, 2, 0xFFFF_FFFF) {
        Ok(v) => {
            proof {
                lemma_parse_bounded(bytes@, 2, 0xFFFF_FFFF);
            }
            Ok(v as u32)
        },
        Err(e) => Err(e),
    }
}

/// The value of the decimal digits of `s` as a `usize`.
pub fn parse_decimal_usize(s: &str) -> (r: Result<usize, ParseIntError>)
    ensures
        match r {
            Ok(v) => parse_unsigned(s.spec_bytes(), 10, usize::MAX as nat) == Ok::<
                nat,
                IntErrorKind,
            >(v as nat),
            Err(e) => parse_unsigned(s.spec_bytes(), 10, usize::MAX as nat) == Err::<
                nat,
                IntErrorKind,
            >(e.kind),
        },
{
    let bytes = s.as_bytes();
    let max = usize::MAX as u64;
    match parse_unsigned_bytes(bytes, 10, max) {
        Ok(v) => {
            proof {
                lemma_parse_bounded(bytes@, 10, max as nat);
            }
            Ok(v as usize)
        },
        Err(e) => Err(e),
    }
}

/// What a successful parse gives is at most `max`.
pub proof fn lemma_parse_bounded(s: Seq<u8>, radix: nat, max: nat)
    ensures
        parse_unsigned(s, radix, max) matches Ok(v) ==> v <= max,
{
    if s.len() > 0 {
        lemma_scan_bounded(0, s.drop_first(), radix, max);
        lemma_scan_bounded(0, s, radix, max);
    }
}

} // verus!
