//! Text helpers for reading program images.
use vstd::prelude::*;

verus! {

/// Whether `c` has the Unicode White_Space property.
pub open spec fn is_white_space(c: char) -> bool {
    let v = c as u32;
    ||| 0x09 <= v <= 0x0D
    ||| v == 0x20
    ||| v == 0x85
    ||| v == 0xA0
    ||| v == 0x1680
    ||| 0x2000 <= v <= 0x200A
    ||| v == 0x2028
    ||| v == 0x2029
    ||| v == 0x202F
    ||| v == 0x205F
    ||| v == 0x3000
}

/// Whether `c` has the Unicode White_Space property.
pub fn char_is_whitespace(c: char) -> (r: bool)
    ensures
        r == is_white_space(c),
{
    let v = c as u32;
    (0x09 <= v && v <= 0x0D) || v == 0x20 || v == 0x85 || v == 0xA0 || v == 0x1680 || (0x2000
        <= v && v <= 0x200A) || v == 0x2028 || v == 0x2029 || v == 0x202F || v == 0x205F || v
        == 0x3000
}

/// Whether `line` holds nothing but white space (the empty line included).
pub open spec fn is_blank_line(line: Seq<char>) -> bool {
    forall|i: int| 0 <= i < line.len() ==> #[trigger] is_white_space(line[i])
}

/// Whether `line` holds nothing but white space (the empty line included).
pub fn is_blank(line: &str) -> (r: bool)
    ensures
        r == is_blank_line(line@),
{
    let n = line.unicode_len();
    let mut i: usize = 0;
    while i < n
        invariant
            i <= n,
            n == line@.len(),
            forall|j: int| 0 <= j < i ==> #[trigger] is_white_space(line@[j]),
        decreases n - i,
    {
        if !char_is_whitespace(line.get_char(i)) {
            return false;
        }
        i = i + 1;
    }
    true
}

} // verus!
