//! The decisions of the interactive debugger that runs between halts: what a
//! typed line asks for, which memory locations to show, and which state the
//! debugger moves to next.
use crate::machine::emulator::MachineState;
use crate::parse::{parse_decimal_usize, parse_unsigned};
use vstd::prelude::*;
use vstd::string::StringSliceAdditionalSpecFns;

verus! {

/// A choice at the main prompt.
#[derive(Debug, Clone, PartialEq, Eq)]
pub enum MenuOptions {
    Quit,
    Continue,
    ViewMicrocode,
    ViewMemory(usize),
}

/// A choice at the memory prompt.
#[derive(Debug, Clone, PartialEq, Eq)]
pub enum MemorySubmenuOptions {
    Forward { indices: Vec<usize> },
    Backward { indices: Vec<usize> },
    Quit,
    Continue,
}

/// What a line typed at the memory prompt asks for, before any count is read.
#[derive(Debug, Clone, Copy, PartialEq, Eq, Structural)]
pub enum SubmenuCommand {
    Continue,
    Quit,
    Forward,
    Backward,
    Unknown,
}

/// The states of the debugger.
#[derive(Debug, Clone, PartialEq, Eq)]
pub enum EmulatorState {
    Init,
    Processing,
    Menu,
    MemoryMenu(usize),
    DisplayMemory(Vec<usize>),
    DisplayMicrocode,
    ShowPC,
    Stats,
    Quit,
}

/// Whether the bytes are the one letter whose lower case is `lower` and upper case `upper`.
pub open spec fn is_letter(bytes: Seq<u8>, lower: u8, upper: u8) -> bool {
    bytes == seq![lower] || bytes == seq![upper]
}

/// Whether `line` is the single letter `lower` in either case.
fn line_is_letter(line: &str, lower: u8, upper: u8) -> (r: bool)
    ensures
        r == is_letter(line.spec_bytes(), lower, upper),
{
    let bytes = line.as_bytes();
    if bytes.len() == 1 {
        let r = bytes[0] == lower || bytes[0] == upper;
        assert(r ==> (bytes@ =~= seq![lower] || bytes@ =~= seq![upper]));
        r
    } else {
        false
    }
}

/// The choice at the main prompt that the (trimmed) line `line` makes:
/// "q" quits, "c" continues, "m" shows the microcode when `debug` is set
/// (letters in either case); anything else views memory at the decimal
/// address it writes, or at 0 when it is not one.
pub open spec fn menu_choice(bytes: Seq<u8>, debug: bool) -> MenuOptions {
    if is_letter(bytes, 0x71, 0x51) {
        MenuOptions::Quit
    } else if is_letter(bytes, 0x63, 0x43) {
        MenuOptions::Continue
    } else if debug && is_letter(bytes, 0x6D, 0x4D) {
        MenuOptions::ViewMicrocode
    } else {
        MenuOptions::ViewMemory(
            match parse_unsigned(bytes, 10, usize::MAX as nat) {
                Ok(v) => v as usize,
                Err(_) => 0,
            },
        )
    }
}

/// The letters the prompts name select their choices, in either case, and
/// nothing else does: at the memory prompt the empty line continues, "q" or
/// "Q" quits, "f" or "F" asks for a forward range and "b" or "B" for a
/// backward one; at the main prompt "q"/"Q" quits, "c"/"C" continues, and
/// "m"/"M" shows the microcode in a debug build.
pub proof fn lemma_prompt_letters(bytes: Seq<u8>, debug: bool)
    ensures
        (submenu_choice(bytes) == SubmenuCommand::Continue) <==> bytes.len() == 0,
        (submenu_choice(bytes) == SubmenuCommand::Quit) <==> (bytes == seq!['q' as u8] || bytes
            == seq!['Q' as u8]),
        (submenu_choice(bytes) == SubmenuCommand::Forward) <==> (bytes == seq!['f' as u8]
            || bytes == seq!['F' as u8]),
        (submenu_choice(bytes) == SubmenuCommand::Backward) <==> (bytes == seq!['b' as u8]
            || bytes == seq!['B' as u8]),
        (menu_choice(bytes, debug) == MenuOptions::Quit) <==> (bytes == seq!['q' as u8] || bytes
            == seq!['Q' as u8]),
        (menu_choice(bytes, debug) == MenuOptions::Continue) <==> (bytes == seq!['c' as u8]
            || bytes == seq!['C' as u8]),
        (menu_choice(bytes, debug) == MenuOptions::ViewMicrocode) <==> (debug && (bytes
            == seq!['m' as u8] || bytes == seq!['M' as u8])),
{
    assert('q' as u8 == 0x71u8 && 'Q' as u8 == 0x51u8 && 'f' as u8 == 0x66u8 && 'F' as u8
        == 0x46u8 && 'b' as u8 == 0x62u8 && 'B' as u8 == 0x42u8 && 'c' as u8 == 0x63u8 && 'C' as u8
        == 0x43u8 && 'm' as u8 == 0x6Du8 && 'M' as u8 == 0x4Du8);
    if bytes.len() == 1 {
        if bytes[0] == 0x71u8 {
            assert(bytes =~= seq![0x71u8]);
        } else if bytes[0] == 0x51u8 {
            assert(bytes =~= seq![0x51u8]);
        } else if bytes[0] == 0x66u8 {
            assert(bytes =~= seq![0x66u8]);
        } else if bytes[0] == 0x46u8 {
            assert(bytes =~= seq![0x46u8]);
        } else if bytes[0] == 0x62u8 {
            assert(bytes =~= seq![0x62u8]);
        } else if bytes[0] == 0x42u8 {
            assert(bytes =~= seq![0x42u8]);
        } else if bytes[0] == 0x63u8 {
            assert(bytes =~= seq![0x63u8]);
        } else if bytes[0] == 0x43u8 {
            assert(bytes =~= seq![0x43u8]);
        } else if bytes[0] == 0x6Du8 {
            assert(bytes =~= seq![0x6Du8]);
        } else if bytes[0] == 0x4Du8 {
            assert(bytes =~= seq![0x4Du8]);
        }
    }
}

/// The choice at the main prompt; see `menu_choice`.
pub fn main_menu_choice(line: &str, debug: bool) -> (r: MenuOptions)
    ensures
        r == menu_choice(line.spec_bytes(), debug),
{
    if line_is_letter(line, 0x71, 0x51) {
        MenuOptions::Quit
    } else if line_is_letter(line, 0x63, 0x43) {
        MenuOptions::Continue
    } else if debug && line_is_letter(line, 0x6D, 0x4D) {
        MenuOptions::ViewMicrocode
    } else {
        let index = match parse_decimal_usize(line) {
            Ok(v) => v,
            Err(_) => 0,
        };
        MenuOptions::ViewMemory(index)
    }
}

/// What the (trimmed) line asks for at the memory prompt: the empty line
/// continues, "q" quits, "f" and "b" ask for a forward or backward range
/// (letters in either case).
pub open spec fn submenu_choice(bytes: Seq<u8>) -> SubmenuCommand {
    if bytes.len() == 0 {
        SubmenuCommand::Continue
    } else if is_letter(bytes, 0x71, 0x51) {
        SubmenuCommand::Quit
    } else if is_letter(bytes, 0x66, 0x46) {
        SubmenuCommand::Forward
    } else if is_letter(bytes, 0x62, 0x42) {
        SubmenuCommand::Backward
    } else {
        SubmenuCommand::Unknown
    }
}

/// What the line asks for at the memory prompt; see `submenu_choice`.
pub fn submenu_command(line: &str) -> (r: SubmenuCommand)
    ensures
        r == submenu_choice(line.spec_bytes()),
{
    if line.as_bytes().len() == 0 {
        SubmenuCommand::Continue
    } else if line_is_letter(line, 0x71, 0x51) {
        SubmenuCommand::Quit
    } else if line_is_letter(line, 0x66, 0x46) {
        SubmenuCommand::Forward
    } else if line_is_letter(line, 0x62, 0x42) {
        SubmenuCommand::Backward
    } else {
        SubmenuCommand::Unknown
    }
}

/// The number of locations that the (trimmed) line asks for: its decimal
/// value, or nothing when it is not one.
pub fn memory_steps(line: &str) -> (r: Option<usize>)
    ensures
        match parse_unsigned(line.spec_bytes(), 10, usize::MAX as nat) {
            Ok(v) => r == Some(v as usize),
            Err(_) => r is None,
        },
{
    match parse_decimal_usize(line) {
        Ok(v) => Some(v),
        Err(_) => None,
    }
}

/// The consecutive addresses from `lo` up to `hi`, both included.
pub open spec fn ascending(lo: int, hi: int) -> Seq<usize> {
    Seq::new(if hi >= lo { (hi - lo + 1) as nat } else { 0 }, |k: int| (lo + k) as usize)
}

/// The addresses of a forward dump of `steps` locations after `start`: from
/// `start + 1` (or `start` itself when that is the largest address) up to
/// `start + steps`.
pub open spec fn forward_range(start: usize, steps: usize) -> Seq<usize> {
    let lo = if start == usize::MAX {
        start as int
    } else {
        start + 1
    };
    ascending(lo, start + steps)
}

/// The addresses of a forward dump; `start + steps` must fit in a `usize`.
pub fn forward_indices(start: usize, steps: usize) -> (r: Vec<usize>)
    requires
        start + steps <= usize::MAX,
    ensures
        r@ == forward_range(start, steps),
{
    let lo = start.saturating_add(1);
    let hi = start + steps;
    let mut indices: Vec<usize> = Vec::new();
    if lo > hi {
        assert(indices@ =~= forward_range(start, steps));
        return indices;
    }
    let mut i = lo;
    loop
        invariant_except_break
            lo <= i <= hi,
            indices@ == ascending(lo as int, i - 1),
        invariant
            lo == if start == usize::MAX { start as int } else { start + 1 },
            hi == start + steps,
        ensures
            indices@ == ascending(lo as int, hi as int),
        decreases hi - i,
    {
        indices.push(i);
        assert(indices@ =~= ascending(lo as int, i as int));
        if i == hi {
            break;
        }
        i = i + 1;
    }
    indices
}

/// The addresses of a backward dump of `steps` locations before `start`:
/// from `start - 1` down to `start - steps`, stopping at 0.
pub open spec fn backward_range(start: usize, steps: usize) -> Seq<usize> {
    let lo = if steps > start {
        0
    } else {
        start - steps
    };
    Seq::new((start - lo) as nat, |k: int| (start - 1 - k) as usize)
}

/// The addresses of a backward dump; see `backward_range`.
pub fn backward_indices(start: usize, steps: usize) -> (r: Vec<usize>)
    ensures
        r@ == backward_range(start, steps),
{
    let lo = start.saturating_sub(steps);
    let mut indices: Vec<usize> = Vec::new();
    let mut i = start;
    while i > lo
        invariant
            lo <= i <= start,
            lo == if steps > start { 0 } else { start - steps },
            indices@ == Seq::new((start - i) as nat, |k: int| (start - 1 - k) as usize),
        decreases i,
    {
        i = i - 1;
        indices.push(i);
        assert(indices@ =~= Seq::new((start - i) as nat, |k: int| (start - 1 - k) as usize));
    }
    indices
}

/// A forward dump after `start` shows exactly `steps` locations, the ones
/// right after `start`; a backward dump shows the `steps` locations right
/// before `start`, or all of them down to 0 when there are fewer.
pub proof fn lemma_dump_ranges(start: usize, steps: usize)
    ensures
        start < usize::MAX && start + steps <= usize::MAX ==> forward_range(start, steps).len()
            == steps && forall|k: int|
            0 <= k < steps ==> #[trigger] forward_range(start, steps)[k] == start + 1 + k,
        backward_range(start, steps).len() == if steps < start {
            steps as int
        } else {
            start as int
        },
        forall|k: int|
            0 <= k < backward_range(start, steps).len() ==> #[trigger] backward_range(
                start,
                steps,
            )[k] == start - 1 - k,
{
}

/// The choice at the memory prompt for location `start`, given the command
/// typed and, for a range, the count read next (`None` when it was not a
/// number). `None` stands for a line that asks for nothing known. A forward
/// range needs `start + steps` to fit in a `usize`.
pub fn memory_submenu_choice(start: usize, command: SubmenuCommand, steps: Option<usize>) -> (r: Option<MemorySubmenuOptions>)
    requires
        command is Forward && steps is Some ==> start + steps->0 <= usize::MAX,
    ensures
        match command {
            SubmenuCommand::Continue => r == Some(MemorySubmenuOptions::Continue),
            SubmenuCommand::Quit => r == Some(MemorySubmenuOptions::Quit),
            SubmenuCommand::Forward => match steps {
                Some(n) => r matches Some(MemorySubmenuOptions::Forward { indices }) && indices@
                    == forward_range(start, n),
                None => r is None,
            },
            SubmenuCommand::Backward => match steps {
                Some(n) => r matches Some(MemorySubmenuOptions::Backward { indices }) && indices@
                    == backward_range(start, n),
                None => r is None,
            },
            SubmenuCommand::Unknown => r is None,
        },
{
    match command {
        SubmenuCommand::Continue => Some(MemorySubmenuOptions::Continue),
        SubmenuCommand::Quit => Some(MemorySubmenuOptions::Quit),
        SubmenuCommand::Forward => match steps {
            Some(n) => Some(MemorySubmenuOptions::Forward { indices: forward_indices(start, n) }),
            None => None,
        },
        SubmenuCommand::Backward => match steps {
            Some(n) => Some(MemorySubmenuOptions::Backward { indices: backward_indices(start, n) }),
            None => None,
        },
        SubmenuCommand::Unknown => None,
    }
}

/// The state after the main prompt.
pub fn state_after_menu(choice: MenuOptions) -> (r: EmulatorState)
    ensures
        r == match choice {
            MenuOptions::Quit => EmulatorState::Quit,
            MenuOptions::Continue => EmulatorState::ShowPC,
            MenuOptions::ViewMicrocode => EmulatorState::DisplayMicrocode,
            MenuOptions::ViewMemory(index) => EmulatorState::MemoryMenu(index),
        },
{
    match choice {
        MenuOptions::Quit => EmulatorState::Quit,
        MenuOptions::Continue => EmulatorState::ShowPC,
        MenuOptions::ViewMicrocode => EmulatorState::DisplayMicrocode,
        MenuOptions::ViewMemory(index) => EmulatorState::MemoryMenu(index),
    }
}

/// The state after the memory prompt: a range is displayed, "q" quits, and
/// anything else goes back to the main prompt.
pub fn state_after_submenu(choice: Option<MemorySubmenuOptions>) -> (r: EmulatorState)
    ensures
        r == match choice {
            Some(MemorySubmenuOptions::Forward { indices }) => EmulatorState::DisplayMemory(
                indices,
            ),
            Some(MemorySubmenuOptions::Backward { indices }) => EmulatorState::DisplayMemory(
                indices,
            ),
            Some(MemorySubmenuOptions::Quit) => EmulatorState::Quit,
            _ => EmulatorState::Menu,
        },
{
    match choice {
        Some(MemorySubmenuOptions::Forward { indices }) => EmulatorState::DisplayMemory(indices),
        Some(MemorySubmenuOptions::Backward { indices }) => EmulatorState::DisplayMemory(indices),
        Some(MemorySubmenuOptions::Quit) => EmulatorState::Quit,
        _ => EmulatorState::Menu,
    }
}

/// The state after a clock pulse: statistics once the machine halts, else
/// more processing.
pub fn state_after_pulse(state: MachineState) -> (r: EmulatorState)
    ensures
        r == match state {
            MachineState::Halted => EmulatorState::Stats,
            MachineState::Running => EmulatorState::Processing,
        },
{
    match state {
        MachineState::Halted => EmulatorState::Stats,
        MachineState::Running => EmulatorState::Processing,
    }
}

} // verus!
