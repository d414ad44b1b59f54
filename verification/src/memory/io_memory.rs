//! The main memory of the Mic-1: 4096 words, the top four of which are the
//! registers of a character receiver and a character transmitter.
pub mod access;

use crate::io::{flag, with_flag, IOBits, BUSY_MASK, DONE_MASK, ON_MASK};
use crate::memory::io_memory::access::LineAccessor;
use crate::memory::mutable::MutableMemory;
use crate::memory::traits::{Memory, ReadableMemory, WritableMemory};
use crate::parse::ParseIntError;
use std::collections::VecDeque;
use vstd::prelude::*;
use vstd::string::StringSliceAdditionalSpecFns;
use vstd::utf8::{decode_utf8, encode_utf8, valid_utf8};

verus! {

/// Number of words of main memory.
pub const MEMORY_SIZE: usize = 0x1000;

/// Address of the transmitter's status word.
pub const TRANSMITTER_STATUS_ADDRESS: usize = 0xFFF;

/// Address of the transmitter's data word.
pub const TRANSMITTER_ADDRESS: usize = 0xFFE;

/// Address of the receiver's status word.
pub const RECEIVER_STATUS_ADDRESS: usize = 0xFFD;

/// Address of the receiver's data word.
pub const RECEIVER_ADDRESS: usize = 0xFFC;

/// Why an access to main memory failed.
#[derive(Clone, Debug, PartialEq, Eq)]
pub enum IOMemoryError {
    /// The address is past the end of memory.
    OutOfBounds(usize),
    /// No characters could be had for the receiver.
    NoCharacters,
    /// A line of the memory image is not a word of binary digits.
    LineParse(ParseIntError),
    /// A memory image of the wrong size.
    ConstructFromVec(Vec<u16>),
    /// The transmitted byte is not a character on its own.
    WriteFail,
}

/// The state of main memory: its words, the characters waiting for the
/// receiver (`None` marks a character that has already been delivered), and
/// the lines handed to the outside world so far.
#[verifier::ext_equal]
pub struct IOMemoryView {
    pub cells: Seq<u16>,
    pub input: Seq<Option<u8>>,
    pub sent: Seq<Seq<char>>,
}

/// Main memory with its two character devices.
pub struct IOMemory<A: LineAccessor<String>> {
    memory: MutableMemory<u16, MEMORY_SIZE>,
    input_buf: VecDeque<Option<u8>>,
    line_accessor: A,
    sent: Ghost<Seq<Seq<char>>>,
    received: Ghost<Seq<Seq<char>>>,
}

impl<A: LineAccessor<String>> View for IOMemory<A> {
    type V = IOMemoryView;

    closed spec fn view(&self) -> IOMemoryView {
        IOMemoryView { cells: self.memory@, input: self.input_buf@, sent: self.sent@ }
    }
}

/// Whether a device with status word `status` takes a character: it is on and not busy.
pub open spec fn accepts(status: u16) -> bool {
    flag(status, ON_MASK) && !flag(status, BUSY_MASK)
}

/// A status word after a transfer: not busy, done.
pub open spec fn finished(status: u16) -> u16 {
    with_flag(with_flag(status, BUSY_MASK, false), DONE_MASK, true)
}

/// What a device keeps of a word written to its status address: a word
/// with the "on" flag becomes finished, any other word clears the status.
pub open spec fn status_written(value: u16) -> u16 {
    if flag(value, ON_MASK) {
        finished(value)
    } else {
        0
    }
}

/// The byte that the transmitter sends for the word `value`: its low eight bits.
pub open spec fn transmitted_byte(value: u16) -> u8 {
    (value & 0xFF) as u8
}

/// The new state and the outcome of writing `value` at `index`.
///
/// - The status words of both devices keep what `status_written` says.
/// - A word written to the transmitter while it accepts is stored, and its
///   low byte is sent as a one-character line; the transmitter is then
///   finished. A byte that is not a character on its own (0x80 and above) is
///   stored but not sent, and fails with `WriteFail`. While the transmitter
///   does not accept, the write is ignored.
/// - Every other address below `MEMORY_SIZE` is a plain word; past it the
///   write fails with `OutOfBounds`.
pub open spec fn write_outcome(m: IOMemoryView, index: usize, value: u16) -> (
    IOMemoryView,
    Result<(), IOMemoryError>,
) {
    if index == RECEIVER_STATUS_ADDRESS {
        (
            IOMemoryView { cells: m.cells.update(index as int, status_written(value)), ..m },
            Ok(()),
        )
    } else if index == TRANSMITTER_ADDRESS {
        if accepts(m.cells[TRANSMITTER_STATUS_ADDRESS as int]) {
            let stored = m.cells.update(TRANSMITTER_ADDRESS as int, value);
            if transmitted_byte(value) < 0x80 {
                (
                    IOMemoryView {
                        cells: stored.update(
                            TRANSMITTER_STATUS_ADDRESS as int,
                            finished(m.cells[TRANSMITTER_STATUS_ADDRESS as int]),
                        ),
                        input: m.input,
                        sent: m.sent.push(seq![transmitted_byte(value) as char]),
                    },
                    Ok(()),
                )
            } else {
                (IOMemoryView { cells: stored, ..m }, Err(IOMemoryError::WriteFail))
            }
        } else {
            (m, Ok(()))
        }
    } else if index == TRANSMITTER_STATUS_ADDRESS {
        (
            IOMemoryView { cells: m.cells.update(index as int, status_written(value)), ..m },
            Ok(()),
        )
    } else if index < MEMORY_SIZE {
        (IOMemoryView { cells: m.cells.update(index as int, value), ..m }, Ok(()))
    } else {
        (m, Err(IOMemoryError::OutOfBounds(index)))
    }
}

/// Whether reading `index` needs a new input line: it is the receiver's
/// data word, the receiver accepts, and no characters are waiting.
pub open spec fn needs_line(m: IOMemoryView, index: usize) -> bool {
    &&& index == RECEIVER_ADDRESS
    &&& accepts(m.cells[RECEIVER_STATUS_ADDRESS as int])
    &&& m.input.len() == 0
}

/// The characters of a line as they wait for the receiver.
pub open spec fn waiting(line: Seq<u8>) -> Seq<Option<u8>> {
    line.map_values(|b: u8| Some(b))
}

/// The new state and the outcome of reading `index`, where `line` is the
/// input line fetched if the read needs one.
///
/// - Reading the receiver's data word while the receiver accepts first
///   fetches `line` if no characters are waiting. If the first waiting
///   entry is a character, it becomes the data word, the receiver is
///   finished and the entry is marked delivered; if it is a delivered mark,
///   the mark is dropped. Either way the data word is read.
/// - Every other address below `MEMORY_SIZE` reads its word and changes
///   nothing; past it the read fails with `OutOfBounds`.
pub open spec fn read_outcome(m: IOMemoryView, index: usize, line: Seq<u8>) -> (
    IOMemoryView,
    Result<u16, IOMemoryError>,
) {
    if index == RECEIVER_ADDRESS {
        if accepts(m.cells[RECEIVER_STATUS_ADDRESS as int]) {
            let buf = if m.input.len() == 0 {
                waiting(line)
            } else {
                m.input
            };
            if buf.len() > 0 && buf[0] is Some {
                let byte = buf[0]->0;
                let cells = m.cells.update(RECEIVER_ADDRESS as int, byte as u16).update(
                    RECEIVER_STATUS_ADDRESS as int,
                    finished(m.cells[RECEIVER_STATUS_ADDRESS as int]),
                );
                (
                    IOMemoryView {
                        cells,
                        input: seq![None::<u8>] + buf.drop_first(),
                        sent: m.sent,
                    },
                    Ok(byte as u16),
                )
            } else if buf.len() > 0 {
                (
                    IOMemoryView { input: buf.drop_first(), ..m },
                    Ok(m.cells[RECEIVER_ADDRESS as int]),
                )
            } else {
                (IOMemoryView { input: buf, ..m }, Ok(m.cells[RECEIVER_ADDRESS as int]))
            }
        } else {
            (m, Ok(m.cells[RECEIVER_ADDRESS as int]))
        }
    } else if index < MEMORY_SIZE {
        (m, Ok(m.cells[index as int]))
    } else {
        (m, Err(IOMemoryError::OutOfBounds(index)))
    }
}

/// A one-byte sequence is UTF-8 exactly when the byte is below 0x80, and it
/// then encodes the character with that code.
pub proof fn lemma_single_byte_utf8(b: u8)
    ensures
        valid_utf8(seq![b]) <==> b < 0x80,
        b < 0x80 ==> decode_utf8(seq![b]) == seq![b as char],
{
    let s = seq![b];
    reveal_with_fuel(valid_utf8, 2);
    if b < 0x80 {
        assert(s.subrange(1, 1) =~= Seq::<u8>::empty());
        assert(b & 0x7F == b) by (bit_vector)
            requires
                b < 0x80u8,
        ;
        reveal_with_fuel(decode_utf8, 2);
        assert(decode_utf8(s) =~= seq![b as char]);
    }
}

/// Ordinary memory: a word written below the device registers reads back as
/// written, and every other address that is not the receiver's data word
/// keeps its word.
pub proof fn lemma_plain_write_then_read(
    m: IOMemoryView,
    index: usize,
    value: u16,
    other: usize,
    line: Seq<u8>,
)
    requires
        m.cells.len() == MEMORY_SIZE,
        index < RECEIVER_ADDRESS,
        other < MEMORY_SIZE,
        other != RECEIVER_ADDRESS,
        other != index,
    ensures
        write_outcome(m, index, value).1 is Ok,
        read_outcome(write_outcome(m, index, value).0, index, line).1 == Ok::<u16, IOMemoryError>(
            value,
        ),
        read_outcome(write_outcome(m, index, value).0, other, line).1 == Ok::<u16, IOMemoryError>(
            m.cells[other as int],
        ),
{
}

/// Reading any address but the receiver's data word changes nothing.
pub proof fn lemma_plain_read_changes_nothing(m: IOMemoryView, index: usize, line: Seq<u8>)
    requires
        index != RECEIVER_ADDRESS,
    ensures
        read_outcome(m, index, line).0 == m,
        index < MEMORY_SIZE ==> read_outcome(m, index, line).1 == Ok::<u16, IOMemoryError>(
            m.cells[index as int],
        ),
        index >= MEMORY_SIZE ==> read_outcome(m, index, line).1 == Err::<u16, IOMemoryError>(
            IOMemoryError::OutOfBounds(index),
        ),
{
}

/// A status word written with the "on" flag switches the device on, done and
/// not busy, so that it accepts a character; any other word switches it off.
/// Either way the other bits are kept or cleared as `status_written` says.
pub proof fn lemma_status_write(m: IOMemoryView, index: usize, value: u16)
    requires
        m.cells.len() == MEMORY_SIZE,
        index == RECEIVER_STATUS_ADDRESS || index == TRANSMITTER_STATUS_ADDRESS,
    ensures
        write_outcome(m, index, value).1 is Ok,
        write_outcome(m, index, value).0.cells[index as int] == status_written(value),
        flag(value, ON_MASK) ==> accepts(status_written(value)) && flag(
            status_written(value),
            DONE_MASK,
        ),
        !flag(value, ON_MASK) ==> status_written(value) == 0 && !accepts(status_written(value)),
{
    let b = with_flag(value, BUSY_MASK, false);
    crate::io::lemma_with_flag(value, BUSY_MASK, false);
    crate::io::lemma_with_flag(b, DONE_MASK, true);
    assert(!flag(0u16, ON_MASK)) by (bit_vector);
}

/// A fresh input line for an accepting receiver: reading the data word
/// delivers the line's first byte, leaves the rest waiting behind a
/// delivered mark, and finishes the receiver.
pub proof fn lemma_receiver_takes_first_byte(m: IOMemoryView, line: Seq<u8>)
    requires
        m.cells.len() == MEMORY_SIZE,
        accepts(m.cells[RECEIVER_STATUS_ADDRESS as int]),
        m.input.len() == 0,
        line.len() > 0,
    ensures
        read_outcome(m, RECEIVER_ADDRESS, line).1 == Ok::<u16, IOMemoryError>(line[0] as u16),
        read_outcome(m, RECEIVER_ADDRESS, line).0.input == seq![None::<u8>] + waiting(
            line.drop_first(),
        ),
        read_outcome(m, RECEIVER_ADDRESS, line).0.cells[RECEIVER_STATUS_ADDRESS as int]
            == finished(m.cells[RECEIVER_STATUS_ADDRESS as int]),
{
    assert(waiting(line).drop_first() =~= waiting(line.drop_first()));
}

/// Each byte is delivered to two reads: a read that finds the delivered mark
/// drops it and gives the data word again; the read after that delivers the
/// next waiting byte. A line that is used up asks for a new one.
pub proof fn lemma_receiver_delivers_in_order(m: IOMemoryView, rest: Seq<u8>, line: Seq<u8>)
    requires
        m.cells.len() == MEMORY_SIZE,
        accepts(m.cells[RECEIVER_STATUS_ADDRESS as int]),
        m.input == seq![None::<u8>] + waiting(rest),
    ensures
        read_outcome(m, RECEIVER_ADDRESS, line).1 == Ok::<u16, IOMemoryError>(
            m.cells[RECEIVER_ADDRESS as int],
        ),
        read_outcome(m, RECEIVER_ADDRESS, line).0.input == waiting(rest),
        read_outcome(m, RECEIVER_ADDRESS, line).0.cells == m.cells,
        rest.len() > 0 ==> read_outcome(read_outcome(m, RECEIVER_ADDRESS, line).0, RECEIVER_ADDRESS, line).1
            == Ok::<u16, IOMemoryError>(rest[0] as u16),
        rest.len() == 0 ==> needs_line(read_outcome(m, RECEIVER_ADDRESS, line).0, RECEIVER_ADDRESS),
{
    assert((seq![None::<u8>] + waiting(rest)).drop_first() =~= waiting(rest));
}

/// A receiver that does not accept delivers nothing: the data word is read
/// and nothing changes.
pub proof fn lemma_receiver_off(m: IOMemoryView, line: Seq<u8>)
    requires
        !accepts(m.cells[RECEIVER_STATUS_ADDRESS as int]),
    ensures
        read_outcome(m, RECEIVER_ADDRESS, line) == (m, Ok::<u16, IOMemoryError>(
            m.cells[RECEIVER_ADDRESS as int],
        )),
{
}

/// The transmitter sends what it is given: while it accepts, a word whose low
/// byte is a character sends that character as a line of its own and
/// finishes the transmitter (which therefore accepts the next one); a byte of
/// 0x80 or above fails and sends nothing; while it does not accept, nothing
/// happens.
pub proof fn lemma_transmitter_sends(m: IOMemoryView, value: u16)
    requires
        m.cells.len() == MEMORY_SIZE,
    ensures
        accepts(m.cells[TRANSMITTER_STATUS_ADDRESS as int]) && transmitted_byte(value) < 0x80 ==> {
            let (m2, r) = write_outcome(m, TRANSMITTER_ADDRESS, value);
            &&& r is Ok
            &&& m2.sent == m.sent.push(seq![transmitted_byte(value) as char])
            &&& m2.cells[TRANSMITTER_ADDRESS as int] == value
            &&& accepts(m2.cells[TRANSMITTER_STATUS_ADDRESS as int])
            &&& flag(m2.cells[TRANSMITTER_STATUS_ADDRESS as int], DONE_MASK)
        },
        accepts(m.cells[TRANSMITTER_STATUS_ADDRESS as int]) && transmitted_byte(value) >= 0x80 ==> {
            let (m2, r) = write_outcome(m, TRANSMITTER_ADDRESS, value);
            &&& r == Err::<(), IOMemoryError>(IOMemoryError::WriteFail)
            &&& m2.sent == m.sent
        },
        !accepts(m.cells[TRANSMITTER_STATUS_ADDRESS as int]) ==> write_outcome(
            m,
            TRANSMITTER_ADDRESS,
            value,
        ) == (m, Ok::<(), IOMemoryError>(())),
{
    let s = m.cells[TRANSMITTER_STATUS_ADDRESS as int];
    let b = with_flag(s, BUSY_MASK, false);
    crate::io::lemma_with_flag(s, BUSY_MASK, false);
    crate::io::lemma_with_flag(b, DONE_MASK, true);
}

/// The byte that reading the receiver's data word stores, if it stores one:
/// the first waiting entry, or the first byte of `line` when nothing waits,
/// provided the receiver accepts and that entry is a character.
pub open spec fn stored_byte(m: IOMemoryView, line: Seq<u8>) -> Option<u8> {
    let buf = if m.input.len() == 0 {
        waiting(line)
    } else {
        m.input
    };
    if accepts(m.cells[RECEIVER_STATUS_ADDRESS as int]) && buf.len() > 0 && buf[0] is Some {
        buf[0]
    } else {
        None
    }
}

/// The characters still waiting: the entries after a leading delivered mark.
pub open spec fn pending(input: Seq<Option<u8>>) -> Seq<u8> {
    let body = if input.len() > 0 && input[0] is None {
        input.drop_first()
    } else {
        input
    };
    Seq::new(body.len(), |i: int| body[i]->0)
}

/// Only the first waiting entry may be a delivered mark.
pub open spec fn well_queued(input: Seq<Option<u8>>) -> bool {
    forall|i: int| 1 <= i < input.len() ==> #[trigger] input[i] is Some
}

/// `n` reads of the receiver's data word, where each read that needs an input
/// line takes the next one of `lines` (an empty line once they are used up).
/// Gives the memory afterwards, the lines not yet taken, and the bytes stored
/// into the data word, in the order the reads stored them.
pub open spec fn receiver_run(m: IOMemoryView, lines: Seq<Seq<u8>>, n: nat) -> (
    IOMemoryView,
    Seq<Seq<u8>>,
    Seq<u8>,
)
    decreases n,
{
    if n == 0 {
        (m, lines, seq![])
    } else {
        let (m1, rest, stored) = receiver_run(m, lines, (n - 1) as nat);
        let fetch = needs_line(m1, RECEIVER_ADDRESS) && rest.len() > 0;
        let line = if fetch {
            rest[0]
        } else {
            Seq::<u8>::empty()
        };
        let rest2 = if fetch {
            rest.drop_first()
        } else {
            rest
        };
        let m2 = read_outcome(m1, RECEIVER_ADDRESS, line).0;
        let stored2 = match stored_byte(m1, line) {
            Some(b) => stored.push(b),
            None => stored,
        };
        (m2, rest2, stored2)
    }
}

/// What holds after every run of receiver reads from an accepting receiver
/// with nothing waiting.
pub open spec fn receiver_run_inv(m: IOMemoryView, lines: Seq<Seq<u8>>, n: nat) -> bool {
    let (mn, rest, stored) = receiver_run(m, lines, n);
    &&& mn.cells.len() == MEMORY_SIZE
    &&& accepts(mn.cells[RECEIVER_STATUS_ADDRESS as int])
    &&& well_queued(mn.input)
    &&& stored + pending(mn.input) + rest.flatten() == lines.flatten()
    &&& stored.len() > 0 ==> mn.cells[RECEIVER_ADDRESS as int] == stored.last() as u16
}

/// Finishing a transfer keeps a device accepting.
proof fn lemma_finished_accepts(status: u16)
    requires
        accepts(status),
    ensures
        accepts(finished(status)),
{
    let b = with_flag(status, BUSY_MASK, false);
    crate::io::lemma_with_flag(status, BUSY_MASK, false);
    crate::io::lemma_with_flag(b, DONE_MASK, true);
}

/// The receiver delivers input lines whole, in order, each byte once: over any
/// number of reads of its data word, the bytes stored so far, followed by the
/// bytes still waiting and by the lines not yet fetched, are exactly the
/// lines concatenated; so the stored bytes are always a prefix of the
/// concatenated lines, and the data word holds the last byte stored. A read
/// fetches a line only when nothing is waiting (`needs_line`).
pub proof fn lemma_receiver_delivers_lines(m: IOMemoryView, lines: Seq<Seq<u8>>, n: nat)
    requires
        m.cells.len() == MEMORY_SIZE,
        accepts(m.cells[RECEIVER_STATUS_ADDRESS as int]),
        m.input.len() == 0,
    ensures
        receiver_run_inv(m, lines, n),
        receiver_run(m, lines, n).2.is_prefix_of(lines.flatten()),
    decreases n,
{
    if n == 0 {
        assert(pending(m.input) =~= Seq::<u8>::empty());
        assert(Seq::<u8>::empty() + Seq::<u8>::empty() + lines.flatten() =~= lines.flatten());
    } else {
        lemma_receiver_delivers_lines(m, lines, (n - 1) as nat);
        let (m1, rest, stored) = receiver_run(m, lines, (n - 1) as nat);
        let fetch = needs_line(m1, RECEIVER_ADDRESS) && rest.len() > 0;
        let line = if fetch {
            rest[0]
        } else {
            Seq::<u8>::empty()
        };
        let rest2 = if fetch {
            rest.drop_first()
        } else {
            rest
        };
        let m2 = read_outcome(m1, RECEIVER_ADDRESS, line).0;
        let status = m1.cells[RECEIVER_STATUS_ADDRESS as int];
        lemma_finished_accepts(status);
        let total = lines.flatten();
        assert(stored + pending(m1.input) + rest.flatten() == total);
        if fetch {
            assert(rest.flatten() == rest[0] + rest2.flatten());
        }
        assert(line + rest2.flatten() == rest.flatten()) by {
            if !fetch {
                assert(line + rest2.flatten() =~= rest.flatten());
            }
        }
        if m1.input.len() == 0 {
            assert(pending(m1.input) =~= Seq::<u8>::empty());
            assert(pending(waiting(line)) =~= line);
            if line.len() > 0 {
                let b = line[0];
                assert(m2.input == seq![None::<u8>] + waiting(line).drop_first());
                assert(waiting(line).drop_first() =~= waiting(line.drop_first()));
                assert(pending(m2.input) =~= line.drop_first());
                assert(stored.push(b) + pending(m2.input) + rest2.flatten() =~= stored + (line
                    + rest2.flatten()));
                assert(stored + pending(m1.input) + rest.flatten() =~= stored + rest.flatten());
            } else {
                assert(m2.input =~= Seq::<Option<u8>>::empty());
                assert(pending(m2.input) =~= Seq::<u8>::empty());
                assert(stored + pending(m2.input) + rest2.flatten() =~= stored + (line
                    + rest2.flatten()));
                assert(stored + pending(m1.input) + rest.flatten() =~= stored + rest.flatten());
            }
        } else {
            assert(!fetch);
            assert(line =~= Seq::<u8>::empty());
            assert(rest2 == rest);
            if m1.input[0] is Some {
                let b = m1.input[0]->0;
                assert(m2.input == seq![None::<u8>] + m1.input.drop_first());
                assert(pending(m1.input) =~= seq![b] + pending(m2.input));
                assert(stored.push(b) + pending(m2.input) + rest.flatten() =~= stored + (seq![b]
                    + pending(m2.input)) + rest.flatten());
            } else {
                assert(m2.input == m1.input.drop_first());
                assert(pending(m1.input) =~= pending(m2.input));
            }
        }
        let stored2 = receiver_run(m, lines, n).2;
        assert(stored2 + pending(m2.input) + rest2.flatten() == total);
        assert(stored2.is_prefix_of(total)) by {
            assert(total.subrange(0, stored2.len() as int) =~= stored2) by {
                assert forall|i: int| 0 <= i < stored2.len() implies total[i] == stored2[i] by {
                    assert((stored2 + pending(m2.input) + rest2.flatten())[i] == stored2[i]);
                }
            }
        }
    }
}

/// After `2k - 1` and after `2k` reads of a receiver that fetched `line`:
/// the first `k` bytes have been stored, and the rest wait (behind a
/// delivered mark after the odd read).
proof fn lemma_line_delivery_step(m: IOMemoryView, line: Seq<u8>, k: nat)
    requires
        m.cells.len() == MEMORY_SIZE,
        accepts(m.cells[RECEIVER_STATUS_ADDRESS as int]),
        m.input.len() == 0,
        1 <= k <= line.len(),
    ensures
        ({
            let (ma, rest_a, stored_a) = receiver_run(m, seq![line], (2 * k - 1) as nat);
            &&& stored_a == line.take(k as int)
            &&& ma.input == seq![None::<u8>] + waiting(line.skip(k as int))
            &&& rest_a.len() == 0
            &&& ma.cells.len() == MEMORY_SIZE
            &&& accepts(ma.cells[RECEIVER_STATUS_ADDRESS as int])
        }),
        ({
            let (mb, rest_b, stored_b) = receiver_run(m, seq![line], (2 * k) as nat);
            &&& stored_b == line.take(k as int)
            &&& mb.input == waiting(line.skip(k as int))
            &&& rest_b.len() == 0
            &&& mb.cells.len() == MEMORY_SIZE
            &&& accepts(mb.cells[RECEIVER_STATUS_ADDRESS as int])
        }),
    decreases k,
{
    let lines = seq![line];
    if k == 1 {
        let (m1, rest1, stored1) = receiver_run(m, lines, 1);
        assert(receiver_run(m, lines, 0) == (m, lines, Seq::<u8>::empty()));
        assert(needs_line(m, RECEIVER_ADDRESS));
        assert(waiting(line).drop_first() =~= waiting(line.skip(1)));
        assert(lines.drop_first() =~= Seq::<Seq<u8>>::empty());
        lemma_finished_accepts(m.cells[RECEIVER_STATUS_ADDRESS as int]);
        assert(Seq::<u8>::empty().push(line[0]) =~= line.take(1));
        assert(m1.input == seq![None::<u8>] + waiting(line.skip(1)));
        assert(stored1 == line.take(1));
        let (m2, rest2, stored2) = receiver_run(m, lines, 2);
        assert((seq![None::<u8>] + waiting(line.skip(1))).drop_first() =~= waiting(line.skip(1)));
        assert(m2.input == waiting(line.skip(1)));
    } else {
        lemma_line_delivery_step(m, line, (k - 1) as nat);
        let j = (k - 1) as int;
        let (mb, rest_b, stored_b) = receiver_run(m, lines, (2 * j) as nat);
        assert(mb.input == waiting(line.skip(j)));
        assert(waiting(line.skip(j)).len() > 0);
        assert(waiting(line.skip(j))[0] == Some(line[j]));
        assert(waiting(line.skip(j)).drop_first() =~= waiting(line.skip(k as int)));
        lemma_finished_accepts(mb.cells[RECEIVER_STATUS_ADDRESS as int]);
        assert(line.take(j).push(line[j]) =~= line.take(k as int));
        let (ma, rest_a, stored_a) = receiver_run(m, lines, (2 * k - 1) as nat);
        assert(ma.input == seq![None::<u8>] + waiting(line.skip(k as int)));
        assert(stored_a == line.take(k as int));
        assert((seq![None::<u8>] + waiting(line.skip(k as int))).drop_first() =~= waiting(
            line.skip(k as int),
        ));
        let (m2, r2, s2) = receiver_run(m, lines, (2 * k) as nat);
        assert(m2.input == waiting(line.skip(k as int)));
    }
}

/// A line fetched by the receiver is delivered whole: reading the data word
/// twice per byte stores every byte of the line, in order, the last one (a
/// newline, say) included; only then does the receiver have nothing waiting
/// and ask for the next line.
pub proof fn lemma_line_delivered_whole(m: IOMemoryView, line: Seq<u8>)
    requires
        m.cells.len() == MEMORY_SIZE,
        accepts(m.cells[RECEIVER_STATUS_ADDRESS as int]),
        m.input.len() == 0,
        line.len() > 0,
    ensures
        receiver_run(m, seq![line], 2 * line.len()).2 == line,
        receiver_run(m, seq![line], 2 * line.len()).0.input.len() == 0,
        needs_line(receiver_run(m, seq![line], 2 * line.len()).0, RECEIVER_ADDRESS),
        forall|n: nat|
            n < 2 * line.len() ==> !needs_line(
                #[trigger] receiver_run(m, seq![line], n + 1).0,
                RECEIVER_ADDRESS,
            ) || n + 1 == 2 * line.len(),
{
    lemma_line_delivery_step(m, line, line.len());
    assert(line.take(line.len() as int) =~= line);
    assert(waiting(line.skip(line.len() as int)) =~= Seq::<Option<u8>>::empty());
    assert forall|n: nat| n < 2 * line.len() implies !needs_line(
        #[trigger] receiver_run(m, seq![line], n + 1).0,
        RECEIVER_ADDRESS,
    ) || n + 1 == 2 * line.len() by {
        if n + 1 < 2 * line.len() {
            let k = (n + 2) / 2;
            lemma_line_delivery_step(m, line, k as nat);
            if (n + 1) % 2 == 1 {
                assert(n + 1 == 2 * k - 1);
            } else {
                assert(n + 1 == 2 * k);
                assert(k < line.len());
                assert(waiting(line.skip(k as int)).len() > 0);
            }
        }
    }
}

/// `String::from_utf8`: the bytes as a string when they are UTF-8, and
/// nothing otherwise; the string then holds the characters they encode.
#[verifier::external_body]
fn string_from_utf8(bytes: Vec<u8>) -> (r: Option<String>)
    ensures
        r is Some <==> valid_utf8(bytes@),
        r matches Some(s) ==> s@ == decode_utf8(bytes@),
{
    String::from_utf8(bytes).ok()
}

impl<A: LineAccessor<String>> IOMemory<A> {
    /// The source and sink of lines of the devices.
    pub closed spec fn accessor(&self) -> A {
        self.line_accessor
    }

    /// The texts of the lines fetched from the line accessor so far, in order.
    pub closed spec fn received_lines(&self) -> Seq<Seq<char>> {
        self.received@
    }

    /// Main memory holding the words of `memory`, with no characters waiting,
    /// whose devices use `line_accessor`.
    pub fn new(memory: MutableMemory<u16, MEMORY_SIZE>, line_accessor: A) -> (r: Self)
        ensures
            r@.cells == memory@,
            r@.cells.len() == MEMORY_SIZE,
            r@.input == Seq::<Option<u8>>::empty(),
            r@.sent == Seq::<Seq<char>>::empty(),
            r.accessor() == line_accessor,
            r.received_lines() == Seq::<Seq<char>>::empty(),
    {
        let _ = memory.len();
        IOMemory {
            memory,
            input_buf: VecDeque::new(),
            line_accessor,
            sent: Ghost(Seq::empty()),
            received: Ghost(Seq::empty()),
        }
    }

    /// The source and sink of lines of the devices.
    pub fn line_accessor(&self) -> (r: &A)
        ensures
            *r == self.accessor(),
    {
        &self.line_accessor
    }

    /// The number of words.
    pub fn len(&self) -> (r: usize)
        ensures
            r == MEMORY_SIZE,
            self@.cells.len() == MEMORY_SIZE,
    {
        self.memory.len()
    }

    /// The word at `index`, which must be below `MEMORY_SIZE`.
    fn word(&self, index: usize) -> (r: u16)
        requires
            index < MEMORY_SIZE,
        ensures
            r == self@.cells[index as int],
    {
        match self.memory.get(index) {
            Ok(v) => v,
            Err(_) => 0,
        }
    }

    /// Stores `value` at `index`, which must be below `MEMORY_SIZE`.
    fn set_word(&mut self, index: usize, value: u16)
        requires
            index < MEMORY_SIZE,
        ensures
            final(self)@ == (IOMemoryView {
                cells: old(self)@.cells.update(index as int, value),
                ..old(self)@
            }),
            final(self).accessor() == old(self).accessor(),
            final(self).received_lines() == old(self).received_lines(),
    {
        let _ = self.memory.set(index, value);
    }

    /// The receiver's status.
    pub fn receiver_status(&self) -> (r: IOBits)
        ensures
            r@ == self@.cells[RECEIVER_STATUS_ADDRESS as int],
    {
        IOBits::from_bits(self.word(RECEIVER_STATUS_ADDRESS))
    }

    /// The transmitter's status.
    pub fn transmitter_status(&self) -> (r: IOBits)
        ensures
            r@ == self@.cells[TRANSMITTER_STATUS_ADDRESS as int],
    {
        IOBits::from_bits(self.word(TRANSMITTER_STATUS_ADDRESS))
    }

    /// Sets the receiver's status; nothing else changes.
    pub fn set_receiver_status(&mut self, receiver_status: IOBits)
        ensures
            final(self)@ == (IOMemoryView {
                cells: old(self)@.cells.update(
                    RECEIVER_STATUS_ADDRESS as int,
                    receiver_status@,
                ),
                ..old(self)@
            }),
            final(self).accessor() == old(self).accessor(),
            final(self).received_lines() == old(self).received_lines(),
    {
        self.set_word(RECEIVER_STATUS_ADDRESS, receiver_status.into_bits());
    }

    /// Sets the transmitter's status; nothing else changes.
    pub fn set_transmitter_status(&mut self, transmitter_status: IOBits)
        ensures
            final(self)@ == (IOMemoryView {
                cells: old(self)@.cells.update(
                    TRANSMITTER_STATUS_ADDRESS as int,
                    transmitter_status@,
                ),
                ..old(self)@
            }),
            final(self).accessor() == old(self).accessor(),
            final(self).received_lines() == old(self).received_lines(),
    {
        self.set_word(TRANSMITTER_STATUS_ADDRESS, transmitter_status.into_bits());
    }

    /// The status a device keeps of the word `value` written to its status address.
    fn written_status(value: u16) -> (r: IOBits)
        ensures
            r@ == status_written(value),
    {
        let bit_value = IOBits::from_bits(value);
        if bit_value.on() {
            bit_value.with_busy(false).with_done(true)
        } else {
            IOBits::new()
        }
    }

    /// Reads `index` as `read` does, taking `fetched` as the input line when
    /// the read needs one.
    pub fn read_fetched(&mut self, index: usize, fetched: &[u8]) -> (r: Result<u16, IOMemoryError>)
        ensures
            (final(self)@, r) == read_outcome(old(self)@, index, fetched@),
            final(self).accessor() == old(self).accessor(),
            final(self).received_lines() == old(self).received_lines(),
    {
        let _ = self.memory.len();
        if index == RECEIVER_ADDRESS {
            let status = self.receiver_status();
            if status.can_read() {
                if self.input_buf.len() == 0 {
                    let mut i: usize = 0;
                    while i < fetched.len()
                        invariant
                            i <= fetched@.len(),
                            self.input_buf@ == waiting(fetched@.subrange(0, i as int)),
                            self@.cells == old(self)@.cells,
                            self.sent == old(self).sent,
                            self.received == old(self).received,
                            self.line_accessor == old(self).line_accessor,
                        decreases fetched@.len() - i,
                    {
                        self.input_buf.push_back(Some(fetched[i]));
                        i = i + 1;
                        assert(self.input_buf@ =~= waiting(fetched@.subrange(0, i as int)));
                    }
                    assert(fetched@.subrange(0, i as int) =~= fetched@);
                }
                let ghost buf = self.input_buf@;
                match self.input_buf.pop_front() {
                    Some(Some(byte)) => {
                        self.set_word(RECEIVER_ADDRESS, byte as u16);
                        let status = self.receiver_status().with_busy(false).with_done(true);
                        self.set_receiver_status(status);
                        self.input_buf.push_front(None);
                        assert(self.input_buf@ =~= seq![None::<u8>] + buf.drop_first());
                    },
                    Some(None) => {
                        assert(self.input_buf@ =~= buf.drop_first());
                    },
                    None => {},
                }
            }
            Ok(self.word(RECEIVER_ADDRESS))
        } else if index < MEMORY_SIZE {
            Ok(self.word(index))
        } else {
            Err(IOMemoryError::OutOfBounds(index))
        }
    }
}

impl<A: LineAccessor<String>> Memory for IOMemory<A> {
    type MemoryType = u16;
}

impl<A: LineAccessor<String>> WritableMemory for IOMemory<A> {
    type MemoryError = IOMemoryError;

    /// Writes `value` at `index` as `write_outcome` says; a character that the
    /// transmitter sends is handed to the line accessor as a one-character line.
    fn write(&mut self, index: usize, value: u16) -> (r: Result<(), IOMemoryError>)
        ensures
            (final(self)@, r) == write_outcome(old(self)@, index, value),
            final(self).accessor() == old(self).accessor(),
            final(self).received_lines() == old(self).received_lines(),
    {
        let _ = self.memory.len();
        if index == RECEIVER_STATUS_ADDRESS {
            let status = Self::written_status(value);
            self.set_receiver_status(status);
            Ok(())
        } else if index == TRANSMITTER_ADDRESS {
            if self.transmitter_status().can_write() {
                self.set_word(TRANSMITTER_ADDRESS, value);
                let byte = (self.word(TRANSMITTER_ADDRESS) & 0xFF) as u8;
                let mut text: Vec<u8> = Vec::new();
                text.push(byte);
                proof {
                    lemma_single_byte_utf8(byte);
                    assert(text@ =~= seq![byte]);
                }
                match string_from_utf8(text) {
                    Some(line) => {
                        self.line_accessor.send_line(&line);
                        proof {
                            self.sent@ = self.sent@.push(line@);
                        }
                        let status = self.transmitter_status().with_busy(false).with_done(true);
                        self.set_transmitter_status(status);
                        Ok(())
                    },
                    None => Err(IOMemoryError::WriteFail),
                }
            } else {
                Ok(())
            }
        } else if index == TRANSMITTER_STATUS_ADDRESS {
            let status = Self::written_status(value);
            self.set_transmitter_status(status);
            Ok(())
        } else if index < MEMORY_SIZE {
            self.set_word(index, value);
            Ok(())
        } else {
            Err(IOMemoryError::OutOfBounds(index))
        }
    }
}

impl<A: LineAccessor<String>> ReadableMemory for IOMemory<A> {
    type MemoryError = IOMemoryError;

    /// Reads `index` as `read_outcome` says; when the read needs an input line
    /// (`needs_line`), it is fetched from the line accessor, and the outcome
    /// holds for the bytes of whatever line came back.
    fn read(&mut self, index: usize) -> (r: Result<u16, IOMemoryError>)
        ensures
            !needs_line(old(self)@, index) ==> (final(self)@, r) == read_outcome(
                old(self)@,
                index,
                Seq::empty(),
            ),
            exists|line: Seq<u8>| (final(self)@, r) == #[trigger] read_outcome(old(self)@, index, line),
            final(self).accessor() == old(self).accessor(),
            !needs_line(old(self)@, index) ==> final(self).received_lines() == old(
                self,
            ).received_lines(),
            needs_line(old(self)@, index) ==> {
                &&& final(self).received_lines().len() == old(self).received_lines().len() + 1
                &&& final(self).received_lines().drop_last() == old(self).received_lines()
                &&& (final(self)@, r) == read_outcome(
                    old(self)@,
                    index,
                    encode_utf8(final(self).received_lines().last()),
                )
            },
    {
        let _ = self.memory.len();
        if index == RECEIVER_ADDRESS && self.receiver_status().can_read() && self.input_buf.len()
            == 0 {
            let line = self.line_accessor.get_line();
            proof {
                self.received@ = self.received@.push(line@);
            }
            let bytes = line.as_str().as_bytes();
            let ghost fetched = bytes@;
            assert(fetched == encode_utf8(line@));
            let r = self.read_fetched(index, bytes);
            assert((final(self)@, r) == read_outcome(old(self)@, index, fetched));
            assert(self.received@.drop_last() =~= old(self).received@);
            r
        } else {
            let empty: Vec<u8> = Vec::new();
            let r = self.read_fetched(index, empty.as_slice());
            assert(empty@ =~= Seq::<u8>::empty());
            r
        }
    }
}

/// Why main memory could not be built.
#[derive(Debug, Clone, PartialEq, Eq)]
pub enum IOMemoryBuilderError {
    /// A part that has no default was not given.
    UninitializedField(&'static str),
}

/// Collects the parts of main memory: its words and its line accessor.
pub struct IOMemoryBuilder<A: LineAccessor<String>> {
    memory: Option<MutableMemory<u16, MEMORY_SIZE>>,
    line_accessor: Option<A>,
}

impl<A: LineAccessor<String>> IOMemoryBuilder<A> {
    /// The words given so far.
    pub closed spec fn memory_part(&self) -> Option<MutableMemory<u16, MEMORY_SIZE>> {
        self.memory
    }

    /// The line accessor given so far.
    pub closed spec fn line_accessor_part(&self) -> Option<A> {
        self.line_accessor
    }

    /// A builder with no parts.
    pub fn new() -> (r: Self)
        ensures
            r.memory_part() is None,
            r.line_accessor_part() is None,
    {
        IOMemoryBuilder { memory: None, line_accessor: None }
    }

    /// Gives the words.
    pub fn memory(self, memory: MutableMemory<u16, MEMORY_SIZE>) -> (r: Self)
        ensures
            r.memory_part() == Some(memory),
            r.line_accessor_part() == self.line_accessor_part(),
    {
        IOMemoryBuilder { memory: Some(memory), ..self }
    }

    /// Gives the line accessor.
    pub fn line_accessor(self, line_accessor: A) -> (r: Self)
        ensures
            r.line_accessor_part() == Some(line_accessor),
            r.memory_part() == self.memory_part(),
    {
        IOMemoryBuilder { line_accessor: Some(line_accessor), ..self }
    }

    /// Main memory made of the parts, as `IOMemory::new` makes it; a missing
    /// part is reported by its name, memory first.
    pub fn build(self) -> (r: Result<IOMemory<A>, IOMemoryBuilderError>)
        ensures
            match (self.memory_part(), self.line_accessor_part()) {
                (Some(memory), Some(accessor)) => r matches Ok(m) && m@ == (IOMemoryView {
                    cells: memory@,
                    input: Seq::empty(),
                    sent: Seq::empty(),
                }) && m.accessor() == accessor && m@.cells.len() == MEMORY_SIZE
                    && m.received_lines() == Seq::<Seq<char>>::empty(),
                (None, _) => r == Err::<IOMemory<A>, IOMemoryBuilderError>(
                    IOMemoryBuilderError::UninitializedField("memory"),
                ),
                (Some(_), None) => r == Err::<IOMemory<A>, IOMemoryBuilderError>(
                    IOMemoryBuilderError::UninitializedField("line_accessor"),
                ),
            },
    {
        match self.memory {
            None => Err(IOMemoryBuilderError::UninitializedField("memory")),
            Some(memory) => match self.line_accessor {
                None => Err(IOMemoryBuilderError::UninitializedField("line_accessor")),
                Some(accessor) => Ok(IOMemory::new(memory, accessor)),
            },
        }
    }
}

} // verus!
