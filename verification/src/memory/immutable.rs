//! A fixed-size memory that can only be read, such as the control store.
use crate::memory::mutable::lines_parse;
use crate::memory::traits::{FromBinaryStr, FromBinaryStrLines, Memory, ReadableMemory};
use vstd::prelude::*;
use vstd::string::StringSliceAdditionalSpecFns;

verus! {

/// A read-only memory of exactly `S` cells.
#[derive(Debug, PartialEq, Eq, Hash)]
pub struct ImmutableMemory<T, const S: usize> {
    cells: Vec<T>,
}

impl<T, const S: usize> View for ImmutableMemory<T, S> {
    type V = Seq<T>;

    closed spec fn view(&self) -> Seq<T> {
        self.cells@
    }
}

/// The first `size` values of `values`, followed by copies of `fill` up to `size` cells.
pub open spec fn padded<T>(values: Seq<T>, size: nat, fill: T) -> Seq<T> {
    Seq::new(size, |i: int| if i < values.len() { values[i] } else { fill })
}

/// The cells that the lines give, one per line.
pub open spec fn parsed_lines<T: FromBinaryStr>(lines: Seq<&str>) -> Seq<T> {
    Seq::new(lines.len(), |i: int| T::binary_str_spec(lines[i].spec_bytes())->Ok_0)
}

/// Why lines of binary digits do not make a memory.
#[derive(Clone, Debug, PartialEq, Eq)]
pub enum ImmutableMemoryFromBinaryStrLinesError {
    /// Line number `line` (counted from 1), whose text is `content`, does not read as a cell.
    ParseError { line: usize, content: String },
}

impl<T, const S: usize> ImmutableMemory<T, S> {
    #[verifier::type_invariant]
    spec fn has_size(self) -> bool {
        self.cells@.len() == S
    }

    /// The number of cells.
    pub fn len(&self) -> (r: usize)
        ensures
            r == S,
            r == self@.len(),
    {
        proof {
            use_type_invariant(self);
        }
        self.cells.len()
    }

    /// Cell `index`, or `None` past the end.
    pub fn immutable_read(&self, index: usize) -> (r: Option<&T>)
        ensures
            self@.len() == S,
            index < S ==> (r matches Some(v) && *v == self@[index as int]),
            index >= S ==> r is None,
    {
        proof {
            use_type_invariant(self);
        }
        if index < self.cells.len() {
            Some(&self.cells[index])
        } else {
            None
        }
    }

    /// The memory holding the cells of `cells`, if there are exactly `S` of
    /// them; otherwise `cells` is handed back.
    pub fn try_from_vec(cells: Vec<T>) -> (r: Result<Self, Vec<T>>)
        ensures
            match r {
                Ok(m) => cells@.len() == S && m@ == cells@,
                Err(v) => cells@.len() != S && v@ == cells@,
            },
    {
        if cells.len() == S {
            Ok(ImmutableMemory { cells })
        } else {
            Err(cells)
        }
    }

    /// The cells, in order.
    pub fn into_vec(self) -> (r: Vec<T>)
        ensures
            r@ == self@,
    {
        self.cells
    }
}

impl<T: Copy, const S: usize> ImmutableMemory<T, S> {
    /// The value of cell `index`, or `Err(())` past the end.
    pub fn get(&self, index: usize) -> (r: Result<T, ()>)
        ensures
            index < S ==> r == Ok::<T, ()>(self@[index as int]),
            index >= S ==> r == Err::<T, ()>(()),
    {
        proof {
            use_type_invariant(self);
        }
        if index < self.cells.len() {
            Ok(self.cells[index])
        } else {
            Err(())
        }
    }

    /// The cells, in order, as a new vector.
    pub fn to_vec(&self) -> (r: Vec<T>)
        ensures
            r@ == self@,
    {
        proof {
            use_type_invariant(self);
        }
        let mut cells: Vec<T> = Vec::new();
        let mut i: usize = 0;
        while i < self.cells.len()
            invariant
                i <= self.cells@.len(),
                self.cells@.len() == S,
                cells@ == self.cells@.subrange(0, i as int),
            decreases self.cells@.len() - i,
        {
            cells.push(self.cells[i]);
            i = i + 1;
            assert(cells@ =~= self.cells@.subrange(0, i as int));
        }
        assert(cells@ =~= self.cells@);
        cells
    }

    /// The memory holding the cells of `values`.
    pub fn from_array(values: [T; S]) -> (r: Self)
        ensures
            r@ == values@,
    {
        let mut cells: Vec<T> = Vec::new();
        let mut i: usize = 0;
        while i < S
            invariant
                i <= S,
                values@.len() == S,
                cells@ == values@.subrange(0, i as int),
            decreases S - i,
        {
            cells.push(values[i]);
            i = i + 1;
            assert(cells@ =~= values@.subrange(0, i as int));
        }
        assert(cells@ =~= values@);
        ImmutableMemory { cells }
    }

    /// The memory holding the first `S` values of `values` (as many as there
    /// are), the remaining cells holding `fill`.
    pub fn from_padded(count: usize, values: &[T], fill: T) -> (r: Self)
        requires
            count == values@.len(),
        ensures
            r@ == padded(values@, S as nat, fill),
    {
        let mut cells: Vec<T> = Vec::new();
        let mut i: usize = 0;
        while i < S
            invariant
                i <= S,
                count == values@.len(),
                cells@ == padded(values@, i as nat, fill),
            decreases S - i,
        {
            if i < count {
                cells.push(values[i]);
            } else {
                cells.push(fill);
            }
            i = i + 1;
            assert(cells@ =~= padded(values@, i as nat, fill));
        }
        ImmutableMemory { cells }
    }
}

impl<T: Copy, const S: usize> Clone for ImmutableMemory<T, S> {
    /// A copy with the same cells.
    fn clone(&self) -> (r: Self)
        ensures
            r@ == self@,
    {
        proof {
            use_type_invariant(self);
        }
        let cells = self.to_vec();
        ImmutableMemory { cells }
    }
}

impl<T: Copy + Default, const S: usize> ImmutableMemory<T, S> {
    /// The memory holding the first `S` values of `values`; if there are fewer,
    /// the remaining cells hold the default of `T`.
    pub fn from_vec(values: Vec<T>) -> (r: Self)
        ensures
            exists|d: T| call_ensures(T::default, (), d) && r@ == padded(values@, S as nat, d),
    {
        let d = T::default();
        Self::from_padded(values.len(), values.as_slice(), d)
    }
}

impl<T: Copy + Default, const S: usize> Default for ImmutableMemory<T, S> {
    /// Every cell holds the default of `T`.
    fn default() -> (r: Self)
        ensures
            exists|d: T| call_ensures(T::default, (), d) && r@ == padded(Seq::empty(), S as nat, d),
    {
        let d = T::default();
        let empty: Vec<T> = Vec::new();
        Self::from_padded(0, empty.as_slice(), d)
    }
}

impl<T, const S: usize> Memory for ImmutableMemory<T, S> {
    type MemoryType = T;
}

impl<T: Copy, const S: usize> ReadableMemory for ImmutableMemory<T, S> {
    type MemoryError = ();

    /// The value of cell `index`, or `Err(())` past the end; nothing changes.
    fn read(&mut self, index: usize) -> (r: Result<T, ()>)
        ensures
            final(self)@ == old(self)@,
            index < S ==> r == Ok::<T, ()>(old(self)@[index as int]),
            index >= S ==> r == Err::<T, ()>(()),
    {
        self.get(index)
    }
}

impl<T: FromBinaryStr + Copy + Default, const S: usize> FromBinaryStrLines for ImmutableMemory<T, S> {
    type Error = ImmutableMemoryFromBinaryStrLinesError;

    /// Reads one cell per line from every line; the memory holds the first `S`
    /// of them, the default of `T` filling the cells past the last line. The
    /// first line that does not read is reported by its number and text.
    fn from_binary_str_lines(lines: &[&str]) -> (r: Result<Self, ImmutableMemoryFromBinaryStrLinesError>)
        ensures
            match r {
                Ok(m) => lines_parse::<T>(lines@, lines@.len() as int) && exists|d: T|
                    call_ensures(T::default, (), d) && m@ == padded(
                        parsed_lines::<T>(lines@),
                        S as nat,
                        d,
                    ),
                Err(ImmutableMemoryFromBinaryStrLinesError::ParseError { line, content }) => {
                    &&& 1 <= line <= lines@.len()
                    &&& lines_parse::<T>(lines@, line - 1)
                    &&& T::binary_str_spec(lines@[line - 1].spec_bytes()) is Err
                    &&& content@ == lines@[line - 1]@
                },
            },
    {
        let mut values: Vec<T> = Vec::new();
        let mut k: usize = 0;
        while k < lines.len()
            invariant
                k <= lines@.len(),
                lines_parse::<T>(lines@, k as int),
                values@ == parsed_lines::<T>(lines@).subrange(0, k as int),
            decreases lines@.len() - k,
        {
            match T::from_binary_str(lines[k]) {
                Ok(v) => {
                    values.push(v);
                },
                Err(_) => {
                    let content = lines[k].to_owned();
                    return Err(
                        ImmutableMemoryFromBinaryStrLinesError::ParseError { line: k + 1, content },
                    );
                },
            }
            k = k + 1;
            assert(values@ =~= parsed_lines::<T>(lines@).subrange(0, k as int));
        }
        assert(values@ =~= parsed_lines::<T>(lines@));
        Ok(Self::from_vec(values))
    }
}

} // verus!
