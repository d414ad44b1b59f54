//! A fixed-size memory whose cells can be read and written.
use crate::memory::traits::{FromBinaryStr, FromBinaryStrLines, Memory, ReadableMemory, WritableMemory};
use vstd::prelude::*;
use vstd::string::StringSliceAdditionalSpecFns;

verus! {

/// A memory of exactly `S` cells.
#[derive(Debug, PartialEq, Eq, Hash)]
pub struct MutableMemory<T, const S: usize> {
    cells: Vec<T>,
}

impl<T, const S: usize> View for MutableMemory<T, S> {
    type V = Seq<T>;

    closed spec fn view(&self) -> Seq<T> {
        self.cells@
    }
}

impl<T, const S: usize> MutableMemory<T, S> {
    #[verifier::type_invariant]
    spec fn has_size(self) -> bool {
        self.cells@.len() == S
    }

    /// The number of cells.
    pub fn len(&self) -> (r: usize)
        ensures
            r == S,
            r == self@.len(),
    {
        proof {
            use_type_invariant(self);
        }
        self.cells.len()
    }

    /// The memory holding the cells of `cells`, if there are exactly `S` of
    /// them; otherwise `cells` is handed back.
    pub fn try_from_vec(cells: Vec<T>) -> (r: Result<Self, Vec<T>>)
        ensures
            match r {
                Ok(m) => cells@.len() == S && m@ == cells@,
                Err(v) => cells@.len() != S && v@ == cells@,
            },
    {
        if cells.len() == S {
            Ok(MutableMemory { cells })
        } else {
            Err(cells)
        }
    }

    /// The memory holding the cells of `cells`, which must be exactly `S`.
    fn from_full_vec(cells: Vec<T>) -> (r: Self)
        requires
            cells@.len() == S,
        ensures
            r@ == cells@,
    {
        MutableMemory { cells }
    }
}

impl<T: Copy, const S: usize> MutableMemory<T, S> {
    /// The memory holding the cells of `values`.
    pub fn from_array(values: [T; S]) -> (r: Self)
        ensures
            r@ == values@,
    {
        let mut cells: Vec<T> = Vec::new();
        let mut i: usize = 0;
        while i < S
            invariant
                i <= S,
                values@.len() == S,
                cells@ == values@.subrange(0, i as int),
            decreases S - i,
        {
            cells.push(values[i]);
            i = i + 1;
            assert(cells@ =~= values@.subrange(0, i as int));
        }
        assert(cells@ =~= values@);
        MutableMemory { cells }
    }

    /// The value of cell `index`, or `Err(())` past the end.
    pub fn get(&self, index: usize) -> (r: Result<T, ()>)
        ensures
            index < S ==> r == Ok::<T, ()>(self@[index as int]),
            index >= S ==> r == Err::<T, ()>(()),
    {
        proof {
            use_type_invariant(self);
        }
        if index < self.cells.len() {
            Ok(self.cells[index])
        } else {
            Err(())
        }
    }

    /// Stores `value` in cell `index`; past the end nothing changes and `Err(())` comes back.
    pub fn set(&mut self, index: usize, value: T) -> (r: Result<(), ()>)
        ensures
            index < S ==> r is Ok && final(self)@ == old(self)@.update(index as int, value),
            index >= S ==> r is Err && final(self)@ == old(self)@,
        no_unwind
    {
        proof {
            use_type_invariant(&*self);
        }
        if index < self.cells.len() {
            self.cells[index] = value;
            Ok(())
        } else {
            Err(())
        }
    }
}

impl<T: Copy, const S: usize> Clone for MutableMemory<T, S> {
    /// A copy with the same cells.
    fn clone(&self) -> (r: Self)
        ensures
            r@ == self@,
    {
        proof {
            use_type_invariant(self);
        }
        let mut cells: Vec<T> = Vec::new();
        let mut i: usize = 0;
        while i < self.cells.len()
            invariant
                i <= self.cells@.len(),
                self.cells@.len() == S,
                cells@ == self.cells@.subrange(0, i as int),
            decreases self.cells@.len() - i,
        {
            cells.push(self.cells[i]);
            i = i + 1;
            assert(cells@ =~= self.cells@.subrange(0, i as int));
        }
        assert(cells@ =~= self.cells@);
        MutableMemory { cells }
    }
}

/// A memory of `S` copies of one value.
pub open spec fn filled<T>(value: T, size: nat) -> Seq<T> {
    Seq::new(size, |_i: int| value)
}

impl<T: Copy, const S: usize> MutableMemory<T, S> {
    /// The memory with every cell holding `value`.
    pub fn filled_with(value: T) -> (r: Self)
        ensures
            r@ == filled(value, S as nat),
    {
        let mut cells: Vec<T> = Vec::new();
        let mut i: usize = 0;
        while i < S
            invariant
                i <= S,
                cells@ == filled(value, i as nat),
            decreases S - i,
        {
            cells.push(value);
            i = i + 1;
            assert(cells@ =~= filled(value, i as nat));
        }
        MutableMemory { cells }
    }
}

impl<T: Copy + Default, const S: usize> Default for MutableMemory<T, S> {
    /// Every cell holds the default value of `T`.
    fn default() -> (r: Self)
        ensures
            exists|d: T| call_ensures(T::default, (), d) && r@ == filled(d, S as nat),
    {
        let d = T::default();
        Self::filled_with(d)
    }
}

impl<T, const S: usize> Memory for MutableMemory<T, S> {
    type MemoryType = T;
}

impl<T: Copy, const S: usize> ReadableMemory for MutableMemory<T, S> {
    type MemoryError = ();

    /// The value of cell `index`, or `Err(())` past the end; nothing changes.
    fn read(&mut self, index: usize) -> (r: Result<T, ()>)
        ensures
            final(self)@ == old(self)@,
            index < S ==> r == Ok::<T, ()>(old(self)@[index as int]),
            index >= S ==> r == Err::<T, ()>(()),
    {
        self.get(index)
    }
}

impl<T: Copy, const S: usize> WritableMemory for MutableMemory<T, S> {
    type MemoryError = ();

    /// Stores `value` in cell `index`; past the end nothing changes and `Err(())` comes back.
    fn write(&mut self, index: usize, value: T) -> (r: Result<(), ()>)
        ensures
            index < S ==> r is Ok && final(self)@ == old(self)@.update(index as int, value),
            index >= S ==> r is Err && final(self)@ == old(self)@,
    {
        self.set(index, value)
    }
}

/// Whether `lines` read as cells give `cells`: line `i` gives cell `i`, for
/// the first `S` lines; the cells past the last line hold `fill`.
pub open spec fn cells_from_lines<T: FromBinaryStr>(lines: Seq<&str>, size: nat, fill: T, cells: Seq<T>) -> bool {
    &&& cells.len() == size
    &&& forall|i: int|
        0 <= i < size ==> #[trigger] cells[i] == if i < lines.len() {
            T::binary_str_spec(lines[i].spec_bytes())->Ok_0
        } else {
            fill
        }
}

/// Whether every one of the first `count` lines reads as a cell.
pub open spec fn lines_parse<T: FromBinaryStr>(lines: Seq<&str>, count: int) -> bool {
    forall|i: int| 0 <= i < count ==> #[trigger] T::binary_str_spec(lines[i].spec_bytes()) is Ok
}

impl<T: FromBinaryStr + Copy + Default, const S: usize> FromBinaryStrLines for MutableMemory<T, S> {
    type Error = T::Error;

    /// Reads one cell per line from the first `S` lines; the remaining cells
    /// hold the default of `T`. The first of those lines that does not read
    /// gives its error.
    fn from_binary_str_lines(lines: &[&str]) -> (r: Result<Self, T::Error>)
        ensures
            ({
                let count = if lines@.len() < S { lines@.len() as int } else { S as int };
                match r {
                    Ok(m) => lines_parse::<T>(lines@, count) && exists|d: T|
                        call_ensures(T::default, (), d) && cells_from_lines(
                            lines@,
                            S as nat,
                            d,
                            m@,
                        ),
                    Err(e) => exists|j: int|
                        0 <= j < count && lines_parse::<T>(lines@, j) && T::binary_str_spec(
                            #[trigger] lines@[j].spec_bytes(),
                        ) == Err::<T, T::Error>(e),
                }
            }),
    {
        let d = T::default();
        let mut cells: Vec<T> = Vec::new();
        let mut i: usize = 0;
        while i < S
            invariant
                i <= S,
                cells@ == filled(d, i as nat),
            decreases S - i,
        {
            cells.push(d);
            i = i + 1;
            assert(cells@ =~= filled(d, i as nat));
        }
        let count: usize = if lines.len() < S {
            lines.len()
        } else {
            S
        };
        let mut k: usize = 0;
        while k < count
            invariant
                k <= count,
                count <= S,
                count <= lines@.len(),
                count == if lines@.len() < S { lines@.len() as int } else { S as int },
                cells@.len() == S,
                lines_parse::<T>(lines@, k as int),
                forall|i: int|
                    0 <= i < S ==> #[trigger] cells@[i] == if i < k {
                        T::binary_str_spec(lines@[i].spec_bytes())->Ok_0
                    } else {
                        d
                    },
            decreases count - k,
        {
            match T::from_binary_str(lines[k]) {
                Ok(v) => {
                    cells.set(k, v);
                },
                Err(e) => {
                    assert(T::binary_str_spec(lines@[k as int].spec_bytes()) == Err::<T, T::Error>(e));
                    return Err(e);
                },
            }
            k = k + 1;
        }
        Ok(Self::from_full_vec(cells))
    }
}

} // verus!
