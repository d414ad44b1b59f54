//! How the memory-mapped devices reach the outside world: a source of input
//! lines and a sink of output lines, supplied by the user of the library.
use vstd::prelude::*;

verus! {

/// A source of input lines.
pub trait LineGetter<T> {
    /// The next input line.
    fn get_line(&self) -> T;
}

/// A sink of output lines.
pub trait LineSender<T> {
    /// Hands `line` to the outside world.
    fn send_line(&self, line: &T);
}

/// Both a source and a sink of lines.
pub trait LineAccessor<T>: LineSender<T> + LineGetter<T> {

}

impl<T, R> LineAccessor<T> for R where R: LineSender<T> + LineGetter<T> {

}

} // verus!
