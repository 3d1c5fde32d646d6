//! A single register cell that may be hardwired (read-only).

use vstd::prelude::*;

verus! {

/// Why a register cell refused an operation.
#[derive(Debug, Clone, Copy, PartialEq, Eq)]
pub enum Error {
    /// The cell is not writeable.
    Illegal,
}

/// One 32-bit register cell with a write-protect flag.
#[derive(Debug, Clone, Copy)]
pub struct Register {
    value: u32,
    writeable: bool,
}

impl Register {
    /// The word currently held by the cell.
    pub closed spec fn value(self) -> u32 {
        self.value
    }

    /// Whether writes to the cell are accepted.
    pub closed spec fn writeable(self) -> bool {
        self.writeable
    }

    /// Creates a cell holding `initial`; `writeable` decides whether later
    /// writes are accepted.
    pub fn new(initial: u32, writeable: bool) -> (r: Self)
        ensures
            r.value() == initial,
            r.writeable() == writeable,
    {
        Register { value: initial, writeable }
    }

    /// Reads the cell.
    pub fn get(&self) -> (v: u32)
        ensures
            v == self.value(),
    {
        self.value
    }

    /// Writes the cell if it is writeable, and refuses with
    /// [`Error::Illegal`] otherwise, leaving the cell as it was.
    pub fn set(&mut self, value: u32) -> (r: Result<(), Error>)
        ensures
            final(self).writeable() == old(self).writeable(),
            old(self).writeable() ==> r == Ok::<(), Error>(()) && final(self).value() == value,
            !old(self).writeable() ==> r == Err::<(), Error>(Error::Illegal) && final(self).value()
                == old(self).value(),
    {
        if self.writeable {
            self.value = value;
            Ok(())
        } else {
            Err(Error::Illegal)
        }
    }
}

} // verus!
