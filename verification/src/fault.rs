use vstd::prelude::*;

verus! {

/// A terminal execution fault. Faults stop the machine; the host reports
/// them and exits with a failure indication.
#[derive(Clone, Copy, Debug, PartialEq, Eq, Structural)]
pub enum Fault {
    /// An instruction word carried opcode 14 or 15.
    IllegalOp,
    /// An operation addressed an identifier that is not currently live,
    /// or tried to deallocate identifier 0.
    BadIdentifier,
    /// An offset reached past the end of a platter, including an
    /// instruction fetch past the end of the program segment.
    OutOfBounds,
    /// A division whose divisor register held 0.
    DivByZero,
    /// An output whose source register held a value above 255.
    BadOutput,
    /// An allocation while every one of the 2^32 identifiers is live:
    /// the address space is exhausted.
    OutOfMemory,
}

/// A load-time error: the raw image cannot be split into 32-bit words.
#[derive(Clone, Copy, Debug, PartialEq, Eq, Structural)]
pub enum LoadError {
    /// The image byte count is not a multiple of 4.
    BadImage,
}

} // verus!
