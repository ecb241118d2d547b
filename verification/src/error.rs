use vstd::prelude::*;

verus! {

/// A condition that aborts the run loop: an opcode byte outside the 8080
/// map, or a program counter that left the addressable range.
#[derive(Debug, Clone, Copy, PartialEq, Eq, Structural)]
pub enum Error {
    UnknownOpcode(u8),
    PcOutOfRange,
}

} // verus!
