use vstd::prelude::*;

verus! {

/// A byte-wide I/O capability that can be bound to one of the 256 ports.
pub trait Device {
    fn read(&mut self) -> u8;

    fn write(&mut self, byte: u8);
}

} // verus!
