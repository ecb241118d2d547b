use vstd::prelude::*;

verus! {

use crate::utils::{get_u16, spec_get_u16, spec_high, spec_low, split_u16};

/// Number of bytes in the flat address space: one byte for every 16-bit address.
pub const RAM_SIZE: usize = 65536;

/// The all-zero memory image.
pub open spec fn zero_memory() -> Seq<u8> {
    Seq::new(65536, |i: int| 0u8)
}

/// `mem` with `data` written over its start, byte for byte.
pub open spec fn overlay(mem: Seq<u8>, data: Seq<u8>) -> Seq<u8> {
    Seq::new(mem.len(), |i: int| if i < data.len() {
        data[i]
    } else {
        mem[i]
    })
}

/// The 16-bit value stored little-endian at `addr`: low byte at `addr`,
/// high byte at the next address, which wraps at the top of memory.
pub open spec fn spec_word_at(mem: Seq<u8>, addr: u16) -> u16 {
    spec_get_u16(mem[addr.wrapping_add(1) as int], mem[addr as int])
}

/// `mem` with `word` stored little-endian at `addr`; the high byte's
/// address wraps at the top of memory.
pub open spec fn spec_word_write(mem: Seq<u8>, addr: u16, word: u16) -> Seq<u8> {
    mem.update(addr as int, spec_low(word)).update(addr.wrapping_add(1) as int, spec_high(word))
}

/// Flat 64K-byte store, byte-addressed; every 16-bit address is in range,
/// so loads and saves never fail.
pub struct Dram {
    memory: [u8; 65536],
}

impl View for Dram {
    type V = Seq<u8>;

    closed spec fn view(&self) -> Seq<u8> {
        self.memory@
    }
}

impl Dram {
    pub fn new() -> (r: Self)
        ensures
            r@ == zero_memory(),
    {
        let d = Self { memory: [0u8; 65536] };
        proof {
            assert(d.memory@ =~= zero_memory());
        }
        d
    }

    /// A view of this store always holds exactly one byte per 16-bit
    /// address, whatever was done to it.
    pub proof fn lemma_len(&self)
        ensures
            self@.len() == 65536,
    {
    }

    pub fn load_byte(&self, addr: u16) -> (r: u8)
        ensures
            r == self@[addr as int],
    {
        self.memory[addr as usize]
    }

    pub fn save_byte(&mut self, addr: u16, byte: u8)
        ensures
            final(self)@ == old(self)@.update(addr as int, byte),
    {
        self.memory[addr as usize] = byte;
    }

    /// A mutable view of one byte, for read-modify-write instructions.
    pub fn get_ptr(&mut self, addr: u16) -> (r: &mut u8)
        ensures
            *r == old(self)@[addr as int],
            final(self)@ == old(self)@.update(addr as int, *final(r)),
    {
        &mut self.memory[addr as usize]
    }

    pub fn load_word(&self, addr: u16) -> (r: u16)
        ensures
            r == spec_word_at(self@, addr),
    {
        get_u16(self.load_byte(addr.wrapping_add(1)), self.load_byte(addr))
    }

    pub fn save_word(&mut self, addr: u16, word: u16)
        ensures
            final(self)@ == spec_word_write(old(self)@, addr, word),
    {
        let (high, low) = split_u16(word);
        self.save_byte(addr, low);
        self.save_byte(addr.wrapping_add(1), high);
    }

    /// Write `data` verbatim over the start of memory.
    pub fn load_slice(&mut self, data: &[u8])
        requires
            data@.len() <= 65536,
        ensures
            final(self)@ == overlay(old(self)@, data@),
    {
        let ghost orig: Seq<u8> = self@;
        let mut i: usize = 0;
        while i < data.len()
            invariant
                i <= data@.len() <= 65536,
                self@.len() == orig.len() == 65536,
                forall|j: int| 0 <= j < i ==> self@[j] == data@[j],
                forall|j: int| i <= j < 65536 ==> self@[j] == orig[j],
            decreases data@.len() - i,
        {
            self.save_byte(i as u16, data[i]);
            i += 1;
        }
        proof {
            assert(self@ =~= overlay(orig, data@));
        }
    }
}

} // verus!
