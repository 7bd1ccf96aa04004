use vstd::prelude::*;
use crate::cpu::Memory;

verus! {

/// A plain memory: 65536 bytes of RAM, with nothing mapped into it.
pub struct Ram {
    bytes: [u8; 65536],
}

impl Ram {
    /// A memory of zeros.
    pub fn new() -> (ram: Ram)
        ensures
            forall|address: u16| ram.byte_at(address) == 0,
    {
        Ram { bytes: [0u8; 65536] }
    }
}

impl Memory for Ram {
    closed spec fn byte_at(&self, address: u16) -> u8 {
        self.bytes@[address as int]
    }

    fn read(&self, cycles: &mut isize, address: u16) -> (value: u8) {
        *cycles -= 1;
        self.bytes[address as usize]
    }

    fn get(&self, address: u16) -> (value: u8) {
        self.bytes[address as usize]
    }

    fn write(&mut self, cycles: &mut isize, address: u16, value: u8) {
        *cycles -= 1;
        self.set(address, value);
    }

    fn set(&mut self, address: u16, value: u8) {
        self.bytes[address as usize] = value;
    }
}

} // verus!
