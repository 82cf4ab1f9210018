//! The memory bus: an opaque byte-addressable space of 65536 locations.
//! The core reads and writes it through this interface alone; what backs
//! the space is the surrounding system's concern.

use vstd::prelude::*;

verus! {

/// Number of addressable locations: one for every 16-bit address.
pub const MEMORY_SIZE: usize = 0x10000;

/// A flat byte space covering the whole 16-bit address range. Every address
/// is legal to read and to write; there is no unmapped hole at this layer.
pub struct MemoryBus {
    memory: Vec<u8>,
}

impl View for MemoryBus {
    type V = Seq<u8>;

    closed spec fn view(&self) -> Seq<u8> {
        self.memory@
    }
}

impl MemoryBus {
    /// The bus always covers the full address space.
    pub open spec fn wf(&self) -> bool {
        self@.len() == MEMORY_SIZE
    }

    /// A bus with every location zeroed.
    pub fn new() -> (bus: MemoryBus)
        ensures
            bus.wf(),
            forall|i: int| 0 <= i < MEMORY_SIZE ==> bus@[i] == 0,
    {
        let memory: Vec<u8> = vec![0u8; MEMORY_SIZE];
        MemoryBus { memory }
    }

    /// Read the byte at an address. Total: every 16-bit address is in range.
    pub fn read_byte(&self, address: u16) -> (value: u8)
        requires
            self.wf(),
        ensures
            value == self@[address as int],
    {
        self.memory[address as usize]
    }

    /// Write a byte at an address; only that location changes.
    pub fn write(&mut self, address: u16, value: u8)
        requires
            old(self).wf(),
        ensures
            final(self).wf(),
            final(self)@ == old(self)@.update(address as int, value),
    {
        self.memory[address as usize] = value;
    }
}

} // verus!
