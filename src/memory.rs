use vstd::prelude::*;

use crate::{Byte, Word, MEMORY_LENGTH};

verus! {

/// The flat 64 KiB byte store.
pub struct Memory {
    data: Vec<Byte>,
}

impl View for Memory {
    type V = Seq<Byte>;

    /// The bytes of memory, indexed by address.
    closed spec fn view(&self) -> Seq<Byte> {
        self.data@
    }
}

impl Memory {
    /// Every 16-bit address names a byte of the store.
    #[verifier::type_invariant]
    spec fn covers_address_space(&self) -> bool {
        self.data.len() == MEMORY_LENGTH
    }

    /// A store of 65 536 zero bytes.
    pub fn new() -> (m: Self)
        ensures
            m@.len() == MEMORY_LENGTH,
            forall|i: int| 0 <= i < MEMORY_LENGTH ==> #[trigger] m@[i] == 0,
    {
        let mut data: Vec<Byte> = Vec::with_capacity(MEMORY_LENGTH);
        while data.len() < MEMORY_LENGTH
            invariant
                data.len() <= MEMORY_LENGTH,
                forall|i: int| 0 <= i < data.len() ==> #[trigger] data@[i] == 0,
            decreases MEMORY_LENGTH - data.len(),
        {
            data.push(0);
        }
        Memory { data }
    }

    /// The byte stored at `addr`.
    pub fn read_byte(&self, addr: Word) -> (val: Byte)
        ensures
            val == self@[addr as int],
    {
        proof {
            use_type_invariant(self);
        }
        self.data[addr as usize]
    }

    /// Stores `val` at `addr`; every other byte is kept.
    pub fn write_byte(&mut self, addr: Word, val: Byte)
        ensures
            final(self)@ == old(self)@.update(addr as int, val),
    {
        proof {
            use_type_invariant(&*self);
        }
        self.data[addr as usize] = val;
    }
}

} // verus!
