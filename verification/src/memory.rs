//! The 2 KiB of CPU work RAM.

use vstd::prelude::*;

verus! {

pub struct Memory {
    pub bytes: Vec<u8>,
}

impl Memory {
    /// The RAM is exactly 2 KiB; callers index it with an address already
    /// reduced modulo that size.
    pub open spec fn wf(&self) -> bool {
        self.bytes@.len() == 2048
    }

    pub fn new() -> (m: Memory)
        ensures
            m.wf(),
            m.bytes@ =~= Seq::new(2048, |i: int| 0u8),
    {
        let mut bytes: Vec<u8> = Vec::new();
        let mut i: usize = 0;
        while i < 2048
            invariant
                i <= 2048,
                bytes@ =~= Seq::new(i as nat, |j: int| 0u8),
            decreases 2048 - i,
        {
            bytes.push(0);
            i += 1;
        }
        Memory { bytes }
    }

    pub fn get_byte(&self, address: u16) -> (r: u8)
        requires
            self.wf(),
            address < 2048,
        ensures
            r == self.bytes@[address as int],
    {
        self.bytes[address as usize]
    }

    pub fn set_byte(&mut self, address: u16, value: u8)
        requires
            old(self).wf(),
            address < 2048,
        ensures
            final(self).wf(),
            final(self).bytes@ == old(self).bytes@.update(address as int, value),
    {
        self.bytes.set(address as usize, value);
    }
}

} // verus!
