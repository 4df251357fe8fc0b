//! NROM (mapper 0) address decoding.
//!
//! The mapper is a pure function from a 16-bit bus address to a pair
//! `(claimed, offset)`: whether the cartridge services the access, and at
//! which offset into its PRG or CHR array.

use vstd::prelude::*;
use crate::bitmath::lemma_u16_mask_bounds;

verus! {

#[derive(Debug, Clone, Copy)]
pub struct Mapper {
    pub prg_banks: u8,
    pub chr_banks: u8,
}

impl Mapper {
    pub fn new(prg_banks: u8, chr_banks: u8) -> (m: Mapper)
        ensures
            m.prg_banks == prg_banks,
            m.chr_banks == chr_banks,
    {
        Mapper { prg_banks, chr_banks }
    }

    /// CPU reads in `[$8000,$FFFF]` map into PRG; a single 16 KiB bank is
    /// mirrored across the whole window.
    pub fn cpu_map_read(&self, addr: u16) -> (r: (bool, u32))
        ensures
            r.0 == (addr >= 0x8000),
            addr >= 0x8000 && self.prg_banks > 1 ==> r.1 == (addr & 0x7FFF) as u32,
            addr >= 0x8000 && self.prg_banks <= 1 ==> r.1 == (addr & 0x3FFF) as u32,
            addr >= 0x8000 && self.prg_banks > 1 ==> r.1 < 0x8000,
            addr >= 0x8000 && self.prg_banks <= 1 ==> r.1 < 0x4000,
            addr < 0x8000 ==> r == (false, 0u32),
    {
        if addr >= 0x8000 {
            let and_with: u16 = if self.prg_banks > 1 { 0x7FFF } else { 0x3FFF };
            let mapped_addr: u16 = addr & and_with;
            proof { lemma_u16_mask_bounds(addr); }
            return (true, mapped_addr as u32);
        }

        (false, 0)
    }

    /// CPU writes map exactly as reads do; NROM PRG is ROM, but the mapper
    /// surface deliberately routes the access and leaves the decision to the
    /// cartridge.
    pub fn cpu_map_write(&self, addr: u16) -> (r: (bool, u32))
        ensures
            r.0 == (addr >= 0x8000),
            addr >= 0x8000 && self.prg_banks > 1 ==> r.1 == (addr & 0x7FFF) as u32,
            addr >= 0x8000 && self.prg_banks <= 1 ==> r.1 == (addr & 0x3FFF) as u32,
            addr >= 0x8000 && self.prg_banks > 1 ==> r.1 < 0x8000,
            addr >= 0x8000 && self.prg_banks <= 1 ==> r.1 < 0x4000,
            addr < 0x8000 ==> r == (false, 0u32),
    {
        if addr >= 0x8000 {
            let and_with: u16 = if self.prg_banks > 1 { 0x7FFF } else { 0x3FFF };
            let mapped_addr: u16 = addr & and_with;
            proof { lemma_u16_mask_bounds(addr); }
            return (true, mapped_addr as u32);
        }

        (false, 0)
    }

    /// PPU reads in `[$0000,$1FFF]` map straight into CHR.
    pub fn ppu_map_read(&self, addr: u16) -> (r: (bool, u32))
        ensures
            r.0 == (addr <= 0x1FFF),
            addr <= 0x1FFF ==> r.1 == addr as u32 && r.1 < 0x2000,
            addr > 0x1FFF ==> r == (false, 0u32),
    {
        if addr <= 0x1FFF {
            return (true, addr as u32);
        }

        (false, 0)
    }

    /// PPU writes are claimed only when the CHR chip is RAM, which NROM
    /// signals with a bank count of zero.
    pub fn ppu_map_write(&self, addr: u16) -> (r: (bool, u32))
        ensures
            r.0 == (addr <= 0x1FFF && self.chr_banks == 0),
            r.0 ==> r.1 == addr as u32 && r.1 < 0x2000,
            !r.0 ==> r == (false, 0u32),
    {
        if addr <= 0x1FFF {
            if self.chr_banks == 0 {
                return (true, addr as u32);
            }
        }

        (false, 0)
    }
}

} // verus!
