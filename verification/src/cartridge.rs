//! The cartridge: PRG and CHR byte arrays behind the NROM mapper, loaded
//! from an iNES image.
//!
//! The iNES layout is a 16-byte header (magic `NES\x1A`, PRG bank count,
//! CHR bank count, two flag bytes, eight ignored bytes), an optional
//! 512-byte trainer, then the PRG data and the CHR data. A CHR bank count
//! of zero means the cartridge carries 8 KiB of CHR-RAM instead of ROM.

use vstd::prelude::*;
use crate::mapper::Mapper;

verus! {

#[derive(Debug, Clone, Copy, PartialEq, Eq, Structural)]
pub enum Mirror {
    HORIZONTAL,
    VERTICAL,
}

#[derive(Debug, Clone, Copy, PartialEq, Eq, Structural)]
pub enum LoadError {
    /// The image does not start with `NES\x1A`.
    BadMagic,
    /// The image ends before the header, PRG or CHR region does.
    Truncated,
    /// The header names a mapper other than NROM.
    UnsupportedMapper,
}

pub struct Cartridge {
    pub v_prg_memory: Vec<u8>,
    pub v_chr_memory: Vec<u8>,
    pub mapper: Mapper,
    pub mirror: Mirror,
}

/// The mapper id is split across the high nibbles of the two flag bytes.
pub open spec fn spec_mapper_id(flags_6: u8, flags_7: u8) -> u8 {
    (flags_6 >> 4) | (flags_7 & 0xF0)
}

/// Flag bit 2 announces a 512-byte trainer between header and PRG.
pub open spec fn spec_has_trainer(flags_6: u8) -> bool {
    flags_6 & 0x04 != 0
}

/// Flag bit 0 picks the nametable mirroring.
pub open spec fn spec_mirror(flags_6: u8) -> Mirror {
    if flags_6 & 0x01 != 0 {
        Mirror::VERTICAL
    } else {
        Mirror::HORIZONTAL
    }
}

/// Where the PRG region starts in the image.
pub open spec fn spec_prg_start(flags_6: u8) -> int {
    16 + if spec_has_trainer(flags_6) { 512int } else { 0int }
}

/// Whether the first four bytes spell the iNES magic.
pub open spec fn spec_magic_ok(rom: Seq<u8>) -> bool {
    rom[0] == 0x4E && rom[1] == 0x45 && rom[2] == 0x53 && rom[3] == 0x1A
}

impl Cartridge {
    /// The backing arrays always match the bank counts the mapper was built
    /// with; a bank count of zero for CHR still backs a full 8 KiB of RAM.
    pub open spec fn wf(&self) -> bool {
        &&& self.v_prg_memory@.len() == 0x4000 * self.mapper.prg_banks
        &&& self.v_chr_memory@.len() == (if self.mapper.chr_banks == 0 {
            0x2000int
        } else {
            0x2000 * self.mapper.chr_banks
        })
    }

    /// The PRG offset the mapper assigns to a claimed CPU address.
    pub open spec fn spec_prg_offset(&self, addr: u16) -> int {
        if self.mapper.prg_banks > 1 {
            (addr & 0x7FFF) as int
        } else {
            (addr & 0x3FFF) as int
        }
    }

    /// The byte a claimed CPU read returns: the mapped PRG byte, or zero
    /// when the image carries no bank there.
    pub open spec fn spec_prg_read(&self, addr: u16) -> u8 {
        if self.spec_prg_offset(addr) < self.v_prg_memory@.len() {
            self.v_prg_memory@[self.spec_prg_offset(addr)]
        } else {
            0
        }
    }

    pub fn parse(rom: &[u8]) -> (r: Result<Cartridge, LoadError>)
        ensures
            rom@.len() < 16 ==> r == Err::<Cartridge, LoadError>(LoadError::Truncated),
            rom@.len() >= 16 && !spec_magic_ok(rom@) ==> r == Err::<Cartridge, LoadError>(
                LoadError::BadMagic,
            ),
            rom@.len() >= 16 && spec_magic_ok(rom@) && spec_mapper_id(rom@[6], rom@[7]) != 0
                ==> r == Err::<Cartridge, LoadError>(LoadError::UnsupportedMapper),
            rom@.len() >= 16 && spec_magic_ok(rom@) && spec_mapper_id(rom@[6], rom@[7]) == 0
                && rom@.len() < spec_prg_start(rom@[6]) + 0x4000 * rom@[4] + 0x2000 * rom@[5]
                ==> r == Err::<Cartridge, LoadError>(LoadError::Truncated),
            r is Ok <==> rom@.len() >= 16 && spec_magic_ok(rom@) && spec_mapper_id(
                rom@[6],
                rom@[7],
            ) == 0 && rom@.len() >= spec_prg_start(rom@[6]) + 0x4000 * rom@[4] + 0x2000
                * rom@[5],
            r matches Ok(cart) ==> {
                &&& rom@.len() >= 16
                &&& spec_magic_ok(rom@)
                &&& spec_mapper_id(rom@[6], rom@[7]) == 0
                &&& rom@.len() >= spec_prg_start(rom@[6]) + 0x4000 * rom@[4] + 0x2000
                    * rom@[5]
                &&& cart.wf()
                &&& cart.mapper.prg_banks == rom@[4]
                &&& cart.mapper.chr_banks == rom@[5]
                &&& cart.mirror == spec_mirror(rom@[6])
                &&& cart.v_prg_memory@ == rom@.subrange(
                    spec_prg_start(rom@[6]),
                    spec_prg_start(rom@[6]) + 0x4000 * rom@[4],
                )
                &&& cart.v_chr_memory@ == (if rom@[5] == 0 {
                    Seq::new(0x2000, |i: int| 0u8)
                } else {
                    rom@.subrange(
                        spec_prg_start(rom@[6]) + 0x4000 * rom@[4],
                        spec_prg_start(rom@[6]) + 0x4000 * rom@[4] + 0x2000 * rom@[5],
                    )
                })
            },
    {
        if rom.len() < 16 {
            return Err(LoadError::Truncated);
        }

        let b0 = rom[0];
        let b1 = rom[1];
        let b2 = rom[2];
        let b3 = rom[3];
        if !(b0 == 0x4E && b1 == 0x45 && b2 == 0x53 && b3 == 0x1A) {
            return Err(LoadError::BadMagic);
        }

        let prg_banks = rom[4];
        let chr_banks = rom[5];
        let flags_6 = rom[6];
        let flags_7 = rom[7];

        let n_mapper_id = (flags_6 >> 4) | (flags_7 & 0xF0);
        if n_mapper_id != 0 {
            return Err(LoadError::UnsupportedMapper);
        }

        let prg_start: usize = if flags_6 & 0x04 != 0 { 16 + 512 } else { 16 };
        let prg_len: usize = 0x4000 * (prg_banks as usize);
        let chr_len: usize = 0x2000 * (chr_banks as usize);

        let rom_len: usize = rom.len();
        if rom_len < prg_start + prg_len + chr_len {
            return Err(LoadError::Truncated);
        }

        let mut prg: Vec<u8> = Vec::new();
        let mut k: usize = 0;
        while k < prg_len
            invariant
                k <= prg_len,
                rom@.len() == rom_len,
                prg_start + prg_len <= rom_len,
                prg@ =~= rom@.subrange(prg_start as int, prg_start + k),
            decreases prg_len - k,
        {
            prg.push(rom[prg_start + k]);
            k += 1;
        }

        let chr_start: usize = prg_start + prg_len;
        let mut chr: Vec<u8> = Vec::new();
        if chr_banks == 0 {
            let mut k: usize = 0;
            while k < 0x2000
                invariant
                    k <= 0x2000,
                    chr@ =~= Seq::new(k as nat, |i: int| 0u8),
                decreases 0x2000 - k,
            {
                chr.push(0);
                k += 1;
            }
        } else {
            let mut k: usize = 0;
            while k < chr_len
                invariant
                    k <= chr_len,
                    rom@.len() == rom_len,
                    chr_start + chr_len <= rom_len,
                    chr@ =~= rom@.subrange(chr_start as int, chr_start + k),
                decreases chr_len - k,
            {
                chr.push(rom[chr_start + k]);
                k += 1;
            }
        }

        let mirror = if flags_6 & 0x01 != 0 {
            Mirror::VERTICAL
        } else {
            Mirror::HORIZONTAL
        };

        Ok(Cartridge {
            v_prg_memory: prg,
            v_chr_memory: chr,
            mapper: Mapper::new(prg_banks, chr_banks),
            mirror,
        })
    }

    /// A CPU-side read: `(claimed, byte)`.
    pub fn cpu_read(&self, addr: u16) -> (r: (bool, u8))
        requires
            self.wf(),
        ensures
            r.0 == (addr >= 0x8000),
            addr >= 0x8000 ==> r.1 == self.spec_prg_read(addr),
            addr < 0x8000 ==> r.1 == 0,
    {
        match self.mapper.cpu_map_read(addr) {
            (true, mapped_addr) => {
                if (mapped_addr as usize) < self.v_prg_memory.len() {
                    (true, self.v_prg_memory[mapped_addr as usize])
                } else {
                    (true, 0)
                }
            },
            _ => (false, 0),
        }
    }

    /// A CPU-side write; NROM routes it into the PRG array as a diagnostic
    /// path, dropping it when the image carries no bank there.
    pub fn cpu_write(&mut self, addr: u16, data: u8) -> (r: bool)
        requires
            old(self).wf(),
        ensures
            final(self).wf(),
            r == (addr >= 0x8000),
            final(self).mapper == old(self).mapper,
            final(self).mirror == old(self).mirror,
            final(self).v_chr_memory@ == old(self).v_chr_memory@,
            addr >= 0x8000 && old(self).spec_prg_offset(addr) < old(self).v_prg_memory@.len()
                ==> final(self).v_prg_memory@ == old(self).v_prg_memory@.update(
                old(self).spec_prg_offset(addr),
                data,
            ),
            addr >= 0x8000 && old(self).spec_prg_offset(addr) >= old(self).v_prg_memory@.len()
                ==> final(self).v_prg_memory@ == old(self).v_prg_memory@,
            addr < 0x8000 ==> final(self).v_prg_memory@ == old(self).v_prg_memory@,
    {
        match self.mapper.cpu_map_write(addr) {
            (true, mapped_addr) => {
                if (mapped_addr as usize) < self.v_prg_memory.len() {
                    self.v_prg_memory.set(mapped_addr as usize, data);
                }
                true
            },
            _ => false,
        }
    }

    /// A PPU-side read: CHR is claimed for the whole pattern-table window.
    pub fn ppu_read(&self, addr: u16) -> (r: (bool, u8))
        requires
            self.wf(),
        ensures
            r.0 == (addr <= 0x1FFF),
            addr <= 0x1FFF ==> r.1 == self.v_chr_memory@[addr as int],
            addr > 0x1FFF ==> r.1 == 0,
    {
        match self.mapper.ppu_map_read(addr) {
            (true, mapped_addr) => (true, self.v_chr_memory[mapped_addr as usize]),
            _ => (false, 0),
        }
    }

    /// A PPU-side write, claimed only when the CHR chip is RAM.
    pub fn ppu_write(&mut self, addr: u16, data: u8) -> (r: bool)
        requires
            old(self).wf(),
        ensures
            final(self).wf(),
            r == (addr <= 0x1FFF && old(self).mapper.chr_banks == 0),
            final(self).mapper == old(self).mapper,
            final(self).mirror == old(self).mirror,
            final(self).v_prg_memory@ == old(self).v_prg_memory@,
            r ==> final(self).v_chr_memory@ == old(self).v_chr_memory@.update(
                addr as int,
                data,
            ),
            !r ==> final(self).v_chr_memory@ == old(self).v_chr_memory@,
    {
        match self.mapper.ppu_map_write(addr) {
            (true, mapped_addr) => {
                self.v_chr_memory.set(mapped_addr as usize, data);
                true
            },
            _ => false,
        }
    }
}

} // verus!
