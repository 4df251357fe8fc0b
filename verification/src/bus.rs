//! The CPU-side system bus: work RAM mirrored through `$1FFF`, the PPU
//! registers mirrored through `$3FFF`, the controller shift registers at
//! `$4016`/`$4017`, silent APU stubs, and the cartridge above `$4020`.

use vstd::prelude::*;
use crate::bitmath::lemma_u16_mask_bounds;
use crate::cartridge::Cartridge;
use crate::memory::Memory;
use crate::ppu::PPU;
use crate::ppu::spec_reg_read;
use crate::ppu::spec_same_counters;
use crate::ppu::spec_reg_write;

verus! {

pub struct Bus {
    pub memory: Memory,
    pub cartridge: Cartridge,
    pub ppu: PPU,
    /// The two live controller bytes, as the host sets them.
    pub controller: Vec<u8>,
    /// The two latched shift registers the guest reads bit by bit.
    pub controller_state: Vec<u8>,
}

/// Reading this address has no side effect on any device, and its value is
/// a plain function of the bus state: everything but the PPU registers and
/// the controller ports.
pub open spec fn spec_bus_pure(addr: u16) -> bool {
    &&& !(0x2000 <= addr <= 0x3FFF)
    &&& addr != 0x4016
    &&& addr != 0x4017
}

/// What a side-effect-free read returns: PRG through the mapper, mirrored
/// work RAM, or the open value zero.
pub open spec fn spec_bus_value(bus: &Bus, addr: u16) -> u8 {
    if addr >= 0x8000 {
        bus.cartridge.spec_prg_read(addr)
    } else if addr <= 0x1FFF {
        bus.memory.bytes@[(addr & 0x07FF) as int]
    } else {
        0
    }
}

/// Everything a routed CPU write of `data` at `addr` does to the bus.
pub open spec fn spec_bus_write(pre: &Bus, post: &Bus, addr: u16, data: u8) -> bool {
    &&& spec_same_counters(&post.ppu, &pre.ppu)
    &&& post.controller@ == pre.controller@
    &&& post.cartridge.mapper == pre.cartridge.mapper
    &&& post.cartridge.mirror == pre.cartridge.mirror
    &&& (addr >= 0x8000 ==> {
        &&& (if pre.cartridge.spec_prg_offset(addr) < pre.cartridge.v_prg_memory@.len() {
            post.cartridge.v_prg_memory@ == pre.cartridge.v_prg_memory@.update(
                pre.cartridge.spec_prg_offset(addr),
                data,
            )
        } else {
            post.cartridge.v_prg_memory@ == pre.cartridge.v_prg_memory@
        })
        &&& post.cartridge.v_chr_memory@ == pre.cartridge.v_chr_memory@
        &&& post.memory == pre.memory
        &&& post.ppu == pre.ppu
        &&& post.controller_state@ == pre.controller_state@
    })
    &&& (addr <= 0x1FFF ==> post.memory.bytes@ == pre.memory.bytes@.update(
        (addr & 0x07FF) as int,
        data,
    ) && post.cartridge.v_prg_memory@ == pre.cartridge.v_prg_memory@
        && post.cartridge.v_chr_memory@ == pre.cartridge.v_chr_memory@ && post.ppu
        == pre.ppu && post.controller_state@ == pre.controller_state@)
    &&& (0x2000 <= addr <= 0x3FFF ==> spec_reg_write(
        &pre.ppu,
        &post.ppu,
        &pre.cartridge,
        &post.cartridge,
        addr & 0x0007,
        data,
    ) && post.memory == pre.memory && post.controller_state@ == pre.controller_state@
        && post.cartridge.v_prg_memory@ == pre.cartridge.v_prg_memory@)
    &&& (addr == 0x4016 || addr == 0x4017 ==> post.controller_state@
        == pre.controller_state@.update(
        (addr & 0x0001) as int,
        pre.controller@[(addr & 0x0001) as int],
    ) && post.memory == pre.memory && post.ppu == pre.ppu && post.cartridge.v_prg_memory@
        == pre.cartridge.v_prg_memory@ && post.cartridge.v_chr_memory@
        == pre.cartridge.v_chr_memory@)
    &&& ((0x4000 <= addr <= 0x4015 || 0x4018 <= addr <= 0x401F || 0x4020 <= addr
        <= 0x7FFF) ==> post.memory == pre.memory && post.ppu == pre.ppu
        && post.controller_state@ == pre.controller_state@ && post.cartridge.v_prg_memory@
        == pre.cartridge.v_prg_memory@ && post.cartridge.v_chr_memory@
        == pre.cartridge.v_chr_memory@)
}

/// Everything a routed CPU read at `addr` does to the bus, and what it
/// returns.
pub open spec fn spec_bus_read(
    pre: &Bus,
    post: &Bus,
    addr: u16,
    read_only: bool,
    r: u8,
) -> bool {
    &&& spec_same_counters(&post.ppu, &pre.ppu)
    &&& post.memory == pre.memory
    &&& post.cartridge == pre.cartridge
    &&& post.controller@ == pre.controller@
    &&& (spec_bus_pure(addr) ==> *post == *pre && r == spec_bus_value(pre, addr))
    &&& (0x2000 <= addr <= 0x3FFF ==> spec_reg_read(
        &pre.ppu,
        &post.ppu,
        &pre.cartridge,
        addr & 0x0007,
        read_only,
        r,
    ) && post.controller_state@ == pre.controller_state@)
    &&& (addr == 0x4016 || addr == 0x4017 ==> {
        let idx = (addr & 0x0001) as int;
        &&& r == (if pre.controller_state@[idx] & 0x80 != 0 {
            1u8
        } else {
            0u8
        })
        &&& post.controller_state@ == pre.controller_state@.update(
            idx,
            (pre.controller_state@[idx] << 1) as u8,
        )
        &&& post.ppu == pre.ppu
    })
}

/// Work RAM is mirrored through `$1FFF`: at all times, reading any address
/// in `[$0800,$1FFF]` returns the same byte as reading the address reduced
/// by the mirror mask, and both reads are free of side effects.
pub proof fn lemma_ram_mirror(bus: &Bus, a: u16)
    requires
        bus.wf(),
        0x0800 <= a <= 0x1FFF,
    ensures
        spec_bus_pure(a),
        spec_bus_pure(a & 0x07FF),
        spec_bus_value(bus, a) == spec_bus_value(bus, a & 0x07FF),
{
    lemma_u16_mask_bounds(a);
}

impl Bus {
    pub open spec fn wf(&self) -> bool {
        &&& self.memory.wf()
        &&& self.cartridge.wf()
        &&& self.ppu.wf()
        &&& self.controller@.len() == 2
        &&& self.controller_state@.len() == 2
    }

    /// Routes a CPU write by address; unclaimed addresses drop it.
    pub fn cpu_write(&mut self, addr: u16, data: u8)
        requires
            old(self).wf(),
        ensures
            final(self).wf(),
            spec_bus_write(old(self), final(self), addr, data),
    {
        proof { lemma_u16_mask_bounds(addr); }
        if self.cartridge.cpu_write(addr, data) {
            // The cartridge claimed the write.
        } else if addr <= 0x1FFF {
            self.memory.set_byte(addr & 0x07FF, data);
        } else if addr >= 0x2000 && addr <= 0x3FFF {
            self.ppu.cpu_write(addr & 0x0007, data, &mut self.cartridge);
        } else if addr >= 0x4016 && addr <= 0x4017 {
            let idx = (addr & 0x0001) as usize;
            let held = self.controller[idx];
            self.controller_state.set(idx, held);
        }
    }

    /// Routes a CPU read by address; unclaimed addresses read as zero.
    /// `read_only` selects the side-effect-free peek path through the PPU.
    pub fn cpu_read(&mut self, addr: u16, read_only: bool) -> (r: u8)
        requires
            old(self).wf(),
        ensures
            final(self).wf(),
            spec_bus_read(old(self), final(self), addr, read_only, r),
    {
        proof { lemma_u16_mask_bounds(addr); }
        let (was_read, data) = self.cartridge.cpu_read(addr);
        if was_read {
            data
        } else if addr <= 0x1FFF {
            self.memory.get_byte(addr & 0x07FF)
        } else if addr >= 0x2000 && addr <= 0x3FFF {
            self.ppu.cpu_read(addr & 0x0007, read_only, &self.cartridge)
        } else if addr >= 0x4016 && addr <= 0x4017 {
            let idx = (addr & 0x0001) as usize;
            let held = self.controller_state[idx];
            let data = if held & 0x80 != 0 { 1 } else { 0 };
            self.controller_state.set(idx, held << 1);

            data
        } else {
            0x00
        }
    }
}

} // verus!
