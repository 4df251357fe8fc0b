//! The whole machine: CPU, PPU, cartridge, work RAM and controllers under
//! one owner, advanced one PPU dot at a time with the CPU running on every
//! third dot and NMI handed across at the boundary in between.

use vstd::prelude::*;
use vstd::wrapping::u64_specs;
use crate::bus::Bus;
use crate::cartridge::Cartridge;
use crate::cartridge::LoadError;
use crate::cartridge::spec_magic_ok;
use crate::cartridge::spec_mapper_id;
use crate::cartridge::spec_mirror;
use crate::cartridge::spec_prg_start;
use crate::cpu::CPU;
use crate::cpu::FLAG_I;
use crate::memory::Memory;
use crate::ppu::PPU;
use crate::ppu::spec_dot;

verus! {

/// The CPU reached a jam opcode and fetches nothing further until a reset.
#[derive(Debug, Clone, Copy, PartialEq, Eq, Structural)]
pub struct CpuHalt;

/// How many ticks are left until the running frame closes; zero once the
/// frame edge has been raised.
pub open spec fn spec_frame_distance(p: &PPU) -> int {
    if p.frame_complete {
        0int
    } else {
        89342 - spec_dot(p)
    }
}

pub struct Machine {
    pub cpu: CPU,
    pub system_clock_counter: u64,
}

impl Machine {
    pub open spec fn wf(&self) -> bool {
        self.cpu.wf()
    }

    /// Builds a machine around an iNES image; the image's failure modes
    /// surface here and nowhere later.
    pub fn new(rom: &[u8]) -> (r: Result<Machine, LoadError>)
        ensures
            rom@.len() < 16 ==> r == Err::<Machine, LoadError>(LoadError::Truncated),
            rom@.len() >= 16 && !spec_magic_ok(rom@) ==> r == Err::<Machine, LoadError>(
                LoadError::BadMagic,
            ),
            rom@.len() >= 16 && spec_magic_ok(rom@) && spec_mapper_id(rom@[6], rom@[7]) != 0
                ==> r == Err::<Machine, LoadError>(LoadError::UnsupportedMapper),
            rom@.len() >= 16 && spec_magic_ok(rom@) && spec_mapper_id(rom@[6], rom@[7]) == 0
                && rom@.len() < spec_prg_start(rom@[6]) + 0x4000 * rom@[4] + 0x2000
                * rom@[5] ==> r == Err::<Machine, LoadError>(LoadError::Truncated),
            r is Ok <==> rom@.len() >= 16 && spec_magic_ok(rom@) && spec_mapper_id(
                rom@[6],
                rom@[7],
            ) == 0 && rom@.len() >= spec_prg_start(rom@[6]) + 0x4000 * rom@[4] + 0x2000
                * rom@[5],
            r matches Ok(m) ==> {
                &&& m.wf()
                &&& m.system_clock_counter == 0
                &&& m.cpu.pc == 0xFFFC
                &&& m.cpu.sp == 0xFD
                &&& m.cpu.status == FLAG_I
                &&& !m.cpu.corrupted && !m.cpu.nmi
                &&& m.cpu.bus.cartridge.mapper.prg_banks == rom@[4]
                &&& m.cpu.bus.cartridge.mapper.chr_banks == rom@[5]
                &&& m.cpu.bus.cartridge.mirror == spec_mirror(rom@[6])
                &&& m.cpu.bus.cartridge.v_prg_memory@ == rom@.subrange(
                    spec_prg_start(rom@[6]),
                    spec_prg_start(rom@[6]) + 0x4000 * rom@[4],
                )
                &&& m.cpu.bus.ppu.scanline == 0 && m.cpu.bus.ppu.cycle == 0
                &&& !m.cpu.bus.ppu.frame_complete && !m.cpu.bus.ppu.nmi
            },
    {
        let cartridge = match Cartridge::parse(rom) {
            Ok(c) => c,
            Err(e) => {
                return Err(e);
            },
        };

        let mut controller: Vec<u8> = Vec::new();
        controller.push(0);
        controller.push(0);
        let mut controller_state: Vec<u8> = Vec::new();
        controller_state.push(0);
        controller_state.push(0);

        let bus = Bus {
            memory: Memory::new(),
            cartridge,
            ppu: PPU::new(),
            controller,
            controller_state,
        };

        Ok(Machine { cpu: CPU::new(bus), system_clock_counter: 0 })
    }

    /// Returns every component to its power-up state; memory contents
    /// survive, as they do on the console.
    pub fn reset(&mut self)
        requires
            old(self).wf(),
        ensures
            final(self).wf(),
            final(self).system_clock_counter == 0,
            final(self).cpu.sp == 0xFD,
            final(self).cpu.a == 0 && final(self).cpu.x == 0 && final(self).cpu.y == 0,
            final(self).cpu.status == crate::cpu::FLAG_U | FLAG_I,
            !final(self).cpu.corrupted && !final(self).cpu.nmi,
            final(self).cpu.pc == ((crate::bus::spec_bus_value(
                &old(self).cpu.bus,
                0xFFFC,
            ) as u16) | ((crate::bus::spec_bus_value(&old(self).cpu.bus, 0xFFFD) as u16)
                << 8)),
            final(self).cpu.bus.ppu.scanline == 0 && final(self).cpu.bus.ppu.cycle == 0,
            final(self).cpu.bus.ppu.status == 0,
            final(self).cpu.bus.memory == old(self).cpu.bus.memory,
            final(self).cpu.bus.cartridge == old(self).cpu.bus.cartridge,
    {
        self.cpu.reset();
        self.cpu.bus.ppu.reset();
        self.system_clock_counter = 0;
    }

    /// One PPU dot. Every third dot the CPU runs one tick as well, and an
    /// NMI edge the PPU raised is handed to the CPU before the next tick.
    /// The call reports a halt only when the CPU has reached a jam opcode.
    pub fn tick(&mut self) -> (r: Result<(), CpuHalt>)
        requires
            old(self).wf(),
        ensures
            final(self).wf(),
            final(self).system_clock_counter == u64_specs::wrapping_add(
                old(self).system_clock_counter,
                1,
            ),
            spec_dot(&final(self).cpu.bus.ppu) == (spec_dot(&old(self).cpu.bus.ppu) + 1)
                % 89342,
            final(self).cpu.bus.ppu.frame_complete == (old(self).cpu.bus.ppu.frame_complete
                || spec_dot(&final(self).cpu.bus.ppu) == 0),
            !final(self).cpu.bus.ppu.nmi,
            old(self).cpu.bus.ppu.nmi ==> final(self).cpu.nmi,
            old(self).system_clock_counter % 3 != 0 ==> final(self).cpu == (CPU {
                nmi: final(self).cpu.nmi,
                bus: final(self).cpu.bus,
                ..old(self).cpu
            }) && final(self).cpu.bus == (Bus {
                ppu: final(self).cpu.bus.ppu,
                ..old(self).cpu.bus
            }),
            old(self).system_clock_counter % 3 == 0 && old(self).cpu.cycles_remaining > 0
                ==> final(self).cpu == (CPU {
                cycles_remaining: (old(self).cpu.cycles_remaining - 1) as usize,
                nmi: final(self).cpu.nmi,
                bus: final(self).cpu.bus,
                ..old(self).cpu
            }) && final(self).cpu.bus == (Bus {
                ppu: final(self).cpu.bus.ppu,
                ..old(self).cpu.bus
            }),
            old(self).system_clock_counter % 3 == 0 && old(self).cpu.cycles_remaining == 0
                && !old(self).cpu.corrupted ==> {
                &&& final(self).cpu.cycles_remaining
                    == vstd::wrapping::usize_specs::wrapping_sub(
                    final(self).cpu.clock_count,
                    old(self).cpu.clock_count,
                )
                &&& crate::cpu::spec_keeps_ub(old(self).cpu.status, final(self).cpu.status)
                    || (!old(self).cpu.nmi && final(self).cpu.instr.2
                    == crate::cpu::instr::Operation::RTI)
                &&& (old(self).cpu.nmi ==> {
                    &&& final(self).cpu.pc == ((crate::bus::spec_bus_value(
                        &old(self).cpu.bus,
                        0xFFFA,
                    ) as u16) | ((crate::bus::spec_bus_value(
                        &old(self).cpu.bus,
                        0xFFFB,
                    ) as u16) << 8))
                    &&& final(self).cpu.sp == vstd::wrapping::u8_specs::wrapping_sub(
                        old(self).cpu.sp,
                        3,
                    )
                    &&& final(self).cpu.status == crate::cpu::spec_set_flag(
                        old(self).cpu.status,
                        crate::cpu::FLAG_I,
                        true,
                    )
                })
            },
            r == (if final(self).cpu.corrupted {
                Err::<(), CpuHalt>(CpuHalt)
            } else {
                Ok::<(), CpuHalt>(())
            }),
    {
        let _ = self.cpu.bus.ppu.clock(&self.cpu.bus.cartridge);

        if self.system_clock_counter % 3 == 0 {
            let _ = self.cpu.clock();
        }

        if self.cpu.bus.ppu.nmi {
            self.cpu.bus.ppu.nmi = false;
            self.cpu.nmi = true;
        }

        self.system_clock_counter = self.system_clock_counter.wrapping_add(1);

        if self.cpu.corrupted {
            Err(CpuHalt)
        } else {
            Ok(())
        }
    }

    /// Runs dots until the frame edge, consumes the edge, and hands back
    /// the finished 256 x 240 buffer of palette indices.
    pub fn frame(&mut self) -> (r: &Vec<u8>)
        requires
            old(self).wf(),
        ensures
            final(self).wf(),
            !final(self).cpu.bus.ppu.frame_complete,
            !old(self).cpu.bus.ppu.frame_complete ==> spec_dot(&final(self).cpu.bus.ppu)
                == 0,
            final(self).system_clock_counter == (old(self).system_clock_counter
                + spec_frame_distance(&old(self).cpu.bus.ppu)) % 0x10000000000000000,
            *r == final(self).cpu.bus.ppu.spr_screen,
            r@.len() == 61440,
    {
        let ghost d0 = spec_dot(&old(self).cpu.bus.ppu);
        let ghost c0 = old(self).system_clock_counter as int;
        let ghost mut n: int = 0;
        proof {
            vstd::arithmetic::div_mod::lemma_small_mod(
                old(self).system_clock_counter as nat,
                0x10000000000000000,
            );
        }
        while !self.cpu.bus.ppu.frame_complete
            invariant
                self.wf(),
                0 <= n,
                0 <= d0 < 89342,
                !self.cpu.bus.ppu.frame_complete ==> spec_dot(&self.cpu.bus.ppu) == d0 + n
                    && n < 89342 - d0,
                old(self).cpu.bus.ppu.frame_complete ==> self.cpu.bus.ppu.frame_complete
                    && n == 0,
                self.cpu.bus.ppu.frame_complete ==> (old(self).cpu.bus.ppu.frame_complete
                    && n == 0) || (spec_dot(&self.cpu.bus.ppu) == 0 && n == 89342 - d0),
                self.system_clock_counter == (c0 + n) % 0x10000000000000000,
            decreases spec_frame_distance(&self.cpu.bus.ppu),
        {
            let ghost pre_counter = self.system_clock_counter as int;
            let ghost pre_dot = spec_dot(&self.cpu.bus.ppu);
            let _ = self.tick();
            proof {
                n = n + 1;
                vstd::arithmetic::div_mod::lemma_small_mod(1nat, 0x10000000000000000);
                vstd::arithmetic::div_mod::lemma_add_mod_noop(
                    c0 + n - 1,
                    1,
                    0x10000000000000000,
                );
                if pre_counter + 1 < 0x10000000000000000 {
                    vstd::arithmetic::div_mod::lemma_small_mod(
                        (pre_counter + 1) as nat,
                        0x10000000000000000,
                    );
                } else {
                    vstd::arithmetic::div_mod::lemma_mod_self_0(0x10000000000000000);
                }
                if pre_dot + 1 < 89342 {
                    vstd::arithmetic::div_mod::lemma_small_mod((pre_dot + 1) as nat, 89342nat);
                } else {
                    vstd::arithmetic::div_mod::lemma_mod_self_0(89342);
                }
            }
        }
        self.cpu.bus.ppu.frame_complete = false;
        &self.cpu.bus.ppu.spr_screen
    }

    /// Latches the host's button mask for one of the two controller
    /// ports; the guest snapshots and shifts it through `$4016`/`$4017`.
    pub fn set_buttons(&mut self, port: u8, mask: u8)
        requires
            old(self).wf(),
            port <= 1,
        ensures
            final(self).wf(),
            final(self).cpu.bus.controller@ == old(self).cpu.bus.controller@.update(
                port as int,
                mask,
            ),
            final(self).cpu == (CPU { bus: final(self).cpu.bus, ..old(self).cpu }),
            final(self).cpu.bus == (Bus {
                controller: final(self).cpu.bus.controller,
                ..old(self).cpu.bus
            }),
            final(self).system_clock_counter == old(self).system_clock_counter,
    {
        self.cpu.bus.controller.set(port as usize, mask);
    }
}

/// How many of `n` consecutive tick indices starting at `t` are multiples
/// of three: exactly the ticks on which the 3:1 divider lets the CPU run,
/// since `tick` steps the CPU when the running counter is divisible by
/// three and advances the counter by one each call.
pub open spec fn spec_div3_ticks(t: int, n: nat) -> int
    decreases n,
{
    if n == 0 {
        0int
    } else {
        (if t % 3 == 0 {
            1int
        } else {
            0int
        }) + spec_div3_ticks(t + 1, (n - 1) as nat)
    }
}

/// Counting divider hits splits over adjacent windows.
proof fn lemma_div3_split(t: int, a: nat, b: nat)
    ensures
        spec_div3_ticks(t, a + b) == spec_div3_ticks(t, a) + spec_div3_ticks(t + a, b),
    decreases a,
{
    if a > 0 {
        lemma_div3_split(t + 1, (a - 1) as nat, b);
    }
}

/// Any three consecutive ticks contain exactly one divider hit.
proof fn lemma_div3_triple(t: int)
    ensures
        spec_div3_ticks(t, 3) == 1,
{
    reveal_with_fuel(spec_div3_ticks, 4);
    vstd::arithmetic::div_mod::lemma_add_mod_noop(t, 1, 3);
    vstd::arithmetic::div_mod::lemma_add_mod_noop(t, 2, 3);
    vstd::arithmetic::div_mod::lemma_small_mod(1nat, 3nat);
    vstd::arithmetic::div_mod::lemma_small_mod(2nat, 3nat);
    vstd::arithmetic::div_mod::lemma_mod_self_0(3);
    vstd::arithmetic::div_mod::lemma_mod_multiples_vanish(1, 1, 3);
}

/// A window of full three-tick groups hands the CPU one tick per group.
proof fn lemma_div3_window(t: int, k: nat)
    ensures
        spec_div3_ticks(t, 3 * k) == k,
    decreases k,
{
    if k > 0 {
        lemma_div3_split(t, 3, (3 * (k - 1)) as nat);
        lemma_div3_triple(t);
        lemma_div3_window(t + 3, (k - 1) as nat);
    }
}

/// Across the 89,342 ticks of one frame the 3:1 divider hands the CPU
/// 29,780 ticks, plus one more carried by the two leftover dots except in
/// the one phase whose window starts right after a divider hit.
pub proof fn lemma_cpu_ticks_per_frame(t: int)
    ensures
        spec_div3_ticks(t, 89342) == 29780 + (if t % 3 == 1 {
            0int
        } else {
            1int
        }),
{
    reveal_with_fuel(spec_div3_ticks, 4);
    lemma_div3_split(t, 89340, 2);
    lemma_div3_window(t, 29780);
    vstd::arithmetic::div_mod::lemma_mod_multiples_vanish(29780, t, 3);
    vstd::arithmetic::div_mod::lemma_mod_multiples_vanish(29780, t + 1, 3);
    vstd::arithmetic::div_mod::lemma_add_mod_noop(t, 1, 3);
    vstd::arithmetic::div_mod::lemma_small_mod(1nat, 3nat);
    vstd::arithmetic::div_mod::lemma_small_mod(2nat, 3nat);
    vstd::arithmetic::div_mod::lemma_mod_self_0(3);
    vstd::arithmetic::div_mod::lemma_mod_multiples_vanish(1, 1, 3);
}

} // verus!
