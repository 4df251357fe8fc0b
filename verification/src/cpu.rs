//! The 6502 CPU core: the register file, the cycle-counted memory accessors
//! that route through the bus, the stack discipline in page 1, and the
//! interrupt entry sequence.

pub mod instr;

use vstd::prelude::*;
use vstd::wrapping::u16_specs;
use vstd::wrapping::u8_specs;
use vstd::wrapping::usize_specs;
use crate::bus::Bus;
use crate::bus::spec_bus_pure;
use crate::bus::spec_bus_read;
use crate::bus::spec_bus_value;
use crate::bus::spec_bus_write;
use crate::ppu::spec_same_counters;
use crate::cpu::instr::AddrMode;
use crate::cpu::instr::Instr;
use crate::cpu::instr::Operation;
use crate::cpu::instr::spec_branch_taken;
use crate::cpu::instr::spec_branch_target;
use crate::cpu::instr::spec_is_branch;
use crate::cpu::instr::spec_lookup;

verus! {

pub const FLAG_N: u8 = 1 << 7;
pub const FLAG_V: u8 = 1 << 6;
pub const FLAG_U: u8 = 1 << 5;
pub const FLAG_B: u8 = 1 << 4;
pub const FLAG_D: u8 = 1 << 3;
pub const FLAG_I: u8 = 1 << 2;
pub const FLAG_Z: u8 = 1 << 1;
pub const FLAG_C: u8 = 1;

/// A status byte with one flag forced on or off.
pub open spec fn spec_set_flag(p: u8, mask: u8, on: bool) -> u8 {
    if on {
        p | mask
    } else {
        p & !mask
    }
}

/// A status byte with Z and N refreshed from a result value.
pub open spec fn spec_zn(p: u8, val: u8) -> u8 {
    spec_set_flag(spec_set_flag(p, FLAG_Z, val == 0), FLAG_N, val & 0x80 == 0x80)
}

/// The hardware status invariant between two status bytes: if the unused
/// bit was set and the break bit clear before, they stay that way.
pub open spec fn spec_keeps_ub(pre: u8, post: u8) -> bool {
    pre & 0x30 == 0x20 ==> post & 0x30 == 0x20
}

/// None of the flag updates the operations perform touch the unused or
/// break bits, and the pull path forces them to set and clear.
pub proof fn lemma_status_ub()
    by (bit_vector)
    ensures
        forall|p: u8, v: u8| #[trigger] spec_zn(p, v) & 0x30 == p & 0x30,
        forall|p: u8, on: bool| #[trigger] spec_set_flag(p, FLAG_C, on) & 0x30 == p
            & 0x30,
        forall|p: u8, on: bool| #[trigger] spec_set_flag(p, FLAG_V, on) & 0x30 == p
            & 0x30,
        forall|p: u8, on: bool| #[trigger] spec_set_flag(p, FLAG_D, on) & 0x30 == p
            & 0x30,
        forall|p: u8, on: bool| #[trigger] spec_set_flag(p, FLAG_I, on) & 0x30 == p
            & 0x30,
        forall|p: u8, on: bool| #[trigger] spec_set_flag(p, FLAG_Z, on) & 0x30 == p
            & 0x30,
        forall|p: u8, on: bool| #[trigger] spec_set_flag(p, FLAG_N, on) & 0x30 == p
            & 0x30,
        forall|p: u8| (#[trigger] ((p | FLAG_U) & !FLAG_B)) & 0x30 == 0x20,
        forall|p: u8| (#[trigger] ((p | FLAG_B) & !FLAG_B)) & 0x20 == p & 0x20,
        forall|p: u8| (#[trigger] ((p | FLAG_B) & !FLAG_B)) & 0x10 == 0,
        forall|p: u8| (#[trigger] ((p | FLAG_B) & !FLAG_B)) & 0x30 == p & 0x20,
        forall|p: u8| (#[trigger] (p & 0x30)) == 0x20 ==> p & 0x20 == 0x20,
        forall|p: u8| #[trigger] ((p | FLAG_C) & FLAG_C) == 1,
        forall|p: u8| #[trigger] ((p & !FLAG_C) & FLAG_C) == 0,
        forall|x: u8| (#[trigger] (x & 1)) <= 1,
{
}

/// What loading the operand through `fetch_data_cross` leaves behind, over
/// a whole operation that reads its operand and touches nothing else on
/// the bus: implied modes take the accumulator; the indexed modes keep the
/// dummy-read byte when no page was crossed; every other case reads the
/// byte at the resolved address, and a side-effect-free address leaves the
/// bus as it was and costs exactly one cycle.
pub open spec fn spec_operand_loaded(pre: &CPU, post: &CPU) -> bool {
    let mode = pre.instr.1;
    let indexed = mode == AddrMode::ABX || mode == AddrMode::ABY || mode == AddrMode::IDY;
    let reg = if mode == AddrMode::ABX {
        pre.x
    } else {
        pre.y
    };
    &&& post.bus.memory == pre.bus.memory
    &&& post.bus.cartridge == pre.bus.cartridge
    &&& post.bus.controller@ == pre.bus.controller@
    &&& (mode == AddrMode::IMP || mode == AddrMode::ACC ==> post.fetched_data == pre.a
        && post.bus == pre.bus && post.clock_count == pre.clock_count)
    &&& (indexed && (pre.abs_addr & 0x00FF) >= reg ==> post.fetched_data
        == pre.fetched_data && post.bus == pre.bus && post.clock_count
        == pre.clock_count)
    &&& (mode != AddrMode::IMP && mode != AddrMode::ACC && (!indexed || (pre.abs_addr
        & 0x00FF) < reg) && spec_bus_pure(pre.abs_addr) ==> post.fetched_data
        == spec_bus_value(&pre.bus, pre.abs_addr) && post.bus == pre.bus
        && post.clock_count == usize_specs::wrapping_add(pre.clock_count, 1))
}

/// The same, for an operation that loads its operand through `fetch_data`:
/// the byte at the resolved address in every non-implied mode.
pub open spec fn spec_operand_loaded_direct(pre: &CPU, post: &CPU) -> bool {
    let mode = pre.instr.1;
    &&& post.bus.memory == pre.bus.memory
    &&& post.bus.cartridge == pre.bus.cartridge
    &&& post.bus.controller@ == pre.bus.controller@
    &&& (mode == AddrMode::IMP || mode == AddrMode::ACC ==> post.fetched_data == pre.a
        && post.bus == pre.bus && post.clock_count == pre.clock_count)
    &&& (mode != AddrMode::IMP && mode != AddrMode::ACC && spec_bus_pure(pre.abs_addr)
        ==> post.fetched_data == spec_bus_value(&pre.bus, pre.abs_addr) && post.bus
        == pre.bus && post.clock_count == usize_specs::wrapping_add(
        pre.clock_count,
        1,
    ))
}

/// The operand a read-modify-write operation worked on: the byte that was
/// at the resolved address, whenever reading that address has no side
/// effects.
pub open spec fn spec_operand_byte(pre: &CPU, post: &CPU) -> bool {
    pre.instr.1 != AddrMode::IMP && pre.instr.1 != AddrMode::ACC && spec_bus_pure(
        pre.abs_addr,
    ) ==> post.fetched_data == spec_bus_value(&pre.bus, pre.abs_addr)
}

/// The accumulator an add-with-carry leaves: the low byte of `A + M + C`.
pub open spec fn spec_adc_a(a: u8, m: u8, p: u8) -> u8 {
    (((a + m + (p & FLAG_C)) as u16) & 0x00FF) as u8
}

/// The status an add-with-carry leaves: carry out of bit 7, signed
/// overflow, and Z and N from the eight-bit sum.
pub open spec fn spec_adc_p(a: u8, m: u8, p: u8) -> u8 {
    let sum = ((a + m + (p & FLAG_C)) as u16);
    spec_zn(
        spec_set_flag(
            spec_set_flag(p, FLAG_C, sum > 0xFF),
            FLAG_V,
            (a ^ m) & 0x80 == 0 && (a ^ spec_adc_a(a, m, p)) & 0x80 != 0,
        ),
        spec_adc_a(a, m, p),
    )
}

/// The status a compare of a register `a` against an operand `m` leaves:
/// carry when the register is not below the operand, Z and N from the
/// difference.
pub open spec fn spec_cmp_p(p: u8, a: u8, m: u8) -> u8 {
    spec_set_flag(spec_zn(p, u8_specs::wrapping_sub(a, m)), FLAG_C, a >= m)
}

/// The operations whose immediate form only loads the operand byte and
/// moves registers and flags: the subset whose one-call effect the
/// dispatcher's contract pins exactly.
pub open spec fn spec_imm_loadable(op: Operation) -> bool {
    op == Operation::LDA || op == Operation::LDX || op == Operation::LDY || op
        == Operation::AND || op == Operation::ORA || op == Operation::EOR || op
        == Operation::ADC || op == Operation::SBC || op == Operation::CMP || op
        == Operation::CPX || op == Operation::CPY
}

/// Writing the same cell twice leaves only the second value.
pub proof fn lemma_overwrite(s: Seq<u8>, i: int, a: u8, b: u8)
    requires
        0 <= i < s.len(),
    ensures
        s.update(i, a).update(i, b) == s.update(i, b),
{
    assert(s.update(i, a).update(i, b) =~= s.update(i, b));
}

/// Page-1 stack addresses: OR-ing the stack base with a stack pointer is
/// plain addition, and the result stays inside the mirrored work RAM.
pub proof fn lemma_stack_addr(sp: u8)
    by (bit_vector)
    ensures
        0x0100u16 | (sp as u16) == 0x0100 + (sp as u16),
        0x0100u16 | (sp as u16) < 0x2000,
        ((0x0100u16 | (sp as u16)) & 0x07FF) == 0x0100 + (sp as u16),
{
}

pub struct CPU {
    // registers
    pub a: u8,
    pub x: u8,
    pub y: u8,
    pub pc: u16,
    pub sp: u8,
    pub status: u8,

    // memory
    pub bus: Bus,

    // state
    pub clock_count: usize,
    pub cycles_remaining: usize,
    pub abs_addr: u16,
    pub rel_addr: u16,
    pub instr: Instr,
    pub fetched_data: u8,

    // interrupts
    pub nmi: bool,

    // misc
    pub corrupted: bool,
}

impl CPU {
    pub open spec fn wf(&self) -> bool {
        self.bus.wf()
    }

    pub fn new(bus: Bus) -> (cpu: CPU)
        requires
            bus.wf(),
        ensures
            cpu.wf(),
            cpu.a == 0 && cpu.x == 0 && cpu.y == 0,
            cpu.pc == 0xFFFC,
            cpu.sp == 0xFD,
            cpu.status == FLAG_I,
            cpu.clock_count == 0 && cpu.cycles_remaining == 0,
            !cpu.nmi && !cpu.corrupted,
            cpu.bus == bus,
    {
        CPU {
            a: 0,
            x: 0,
            y: 0,
            pc: 0xFFFC,
            sp: 0xFD,
            status: FLAG_I,
            bus,
            clock_count: 0,
            cycles_remaining: 0,
            abs_addr: 0,
            rel_addr: 0,
            instr: Instr::lookup(0x00),
            fetched_data: 0,
            nmi: false,
            corrupted: false,
        }
    }

    /// The current instruction has spent all its cycles.
    pub fn complete(&self) -> (r: bool)
        ensures
            r == (self.cycles_remaining == 0),
    {
        self.cycles_remaining == 0
    }

    fn start_cycle(&mut self)
        ensures
            final(self).clock_count == usize_specs::wrapping_add(old(self).clock_count, 1),
            *final(self) == (CPU { clock_count: final(self).clock_count, ..*old(self) }),
    {
        self.clock_count = self.clock_count.wrapping_add(1);
    }

    /// A one-cycle memory read through the bus.
    pub fn read(&mut self, addr: u16) -> (r: u8)
        requires
            old(self).wf(),
        ensures
            final(self).wf(),
            spec_same_counters(&final(self).bus.ppu, &old(self).bus.ppu),
            old(self).bus.ppu.nmi ==> final(self).bus.ppu.nmi,
            *final(self) == (CPU {
                clock_count: final(self).clock_count,
                bus: final(self).bus,
                ..*old(self)
            }),
            final(self).clock_count == usize_specs::wrapping_add(old(self).clock_count, 1),
            spec_bus_read(&old(self).bus, &final(self).bus, addr, false, r),
    {
        self.start_cycle();
        self.bus.cpu_read(addr, false)
    }

    /// The side-effect-free debug read: no cycle is spent and no device
    /// state moves.
    pub fn peek(&mut self, addr: u16) -> (r: u8)
        requires
            old(self).wf(),
        ensures
            final(self).wf(),
            spec_same_counters(&final(self).bus.ppu, &old(self).bus.ppu),
            old(self).bus.ppu.nmi ==> final(self).bus.ppu.nmi,
            *final(self) == (CPU { bus: final(self).bus, ..*old(self) }),
            spec_bus_read(&old(self).bus, &final(self).bus, addr, true, r),
    {
        self.bus.cpu_read(addr, true)
    }

    /// Two reads, little-endian.
    pub fn read_u16(&mut self, addr: u16) -> (r: u16)
        requires
            old(self).wf(),
        ensures
            final(self).wf(),
            spec_same_counters(&final(self).bus.ppu, &old(self).bus.ppu),
            old(self).bus.ppu.nmi ==> final(self).bus.ppu.nmi,
            *final(self) == (CPU {
                clock_count: final(self).clock_count,
                bus: final(self).bus,
                ..*old(self)
            }),
            final(self).clock_count == usize_specs::wrapping_add(old(self).clock_count, 2),
            final(self).bus.memory == old(self).bus.memory,
            final(self).bus.cartridge == old(self).bus.cartridge,
            spec_bus_pure(addr) && spec_bus_pure(u16_specs::wrapping_add(addr, 1))
                ==> final(self).bus == old(self).bus && r == ((spec_bus_value(
                &old(self).bus,
                addr,
            ) as u16) | ((spec_bus_value(
                &old(self).bus,
                u16_specs::wrapping_add(addr, 1),
            ) as u16) << 8)),
    {
        let lo = self.read(addr);
        let hi = self.read(addr.wrapping_add(1));
        (lo as u16) | ((hi as u16) << 8)
    }

    /// Two reads of a zero-page pointer, wrapping within the page.
    pub fn read_zp_u16(&mut self, addr: u8) -> (r: u16)
        requires
            old(self).wf(),
        ensures
            final(self).wf(),
            spec_same_counters(&final(self).bus.ppu, &old(self).bus.ppu),
            old(self).bus.ppu.nmi ==> final(self).bus.ppu.nmi,
            *final(self) == (CPU {
                clock_count: final(self).clock_count,
                bus: final(self).bus,
                ..*old(self)
            }),
            final(self).clock_count == usize_specs::wrapping_add(old(self).clock_count, 2),
            final(self).bus == old(self).bus,
            r == ((spec_bus_value(&old(self).bus, addr as u16) as u16) | ((spec_bus_value(
                &old(self).bus,
                u8_specs::wrapping_add(addr, 1) as u16,
            ) as u16) << 8)),
    {
        let lo = self.read(addr as u16);
        let hi = self.read(addr.wrapping_add(1) as u16);
        (lo as u16) | ((hi as u16) << 8)
    }

    /// A one-cycle memory write through the bus.
    pub fn write(&mut self, addr: u16, data: u8)
        requires
            old(self).wf(),
        ensures
            final(self).wf(),
            spec_same_counters(&final(self).bus.ppu, &old(self).bus.ppu),
            old(self).bus.ppu.nmi ==> final(self).bus.ppu.nmi,
            *final(self) == (CPU {
                clock_count: final(self).clock_count,
                bus: final(self).bus,
                ..*old(self)
            }),
            final(self).clock_count == usize_specs::wrapping_add(old(self).clock_count, 1),
            spec_bus_write(&old(self).bus, &final(self).bus, addr, data),
    {
        proof { crate::bitmath::lemma_u16_mask_bounds(addr); }
        self.start_cycle();
        self.bus.cpu_write(addr, data);
    }

    /// Stores a result where the current addressing mode says: into the
    /// accumulator, nowhere for immediate operands, else through the bus.
    fn write_fetched(&mut self, val: u8)
        requires
            old(self).wf(),
        ensures
            final(self).wf(),
            spec_same_counters(&final(self).bus.ppu, &old(self).bus.ppu),
            old(self).bus.ppu.nmi ==> final(self).bus.ppu.nmi,
            old(self).instr.1 == AddrMode::IMP || old(self).instr.1 == AddrMode::ACC
                ==> *final(self) == (CPU { a: val, ..*old(self) }),
            old(self).instr.1 == AddrMode::IMM ==> *final(self) == *old(self),
            old(self).instr.1 != AddrMode::IMP && old(self).instr.1 != AddrMode::ACC && old(
                self,
            ).instr.1 != AddrMode::IMM ==> *final(self) == (CPU {
                clock_count: final(self).clock_count,
                bus: final(self).bus,
                ..*old(self)
            }) && final(self).clock_count == usize_specs::wrapping_add(
                old(self).clock_count,
                1,
            ) && spec_bus_write(&old(self).bus, &final(self).bus, old(self).abs_addr, val),
    {
        match self.instr.addr_mode() {
            AddrMode::IMP | AddrMode::ACC => self.a = val,
            AddrMode::IMM => (),
            _ => self.write(self.abs_addr, val),
        }
    }

    /// Reads the byte at PC and steps past it.
    pub fn read_instr(&mut self) -> (r: u8)
        requires
            old(self).wf(),
        ensures
            final(self).wf(),
            spec_same_counters(&final(self).bus.ppu, &old(self).bus.ppu),
            old(self).bus.ppu.nmi ==> final(self).bus.ppu.nmi,
            *final(self) == (CPU {
                pc: final(self).pc,
                clock_count: final(self).clock_count,
                bus: final(self).bus,
                ..*old(self)
            }),
            final(self).pc == u16_specs::wrapping_add(old(self).pc, 1),
            final(self).clock_count == usize_specs::wrapping_add(old(self).clock_count, 1),
            spec_bus_read(&old(self).bus, &final(self).bus, old(self).pc, false, r),
    {
        let val = self.read(self.pc);
        self.pc = self.pc.wrapping_add(1);
        val
    }

    /// Reads a little-endian operand word at PC and steps past it.
    pub fn read_instr_u16(&mut self) -> (r: u16)
        requires
            old(self).wf(),
        ensures
            final(self).wf(),
            spec_same_counters(&final(self).bus.ppu, &old(self).bus.ppu),
            old(self).bus.ppu.nmi ==> final(self).bus.ppu.nmi,
            *final(self) == (CPU {
                pc: final(self).pc,
                clock_count: final(self).clock_count,
                bus: final(self).bus,
                ..*old(self)
            }),
            final(self).pc == u16_specs::wrapping_add(old(self).pc, 2),
            final(self).clock_count == usize_specs::wrapping_add(old(self).clock_count, 2),
            final(self).bus.memory == old(self).bus.memory,
            final(self).bus.cartridge == old(self).bus.cartridge,
            spec_bus_pure(old(self).pc) && spec_bus_pure(
                u16_specs::wrapping_add(old(self).pc, 1),
            ) ==> final(self).bus == old(self).bus && r == ((spec_bus_value(
                &old(self).bus,
                old(self).pc,
            ) as u16) | ((spec_bus_value(
                &old(self).bus,
                u16_specs::wrapping_add(old(self).pc, 1),
            ) as u16) << 8)),
    {
        let lo = self.read_instr();
        let hi = self.read_instr();
        (lo as u16) | ((hi as u16) << 8)
    }

    /// Loads the operand byte: the accumulator for implied modes, else the
    /// byte at the resolved address.
    pub fn fetch_data(&mut self)
        requires
            old(self).wf(),
        ensures
            final(self).wf(),
            spec_same_counters(&final(self).bus.ppu, &old(self).bus.ppu),
            old(self).bus.ppu.nmi ==> final(self).bus.ppu.nmi,
            old(self).instr.1 == AddrMode::IMP || old(self).instr.1 == AddrMode::ACC
                ==> *final(self) == (CPU { fetched_data: old(self).a, ..*old(self) }),
            old(self).instr.1 != AddrMode::IMP && old(self).instr.1 != AddrMode::ACC
                ==> *final(self) == (CPU {
                fetched_data: final(self).fetched_data,
                clock_count: final(self).clock_count,
                bus: final(self).bus,
                ..*old(self)
            }) && final(self).clock_count == usize_specs::wrapping_add(
                old(self).clock_count,
                1,
            ) && spec_bus_read(
                &old(self).bus,
                &final(self).bus,
                old(self).abs_addr,
                false,
                final(self).fetched_data,
            ),
    {
        self.fetched_data = if matches!(self.instr.addr_mode(), AddrMode::IMP | AddrMode::ACC) {
            self.a
        } else {
            self.read(self.abs_addr)
        }
    }

    /// Loads the operand byte, re-reading at the carried address when an
    /// indexed mode crossed a page.
    pub fn fetch_data_cross(&mut self)
        requires
            old(self).wf(),
        ensures
            final(self).wf(),
            spec_same_counters(&final(self).bus.ppu, &old(self).bus.ppu),
            old(self).bus.ppu.nmi ==> final(self).bus.ppu.nmi,
            ({
                let mode = old(self).instr.1;
                if mode == AddrMode::ABX || mode == AddrMode::ABY || mode == AddrMode::IDY {
                    let reg = if mode == AddrMode::ABX {
                        old(self).x
                    } else {
                        old(self).y
                    };
                    if (old(self).abs_addr & 0x00FF) < reg {
                        *final(self) == (CPU {
                            fetched_data: final(self).fetched_data,
                            clock_count: final(self).clock_count,
                            bus: final(self).bus,
                            ..*old(self)
                        }) && final(self).clock_count == usize_specs::wrapping_add(
                            old(self).clock_count,
                            1,
                        ) && spec_bus_read(
                            &old(self).bus,
                            &final(self).bus,
                            old(self).abs_addr,
                            false,
                            final(self).fetched_data,
                        )
                    } else {
                        *final(self) == *old(self)
                    }
                } else if mode == AddrMode::IMP || mode == AddrMode::ACC {
                    *final(self) == (CPU { fetched_data: old(self).a, ..*old(self) })
                } else {
                    *final(self) == (CPU {
                        fetched_data: final(self).fetched_data,
                        clock_count: final(self).clock_count,
                        bus: final(self).bus,
                        ..*old(self)
                    }) && final(self).clock_count == usize_specs::wrapping_add(
                        old(self).clock_count,
                        1,
                    ) && spec_bus_read(
                        &old(self).bus,
                        &final(self).bus,
                        old(self).abs_addr,
                        false,
                        final(self).fetched_data,
                    )
                }
            }),
    {
        let mode = self.instr.addr_mode();
        if matches!(mode, AddrMode::ABX | AddrMode::ABY | AddrMode::IDY) {
            let reg = if mode == AddrMode::ABX {
                self.x
            } else {
                self.y
            };

            // re-read data if a page boundary was crossed
            if (self.abs_addr & 0x00FF) < (reg as u16) {
                self.fetched_data = self.read(self.abs_addr);
            }
        } else {
            self.fetch_data();
        }
    }

    fn set_flag(&mut self, mask: u8, on: bool)
        ensures
            final(self).status == spec_set_flag(old(self).status, mask, on),
            *final(self) == (CPU { status: final(self).status, ..*old(self) }),
    {
        if on {
            self.status = self.status | mask;
        } else {
            self.status = self.status & !mask;
        }
    }

    /// Refreshes Z and N from a result value.
    pub fn set_zn_status(&mut self, val: u8)
        ensures
            final(self).status == spec_zn(old(self).status, val),
            *final(self) == (CPU { status: final(self).status, ..*old(self) }),
    {
        self.set_flag(FLAG_Z, val == 0x00);
        self.set_flag(FLAG_N, val & 0x80 == 0x80);
    }

    fn status_bit(&self, mask: u8) -> (r: u8)
        ensures
            r == (self.status & mask),
    {
        self.status & mask
    }

    /// Pushes one byte: a write at `$0100 + SP`, then SP steps down with
    /// wrap.
    pub fn push(&mut self, val: u8)
        requires
            old(self).wf(),
        ensures
            final(self).wf(),
            spec_same_counters(&final(self).bus.ppu, &old(self).bus.ppu),
            old(self).bus.ppu.nmi ==> final(self).bus.ppu.nmi,
            *final(self) == (CPU {
                sp: final(self).sp,
                clock_count: final(self).clock_count,
                bus: final(self).bus,
                ..*old(self)
            }),
            final(self).sp == u8_specs::wrapping_sub(old(self).sp, 1),
            final(self).clock_count == usize_specs::wrapping_add(old(self).clock_count, 1),
            final(self).bus.memory.bytes@ == old(self).bus.memory.bytes@.update(
                0x0100 + old(self).sp,
                val,
            ),
            final(self).bus.ppu == old(self).bus.ppu,
            final(self).bus.cartridge.v_prg_memory@ == old(self).bus.cartridge.v_prg_memory@,
            final(self).bus.cartridge.v_chr_memory@ == old(self).bus.cartridge.v_chr_memory@,
            final(self).bus.cartridge.mapper == old(self).bus.cartridge.mapper,
            final(self).bus.cartridge.mirror == old(self).bus.cartridge.mirror,
            final(self).bus.controller@ == old(self).bus.controller@,
            final(self).bus.controller_state@ == old(self).bus.controller_state@,
    {
        proof { lemma_stack_addr(self.sp); }
        self.write(0x0100 | (self.sp as u16), val);
        self.sp = self.sp.wrapping_sub(1);
    }

    /// Pushes a word, high byte first.
    pub fn push_u16(&mut self, val: u16)
        requires
            old(self).wf(),
        ensures
            final(self).wf(),
            spec_same_counters(&final(self).bus.ppu, &old(self).bus.ppu),
            old(self).bus.ppu.nmi ==> final(self).bus.ppu.nmi,
            *final(self) == (CPU {
                sp: final(self).sp,
                clock_count: final(self).clock_count,
                bus: final(self).bus,
                ..*old(self)
            }),
            final(self).sp == u8_specs::wrapping_sub(old(self).sp, 2),
            final(self).clock_count == usize_specs::wrapping_add(old(self).clock_count, 2),
            final(self).bus.memory.bytes@ == old(self).bus.memory.bytes@.update(
                0x0100 + old(self).sp,
                (val >> 8) as u8,
            ).update(0x0100 + u8_specs::wrapping_sub(old(self).sp, 1), val as u8),
            final(self).bus.ppu == old(self).bus.ppu,
            final(self).bus.cartridge.v_prg_memory@ == old(self).bus.cartridge.v_prg_memory@,
            final(self).bus.cartridge.v_chr_memory@ == old(self).bus.cartridge.v_chr_memory@,
            final(self).bus.cartridge.mapper == old(self).bus.cartridge.mapper,
            final(self).bus.cartridge.mirror == old(self).bus.cartridge.mirror,
            final(self).bus.controller@ == old(self).bus.controller@,
            final(self).bus.controller_state@ == old(self).bus.controller_state@,
    {
        let hi = (val >> 8) as u8;
        let lo = val as u8;
        self.push(hi);
        self.push(lo);
    }

    /// Pops one byte: SP steps up with wrap, then a read at `$0100 + SP`.
    pub fn pop(&mut self) -> (r: u8)
        requires
            old(self).wf(),
        ensures
            final(self).wf(),
            spec_same_counters(&final(self).bus.ppu, &old(self).bus.ppu),
            old(self).bus.ppu.nmi ==> final(self).bus.ppu.nmi,
            *final(self) == (CPU {
                sp: final(self).sp,
                clock_count: final(self).clock_count,
                bus: final(self).bus,
                ..*old(self)
            }),
            final(self).sp == u8_specs::wrapping_add(old(self).sp, 1),
            final(self).clock_count == usize_specs::wrapping_add(old(self).clock_count, 1),
            final(self).bus == old(self).bus,
            r == old(self).bus.memory.bytes@[0x0100 + u8_specs::wrapping_add(
                old(self).sp,
                1,
            )],
    {
        self.sp = self.sp.wrapping_add(1);
        proof { lemma_stack_addr(self.sp); }
        self.read(0x0100 | (self.sp as u16))
    }

    /// Pops a word, low byte first.
    pub fn pop_u16(&mut self) -> (r: u16)
        requires
            old(self).wf(),
        ensures
            final(self).wf(),
            spec_same_counters(&final(self).bus.ppu, &old(self).bus.ppu),
            old(self).bus.ppu.nmi ==> final(self).bus.ppu.nmi,
            *final(self) == (CPU {
                sp: final(self).sp,
                clock_count: final(self).clock_count,
                bus: final(self).bus,
                ..*old(self)
            }),
            final(self).sp == u8_specs::wrapping_add(old(self).sp, 2),
            final(self).clock_count == usize_specs::wrapping_add(old(self).clock_count, 2),
            final(self).bus == old(self).bus,
            r == ((old(self).bus.memory.bytes@[0x0100 + u8_specs::wrapping_add(
                old(self).sp,
                1,
            )] as u16) | ((old(self).bus.memory.bytes@[0x0100 + u8_specs::wrapping_add(
                old(self).sp,
                2,
            )] as u16) << 8)),
    {
        let lo = self.pop();
        let hi = self.pop();
        (lo as u16) | ((hi as u16) << 8)
    }

    /// Whether two addresses sit in different 256-byte pages.
    fn pages_differ(addr1: u16, addr2: u16) -> (r: bool)
        ensures
            r == ((addr1 & 0xFF00) != (addr2 & 0xFF00)),
    {
        (addr1 & 0xFF00) != (addr2 & 0xFF00)
    }
}

impl CPU {
    /// Hardware interrupt entry: two dummy reads at PC, the return address
    /// and the status (unused bit set, break bit clear) go to the stack,
    /// interrupts are masked, and execution vectors through `$FFFA` for an
    /// NMI or `$FFFE` otherwise. A pending NMI edge is consumed.
    pub fn irq(&mut self)
        requires
            old(self).wf(),
        ensures
            final(self).wf(),
            spec_same_counters(&final(self).bus.ppu, &old(self).bus.ppu),
            old(self).bus.ppu.nmi ==> final(self).bus.ppu.nmi,
            *final(self) == (CPU {
                status: final(self).status,
                sp: final(self).sp,
                pc: final(self).pc,
                clock_count: final(self).clock_count,
                bus: final(self).bus,
                nmi: false,
                ..*old(self)
            }),
            final(self).status == spec_set_flag(old(self).status, FLAG_I, true),
            spec_keeps_ub(old(self).status, final(self).status),
            final(self).sp == u8_specs::wrapping_sub(old(self).sp, 3),
            final(self).clock_count == usize_specs::wrapping_add(old(self).clock_count, 7),
            final(self).bus.memory.bytes@ == old(self).bus.memory.bytes@.update(
                0x0100 + old(self).sp,
                (old(self).pc >> 8) as u8,
            ).update(
                0x0100 + u8_specs::wrapping_sub(old(self).sp, 1),
                old(self).pc as u8,
            ).update(
                0x0100 + u8_specs::wrapping_sub(old(self).sp, 2),
                (old(self).status | FLAG_U) & !FLAG_B,
            ),
            final(self).bus.cartridge.v_prg_memory@ == old(self).bus.cartridge.v_prg_memory@,
            final(self).bus.cartridge.v_chr_memory@ == old(self).bus.cartridge.v_chr_memory@,
            final(self).bus.cartridge.mapper == old(self).bus.cartridge.mapper,
            final(self).pc == ((spec_bus_value(
                &old(self).bus,
                if old(self).nmi {
                    0xFFFAu16
                } else {
                    0xFFFEu16
                },
            ) as u16) | ((spec_bus_value(
                &old(self).bus,
                if old(self).nmi {
                    0xFFFBu16
                } else {
                    0xFFFFu16
                },
            ) as u16) << 8)),
    {
        let _ = self.read(self.pc);
        let _ = self.read(self.pc);
        self.push_u16(self.pc);

        let pushed = (self.status | FLAG_U) & !FLAG_B;

        if self.nmi {
            self.nmi = false;
            self.push(pushed);
            self.set_flag(FLAG_I, true);

            self.pc = self.read_u16(0xFFFA);
        } else {
            self.push(pushed);
            self.set_flag(FLAG_I, true);

            self.pc = self.read_u16(0xFFFE);
        }
        proof { lemma_status_ub(); }
    }

    /// Power-on or warm reset: registers cleared, SP at `$FD`, the unused
    /// and interrupt-disable flags set, PC fetched from the reset vector
    /// at `$FFFC`, and seven cycles consumed.
    pub fn reset(&mut self)
        requires
            old(self).wf(),
        ensures
            final(self).wf(),
            spec_same_counters(&final(self).bus.ppu, &old(self).bus.ppu),
            old(self).bus.ppu.nmi ==> final(self).bus.ppu.nmi,
            *final(self) == (CPU {
                a: 0,
                x: 0,
                y: 0,
                sp: 0xFD,
                status: FLAG_U | FLAG_I,
                pc: final(self).pc,
                clock_count: 7,
                cycles_remaining: 0,
                nmi: false,
                corrupted: false,
                bus: final(self).bus,
                ..*old(self)
            }),
            final(self).bus == old(self).bus,
            final(self).pc == ((spec_bus_value(&old(self).bus, 0xFFFC) as u16) | ((
            spec_bus_value(&old(self).bus, 0xFFFD) as u16) << 8)),
    {
        self.a = 0;
        self.x = 0;
        self.y = 0;
        self.sp = 0xFD;
        self.status = FLAG_U | FLAG_I;

        self.clock_count = 0;
        self.cycles_remaining = 0;
        self.nmi = false;
        self.corrupted = false;

        let lo = self.bus.cpu_read(0xFFFC, true);
        let hi = self.bus.cpu_read(0xFFFD, true);
        self.pc = (lo as u16) | ((hi as u16) << 8);

        // the reset sequence consumes seven cycles
        let ghost snap = *self;
        let mut i: usize = 0;
        while i < 7
            invariant
                i <= 7,
                self.clock_count == i,
                *self == (CPU { clock_count: self.clock_count, ..snap }),
            decreases 7 - i,
        {
            self.start_cycle();
            i = i + 1;
        }
    }

    /// One host-side CPU tick. While an instruction still owes cycles the
    /// counter just steps down; at an instruction boundary a pending NMI is
    /// serviced, else the next opcode is fetched, decoded through the
    /// table and executed. The cycle cost of what ran is returned and
    /// primed into the countdown; every memory access costs exactly one
    /// cycle. A jammed CPU fetches nothing further.
    #[verifier::rlimit(100)]
    pub fn clock(&mut self) -> (r: usize)
        requires
            old(self).wf(),
        ensures
            final(self).wf(),
            spec_same_counters(&final(self).bus.ppu, &old(self).bus.ppu),
            old(self).bus.ppu.nmi ==> final(self).bus.ppu.nmi,
            old(self).cycles_remaining > 0 ==> *final(self) == (CPU {
                cycles_remaining: (old(self).cycles_remaining - 1) as usize,
                ..*old(self)
            }) && r == 0,
            old(self).cycles_remaining == 0 && old(self).corrupted ==> *final(self)
                == *old(self) && r == 0,
            old(self).cycles_remaining == 0 && !old(self).corrupted ==> {
                &&& r == usize_specs::wrapping_sub(
                    final(self).clock_count,
                    old(self).clock_count,
                )
                &&& final(self).cycles_remaining == r
                &&& (old(self).nmi ==> spec_keeps_ub(old(self).status, final(self).status)
                    && final(self).instr == old(self).instr && !final(self).nmi)
                &&& (old(self).nmi ==> {
                    &&& r == 7 && final(self).cycles_remaining == 7
                    &&& final(self).status == spec_set_flag(old(self).status, FLAG_I, true)
                    &&& final(self).sp == u8_specs::wrapping_sub(old(self).sp, 3)
                    &&& final(self).a == old(self).a && final(self).x == old(self).x
                        && final(self).y == old(self).y
                    &&& final(self).bus.memory.bytes@ == old(self).bus.memory.bytes@.update(
                        0x0100 + old(self).sp,
                        (old(self).pc >> 8) as u8,
                    ).update(
                        0x0100 + u8_specs::wrapping_sub(old(self).sp, 1),
                        old(self).pc as u8,
                    ).update(
                        0x0100 + u8_specs::wrapping_sub(old(self).sp, 2),
                        (old(self).status | FLAG_U) & !FLAG_B,
                    )
                    &&& final(self).pc == ((spec_bus_value(
                        &old(self).bus,
                        0xFFFA,
                    ) as u16) | ((spec_bus_value(&old(self).bus, 0xFFFB) as u16) << 8))
                })
                &&& (!old(self).nmi ==> !final(self).nmi)
                &&& (!old(self).nmi && spec_bus_pure(old(self).pc) ==> {
                    let ins = spec_lookup(spec_bus_value(&old(self).bus, old(self).pc));
                    &&& final(self).instr == ins
                    &&& (ins.1 == AddrMode::IMM && spec_imm_loadable(ins.2)
                        && spec_bus_pure(u16_specs::wrapping_add(old(self).pc, 1)) ==> {
                        let m = spec_bus_value(
                            &old(self).bus,
                            u16_specs::wrapping_add(old(self).pc, 1),
                        );
                        &&& final(self).bus == old(self).bus
                        &&& final(self).pc == u16_specs::wrapping_add(old(self).pc, 2)
                        &&& final(self).fetched_data == m
                        &&& r == 2 && final(self).cycles_remaining == 2
                        &&& final(self).sp == old(self).sp && !final(self).corrupted
                        &&& (ins.2 == Operation::LDA ==> final(self).a == m
                            && final(self).status == spec_zn(old(self).status, m)
                            && final(self).x == old(self).x && final(self).y == old(self).y)
                        &&& (ins.2 == Operation::LDX ==> final(self).x == m
                            && final(self).status == spec_zn(old(self).status, m)
                            && final(self).a == old(self).a)
                        &&& (ins.2 == Operation::LDY ==> final(self).y == m
                            && final(self).status == spec_zn(old(self).status, m)
                            && final(self).a == old(self).a)
                        &&& (ins.2 == Operation::AND ==> final(self).a == (old(self).a & m)
                            && final(self).status == spec_zn(old(self).status, (old(self).a & m)))
                        &&& (ins.2 == Operation::ORA ==> final(self).a == (old(self).a | m)
                            && final(self).status == spec_zn(old(self).status, (old(self).a | m)))
                        &&& (ins.2 == Operation::EOR ==> final(self).a == (old(self).a ^ m)
                            && final(self).status == spec_zn(old(self).status, (old(self).a ^ m)))
                        &&& (ins.2 == Operation::ADC ==> final(self).a == spec_adc_a(
                            old(self).a,
                            m,
                            old(self).status,
                        ) && final(self).status == spec_adc_p(old(self).a, m, old(self).status))
                        &&& (ins.2 == Operation::SBC ==> final(self).a == spec_adc_a(
                            old(self).a,
                            !m,
                            old(self).status,
                        ) && final(self).status == spec_adc_p(old(self).a, !m, old(self).status))
                        &&& (ins.2 == Operation::CMP ==> final(self).a == old(self).a
                            && final(self).status == spec_cmp_p(old(self).status, old(self).a, m))
                        &&& (ins.2 == Operation::CPX ==> final(self).x == old(self).x
                            && final(self).status == spec_cmp_p(old(self).status, old(self).x, m))
                        &&& (ins.2 == Operation::CPY ==> final(self).y == old(self).y
                            && final(self).status == spec_cmp_p(old(self).status, old(self).y, m))
                    })
                })
                &&& (!old(self).nmi && final(self).instr.2 != Operation::RTI
                    ==> spec_keeps_ub(old(self).status, final(self).status))
                &&& (!old(self).nmi && final(self).instr.1 == AddrMode::REL ==> {
                    let pc2 = u16_specs::wrapping_add(old(self).pc, 2);
                    &&& spec_is_branch(final(self).instr.2)
                    &&& final(self).instr.3 == 2
                    &&& (spec_branch_taken(final(self).instr.2, old(self).status)
                        ==> final(self).pc == spec_branch_target(
                        pc2,
                        final(self).rel_addr,
                    ) && r == final(self).instr.3 + (if (spec_branch_target(
                        pc2,
                        final(self).rel_addr,
                    ) & 0xFF00) == (pc2 & 0xFF00) {
                        1int
                    } else {
                        2int
                    }))
                    &&& (!spec_branch_taken(final(self).instr.2, old(self).status)
                        ==> final(self).pc == pc2 && r == final(self).instr.3)
                })
            },
    {
        if self.cycles_remaining > 0 {
            self.cycles_remaining = self.cycles_remaining - 1;
            return 0;
        }
        if self.corrupted {
            return 0;
        }

        let start_cycle = self.clock_count;

        if self.nmi {
            self.irq();
            let cycles_ran = self.clock_count.wrapping_sub(start_cycle);
            self.cycles_remaining = cycles_ran;
            return cycles_ran;
        }

        let opcode = self.read_instr();
        self.instr = Instr::lookup(opcode);

        match self.instr.addr_mode() {
            AddrMode::IMP => self.imp(),
            AddrMode::IMM => self.imm(),
            AddrMode::REL => self.rel(),
            AddrMode::ZP0 => self.zp0(),
            AddrMode::ABS => self.abs(),
            AddrMode::ACC => self.acc(),
            AddrMode::IDX => self.idx(),
            AddrMode::IDY => self.idy(),
            AddrMode::IND => self.ind(),
            AddrMode::ABX => self.abx(),
            AddrMode::ABY => self.aby(),
            AddrMode::ZPX => self.zpx(),
            AddrMode::ZPY => self.zpy(),
        }

        self.execute_operation();

        let cycles_ran = self.clock_count.wrapping_sub(start_cycle);

        self.cycles_remaining = cycles_ran;

        cycles_ran
    }

    /// Runs the operation the decoded instruction selects, after the
    /// addressing mode has resolved the operand address. Every operation
    /// keeps the decoded row, the CPU-side interrupt flag and the
    /// unused/break shape of the status (the return from interrupt alone
    /// excepted), a branch row behaves as the branch law says, and an
    /// immediate-mode load or arithmetic operation whose operand address
    /// reads without side effects lands exactly as the operand byte says.
    #[verifier::rlimit(100)]
    fn execute_operation(&mut self)
        requires
            old(self).wf(),
        ensures
            final(self).wf(),
            spec_same_counters(&final(self).bus.ppu, &old(self).bus.ppu),
            old(self).bus.ppu.nmi ==> final(self).bus.ppu.nmi,
            final(self).instr == old(self).instr,
            final(self).nmi == old(self).nmi,
            old(self).instr.2 != Operation::RTI ==> spec_keeps_ub(
                old(self).status,
                final(self).status,
            ),
            spec_is_branch(old(self).instr.2) ==> {
                &&& (spec_branch_taken(old(self).instr.2, old(self).status)
                    ==> instr::spec_branch_effect(old(self), final(self)))
                &&& (!spec_branch_taken(old(self).instr.2, old(self).status)
                    ==> *final(self) == *old(self))
            },
            old(self).instr.1 == AddrMode::IMM && spec_imm_loadable(old(self).instr.2)
                && spec_bus_pure(old(self).abs_addr) ==> {
                let m = spec_bus_value(&old(self).bus, old(self).abs_addr);
                &&& final(self).bus == old(self).bus
                &&& final(self).pc == old(self).pc
                &&& final(self).fetched_data == m
                &&& final(self).clock_count == usize_specs::wrapping_add(
                    old(self).clock_count,
                    1,
                )
                &&& final(self).sp == old(self).sp
                &&& final(self).corrupted == old(self).corrupted
                &&& (old(self).instr.2 == Operation::LDA ==> final(self).a == m
                    && final(self).status == spec_zn(old(self).status, m)
                    && final(self).x == old(self).x && final(self).y == old(self).y)
                &&& (old(self).instr.2 == Operation::LDX ==> final(self).x == m
                    && final(self).status == spec_zn(old(self).status, m)
                    && final(self).a == old(self).a)
                &&& (old(self).instr.2 == Operation::LDY ==> final(self).y == m
                    && final(self).status == spec_zn(old(self).status, m)
                    && final(self).a == old(self).a)
                &&& (old(self).instr.2 == Operation::AND ==> final(self).a == (old(self).a
                    & m) && final(self).status == spec_zn(old(self).status, (old(self).a & m)))
                &&& (old(self).instr.2 == Operation::ORA ==> final(self).a == (old(self).a
                    | m) && final(self).status == spec_zn(old(self).status, (old(self).a | m)))
                &&& (old(self).instr.2 == Operation::EOR ==> final(self).a == (old(self).a
                    ^ m) && final(self).status == spec_zn(old(self).status, (old(self).a ^ m)))
                &&& (old(self).instr.2 == Operation::ADC ==> final(self).a == spec_adc_a(
                    old(self).a,
                    m,
                    old(self).status,
                ) && final(self).status == spec_adc_p(old(self).a, m, old(self).status))
                &&& (old(self).instr.2 == Operation::SBC ==> final(self).a == spec_adc_a(
                    old(self).a,
                    !m,
                    old(self).status,
                ) && final(self).status == spec_adc_p(old(self).a, !m, old(self).status))
                &&& (old(self).instr.2 == Operation::CMP ==> final(self).a == old(self).a
                    && final(self).status == spec_cmp_p(old(self).status, old(self).a, m))
                &&& (old(self).instr.2 == Operation::CPX ==> final(self).x == old(self).x
                    && final(self).status == spec_cmp_p(old(self).status, old(self).x, m))
                &&& (old(self).instr.2 == Operation::CPY ==> final(self).y == old(self).y
                    && final(self).status == spec_cmp_p(old(self).status, old(self).y, m))
            },
    {
        match self.instr.op() {
            Operation::LDA => self.lda(),
            Operation::LDX => self.ldx(),
            Operation::LDY => self.ldy(),
            Operation::STA => self.sta(),
            Operation::STX => self.stx(),
            Operation::STY => self.sty(),
            Operation::SEI => self.sei(),
            Operation::SED => self.sed(),
            Operation::AND => self.and(),
            Operation::ORA => self.ora(),
            Operation::EOR => self.eor(),
            Operation::ADC => self.adc(),
            Operation::CMP => self.cmp(),
            Operation::CPY => self.cpy(),
            Operation::CPX => self.cpx(),
            Operation::JSR => self.jsr(),
            Operation::SEC => self.sec(),
            Operation::SBC => self.sbc(),
            Operation::INC => self.inc(),
            Operation::DEC => self.dec(),
            Operation::INY => self.iny(),
            Operation::INX => self.inx(),
            Operation::DEY => self.dey(),
            Operation::DEX => self.dex(),
            Operation::TAY => self.tay(),
            Operation::TAX => self.tax(),
            Operation::TYA => self.tya(),
            Operation::TXA => self.txa(),
            Operation::TSX => self.tsx(),
            Operation::TXS => self.txs(),
            Operation::RTI => self.rti(),
            Operation::LSR => self.lsr(),
            Operation::ASL => self.asl(),
            Operation::ROR => self.ror(),
            Operation::ROL => self.rol(),
            Operation::CLC => self.clc(),
            Operation::CLD => self.cld(),
            Operation::CLI => self.cli(),
            Operation::CLV => self.clv(),
            Operation::BCS => self.bcs(),
            Operation::BCC => self.bcc(),
            Operation::BIT => self.bit(),
            Operation::BEQ => self.beq(),
            Operation::BVS => self.bvs(),
            Operation::BVC => self.bvc(),
            Operation::BPL => self.bpl(),
            Operation::BNE => self.bne(),
            Operation::BMI => self.bmi(),
            Operation::PHP => self.php(),
            Operation::PHA => self.pha(),
            Operation::PLA => self.pla(),
            Operation::PLP => self.plp(),
            Operation::JMP => self.jmp(),
            Operation::RTS => self.rts(),
            Operation::SKB => self.skb(),
            Operation::IGN => self.ign(),
            Operation::LAX => self.lax(),
            Operation::SAX => self.sax(),
            Operation::DCP => self.dcp(),
            Operation::ISB => self.isb(),
            Operation::SLO => self.slo(),
            Operation::RLA => self.rla(),
            Operation::SRE => self.sre(),
            Operation::RRA => self.rra(),
            Operation::BRK => self.brk(),
            Operation::NOP => self.nop(),
            // anything the core does not implement jams the machine
            Operation::XXX | Operation::AHX | Operation::ALR | Operation::ANC
                | Operation::ARR | Operation::AXS | Operation::LAS | Operation::SXA
                | Operation::SYA | Operation::TAS | Operation::XAA => self.xxx(),
        }
    }
}

/// The live status register keeps the unused bit set and the break bit
/// clear across any instruction whose contract preserves that shape:
/// every operation promises `spec_keeps_ub`, and the status pull forces
/// the shape outright. The one exception is a return from interrupt,
/// which restores exactly the byte that was pushed, so the shape holds
/// after it only when the pushed byte had it.
pub proof fn lemma_ub_invariant(pre: u8, post: u8)
    requires
        spec_keeps_ub(pre, post),
        pre & FLAG_U == FLAG_U,
        pre & FLAG_B == 0,
    ensures
        post & FLAG_U == FLAG_U,
        post & FLAG_B == 0,
{
    lemma_ub_shape(pre, post);
}

/// The bit-level step behind `lemma_ub_invariant`.
proof fn lemma_ub_shape(pre: u8, post: u8)
    by (bit_vector)
    requires
        pre & FLAG_U == FLAG_U,
        pre & FLAG_B == 0,
        pre & 0x30 == 0x20 ==> post & 0x30 == 0x20,
    ensures
        post & FLAG_U == FLAG_U,
        post & FLAG_B == 0,
{
}

/// Pushing the status with PHP and pulling it back with PLP yields the
/// status with the unused bit set and the break bit clear: when the live
/// break bit was clear, the round trip is exactly `P | U`, and in every
/// case the N, V, D, I, Z and C bits come back unchanged.
pub proof fn lemma_php_plp_round_trip(p: u8)
    by (bit_vector)
    ensures
        p & FLAG_B == 0 ==> ((p | FLAG_U | FLAG_B) | FLAG_U) & !FLAG_B == p | FLAG_U,
        (((p | FLAG_U | FLAG_B) | FLAG_U) & !FLAG_B) & 0xCF == p & 0xCF,
        (((p | FLAG_U | FLAG_B) | FLAG_U) & !FLAG_B) & FLAG_U == FLAG_U,
{
}

} // verus!
