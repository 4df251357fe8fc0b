//! The picture processing unit: VRAM, palette RAM, the CPU-visible register
//! surface at `$2000-$2007`, and the scanline-accurate background pipeline.

use vstd::prelude::*;
use crate::cartridge::Cartridge;
use crate::cartridge::Mirror;

verus! {

pub const PPU_STATUS_SPRITE_OVERFLOW: u8 = 0b0010_0000;
pub const PPU_STATUS_SPRITE_ZERO_HIT: u8 = 0b0100_0000;
pub const PPU_STATUS_VERTICAL_BLANK: u8 = 0b1000_0000;

/// Facts about the bit fields packed into the 15-bit VRAM address.
pub proof fn lemma_vram_fields(v: u16)
    by (bit_vector)
    ensures
        v & 0x001F < 32,
        v >> 12 < 16,
        (v & 0x03E0) >> 5 < 32,
        v & 0x001F != 31 ==> v < 0xFFFF,
        v & 0x7000 != 0x7000 ==> v <= 0xEFFF,
        (v & 0x0002) | ((v >> 4) & 0x0004) <= 6,
        v & 0x3FFF < 0x4000,
        v & 0x0FFF < 0x1000,
        v & 0x03FF < 0x0400,
        v & 0x001F < 0x0020,
        (v & 0x1000) >> 12 <= 1,
{
}

/// Masking a zero byte leaves nothing set.
pub proof fn lemma_u8_and_zero()
    by (bit_vector)
    ensures
        forall|m: u8| #[trigger] (0u8 & m) == 0,
{
}

/// Shifting a zero and OR-ing it in changes nothing.
pub proof fn lemma_u16_or_zero_shift(x: u16)
    by (bit_vector)
    ensures
        x | (0u16 << 5) == x,
{
}

/// The decoded form of a byte written to `$2001`.
pub open spec fn spec_mask_decode(val: u8) -> Mask {
    Mask {
        rendering_enabled: val & 0x08 != 0 || val & 0x10 != 0,
        grayscale: if val & 0x01 != 0 { 0x30u8 } else { 0x3Fu8 },
        emphasis: 0,
        show_left_bg: val & 0x02 != 0,
        show_left_spr: val & 0x04 != 0,
        show_bg: val & 0x08 != 0,
        show_spr: val & 0x10 != 0,
        bits: val,
    }
}

/// The `PPUMASK` register, kept both as the raw byte and as decoded fields.
#[derive(Debug)]
pub struct Mask {
    pub rendering_enabled: bool,
    pub grayscale: u8,
    pub emphasis: u16,
    pub show_left_bg: bool,
    pub show_left_spr: bool,
    pub show_bg: bool,
    pub show_spr: bool,
    pub bits: u8,
}

impl Mask {
    pub fn new() -> (m: Mask)
        ensures
            m == spec_mask_decode(0),
            m.bits == 0,
            !m.rendering_enabled && !m.show_left_bg && !m.show_left_spr && !m.show_bg
                && !m.show_spr,
            m.grayscale == 0x3F,
            m.emphasis == 0,
    {
        let mut mask = Mask {
            rendering_enabled: false,
            grayscale: 0,
            emphasis: 0,
            show_left_bg: false,
            show_left_spr: false,
            show_bg: false,
            show_spr: false,
            bits: 0,
        };
        mask.write(0);
        proof { lemma_u8_and_zero(); }
        mask
    }

    /// Decodes a byte written to `$2001`.
    pub fn write(&mut self, val: u8)
        ensures
            *final(self) == spec_mask_decode(val),
    {
        self.bits = val;
        self.grayscale = if val & 0x01 != 0 { 0x30 } else { 0x3F };
        self.show_left_bg = val & 0x02 != 0;
        self.show_left_spr = val & 0x04 != 0;
        self.show_bg = val & 0x08 != 0;
        self.show_spr = val & 0x10 != 0;
        self.rendering_enabled = self.show_bg || self.show_spr;
        self.emphasis = 0;
    }
}

/// The nametable base address selected by the low two control bits:
/// the four nametables sit at `$2000`, `$2400`, `$2800` and `$2C00`.
pub open spec fn spec_nametable_addr(val: u8) -> u16 {
    let nt = val & 0b11;
    if nt == 0 {
        0x2000u16
    } else if nt == 1 {
        0x2400u16
    } else if nt == 2 {
        0x2800u16
    } else {
        0x2C00u16
    }
}

/// The decoded form of a byte written to `$2000`.
pub open spec fn spec_control_decode(val: u8) -> Control {
    Control {
        spr_select: if val & 0x08 != 0 { 0x1000u16 } else { 0u16 },
        bg_select: if val & 0x10 != 0 { 0x1000u16 } else { 0u16 },
        spr_height: if val & 0x20 != 0 { 16u32 } else { 8u32 },
        master_slave: if val & 0x40 != 0 { 1u8 } else { 0u8 },
        nmi_enabled: val & 0x80 != 0,
        nametable_addr: spec_nametable_addr(val),
        vram_increment: if val & 0x04 != 0 { 32u16 } else { 1u16 },
        bits: val,
    }
}

/// The `PPUCTRL` register, kept both as the raw byte and as decoded fields.
#[derive(Debug)]
pub struct Control {
    pub spr_select: u16,
    pub bg_select: u16,
    pub spr_height: u32,
    pub master_slave: u8,
    pub nmi_enabled: bool,
    pub nametable_addr: u16,
    pub vram_increment: u16,
    pub bits: u8,
}

impl Control {
    pub fn new() -> (c: Control)
        ensures
            c == spec_control_decode(0),
            c.bits == 0,
            c.spr_select == 0 && c.bg_select == 0,
            c.spr_height == 8,
            c.master_slave == 0,
            !c.nmi_enabled,
            c.vram_increment == 1,
            c.nametable_addr == spec_nametable_addr(0),
    {
        let mut ctrl = Control {
            spr_select: 0,
            bg_select: 0,
            spr_height: 0,
            master_slave: 0,
            nmi_enabled: false,
            nametable_addr: 0,
            vram_increment: 0,
            bits: 0,
        };
        ctrl.write(0);
        proof { lemma_u8_and_zero(); }
        ctrl
    }

    /// Decodes a byte written to `$2000`.
    pub fn write(&mut self, val: u8)
        ensures
            *final(self) == spec_control_decode(val),
    {
        self.bits = val;
        self.spr_select = if val & 0x08 != 0 { 0x1000 } else { 0 };
        self.bg_select = if val & 0x10 != 0 { 0x1000 } else { 0 };
        self.spr_height = if val & 0x20 != 0 { 16 } else { 8 };
        self.master_slave = if val & 0x40 != 0 { 1 } else { 0 };
        self.nmi_enabled = val & 0x80 != 0;
        let nt = val & 0b11;
        self.nametable_addr = if nt == 0 {
            0x2000
        } else if nt == 1 {
            0x2400
        } else if nt == 2 {
            0x2800
        } else {
            0x2C00
        };
        self.vram_increment = if val & 0x04 != 0 { 32 } else { 1 };
    }
}

/// One coarse-x step of the VRAM address, wrapping into the neighbouring
/// nametable after tile 31.
pub open spec fn spec_inc_x(v: u16) -> u16 {
    if v & 0x001F == 31 {
        (v & !0x001F) ^ 0x0400
    } else {
        (v + 1) as u16
    }
}

/// One fine-y step of the VRAM address, carrying into coarse-y with the
/// row-29 wrap and the vertical nametable toggle.
pub open spec fn spec_inc_y(v: u16) -> u16 {
    if v & 0x7000 != 0x7000 {
        (v + 0x1000) as u16
    } else {
        let cleared = v & !0x7000;
        let y = (cleared & 0x03E0) >> 5;
        if y == 29 {
            (cleared ^ 0x0800) & !0x03E0
        } else if y == 31 {
            cleared & !0x03E0
        } else {
            (cleared & !0x03E0) | (((y + 1) as u16) << 5)
        }
    }
}

/// The scroll unit: the live VRAM address `v`, the temporary address `t`,
/// the fine-x offset, and the shared first/second write latch, together
/// with cached copies of the bit fields of `v`.
#[derive(Debug)]
pub struct Scroll {
    pub fine_x: u16,
    pub coarse_x: u16,
    pub fine_y: u16,
    pub coarse_y: u16,
    pub v: u16,
    pub t: u16,
    pub write_latch: bool,
}

impl Scroll {
    pub fn new() -> (s: Scroll)
        ensures
            s.v == 0 && s.t == 0,
            s.fine_x == 0 && s.coarse_x == 0 && s.fine_y == 0 && s.coarse_y == 0,
            !s.write_latch,
    {
        Scroll {
            v: 0,
            t: 0,
            fine_x: 0,
            coarse_x: 0,
            fine_y: 0,
            coarse_y: 0,
            write_latch: false,
        }
    }

    /// The attribute-table byte that covers the tile `v` points at.
    pub fn attr_addr(&self) -> (r: u16)
        ensures
            r == 0x23C0 | (self.v & 0x0C00) | ((self.v >> 4) & 0x38) | ((self.v >> 2)
                & 0x07),
    {
        let nametable_select = self.v & 0x0C00;
        let y_bits = (self.v >> 4) & 0x38;
        let x_bits = (self.v >> 2) & 0x07;
        0x23C0 | nametable_select | y_bits | x_bits
    }

    /// How far to shift the attribute byte for the quadrant `v` points at.
    pub fn attr_shift(&self) -> (r: u16)
        ensures
            r == (self.v & 0x02) | ((self.v >> 4) & 0x04),
            r <= 6,
    {
        proof { lemma_vram_fields(self.v); }
        (self.v & 0x02) | ((self.v >> 4) & 0x04)
    }

    /// The 14-bit bus address `v` selects.
    pub fn addr(&self) -> (r: u16)
        ensures
            r == self.v & 0x3FFF,
            r < 0x4000,
    {
        proof { lemma_vram_fields(self.v); }
        self.v & 0x3FFF
    }

    /// Stores `v` and refreshes the cached field copies.
    pub fn set_v(&mut self, val: u16)
        ensures
            final(self).v == val,
            final(self).coarse_x == val & 0x001F,
            final(self).fine_y == val >> 12,
            final(self).coarse_y == (val & 0x03E0) >> 5,
            final(self).fine_y < 16,
            final(self).t == old(self).t,
            final(self).fine_x == old(self).fine_x,
            final(self).write_latch == old(self).write_latch,
    {
        self.v = val;
        self.coarse_x = self.v & 0x001F;
        proof { lemma_vram_fields(val); }
        self.fine_y = self.v >> 12;
        self.coarse_y = (self.v & 0x03E0) >> 5;
    }

    /// Steps coarse-x, wrapping into the neighbouring nametable.
    pub fn increment_x(&mut self)
        ensures
            final(self).v == spec_inc_x(old(self).v),
            final(self).coarse_x == final(self).v & 0x001F,
            final(self).fine_y == final(self).v >> 12,
            final(self).coarse_y == (final(self).v & 0x03E0) >> 5,
            final(self).fine_y < 16,
            final(self).t == old(self).t,
            final(self).fine_x == old(self).fine_x,
            final(self).write_latch == old(self).write_latch,
    {
        proof { lemma_vram_fields(self.v); }
        if (self.v & 0x001F) == 31 {
            let cleared = self.v & !0x001F;
            self.set_v(cleared ^ 0x0400);
        } else {
            self.set_v(self.v + 1);
        }
    }

    /// Steps fine-y, carrying into coarse-y with the row-29 wrap and the
    /// vertical nametable toggle.
    pub fn increment_y(&mut self)
        ensures
            final(self).v == spec_inc_y(old(self).v),
            final(self).coarse_x == final(self).v & 0x001F,
            final(self).fine_y == final(self).v >> 12,
            final(self).coarse_y == (final(self).v & 0x03E0) >> 5,
            final(self).fine_y < 16,
            final(self).t == old(self).t,
            final(self).fine_x == old(self).fine_x,
            final(self).write_latch == old(self).write_latch,
    {
        proof { lemma_vram_fields(self.v); }
        if (self.v & 0x7000) == 0x7000 {
            self.set_v(self.v & !0x7000);
            let mut y: u16 = (self.v & 0x03E0) >> 5;
            proof { lemma_vram_fields(self.v); }
            if y == 29 {
                y = 0;
                self.set_v(self.v ^ 0x0800);
            } else if y == 31 {
                y = 0;
            } else {
                y += 1;
            }

            proof { lemma_u16_or_zero_shift(self.v & !0x03E0); }
            self.set_v((self.v & !0x03E0) | (y << 5));
        } else {
            self.set_v(self.v + 0x1000);
        }
    }

    /// Reloads the horizontal bits of `v` from `t`.
    pub fn copy_x(&mut self)
        ensures
            final(self).v == (old(self).v & !0x041F) | (old(self).t & 0x041F),
            final(self).coarse_x == final(self).v & 0x001F,
            final(self).fine_y == final(self).v >> 12,
            final(self).coarse_y == (final(self).v & 0x03E0) >> 5,
            final(self).fine_y < 16,
            final(self).t == old(self).t,
            final(self).fine_x == old(self).fine_x,
            final(self).write_latch == old(self).write_latch,
    {
        let x_mask: u16 = 0x041F;
        self.set_v((self.v & !x_mask) | (self.t & x_mask));
    }

    /// Reloads the vertical bits of `v` from `t`.
    pub fn copy_y(&mut self)
        ensures
            final(self).v == (old(self).v & !0x7BE0) | (old(self).t & 0x7BE0),
            final(self).coarse_x == final(self).v & 0x001F,
            final(self).fine_y == final(self).v >> 12,
            final(self).coarse_y == (final(self).v & 0x03E0) >> 5,
            final(self).fine_y < 16,
            final(self).t == old(self).t,
            final(self).fine_x == old(self).fine_x,
            final(self).write_latch == old(self).write_latch,
    {
        let y_mask: u16 = 0x7BE0;
        self.set_v((self.v & !y_mask) | (self.t & y_mask));
    }

    /// Copies the two nametable-select bits of a `$2000` write into `t`.
    pub fn write_nametable_select(&mut self, val: u8)
        ensures
            final(self).t == (old(self).t & !0x0C00) | (((val & 0x03) as u16) << 10),
            final(self).v == old(self).v,
            final(self).coarse_x == old(self).coarse_x,
            final(self).fine_y == old(self).fine_y,
            final(self).coarse_y == old(self).coarse_y,
            final(self).fine_x == old(self).fine_x,
            final(self).write_latch == old(self).write_latch,
    {
        let nt_mask: u16 = 0x0C00;
        self.t = (self.t & !nt_mask) | (((val & 0x03) as u16) << 10);
    }
}

/// A byte vector of a fixed length, all entries alike.
fn filled_vec(n: usize, val: u8) -> (r: Vec<u8>)
    ensures
        r@ =~= Seq::new(n as nat, |i: int| val),
{
    let mut bytes: Vec<u8> = Vec::new();
    let mut i: usize = 0;
    while i < n
        invariant
            i <= n,
            bytes@ =~= Seq::new(i as nat, |j: int| val),
        decreases n - i,
    {
        bytes.push(val);
        i += 1;
    }
    bytes
}

/// Which of the two physical nametables serves an access at `m`
/// (`m` is the address reduced to the 4 KiB nametable window).
pub open spec fn spec_nt_table(mirror: Mirror, m: u16) -> int {
    if mirror == Mirror::VERTICAL {
        if m < 0x0400 {
            0int
        } else if m < 0x0800 {
            1int
        } else if m < 0x0C00 {
            0int
        } else {
            1int
        }
    } else {
        if m < 0x0800 {
            0int
        } else {
            1int
        }
    }
}

/// The flat index into the 2 KiB of nametable RAM for an access at `m`.
pub open spec fn spec_nt_index(mirror: Mirror, m: u16) -> int {
    spec_nt_table(mirror, m) * 1024 + (m & 0x03FF)
}

/// The palette slot an address in `[$3F00,$3FFF]` lands on: 32 bytes with
/// the sprite copies of the backdrop entries folded onto the background
/// ones.
pub open spec fn spec_palette_index(addr: u16) -> int {
    let a = addr & 0x001F;
    if a == 0x0010 {
        0x0000int
    } else if a == 0x0014 {
        0x0004int
    } else if a == 0x0018 {
        0x0008int
    } else if a == 0x001C {
        0x000Cint
    } else {
        a as int
    }
}

/// What a read of PPU memory space returns: CHR below `$2000`, mirrored
/// nametable RAM below `$3F00`, palette RAM above.
pub open spec fn spec_ppu_read(ppu: &PPU, cart: &Cartridge, addr: u16) -> u8 {
    let a = addr & 0x3FFF;
    if a <= 0x1FFF {
        cart.v_chr_memory@[a as int]
    } else if a <= 0x3EFF {
        ppu.tbl_name@[spec_nt_index(cart.mirror, a & 0x0FFF)]
    } else {
        ppu.tbl_palette@[spec_palette_index(a)]
    }
}

pub struct PPU {
    /// Two 1 KiB nametables, flattened.
    pub tbl_name: Vec<u8>,
    /// Two 4 KiB pattern tables, flattened; reachable only when no
    /// cartridge CHR claims the window.
    pub tbl_pattern: Vec<u8>,
    /// 32 bytes of palette RAM.
    pub tbl_palette: Vec<u8>,
    /// The finished picture: 256 x 240 six-bit palette indices.
    pub spr_screen: Vec<u8>,

    pub frame_complete: bool,
    pub scanline: i32,
    pub cycle: i32,

    pub status: u8,
    pub mask: Mask,
    pub control: Control,
    pub scroll: Scroll,
    pub nmi: bool,

    pub oam_addr: u8,
    pub oam_data: u8,
    pub ppu_data_buffer: u8,

    pub prev_palette: u8,
    pub curr_palette: u8,
    pub next_palette: u8,
    pub tile_lo: u8,
    pub tile_hi: u8,
    pub tile_addr: u16,

    pub tile_shift_lo: u16,
    pub tile_shift_hi: u16,
}

/// The four backing stores agree between two PPU states.
pub open spec fn spec_same_mem(a: &PPU, b: &PPU) -> bool {
    &&& a.tbl_name@ == b.tbl_name@
    &&& a.tbl_pattern@ == b.tbl_pattern@
    &&& a.tbl_palette@ == b.tbl_palette@
    &&& a.spr_screen@ == b.spr_screen@
}

/// The dot, scanline and frame edge agree between two PPU states.
pub open spec fn spec_same_counters(a: &PPU, b: &PPU) -> bool {
    &&& a.frame_complete == b.frame_complete
    &&& a.scanline == b.scanline
    &&& a.cycle == b.cycle
}

/// The register surface agrees between two PPU states.
pub open spec fn spec_same_regs(a: &PPU, b: &PPU) -> bool {
    &&& a.status == b.status
    &&& a.mask == b.mask
    &&& a.control == b.control
    &&& a.nmi == b.nmi
    &&& a.oam_addr == b.oam_addr
    &&& a.oam_data == b.oam_data
    &&& a.ppu_data_buffer == b.ppu_data_buffer
}

/// The background fetch pipeline agrees between two PPU states.
pub open spec fn spec_same_pipeline(a: &PPU, b: &PPU) -> bool {
    &&& a.prev_palette == b.prev_palette
    &&& a.curr_palette == b.curr_palette
    &&& a.next_palette == b.next_palette
    &&& a.tile_lo == b.tile_lo
    &&& a.tile_hi == b.tile_hi
    &&& a.tile_addr == b.tile_addr
    &&& a.tile_shift_lo == b.tile_shift_lo
    &&& a.tile_shift_hi == b.tile_shift_hi
}

impl PPU {
    /// The backing stores have their fixed sizes, the dot and scanline
    /// counters stay inside one frame, and the decoded scroll fields keep
    /// their widths.
    pub open spec fn wf(&self) -> bool {
        &&& self.tbl_name@.len() == 2048
        &&& self.tbl_pattern@.len() == 8192
        &&& self.tbl_palette@.len() == 32
        &&& self.spr_screen@.len() == 61440
        &&& 0 <= self.cycle <= 340
        &&& -1 <= self.scanline <= 260
        &&& self.scroll.fine_x < 8
        &&& self.scroll.fine_y < 16
        &&& (self.control.bg_select == 0 || self.control.bg_select == 0x1000)
        &&& self.tile_addr <= 0x1FFF
        &&& self.prev_palette <= 12
        &&& self.curr_palette <= 12
        &&& self.next_palette <= 12
    }

    pub fn new() -> (p: PPU)
        ensures
            p.wf(),
            p.tbl_name@ =~= Seq::new(2048, |i: int| 0u8),
            p.tbl_pattern@ =~= Seq::new(8192, |i: int| 0u8),
            p.tbl_palette@ =~= Seq::new(32, |i: int| 0u8),
            p.spr_screen@ =~= Seq::new(61440, |i: int| 0u8),
            !p.frame_complete && !p.nmi,
            p.scanline == 0 && p.cycle == 0,
            p.status == 0,
            p.ppu_data_buffer == 0,
            p.scroll.v == 0 && p.scroll.t == 0 && p.scroll.fine_x == 0
                && !p.scroll.write_latch,
            p.control == spec_control_decode(0),
            p.mask == spec_mask_decode(0),
            p.oam_addr == 0 && p.oam_data == 0,
            p.prev_palette == 0 && p.curr_palette == 0 && p.next_palette == 0,
            p.tile_lo == 0 && p.tile_hi == 0 && p.tile_addr == 0,
            p.tile_shift_lo == 0 && p.tile_shift_hi == 0,
    {
        PPU {
            tbl_name: filled_vec(2048, 0),
            tbl_pattern: filled_vec(8192, 0),
            tbl_palette: filled_vec(32, 0),
            spr_screen: filled_vec(61440, 0),

            frame_complete: false,
            scanline: 0,
            cycle: 0,

            status: 0,
            mask: Mask::new(),
            control: Control::new(),
            scroll: Scroll::new(),
            nmi: false,

            oam_addr: 0,
            oam_data: 0,
            ppu_data_buffer: 0,

            prev_palette: 0,
            curr_palette: 0,
            next_palette: 0,
            tile_lo: 0,
            tile_hi: 0,
            tile_addr: 0,

            tile_shift_lo: 0,
            tile_shift_hi: 0,
        }
    }

    /// A read of PPU memory space; the cartridge is consulted first and
    /// serves the whole pattern window.
    pub fn ppu_read(&self, addr: u16, cart: &Cartridge) -> (r: u8)
        requires
            self.wf(),
            cart.wf(),
        ensures
            r == spec_ppu_read(self, cart, addr),
    {
        let addr = addr & 0x3FFF;
        proof { lemma_vram_fields(addr); }

        let (claimed, data) = cart.ppu_read(addr);
        if claimed {
            data
        } else if addr <= 0x1FFF {
            let idx1 = (addr & 0x1000) >> 12;
            let idx2 = addr & 0x0FFF;
            self.tbl_pattern[(idx1 as usize) * 4096 + (idx2 as usize)]
        } else if addr >= 0x2000 && addr <= 0x3EFF {
            let m = addr & 0x0FFF;
            proof { lemma_vram_fields(m); }
            let idx = (m & 0x03FF) as usize;

            if cart.mirror == Mirror::VERTICAL {
                if m < 0x0400 {
                    self.tbl_name[idx]
                } else if m < 0x0800 {
                    self.tbl_name[1024 + idx]
                } else if m < 0x0C00 {
                    self.tbl_name[idx]
                } else {
                    self.tbl_name[1024 + idx]
                }
            } else {
                if m < 0x0800 {
                    self.tbl_name[idx]
                } else {
                    self.tbl_name[1024 + idx]
                }
            }
        } else {
            let mut a = addr & 0x001F;
            if a == 0x0010 {
                a = 0x0000;
            }
            if a == 0x0014 {
                a = 0x0004;
            }
            if a == 0x0018 {
                a = 0x0008;
            }
            if a == 0x001C {
                a = 0x000C;
            }
            self.tbl_palette[a as usize]
        }
    }

    /// A write to PPU memory space; CHR-RAM on the cartridge takes it
    /// first, else it lands in the nametables or the palette.
    pub fn ppu_write(&mut self, addr: u16, data: u8, cart: &mut Cartridge)
        requires
            old(self).wf(),
            old(cart).wf(),
        ensures
            final(self).wf(),
            final(cart).wf(),
            final(cart).mapper == old(cart).mapper,
            final(cart).mirror == old(cart).mirror,
            final(cart).v_prg_memory@ == old(cart).v_prg_memory@,
            spec_same_counters(final(self), old(self)),
            spec_same_regs(final(self), old(self)),
            spec_same_pipeline(final(self), old(self)),
            final(self).scroll == old(self).scroll,
            final(self).spr_screen@ == old(self).spr_screen@,
            spec_ppu_mem_written(old(self), old(cart), final(self), final(cart), addr, data),
    {
        let addr = addr & 0x3FFF;
        proof { lemma_vram_fields(addr); }

        if cart.ppu_write(addr, data) {
            // CHR-RAM took the write.
        } else if addr <= 0x1FFF {
            let idx1 = (addr & 0x1000) >> 12;
            let idx2 = addr & 0x0FFF;
            self.tbl_pattern.set((idx1 as usize) * 4096 + (idx2 as usize), data);
        } else if addr >= 0x2000 && addr <= 0x3EFF {
            let m = addr & 0x0FFF;
            proof { lemma_vram_fields(m); }
            let idx = (m & 0x03FF) as usize;

            if cart.mirror == Mirror::VERTICAL {
                if m < 0x0400 {
                    self.tbl_name.set(idx, data);
                } else if m < 0x0800 {
                    self.tbl_name.set(1024 + idx, data);
                } else if m < 0x0C00 {
                    self.tbl_name.set(idx, data);
                } else {
                    self.tbl_name.set(1024 + idx, data);
                }
            } else {
                if m < 0x0800 {
                    self.tbl_name.set(idx, data);
                } else {
                    self.tbl_name.set(1024 + idx, data);
                }
            }
        } else {
            let mut a = addr & 0x001F;
            if a == 0x0010 {
                a = 0x0000;
            }
            if a == 0x0014 {
                a = 0x0004;
            }
            if a == 0x0018 {
                a = 0x0008;
            }
            if a == 0x001C {
                a = 0x000C;
            }
            self.tbl_palette.set(a as usize, data);
        }
    }

    /// Steps `v` after a `$2007` access by the flat increment `PPUCTRL`
    /// selects: one for across, thirty-two for down.
    pub fn increment_vram_addr(&mut self)
        requires
            old(self).wf(),
        ensures
            final(self).wf(),
            spec_same_mem(final(self), old(self)),
            spec_same_counters(final(self), old(self)),
            spec_same_regs(final(self), old(self)),
            spec_same_pipeline(final(self), old(self)),
            final(self).scroll.t == old(self).scroll.t,
            final(self).scroll.fine_x == old(self).scroll.fine_x,
            final(self).scroll.write_latch == old(self).scroll.write_latch,
            final(self).scroll.coarse_x == final(self).scroll.v & 0x001F,
            final(self).scroll.fine_y == final(self).scroll.v >> 12,
            final(self).scroll.coarse_y == (final(self).scroll.v & 0x03E0) >> 5,
            final(self).scroll.v == vstd::wrapping::u16_specs::wrapping_add(
                old(self).scroll.v,
                old(self).control.vram_increment,
            ),
    {
        self.scroll.set_v(self.scroll.v.wrapping_add(self.control.vram_increment));
    }
}

/// The two bits a tile pixel takes from the pattern shifters never exceed
/// three.
pub proof fn lemma_bg_bits(h: u16, l: u16, f: u16)
    by (bit_vector)
    ensures
        ((((h << f) & 0x8000) >> 14) | (((l << f) & 0x8000) >> 15)) <= 3,
{
}

/// An attribute quadrant, shifted down and widened to a palette base, stays
/// within the four background palettes.
pub proof fn lemma_attr_quadrant(x: u8, s: u8)
    by (bit_vector)
    ensures
        s <= 6 ==> (((x >> s) & 0x03) << 2) <= 12,
{
}

/// The dot phase within an eight-dot fetch group.
pub proof fn lemma_cycle_phase(c: i32)
    by (bit_vector)
    ensures
        c >= 0 ==> 0 <= (c & 0x07) <= 7,
{
}

/// A tile address assembled from pattern-table base, tile index and fine-y
/// stays inside the pattern window.
pub proof fn lemma_tile_addr_bound(b: u16, tidx: u16, fy: u16)
    by (bit_vector)
    ensures
        (b == 0 || b == 0x1000) && tidx <= 0xFF && fy <= 15 ==> (b | (tidx << 4) | fy)
            <= 0x1FFF,
{
}

/// Where the memory side of a `$2007` write (or a direct PPU-space write)
/// lands: CHR-RAM on the cartridge, a nametable, or the palette.
pub open spec fn spec_ppu_mem_written(
    pre: &PPU,
    pre_cart: &Cartridge,
    post: &PPU,
    post_cart: &Cartridge,
    addr: u16,
    data: u8,
) -> bool {
    let a = addr & 0x3FFF;
    if a <= 0x1FFF && pre_cart.mapper.chr_banks == 0 {
        &&& post_cart.v_chr_memory@ == pre_cart.v_chr_memory@.update(a as int, data)
        &&& post.tbl_name@ == pre.tbl_name@
        &&& post.tbl_pattern@ == pre.tbl_pattern@
        &&& post.tbl_palette@ == pre.tbl_palette@
    } else {
        &&& post_cart.v_chr_memory@ == pre_cart.v_chr_memory@
        &&& (if a <= 0x1FFF {
            &&& post.tbl_pattern@ == pre.tbl_pattern@.update(
                ((a & 0x1000) >> 12) * 4096 + (a & 0x0FFF),
                data,
            )
            &&& post.tbl_name@ == pre.tbl_name@
            &&& post.tbl_palette@ == pre.tbl_palette@
        } else if a <= 0x3EFF {
            &&& post.tbl_name@ == pre.tbl_name@.update(
                spec_nt_index(pre_cart.mirror, a & 0x0FFF),
                data,
            )
            &&& post.tbl_pattern@ == pre.tbl_pattern@
            &&& post.tbl_palette@ == pre.tbl_palette@
        } else {
            &&& post.tbl_palette@ == pre.tbl_palette@.update(spec_palette_index(a), data)
            &&& post.tbl_name@ == pre.tbl_name@
            &&& post.tbl_pattern@ == pre.tbl_pattern@
        })
    }
}

/// How one PPU dot moves the VRAM address `v` (with `cycle` already
/// stepped to the dot being processed): coarse-x steps through the fetch
/// columns, the vertical bits reload on the pre-render line, fine-y steps
/// at dot 256 and the horizontal bits reload at dot 257.
pub open spec fn spec_tick_v(
    v: u16,
    t: u16,
    rendering: bool,
    scanline: i32,
    cycle: i32,
) -> u16 {
    if rendering && scanline <= 239 {
        let bg_fetch = (1 <= cycle <= 256) || (321 <= cycle <= 336);
        let v1 = if bg_fetch && (cycle & 0x07) == 0 {
            spec_inc_x(v)
        } else {
            v
        };
        let v2 = if scanline == -1 && 280 <= cycle <= 304 {
            (v1 & !0x7BE0) | (t & 0x7BE0)
        } else {
            v1
        };
        if cycle == 256 {
            spec_inc_y(v2)
        } else if cycle == 257 {
            (v2 & !0x041F) | (t & 0x041F)
        } else {
            v2
        }
    } else {
        v
    }
}

/// The background pattern and palette bits selected for the current dot.
pub open spec fn spec_pixel_color(ppu: &PPU) -> u8 {
    let x = (ppu.cycle - 1) as i32;
    let left_clip_bg = x < 8 && !ppu.mask.show_left_bg;
    let bg_color = if ppu.mask.show_bg && !left_clip_bg {
        ((((ppu.tile_shift_hi << ppu.scroll.fine_x) & 0x8000) >> 14) | (((ppu.tile_shift_lo
            << ppu.scroll.fine_x) & 0x8000) >> 15)) as u8
    } else {
        0u8
    };
    if ppu.scroll.fine_x + ((x & 0x07) as u16) < 8 {
        (ppu.prev_palette + bg_color) as u8
    } else {
        (ppu.curr_palette + bg_color) as u8
    }
}

/// The palette byte the current dot emits, before the grayscale mask.
pub open spec fn spec_render_color(ppu: &PPU, cart: &Cartridge) -> u8 {
    let addr = ppu.scroll.v & 0x3FFF;
    if ppu.mask.rendering_enabled || (addr & 0x3F00) != 0x3F00 {
        let c = spec_pixel_color(ppu) as u16;
        spec_ppu_read(ppu, cart, (0x3F00 + (if c & 0x03 > 0 { c } else { 0u16 })) as u16)
    } else {
        spec_ppu_read(ppu, cart, addr)
    }
}

/// The six-bit index the current dot stores into the frame buffer.
pub open spec fn spec_pixel_byte(ppu: &PPU, cart: &Cartridge) -> u8 {
    ((((spec_render_color(ppu, cart) & ppu.mask.grayscale) as u16) | ppu.mask.emphasis)
        & 0x3F) as u8
}

/// The position of a PPU state within the 89,342-dot frame.
pub open spec fn spec_dot(p: &PPU) -> int {
    (p.scanline + 1) * 341 + p.cycle
}

/// Everything a CPU write of `data` to register `off` does to the PPU and,
/// through `$2007`, to CHR-RAM on the cartridge.
pub open spec fn spec_reg_write(
    pre: &PPU,
    post: &PPU,
    pre_cart: &Cartridge,
    post_cart: &Cartridge,
    off: u16,
    data: u8,
) -> bool {
    &&& (post_cart.mapper == pre_cart.mapper)
    &&& (post_cart.mirror == pre_cart.mirror)
    &&& (post_cart.v_prg_memory@ == pre_cart.v_prg_memory@)
    &&& (spec_same_counters(post, pre))
    &&& (post.spr_screen@ == pre.spr_screen@)
    &&& (spec_same_pipeline(post, pre))
    &&& (post.status == pre.status)
    &&& (off != 7 ==> post_cart.v_chr_memory@ == pre_cart.v_chr_memory@
                && spec_same_mem(post, pre))
    &&& (off != 3 ==> post.oam_addr == pre.oam_addr)
    &&& (off != 4 ==> post.oam_data == pre.oam_data)
    &&& (off == 0 ==> {
                &&& post.control == spec_control_decode(data)
                &&& post.mask == pre.mask
                &&& post.scroll == (Scroll {
                    t: (pre.scroll.t & !0x0C00) | (((data & 0x03) as u16) << 10),
                    ..pre.scroll
                })
                &&& post.nmi == (pre.nmi || (!pre.control.nmi_enabled
                    && (data & 0x80 != 0) && (pre.status & PPU_STATUS_VERTICAL_BLANK
                    != 0)))
                &&& post.ppu_data_buffer == pre.ppu_data_buffer
            })
    &&& (off == 1 ==> post.mask == spec_mask_decode(data) && post.control
                == pre.control && post.scroll == pre.scroll && post.nmi == pre.nmi && post.ppu_data_buffer == pre.ppu_data_buffer)
    &&& (off == 2 || off == 3 || off == 4 ==> post.mask == pre.mask
                && post.control == pre.control && post.scroll == pre.scroll && post.nmi == pre.nmi && post.ppu_data_buffer
                == pre.ppu_data_buffer)
    &&& (off == 3 ==> post.oam_addr == data)
    &&& (off == 4 ==> post.oam_data == data)
    &&& (off == 5 ==> {
                &&& post.mask == pre.mask && post.control == pre.control && post.nmi == pre.nmi && post.ppu_data_buffer == pre.ppu_data_buffer
                &&& (if pre.scroll.write_latch {
                    post.scroll == (Scroll {
                        t: (pre.scroll.t & !0x73E0) | ((((data as u16) >> 3) & 0x1F)
                            << 5) | (((data as u16) & 0x07) << 12),
                        write_latch: false,
                        ..pre.scroll
                    })
                } else {
                    post.scroll == (Scroll {
                        t: (pre.scroll.t & !0x001F) | (((data as u16) >> 3) & 0x1F),
                        fine_x: (data as u16) & 0x07,
                        write_latch: true,
                        ..pre.scroll
                    })
                })
            })
    &&& (off == 6 ==> {
                &&& post.mask == pre.mask && post.control == pre.control && post.nmi == pre.nmi && post.ppu_data_buffer == pre.ppu_data_buffer
                &&& (if pre.scroll.write_latch {
                    {
                        let t2 = (pre.scroll.t & 0xFF00) | (data as u16);
                        post.scroll == (Scroll {
                            t: t2,
                            v: t2,
                            coarse_x: t2 & 0x001F,
                            fine_y: t2 >> 12,
                            coarse_y: (t2 & 0x03E0) >> 5,
                            write_latch: false,
                            ..pre.scroll
                        })
                    }
                } else {
                    post.scroll == (Scroll {
                        t: (pre.scroll.t & 0x00FF) | (((data as u16) & 0x003F)
                            << 8),
                        write_latch: true,
                        ..pre.scroll
                    })
                })
            })
    &&& (off == 7 ==> {
                &&& post.mask == pre.mask && post.control == pre.control && post.nmi == pre.nmi && post.ppu_data_buffer == pre.ppu_data_buffer
                &&& post.scroll.t == pre.scroll.t
                &&& post.scroll.fine_x == pre.scroll.fine_x
                &&& post.scroll.write_latch == pre.scroll.write_latch
                &&& post.scroll.v == vstd::wrapping::u16_specs::wrapping_add(
                    pre.scroll.v,
                    pre.control.vram_increment,
                )
                &&& spec_ppu_mem_written(
                    pre,
                    pre_cart,
                    post,
                    post_cart,
                    pre.scroll.v & 0x3FFF,
                    data,
                )
            })
}

/// Everything a CPU read of register `off` does to the PPU, and what it
/// returns. With `read_only` set this is the side-effect-free peek path.
pub open spec fn spec_reg_read(
    pre: &PPU,
    post: &PPU,
    cart: &Cartridge,
    off: u16,
    read_only: bool,
    r: u8,
) -> bool {
    &&& spec_same_mem(post, pre)
    &&& spec_same_counters(post, pre)
    &&& spec_same_pipeline(post, pre)
    &&& post.mask == pre.mask
    &&& post.control == pre.control
    &&& post.nmi == pre.nmi
    &&& post.oam_addr == pre.oam_addr
    &&& post.oam_data == pre.oam_data
    &&& post.scroll.t == pre.scroll.t
    &&& post.scroll.fine_x == pre.scroll.fine_x
    &&& (read_only ==> post.status == pre.status && post.scroll == pre.scroll
        && post.ppu_data_buffer == pre.ppu_data_buffer)
    &&& (read_only && off == 2 ==> r == (pre.status & 0xE0) | (pre.ppu_data_buffer
        & 0x1F))
    &&& (read_only && off != 2 ==> r == 0)
    &&& (!read_only ==> {
        &&& ((off == 0 || off == 1 || off == 3 || off == 4 || off == 5 || off == 6) ==> r
            == 0 && post.status == pre.status && post.scroll == pre.scroll
            && post.ppu_data_buffer == pre.ppu_data_buffer)
        &&& (off == 2 ==> {
            &&& r == (pre.status & 0xE0) | (pre.ppu_data_buffer & 0x1F)
            &&& post.status == pre.status & !PPU_STATUS_VERTICAL_BLANK
            &&& post.scroll == (Scroll { write_latch: false, ..pre.scroll })
            &&& post.ppu_data_buffer == pre.ppu_data_buffer | ((pre.status
                & !PPU_STATUS_VERTICAL_BLANK) & 0xE0)
        })
        &&& (off == 7 ==> {
            let vaddr = pre.scroll.v & 0x3FFF;
            &&& post.status == pre.status
            &&& post.scroll.write_latch == pre.scroll.write_latch
            &&& post.scroll.v == vstd::wrapping::u16_specs::wrapping_add(
                pre.scroll.v,
                pre.control.vram_increment,
            )
            &&& (vaddr >= 0x3F00 ==> r == spec_ppu_read(pre, cart, vaddr)
                && post.ppu_data_buffer == spec_ppu_read(pre, cart, (vaddr
                - 0x1000) as u16))
            &&& (vaddr < 0x3F00 ==> r == pre.ppu_data_buffer && post.ppu_data_buffer
                == spec_ppu_read(pre, cart, vaddr))
        })
    })
}

impl PPU {
    /// A CPU read of the register at `addr` (already reduced to `0..=7`).
    /// With `read_only` set this is the side-effect-free peek path.
    pub fn cpu_read(&mut self, addr: u16, read_only: bool, cart: &Cartridge) -> (r: u8)
        requires
            old(self).wf(),
            cart.wf(),
            addr <= 7,
        ensures
            final(self).wf(),
            spec_reg_read(old(self), final(self), cart, addr, read_only, r),
    {
        if addr == 2 {
            let data = (self.status & 0xE0) | (self.ppu_data_buffer & 0x1F);

            if read_only {
                return data;
            }

            self.stop_vblank();
            self.scroll.write_latch = false;

            self.ppu_data_buffer = self.ppu_data_buffer | (self.status & 0xE0);

            data
        } else if addr == 7 {
            if read_only {
                return 0;
            }

            let vaddr = self.scroll.addr();
            self.increment_vram_addr();

            let fetched = self.ppu_read(vaddr, cart);
            if vaddr >= 0x3F00 {
                // Palette reads bypass the delay buffer, which instead
                // catches the nametable byte underneath the palette window.
                self.ppu_data_buffer = self.ppu_read(vaddr - 0x1000, cart);
                fetched
            } else {
                let delayed = self.ppu_data_buffer;
                self.ppu_data_buffer = fetched;
                delayed
            }
        } else {
            0
        }
    }

    /// A CPU write to the register at `addr` (already reduced to `0..=7`).
    pub fn cpu_write(&mut self, addr: u16, data: u8, cart: &mut Cartridge)
        requires
            old(self).wf(),
            old(cart).wf(),
            addr <= 7,
        ensures
            final(self).wf(),
            final(cart).wf(),
            spec_reg_write(old(self), final(self), old(cart), final(cart), addr, data),
    {
        if addr == 0 {
            let was_enabled = self.control.nmi_enabled;
            self.control.write(data);
            self.scroll.write_nametable_select(data);
            // A write that enables the NMI while vblank is already set
            // raises the edge at once.
            if !was_enabled && self.control.nmi_enabled && (self.status
                & PPU_STATUS_VERTICAL_BLANK) != 0 {
                self.nmi = true;
            }
        } else if addr == 1 {
            self.mask.write(data);
        } else if addr == 3 {
            self.oam_addr = data;
        } else if addr == 4 {
            self.oam_data = data;
        } else if addr == 5 {
            let val = data as u16;

            if self.scroll.write_latch {
                self.scroll.t = (self.scroll.t & !0x73E0) | (((val >> 3) & 0x1F) << 5) | ((
                val & 0x07) << 12);
                self.scroll.write_latch = false;
            } else {
                self.scroll.t = (self.scroll.t & !0x001F) | ((val >> 3) & 0x1F);
                proof { crate::bitmath::lemma_u16_mask_bounds(val); }
                self.scroll.fine_x = val & 0x07;
                self.scroll.write_latch = true;
            }
        } else if addr == 6 {
            if self.scroll.write_latch {
                let t2 = (self.scroll.t & 0xFF00) | (data as u16);
                self.scroll.t = t2;
                self.scroll.set_v(t2);
                self.scroll.write_latch = false;
            } else {
                self.scroll.t = (self.scroll.t & 0x00FF) | (((data as u16) & 0x003F)
                    << 8);
                self.scroll.write_latch = true;
            }
        } else if addr == 7 {
            let vaddr = self.scroll.addr();
            self.increment_vram_addr();
            self.ppu_write(vaddr, data, cart);
        }
    }

    fn start_vblank(&mut self)
        ensures
            final(self).status == old(self).status | PPU_STATUS_VERTICAL_BLANK,
            final(self).nmi == (old(self).nmi || old(self).control.nmi_enabled),
            *final(self) == (PPU {
                status: final(self).status,
                nmi: final(self).nmi,
                ..*old(self)
            }),
    {
        self.status = self.status | PPU_STATUS_VERTICAL_BLANK;
        if self.control.nmi_enabled {
            self.nmi = true;
        }
    }

    fn stop_vblank(&mut self)
        ensures
            final(self).status == old(self).status & !PPU_STATUS_VERTICAL_BLANK,
            *final(self) == (PPU { status: final(self).status, ..*old(self) }),
    {
        self.status = self.status & !PPU_STATUS_VERTICAL_BLANK;
    }

    /// Clears vblank together with the sprite flags, as the pre-render
    /// line does at its first dot.
    fn clear_frame_flags(&mut self)
        ensures
            final(self).status == old(self).status & 0x1F,
            *final(self) == (PPU { status: final(self).status, ..*old(self) }),
    {
        self.status = self.status & 0x1F;
    }
}


/// The state after the nametable fetch dot: the shifters reload from the
/// previous tile, the palette latches rotate, and the next tile address is
/// assembled from the nametable byte under `v`.
pub open spec fn spec_nt_fetch(p: &PPU, cart: &Cartridge) -> PPU {
    PPU {
        prev_palette: p.curr_palette,
        curr_palette: p.next_palette,
        tile_shift_lo: p.tile_shift_lo | (p.tile_lo as u16),
        tile_shift_hi: p.tile_shift_hi | (p.tile_hi as u16),
        tile_addr: p.control.bg_select | ((spec_ppu_read(
            p,
            cart,
            0x2000 | ((p.scroll.v & 0x3FFF) & 0x0FFF),
        ) as u16) << 4) | p.scroll.fine_y,
        ..*p
    }
}

/// The state after the attribute fetch dot: the palette bits for the
/// quadrant `v` points at, widened to a palette base.
pub open spec fn spec_attr_fetch(p: &PPU, cart: &Cartridge) -> PPU {
    PPU {
        next_palette: ((spec_ppu_read(
            p,
            cart,
            0x23C0 | (p.scroll.v & 0x0C00) | ((p.scroll.v >> 4) & 0x38) | ((p.scroll.v
                >> 2) & 0x07),
        ) >> (((p.scroll.v & 0x0002) | ((p.scroll.v >> 4) & 0x0004)) as u8)) & 0x03) << 2,
        ..*p
    }
}

/// The state after one dot of the eight-dot background fetch group,
/// selected by the dot phase: the nametable byte, the attribute byte, or
/// one of the two tile bitmap bytes.
pub open spec fn spec_fetch_background(p: &PPU, cart: &Cartridge) -> PPU {
    if p.cycle & 0x07 == 1 {
        spec_nt_fetch(p, cart)
    } else if p.cycle & 0x07 == 3 {
        spec_attr_fetch(p, cart)
    } else if p.cycle & 0x07 == 5 {
        PPU { tile_lo: spec_ppu_read(p, cart, p.tile_addr), ..*p }
    } else if p.cycle & 0x07 == 7 {
        PPU { tile_hi: spec_ppu_read(p, cart, (p.tile_addr + 8) as u16), ..*p }
    } else {
        *p
    }
}

/// The fetch side of one dot (with `cycle` already stepped to the dot
/// being processed): the background fetch of the dot's phase on a
/// rendering line, the dummy nametable fetch on the spare dots at the end
/// of the line, and nothing anywhere else.
pub open spec fn spec_tick_fetch(p: &PPU, cart: &Cartridge) -> PPU {
    let bg_fetch = (1 <= p.cycle <= 256) || (321 <= p.cycle <= 336);
    let render_line = (0 <= p.scanline <= 239) || p.scanline == -1;
    if p.mask.rendering_enabled && render_line {
        if bg_fetch {
            spec_fetch_background(p, cart)
        } else if 337 <= p.cycle <= 340 {
            spec_nt_fetch(p, cart)
        } else {
            *p
        }
    } else {
        *p
    }
}

/// The whole pipeline state one dot leaves behind: the dot's fetch, then
/// the one-bit left shift of the pattern shifters on every fetch dot.
pub open spec fn spec_tick_pipeline(p: &PPU, cart: &Cartridge) -> PPU {
    let mid = spec_tick_fetch(p, cart);
    if (1 <= p.cycle <= 256) || (321 <= p.cycle <= 336) {
        PPU {
            tile_shift_lo: mid.tile_shift_lo << 1,
            tile_shift_hi: mid.tile_shift_hi << 1,
            ..mid
        }
    } else {
        mid
    }
}

/// The PPU state the visible dot's pixel is computed from: the scroll
/// address after the dot's sequencing and the pipeline after the dot's
/// fetch, before the shifters move.
pub open spec fn spec_tick_pixel_state(p: &PPU, cart: &Cartridge) -> PPU {
    let mid = spec_tick_fetch(p, cart);
    PPU {
        scroll: (Scroll {
            v: spec_tick_v(
                p.scroll.v,
                p.scroll.t,
                p.mask.rendering_enabled,
                p.scanline,
                p.cycle,
            ),
            ..p.scroll
        }),
        prev_palette: mid.prev_palette,
        curr_palette: mid.curr_palette,
        next_palette: mid.next_palette,
        tile_lo: mid.tile_lo,
        tile_hi: mid.tile_hi,
        tile_addr: mid.tile_addr,
        tile_shift_lo: mid.tile_shift_lo,
        tile_shift_hi: mid.tile_shift_hi,
        ..*p
    }
}

impl PPU {
    /// The nametable fetch dot of the background pipeline.
    pub fn fetch_bg_nt_byte(&mut self, cart: &Cartridge)
        requires
            old(self).wf(),
            cart.wf(),
        ensures
            final(self).wf(),
            *final(self) == spec_nt_fetch(old(self), cart),
    {
        self.prev_palette = self.curr_palette;
        self.curr_palette = self.next_palette;

        self.tile_shift_lo = self.tile_shift_lo | (self.tile_lo as u16);
        self.tile_shift_hi = self.tile_shift_hi | (self.tile_hi as u16);

        let addr = 0x2000 | (self.scroll.addr() & 0x0FFF);
        let tile_index = self.ppu_read(addr, cart) as u16;

        proof {
            lemma_tile_addr_bound(self.control.bg_select, tile_index, self.scroll.fine_y);
        }
        self.tile_addr = self.control.bg_select | (tile_index << 4) | self.scroll.fine_y;
    }

    /// The attribute fetch dot of the background pipeline.
    pub fn fetch_bg_attr_byte(&mut self, cart: &Cartridge)
        requires
            old(self).wf(),
            cart.wf(),
        ensures
            final(self).wf(),
            *final(self) == spec_attr_fetch(old(self), cart),
            final(self).next_palette <= 12,
    {
        let addr = self.scroll.attr_addr();
        let shift = self.scroll.attr_shift();
        let attr = self.ppu_read(addr, cart);
        let sh8 = shift as u8;
        proof { lemma_attr_quadrant(attr, sh8); }
        self.next_palette = ((attr >> sh8) & 0x03) << 2;
    }

    /// One dot of the eight-dot background fetch group, selected by the
    /// dot phase.
    pub fn fetch_background(&mut self, cart: &Cartridge)
        requires
            old(self).wf(),
            cart.wf(),
        ensures
            final(self).wf(),
            *final(self) == spec_fetch_background(old(self), cart),
    {
        let phase = self.cycle & 0x07;
        if phase == 1 {
            self.fetch_bg_nt_byte(cart);
        } else if phase == 3 {
            self.fetch_bg_attr_byte(cart);
        } else if phase == 5 {
            self.tile_lo = self.ppu_read(self.tile_addr, cart);
        } else if phase == 7 {
            self.tile_hi = self.ppu_read(self.tile_addr + 8, cart);
        }
    }

    /// The background pattern and palette bits for the current dot.
    fn pixel_color(&self) -> (r: u8)
        requires
            self.wf(),
            self.cycle >= 1,
        ensures
            r == spec_pixel_color(self),
            r <= 15,
    {
        let x = self.cycle - 1;

        let left_clip_bg = x < 8 && !self.mask.show_left_bg;
        let bg_color: u8 = if self.mask.show_bg && !left_clip_bg {
            proof {
                lemma_bg_bits(self.tile_shift_hi, self.tile_shift_lo, self.scroll.fine_x);
            }
            ((((self.tile_shift_hi << self.scroll.fine_x) & 0x8000) >> 14)
                | (((self.tile_shift_lo << self.scroll.fine_x) & 0x8000) >> 15)) as u8
        } else {
            0
        };

        proof { lemma_cycle_phase(x); }
        if self.scroll.fine_x + ((x & 0x07) as u16) < 8 {
            self.prev_palette + bg_color
        } else {
            self.curr_palette + bg_color
        }
    }

    /// Emits one dot into the frame buffer.
    fn render_pixel(&mut self, cart: &Cartridge)
        requires
            old(self).wf(),
            cart.wf(),
            1 <= old(self).cycle <= 256,
            0 <= old(self).scanline <= 239,
        ensures
            final(self).wf(),
            spec_same_counters(final(self), old(self)),
            spec_same_regs(final(self), old(self)),
            spec_same_pipeline(final(self), old(self)),
            final(self).scroll == old(self).scroll,
            final(self).tbl_name@ == old(self).tbl_name@,
            final(self).tbl_pattern@ == old(self).tbl_pattern@,
            final(self).tbl_palette@ == old(self).tbl_palette@,
            final(self).spr_screen@ == old(self).spr_screen@.update(
                old(self).scanline * 256 + old(self).cycle - 1,
                spec_pixel_byte(old(self), cart),
            ),
    {
        let x = self.cycle - 1;
        let y = self.scanline;
        let addr = self.scroll.addr();

        let color: u8 = if self.mask.rendering_enabled || (addr & 0x3F00) != 0x3F00 {
            let c = self.pixel_color() as u16;
            let base: u16 = if (c & 0x03) > 0 { c } else { 0 };
            self.ppu_read(0x3F00 + base, cart)
        } else {
            self.ppu_read(addr, cart)
        };

        let idx = (((color & self.mask.grayscale) as u16) | self.mask.emphasis) & 0x3F;
        self.spr_screen.set((y as usize) * 256 + (x as usize), idx as u8);
    }

    /// One dot of the rendering state machine: background fetches and
    /// scroll sequencing on rendering lines, pixel emission on visible
    /// dots.
    pub fn tick(&mut self, cart: &Cartridge)
        requires
            old(self).wf(),
            cart.wf(),
        ensures
            final(self).wf(),
            final(self).tbl_name@ == old(self).tbl_name@,
            final(self).tbl_pattern@ == old(self).tbl_pattern@,
            final(self).tbl_palette@ == old(self).tbl_palette@,
            spec_same_counters(final(self), old(self)),
            spec_same_regs(final(self), old(self)),
            final(self).scroll.t == old(self).scroll.t,
            final(self).scroll.fine_x == old(self).scroll.fine_x,
            final(self).scroll.write_latch == old(self).scroll.write_latch,
            final(self).scroll.v == spec_tick_v(
                old(self).scroll.v,
                old(self).scroll.t,
                old(self).mask.rendering_enabled,
                old(self).scanline,
                old(self).cycle,
            ),
            final(self).spr_screen@.len() == old(self).spr_screen@.len(),
            spec_same_pipeline(final(self), &spec_tick_pipeline(old(self), cart)),
            !(0 <= old(self).scanline <= 239 && 1 <= old(self).cycle <= 256) ==> final(self).spr_screen@ == old(self).spr_screen@,
            (0 <= old(self).scanline <= 239 && 1 <= old(self).cycle <= 256) ==> final(self).spr_screen@ == old(self).spr_screen@.update(
                old(self).scanline * 256 + old(self).cycle - 1,
                spec_pixel_byte(&spec_tick_pixel_state(old(self), cart), cart),
            ),
    {
        let cycle = self.cycle;
        let scanline = self.scanline;
        let visible_cycle = 1 <= cycle && cycle <= 256;
        let bg_prefetch_cycle = 321 <= cycle && cycle <= 336;
        let bg_fetch_cycle = bg_prefetch_cycle || visible_cycle;
        let visible_scanline = 0 <= scanline && scanline <= 239;
        let prerender_scanline = scanline == -1;

        if self.mask.rendering_enabled {
            let render_scanline = visible_scanline || prerender_scanline;

            if render_scanline {
                let bg_dummy_cycle = 337 <= cycle && cycle <= 340;

                if bg_fetch_cycle {
                    self.fetch_background(cart);

                    if cycle & 0x07 == 0x00 {
                        self.scroll.increment_x();
                    }
                } else if bg_dummy_cycle {
                    self.fetch_bg_nt_byte(cart);
                }

                if prerender_scanline && 280 <= cycle && cycle <= 304 {
                    self.scroll.copy_y();
                }

                if cycle == 256 {
                    self.scroll.increment_y();
                } else if cycle == 257 {
                    self.scroll.copy_x();
                }
            }
        }

        if visible_scanline && visible_cycle {
            self.render_pixel(cart);
        }

        if bg_fetch_cycle {
            self.tile_shift_lo = self.tile_shift_lo << 1;
            self.tile_shift_hi = self.tile_shift_hi << 1;
        }
    }

    /// Advances the PPU by one dot: steps the dot and scanline counters
    /// through the 341 x 262 frame, runs the rendering state machine, and
    /// raises vblank and the frame edge where they fall.
    pub fn clock(&mut self, cart: &Cartridge) -> (r: usize)
        requires
            old(self).wf(),
            cart.wf(),
        ensures
            final(self).wf(),
            r == 1,
            final(self).tbl_name@ == old(self).tbl_name@,
            final(self).tbl_pattern@ == old(self).tbl_pattern@,
            final(self).tbl_palette@ == old(self).tbl_palette@,
            final(self).mask == old(self).mask,
            final(self).control == old(self).control,
            final(self).oam_addr == old(self).oam_addr,
            final(self).oam_data == old(self).oam_data,
            final(self).ppu_data_buffer == old(self).ppu_data_buffer,
            spec_dot(final(self)) == (spec_dot(old(self)) + 1) % 89342,
            final(self).frame_complete == (old(self).frame_complete || spec_dot(
                final(self),
            ) == 0),
            final(self).cycle == (if old(self).cycle >= 340 {
                0int
            } else {
                old(self).cycle + 1
            }),
            final(self).scanline == (if old(self).cycle >= 340 {
                if old(self).scanline >= 260 {
                    -1int
                } else {
                    old(self).scanline + 1
                }
            } else {
                old(self).scanline as int
            }),
            old(self).cycle >= 340 ==> final(self).status == old(self).status && final(self).nmi == old(self).nmi && final(self).scroll == old(self).scroll && final(self).spr_screen@ == old(self).spr_screen@ && spec_same_pipeline(final(self), old(self)),
            old(self).cycle < 340 ==> {
                let c = old(self).cycle + 1;
                &&& final(self).scroll.t == old(self).scroll.t
                &&& final(self).scroll.fine_x == old(self).scroll.fine_x
                &&& final(self).scroll.write_latch == old(self).scroll.write_latch
                &&& final(self).scroll.v == spec_tick_v(
                    old(self).scroll.v,
                    old(self).scroll.t,
                    old(self).mask.rendering_enabled,
                    old(self).scanline,
                    (old(self).cycle + 1) as i32,
                )
                &&& (c == 1 && old(self).scanline == 241 ==> final(self).status == old(self).status | PPU_STATUS_VERTICAL_BLANK && final(self).nmi == (old(self).nmi
                    || old(self).control.nmi_enabled))
                &&& (c == 1 && old(self).scanline == -1 ==> final(self).status == old(self).status & 0x1F && final(self).nmi == old(self).nmi)
                &&& (!(c == 1 && (old(self).scanline == 241 || old(self).scanline == -1))
                    ==> final(self).status == old(self).status && final(self).nmi == old(self).nmi)
                &&& spec_same_pipeline(
                    final(self),
                    &spec_tick_pipeline(&(PPU { cycle: c as i32, ..*old(self) }), cart),
                )
                &&& (0 <= old(self).scanline <= 239 && 1 <= c <= 256 ==> final(self).spr_screen@ == old(self).spr_screen@.update(
                    old(self).scanline * 256 + c - 1,
                    spec_pixel_byte(
                        &spec_tick_pixel_state(&(PPU { cycle: c as i32, ..*old(self) }), cart),
                        cart,
                    ),
                ))
                &&& (!(0 <= old(self).scanline <= 239 && 1 <= c <= 256) ==> final(self).spr_screen@ == old(self).spr_screen@)
            },
    {
        if self.cycle >= 340 {
            self.cycle = 0;
            if self.scanline >= 260 {
                self.scanline = -1;
                self.frame_complete = true;
            } else {
                self.scanline = self.scanline + 1;
            }
        } else {
            self.cycle = self.cycle + 1;
            self.tick(cart);

            if self.cycle == 1 {
                if self.scanline == 241 {
                    self.start_vblank();
                } else if self.scanline == -1 {
                    self.clear_frame_flags();
                }
            }
        }

        1
    }

    /// Returns the register surface and counters to their power-up state;
    /// memory contents and the scroll address survive a reset.
    pub fn reset(&mut self)
        requires
            old(self).wf(),
        ensures
            final(self).wf(),
            spec_same_mem(final(self), old(self)),
            spec_same_pipeline(final(self), old(self)),
            final(self).scroll == (Scroll { write_latch: false, ..old(self).scroll }),
            final(self).ppu_data_buffer == 0,
            final(self).scanline == 0 && final(self).cycle == 0,
            final(self).status == 0,
            final(self).mask == spec_mask_decode(0),
            final(self).control == spec_control_decode(0),
            final(self).nmi == old(self).nmi,
            final(self).frame_complete == old(self).frame_complete,
            final(self).oam_addr == old(self).oam_addr,
            final(self).oam_data == old(self).oam_data,
    {
        self.scroll.write_latch = false;
        self.ppu_data_buffer = 0;
        self.scanline = 0;
        self.cycle = 0;
        self.status = 0;
        self.mask.write(0);
        self.control.write(0);
    }

    /// The palette entry a given palette and two-bit pixel select, as a
    /// six-bit colour index.
    pub fn get_color_from_palette_ram(&self, palette: u8, pixel: u8, cart: &Cartridge) -> (r:
        u8)
        requires
            self.wf(),
            cart.wf(),
        ensures
            r == spec_ppu_read(
                self,
                cart,
                (0x3F00 + (palette as u16) * 4 + (pixel as u16)) as u16,
            ) & 0x3F,
    {
        let addr: u16 = 0x3F00 + (palette as u16) * 4 + (pixel as u16);
        self.ppu_read(addr, cart) & 0x3F
    }
}

/// The sprite copies of the backdrop palette entries mirror the background
/// ones: a PPU read at `$3F00 + i` for `i` in `{$10,$14,$18,$1C}` returns
/// the byte held at `$3F00 + (i & $0F)`.
pub proof fn lemma_palette_mirror(ppu: &PPU, cart: &Cartridge, i: u16)
    requires
        ppu.wf(),
        cart.wf(),
        i == 0x10 || i == 0x14 || i == 0x18 || i == 0x1C,
    ensures
        spec_ppu_read(ppu, cart, (0x3F00 + i) as u16) == spec_ppu_read(
            ppu,
            cart,
            (0x3F00 + (i & 0x0F)) as u16,
        ),
{
    assert((0x3F00 + i) as u16 & 0x3FFF == 0x3F00 + i && (0x3F00 + i) as u16 > 0x3EFF
        && ((0x3F00 + i) as u16) & 0x001F == i && (0x3F00 + (i & 0x0F)) as u16 & 0x3FFF
        == 0x3F00 + (i & 0x0F) && (0x3F00 + (i & 0x0F)) as u16 > 0x3EFF && ((0x3F00 + (i
        & 0x0F)) as u16) & 0x001F == i & 0x0F && i & 0x0F == i - 0x10) by (bit_vector)
        requires
            i == 0x10 || i == 0x14 || i == 0x18 || i == 0x1C,
    ;
}

/// An NTSC frame is exactly 341 x 262 = 89,342 dots long: stepping the dot
/// index that many times brings it back to its value, and no shorter
/// positive count of steps does.
pub proof fn lemma_frame_period(d: int, k: int)
    requires
        0 <= d < 89342,
        0 < k < 89342,
    ensures
        (d + 89342) % 89342 == d,
        (d + k) % 89342 != d,
{
    vstd::arithmetic::div_mod::lemma_mod_multiples_vanish(1, d, 89342);
    vstd::arithmetic::div_mod::lemma_small_mod(d as nat, 89342nat);
    if d + k < 89342 {
        vstd::arithmetic::div_mod::lemma_small_mod((d + k) as nat, 89342nat);
    } else {
        vstd::arithmetic::div_mod::lemma_mod_multiples_vanish(1, d + k - 89342, 89342);
        vstd::arithmetic::div_mod::lemma_small_mod((d + k - 89342) as nat, 89342nat);
    }
}

} // verus!
