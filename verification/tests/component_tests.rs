use rs6502::cartridge::{Cartridge, LoadError, Mirror};
use rs6502::cpu::instr::{AddrMode, Instr, Operation};
use rs6502::instruction::{AddressingMode, Instruction, Nmos6502};
use rs6502::mapper::Mapper;
use rs6502::memory::Memory;
use rs6502::ppu::{Control, Mask, Scroll, PPU};
use rs6502::registers::{Registers, StackPointer, Status, StatusArgs};

fn small_rom(prg_banks: u8, chr_banks: u8, flags_6: u8) -> Vec<u8> {
    let mut rom = vec![
        0u8;
        16 + 0x4000 * prg_banks as usize + 0x2000 * chr_banks as usize
    ];
    rom[0] = 0x4E;
    rom[1] = 0x45;
    rom[2] = 0x53;
    rom[3] = 0x1A;
    rom[4] = prg_banks;
    rom[5] = chr_banks;
    rom[6] = flags_6;
    rom
}

#[test]
fn mapper_mirrors_a_single_prg_bank() {
    let m = Mapper::new(1, 1);
    assert_eq!(m.cpu_map_read(0xC123), (true, 0x0123));
    assert_eq!(m.cpu_map_read(0x8000), (true, 0x0000));
    assert_eq!(m.cpu_map_read(0x7FFF), (false, 0));
}

#[test]
fn mapper_spans_two_prg_banks() {
    let m = Mapper::new(2, 1);
    assert_eq!(m.cpu_map_read(0xC123), (true, 0x4123));
    assert_eq!(m.cpu_map_write(0x8001), (true, 0x0001));
}

#[test]
fn mapper_claims_chr_writes_only_for_ram() {
    let rom_chip = Mapper::new(1, 1);
    assert_eq!(rom_chip.ppu_map_read(0x1FFF), (true, 0x1FFF));
    assert_eq!(rom_chip.ppu_map_write(0x1FFF), (false, 0));
    let ram_chip = Mapper::new(1, 0);
    assert_eq!(ram_chip.ppu_map_write(0x1FFF), (true, 0x1FFF));
    assert_eq!(ram_chip.ppu_map_read(0x2000), (false, 0));
}

#[test]
fn memory_stores_and_returns_bytes() {
    let mut mem = Memory::new();
    assert_eq!(mem.get_byte(0x07FF), 0);
    mem.set_byte(0x07FF, 0x5A);
    assert_eq!(mem.get_byte(0x07FF), 0x5A);
}

#[test]
fn cartridge_parses_header_fields() {
    let mut rom = small_rom(1, 1, 0x01);
    rom[16] = 0xAA; // first PRG byte
    rom[16 + 0x4000] = 0xBB; // first CHR byte
    let cart = Cartridge::parse(&rom).expect("image loads");
    assert_eq!(cart.mirror, Mirror::VERTICAL);
    assert_eq!(cart.cpu_read(0x8000), (true, 0xAA));
    assert_eq!(cart.ppu_read(0x0000), (true, 0xBB));
    assert_eq!(cart.cpu_read(0x4020), (false, 0));
}

#[test]
fn cartridge_with_chr_ram_accepts_ppu_writes() {
    let rom = small_rom(1, 0, 0x00);
    let mut cart = Cartridge::parse(&rom).expect("image loads");
    assert_eq!(cart.mirror, Mirror::HORIZONTAL);
    assert!(cart.ppu_write(0x0123, 0x42));
    assert_eq!(cart.ppu_read(0x0123), (true, 0x42));
}

#[test]
fn cartridge_rejects_bad_images() {
    assert_eq!(Cartridge::parse(&[0; 8]).err(), Some(LoadError::Truncated));
    let mut bad_magic = small_rom(1, 1, 0);
    bad_magic[3] = 0;
    assert_eq!(Cartridge::parse(&bad_magic).err(), Some(LoadError::BadMagic));
    let mut bad_mapper = small_rom(1, 1, 0xF0);
    bad_mapper[6] = 0xF0;
    assert_eq!(
        Cartridge::parse(&bad_mapper).err(),
        Some(LoadError::UnsupportedMapper)
    );
}

#[test]
fn palette_mirrors_fold_onto_background_entries() {
    // A PPU write at $3F10/$14/$18/$1C lands on $3F00/$04/$08/$0C.
    let rom = small_rom(1, 1, 0);
    let mut cart = Cartridge::parse(&rom).expect("image loads");
    let mut ppu = PPU::new();
    for (i, v) in [(0x10u16, 0x31u8), (0x14, 0x32), (0x18, 0x33), (0x1C, 0x34)] {
        ppu.ppu_write(0x3F00 + i, v, &mut cart);
        assert_eq!(ppu.ppu_read(0x3F00 + (i & 0x0F), &cart), v);
        assert_eq!(ppu.ppu_read(0x3F00 + i, &cart), v);
    }
}

#[test]
fn nametable_mirroring_follows_the_header() {
    let rom_v = small_rom(1, 1, 0x01);
    let mut cart_v = Cartridge::parse(&rom_v).expect("image loads");
    let mut ppu = PPU::new();
    // vertical: $2000 and $2800 share a table, $2400 is the other one
    ppu.ppu_write(0x2000, 0x11, &mut cart_v);
    assert_eq!(ppu.ppu_read(0x2800, &cart_v), 0x11);
    ppu.ppu_write(0x2400, 0x22, &mut cart_v);
    assert_eq!(ppu.ppu_read(0x2C00, &cart_v), 0x22);
    assert_ne!(ppu.ppu_read(0x2400, &cart_v), ppu.ppu_read(0x2000, &cart_v));

    let rom_h = small_rom(1, 1, 0x00);
    let mut cart_h = Cartridge::parse(&rom_h).expect("image loads");
    let mut ppu_h = PPU::new();
    // horizontal: $2000 and $2400 share a table, $2800 is the other one
    ppu_h.ppu_write(0x2000, 0x33, &mut cart_h);
    assert_eq!(ppu_h.ppu_read(0x2400, &cart_h), 0x33);
    ppu_h.ppu_write(0x2800, 0x44, &mut cart_h);
    assert_eq!(ppu_h.ppu_read(0x2C00, &cart_h), 0x44);
}

#[test]
fn ppu_clock_counts_a_whole_frame() {
    // 341 dots per scanline, 262 scanlines per frame.
    let rom = small_rom(1, 1, 0);
    let cart = Cartridge::parse(&rom).expect("image loads");
    let mut ppu = PPU::new();
    let mut ticks = 0u32;
    while !ppu.frame_complete {
        ppu.clock(&cart);
        ticks += 1;
        assert!(ticks < 200_000);
    }
    ppu.frame_complete = false;
    let mut second = 0u32;
    while !ppu.frame_complete {
        ppu.clock(&cart);
        second += 1;
        assert!(second < 200_000);
    }
    assert_eq!(second, 341 * 262);
}

#[test]
fn scroll_coarse_x_wraps_into_the_next_nametable() {
    let mut s = Scroll::new();
    s.set_v(31);
    s.increment_x();
    assert_eq!(s.v, 0x0400);
    assert_eq!(s.coarse_x, 0);
    s.set_v(5);
    s.increment_x();
    assert_eq!(s.v, 6);
}

#[test]
fn scroll_fine_y_carries_into_coarse_y() {
    let mut s = Scroll::new();
    // fine-y 7, coarse-y 29: stepping wraps the row and flips the
    // vertical nametable bit
    s.set_v(0x73A0);
    s.increment_y();
    assert_eq!(s.v, 0x0800);
    // below the carry, only fine-y moves
    s.set_v(0x1000);
    s.increment_y();
    assert_eq!(s.v, 0x2000);
}

#[test]
fn scroll_copies_split_by_axis() {
    let mut s = Scroll::new();
    s.t = 0x7FFF;
    s.set_v(0);
    s.copy_x();
    assert_eq!(s.v, 0x041F);
    s.copy_y();
    assert_eq!(s.v, 0x7FFF & (0x7BE0 | 0x041F));
}

#[test]
fn control_write_decodes_fields() {
    let mut c = Control::new();
    assert_eq!(c.vram_increment, 1);
    c.write(0x94);
    assert_eq!(c.bg_select, 0x1000);
    assert!(c.nmi_enabled);
    assert_eq!(c.vram_increment, 32);
    assert_eq!(c.spr_height, 8);
    assert_eq!(c.nametable_addr, 0x2000);
    c.write(0x03);
    assert_eq!(c.nametable_addr, 0x2C00);
    c.write(0x01);
    assert_eq!(c.nametable_addr, 0x2400);
}

#[test]
fn mask_write_decodes_fields() {
    let mut m = Mask::new();
    assert!(!m.rendering_enabled);
    m.write(0x09);
    assert!(m.rendering_enabled);
    assert!(m.show_bg && !m.show_spr);
    assert_eq!(m.grayscale, 0x30);
    m.write(0x10);
    assert!(m.rendering_enabled);
    assert_eq!(m.grayscale, 0x3F);
}

#[test]
fn decoder_answers_for_known_opcodes() {
    assert!(matches!(
        Nmos6502::decode(0xA9),
        Some((Instruction::LDA, AddressingMode::IMM))
    ));
    assert!(matches!(
        Nmos6502::decode(0x6D),
        Some((Instruction::ADC, AddressingMode::ABS))
    ));
    assert!(Nmos6502::decode(0x02).is_none());
    assert!(Nmos6502::decode(0xFF).is_none());
}

#[test]
fn addressing_modes_carry_operand_widths() {
    assert_eq!(AddressingMode::IMP.extra_bytes(), 0);
    assert_eq!(AddressingMode::IMM.extra_bytes(), 1);
    assert_eq!(AddressingMode::ABS.extra_bytes(), 2);
    assert_eq!(AddressingMode::IND.extra_bytes(), 2);
}

#[test]
fn status_assembles_from_named_flags() {
    let args = StatusArgs {
        n: true,
        v: false,
        u: true,
        b: false,
        d: false,
        i: true,
        z: false,
        c: true,
    };
    let st = Status::new(args);
    assert_eq!(st.bits, 0x80 | 0x20 | 0x04 | 0x01);

    let none = Status::new(StatusArgs::none());
    assert_eq!(none.bits, 0);

    let mut st2 = Status::new(StatusArgs::none());
    st2.or(Status { bits: 0xF0 });
    st2.and(Status { bits: 0x30 });
    assert_eq!(st2.bits, 0x30);
    st2.set_with_mask(Status { bits: 0x20 }, Status { bits: 0x00 });
    assert_eq!(st2.bits, 0x10);
}

#[test]
fn stack_pointer_lives_in_page_one() {
    let mut sp = StackPointer(0x00);
    assert_eq!(sp.to_u16(), 0x0100);
    sp.decrement();
    assert_eq!(sp.0, 0xFF);
    sp.increment();
    sp.increment();
    assert_eq!(sp.0, 0x01);
    assert_eq!(sp.to_u16(), 0x0101);
}

#[test]
fn registers_power_up_cleared() {
    let r = Registers::new();
    assert_eq!(r.a, 0);
    assert_eq!(r.pc, 0);
    assert_eq!(r.status.bits, 0x20 | 0x04);
}

#[test]
fn palette_lookup_returns_six_bit_colours() {
    let rom = small_rom(1, 1, 0);
    let mut cart = Cartridge::parse(&rom).expect("image loads");
    let mut ppu = PPU::new();
    ppu.ppu_write(0x3F05, 0xF3, &mut cart);
    assert_eq!(ppu.get_color_from_palette_ram(1, 1, &cart), 0xF3 & 0x3F);
    assert_eq!(ppu.get_color_from_palette_ram(0, 0, &cart), 0x00);
}

#[test]
fn opcode_table_rows_match_the_reference_entries() {
    let lda_imm = Instr::lookup(0xA9);
    assert_eq!(lda_imm.addr_mode(), AddrMode::IMM);
    assert_eq!(lda_imm.op(), Operation::LDA);
    assert_eq!(lda_imm.cycles(), 2);
    let jsr = Instr::lookup(0x20);
    assert_eq!(jsr.cycles(), 6);
    let brk = Instr::lookup(0x00);
    assert_eq!(brk.cycles(), 7);
    // the illegal $EB row behaves exactly as the documented $E9 row
    let sbc_illegal = Instr::lookup(0xEB);
    let sbc = Instr::lookup(0xE9);
    assert_eq!(sbc_illegal.addr_mode(), sbc.addr_mode());
    assert_eq!(sbc_illegal.op(), sbc.op());
    assert_eq!(sbc_illegal.cycles(), sbc.cycles());
}
