use rs6502::cartridge::LoadError;
use rs6502::cpu::{FLAG_C, FLAG_N, FLAG_U, FLAG_V, FLAG_Z};
use rs6502::machine::{CpuHalt, Machine};

/// An iNES image with one 16 KiB PRG bank and one 8 KiB CHR bank, with the
/// given program placed at $C000 and the reset vector pointing there.
fn make_rom(program: &[u8]) -> Vec<u8> {
    let mut rom = vec![0u8; 16 + 0x4000 + 0x2000];
    rom[0] = 0x4E;
    rom[1] = 0x45;
    rom[2] = 0x53;
    rom[3] = 0x1A;
    rom[4] = 1; // PRG banks
    rom[5] = 1; // CHR banks
    // $C000 maps to PRG offset $0000 with a single mirrored bank
    for (i, b) in program.iter().enumerate() {
        rom[16 + i] = *b;
    }
    // reset vector $FFFC/$FFFD -> $C000
    rom[16 + 0x3FFC] = 0x00;
    rom[16 + 0x3FFD] = 0xC0;
    rom
}

fn boot(program: &[u8]) -> Machine {
    let rom = make_rom(program);
    let mut m = Machine::new(&rom).expect("image loads");
    m.reset();
    m
}

/// Runs the CPU until it has executed exactly one more instruction and
/// returns the cycle cost the instruction reported.
fn step(m: &mut Machine) -> usize {
    let mut guard = 0;
    loop {
        let ran = m.cpu.clock();
        if ran != 0 {
            return ran;
        }
        guard += 1;
        assert!(guard < 100, "CPU made no progress");
    }
}

#[test]
fn reset_vector_and_status() {
    // S1: after reset PC comes from $FFFC/$FFFD, SP is $FD, and the status
    // holds exactly the unused and interrupt-disable bits.
    let m = boot(&[]);
    assert_eq!(m.cpu.pc, 0xC000);
    assert_eq!(m.cpu.sp, 0xFD);
    assert_eq!(m.cpu.status, 0x24);
}

#[test]
fn lda_immediate_sets_z_and_n() {
    // S2: LDA #$00 then LDA #$80.
    let mut m = boot(&[0xA9, 0x00, 0xA9, 0x80]);
    step(&mut m);
    assert_eq!(m.cpu.a, 0x00);
    assert_ne!(m.cpu.status & FLAG_Z, 0);
    assert_eq!(m.cpu.status & FLAG_N, 0);
    step(&mut m);
    assert_eq!(m.cpu.a, 0x80);
    assert_eq!(m.cpu.status & FLAG_Z, 0);
    assert_ne!(m.cpu.status & FLAG_N, 0);
}

#[test]
fn adc_signed_overflow() {
    // S3 first half: $50 + $50 overflows into the sign bit.
    let mut m = boot(&[0x69, 0x50]);
    m.cpu.a = 0x50;
    m.cpu.status &= !FLAG_C;
    step(&mut m);
    assert_eq!(m.cpu.a, 0xA0);
    assert_eq!(m.cpu.status & FLAG_C, 0);
    assert_ne!(m.cpu.status & FLAG_V, 0);
    assert_ne!(m.cpu.status & FLAG_N, 0);
    assert_eq!(m.cpu.status & FLAG_Z, 0);
}

#[test]
fn adc_carry_out_without_overflow() {
    // S3 second half: $50 + $D0 carries out but does not overflow.
    let mut m = boot(&[0x69, 0xD0]);
    m.cpu.a = 0x50;
    m.cpu.status &= !FLAG_C;
    step(&mut m);
    assert_eq!(m.cpu.a, 0x20);
    assert_ne!(m.cpu.status & FLAG_C, 0);
    assert_eq!(m.cpu.status & FLAG_V, 0);
}

#[test]
fn jmp_indirect_page_wrap_bug() {
    // S4: the high pointer byte comes from the start of the same page.
    let mut m = boot(&[0x6C, 0xFF, 0x02]);
    m.cpu.bus.cpu_write(0x02FF, 0x00);
    m.cpu.bus.cpu_write(0x0200, 0x04);
    m.cpu.bus.cpu_write(0x0300, 0x80);
    step(&mut m);
    assert_eq!(m.cpu.pc, 0x0400);
}

#[test]
fn ppustatus_read_side_effects() {
    // S5: $2002 returns status bits over stale buffer bits, then clears
    // vblank and the write latch.
    let mut m = boot(&[]);
    m.cpu.bus.ppu.status = 0xE0;
    m.cpu.bus.ppu.ppu_data_buffer = 0xAB;
    m.cpu.bus.ppu.scroll.write_latch = true;
    let v = m.cpu.bus.cpu_read(0x2002, false);
    assert_eq!(v, 0xE0 | (0xAB & 0x1F));
    assert_eq!(m.cpu.bus.ppu.status & 0x80, 0);
    assert!(!m.cpu.bus.ppu.scroll.write_latch);
}

#[test]
fn frame_cadence() {
    // S7: consecutive frame edges are exactly 341 * 262 = 89,342 dots
    // apart, and the 3:1 divider hands the CPU its share of those ticks.
    let mut m = boot(&[]);
    let mut guard: u64 = 0;
    while !m.cpu.bus.ppu.frame_complete {
        let _ = m.tick();
        guard += 1;
        assert!(guard < 200_000);
    }
    m.cpu.bus.ppu.frame_complete = false;

    let mut ticks: u64 = 0;
    let mut cpu_ticks: u64 = 0;
    while !m.cpu.bus.ppu.frame_complete {
        if m.system_clock_counter % 3 == 0 {
            cpu_ticks += 1;
        }
        let _ = m.tick();
        ticks += 1;
        assert!(ticks < 200_000);
    }
    assert_eq!(ticks, 89_342);
    assert_eq!(89_342, 3 * 29_780 + 2);
    assert!(cpu_ticks == 29_780 || cpu_ticks == 29_781);
}

#[test]
fn php_plp_round_trip_preserves_flags() {
    // The pulled status is the pushed one with U set and B clear.
    let mut m = boot(&[0x08, 0x28]);
    m.cpu.status = 0x83; // N, Z, C; B and U clear
    step(&mut m);
    step(&mut m);
    assert_eq!(m.cpu.status, 0x83 | FLAG_U);
    assert_eq!(m.cpu.status & 0xCF, 0x83 & 0xCF);
}

#[test]
fn work_ram_is_mirrored() {
    // Reads at $0800-$1FFF see the same cell as the address modulo $0800.
    let mut m = boot(&[]);
    m.cpu.bus.cpu_write(0x0005, 0x42);
    assert_eq!(m.cpu.bus.cpu_read(0x0805, false), 0x42);
    assert_eq!(m.cpu.bus.cpu_read(0x1005, false), 0x42);
    assert_eq!(m.cpu.bus.cpu_read(0x1805, false), 0x42);
    m.cpu.bus.cpu_write(0x1807, 0x99);
    assert_eq!(m.cpu.bus.cpu_read(0x0007, false), 0x99);
}

#[test]
fn taken_branch_costs_base_plus_one_same_page() {
    // SEC, then BCS +5 landing in the same page: base 2 + 1 cycles.
    let mut m = boot(&[0x38, 0xB0, 0x05]);
    step(&mut m);
    let cycles = step(&mut m);
    assert_eq!(cycles, 3);
    assert_eq!(m.cpu.pc, 0xC003 + 0x05);
}

#[test]
fn taken_branch_costs_base_plus_two_across_pages() {
    // A taken branch whose target sits in the next page: base 2 + 2.
    let mut m = boot(&[0x38]); // SEC at $C000
    // place the branch at $C0FD directly
    m.cpu.bus.cartridge.v_prg_memory[0x00FD] = 0xB0;
    m.cpu.bus.cartridge.v_prg_memory[0x00FE] = 0x7F;
    step(&mut m); // SEC
    m.cpu.pc = 0xC0FD;
    let cycles = step(&mut m);
    assert_eq!(cycles, 4);
    assert_eq!(m.cpu.pc, 0xC0FF + 0x7F);
}

#[test]
fn untaken_branch_costs_base() {
    // CLC, then BCS not taken: exactly the base 2 cycles.
    let mut m = boot(&[0x18, 0xB0, 0x05]);
    step(&mut m);
    let cycles = step(&mut m);
    assert_eq!(cycles, 2);
    assert_eq!(m.cpu.pc, 0xC003);
}

#[test]
fn load_rejects_bad_magic() {
    let mut rom = make_rom(&[]);
    rom[0] = 0x4F;
    assert_eq!(Machine::new(&rom).err(), Some(LoadError::BadMagic));
}

#[test]
fn load_rejects_short_header() {
    let rom = vec![0x4E, 0x45, 0x53, 0x1A, 1, 1];
    assert_eq!(Machine::new(&rom).err(), Some(LoadError::Truncated));
}

#[test]
fn load_rejects_truncated_data() {
    let mut rom = make_rom(&[]);
    rom[4] = 2; // promises a second PRG bank the image does not carry
    assert_eq!(Machine::new(&rom).err(), Some(LoadError::Truncated));
}

#[test]
fn load_rejects_unsupported_mapper() {
    let mut rom = make_rom(&[]);
    rom[7] = 0x10; // mapper id 1
    assert_eq!(Machine::new(&rom).err(), Some(LoadError::UnsupportedMapper));
}

#[test]
fn load_skips_trainer() {
    // With flag bit 2 set, 512 filler bytes sit between header and PRG.
    let program = [0xA9, 0x7E];
    let mut rom = vec![0u8; 16 + 512 + 0x4000 + 0x2000];
    rom[0] = 0x4E;
    rom[1] = 0x45;
    rom[2] = 0x53;
    rom[3] = 0x1A;
    rom[4] = 1;
    rom[5] = 1;
    rom[6] = 0x04; // trainer present
    for (i, b) in program.iter().enumerate() {
        rom[16 + 512 + i] = *b;
    }
    rom[16 + 512 + 0x3FFC] = 0x00;
    rom[16 + 512 + 0x3FFD] = 0xC0;
    let mut m = Machine::new(&rom).expect("image loads");
    m.reset();
    step(&mut m);
    assert_eq!(m.cpu.a, 0x7E);
}

#[test]
fn controller_shifts_out_msb_first() {
    let mut m = boot(&[]);
    m.set_buttons(0, 0xA5);
    m.cpu.bus.cpu_write(0x4016, 1); // latch
    let mut bits = Vec::new();
    for _ in 0..8 {
        bits.push(m.cpu.bus.cpu_read(0x4016, false));
    }
    assert_eq!(bits, vec![1, 0, 1, 0, 0, 1, 0, 1]);
}

#[test]
fn ppudata_reads_are_buffered() {
    // Below the palette window, $2007 returns the previous fetch.
    let mut m = boot(&[]);
    m.cpu.bus.cpu_write(0x2006, 0x20);
    m.cpu.bus.cpu_write(0x2006, 0x55);
    m.cpu.bus.cpu_write(0x2007, 0x99);
    m.cpu.bus.cpu_write(0x2006, 0x20);
    m.cpu.bus.cpu_write(0x2006, 0x55);
    let first = m.cpu.bus.cpu_read(0x2007, false);
    let second = m.cpu.bus.cpu_read(0x2007, false);
    assert_eq!(first, 0x00);
    assert_eq!(second, 0x99);
}

#[test]
fn vblank_raises_nmi_when_enabled() {
    let mut m = boot(&[]);
    m.cpu.bus.cpu_write(0x2000, 0x80);
    m.cpu.bus.ppu.scanline = 241;
    m.cpu.bus.ppu.cycle = 0;
    let _ = m.tick();
    assert_ne!(m.cpu.bus.ppu.status & 0x80, 0);
    assert!(m.cpu.nmi);
    assert!(!m.cpu.bus.ppu.nmi);
}

#[test]
fn enabling_nmi_during_vblank_raises_edge_at_once() {
    let mut m = boot(&[]);
    m.cpu.bus.ppu.status = 0x80; // vblank already set
    m.cpu.bus.cpu_write(0x2000, 0x80);
    assert!(m.cpu.bus.ppu.nmi);
}

#[test]
fn kil_opcode_halts_the_cpu_until_reset() {
    let mut m = boot(&[0x02]);
    step(&mut m);
    assert!(m.cpu.corrupted);
    assert_eq!(m.tick(), Err(CpuHalt));
    // recovery is caller-driven: patch the jam away and reset
    m.cpu.bus.cartridge.v_prg_memory[0] = 0xEA;
    m.reset();
    assert!(!m.cpu.corrupted);
    assert_eq!(m.tick(), Ok(()));
}

#[test]
fn frame_returns_the_screen_buffer() {
    let mut m = boot(&[]);
    let buf = m.frame();
    assert_eq!(buf.len(), 256 * 240);
    assert!(!m.cpu.bus.ppu.frame_complete);
}

#[test]
fn live_status_keeps_unused_set_and_break_clear() {
    // After every instruction the live register has U set and B clear,
    // even when the pulled byte says otherwise.
    let mut m = boot(&[0xA9, 0x80, 0x48, 0x28, 0xEA, 0xC9, 0x10, 0x69, 0x01]);
    for _ in 0..6 {
        step(&mut m);
        assert_eq!(m.cpu.status & 0x30, 0x20);
    }
}

#[test]
fn pushed_status_copies_carry_the_right_break_bit() {
    // PHP pushes with U and B set; hardware interrupt entry pushes with U
    // set and B clear.
    let mut m = boot(&[0x08]);
    m.cpu.status = 0x24;
    step(&mut m); // PHP at SP $FD pushes to $01FD
    let pushed = m.cpu.bus.cpu_read(0x01FD, false);
    assert_eq!(pushed & 0x30, 0x30);

    let mut n = boot(&[0xEA]);
    n.cpu.status = 0x24;
    n.cpu.nmi = true;
    n.cpu.clock(); // services the NMI; status lands at $01FB
    let pushed = n.cpu.bus.cpu_read(0x01FB, false);
    assert_eq!(pushed & 0x30, 0x20);
    assert_eq!(n.cpu.pc, 0x0000); // the zeroed NMI vector
}

#[test]
fn background_frame_uses_the_universal_backdrop() {
    // With an empty pattern table every visible dot reads the backdrop
    // colour at $3F00.
    let mut m = boot(&[]);
    m.cpu.bus.cpu_write(0x2006, 0x3F);
    m.cpu.bus.cpu_write(0x2006, 0x00);
    m.cpu.bus.cpu_write(0x2007, 0x21);
    m.cpu.bus.cpu_write(0x2006, 0x00);
    m.cpu.bus.cpu_write(0x2006, 0x00);
    m.cpu.bus.cpu_write(0x2001, 0x08); // show the background
    m.frame();
    let buf = m.frame(); // a full frame rendered with the palette in place
    assert_eq!(buf[120 * 256 + 128], 0x21);
    assert_eq!(buf[0], 0x21);
}

#[test]
fn countdown_loop_runs_to_completion() {
    // LDX #$05; DEX; BNE back to the DEX; the loop leaves X at zero and
    // the cycle count follows the branch rules exactly.
    let mut m = boot(&[0xA2, 0x05, 0xCA, 0xD0, 0xFD, 0xEA]);
    let mut cycles = 0;
    let mut guard = 0;
    while m.cpu.pc != 0xC005 {
        cycles += step(&mut m);
        guard += 1;
        assert!(guard < 50);
    }
    assert_eq!(m.cpu.x, 0);
    // LDX: 2; five DEX: 10; four taken same-page BNE: 12; one untaken: 2
    assert_eq!(cycles, 2 + 10 + 12 + 2);
}

#[test]
fn indirect_indexed_load_pays_for_page_cross() {
    // LDY #$05; LDA ($40),Y within one page costs five cycles.
    let mut m = boot(&[0xA0, 0x05, 0xB1, 0x40]);
    m.cpu.bus.cpu_write(0x0040, 0x00);
    m.cpu.bus.cpu_write(0x0041, 0x03);
    m.cpu.bus.cpu_write(0x0305, 0x77);
    step(&mut m);
    let cycles = step(&mut m);
    assert_eq!(m.cpu.a, 0x77);
    assert_eq!(cycles, 5);

    // LDY #$0A; LDA ($40),Y crossing into the next page costs one more.
    let mut n = boot(&[0xA0, 0x0A, 0xB1, 0x40]);
    n.cpu.bus.cpu_write(0x0040, 0xFB);
    n.cpu.bus.cpu_write(0x0041, 0x02);
    n.cpu.bus.cpu_write(0x0305, 0x66);
    step(&mut n);
    let cycles = step(&mut n);
    assert_eq!(n.cpu.a, 0x66);
    assert_eq!(cycles, 6);
}

#[test]
fn increment_memory_is_a_six_cycle_read_modify_write() {
    // INC $0200 steps the byte and refreshes N from the result.
    let mut m = boot(&[0xEE, 0x00, 0x02]);
    m.cpu.bus.cpu_write(0x0200, 0x7F);
    let cycles = step(&mut m);
    assert_eq!(cycles, 6);
    assert_eq!(m.cpu.bus.cpu_read(0x0200, false), 0x80);
    assert_ne!(m.cpu.status & FLAG_N, 0);
}

#[test]
fn ppudata_access_steps_v_by_the_flat_increment() {
    // A $2007 access advances v by exactly 1, or by 32 with PPUCTRL bit 2
    // set, whether or not the PPU is rendering.
    let mut m = boot(&[]);
    m.cpu.bus.cpu_write(0x2001, 0x08); // background on: rendering enabled
    m.cpu.bus.ppu.scanline = 100; // a visible scanline
    m.cpu.bus.cpu_write(0x2006, 0x20);
    m.cpu.bus.cpu_write(0x2006, 0x00);
    let _ = m.cpu.bus.cpu_read(0x2007, false);
    assert_eq!(m.cpu.bus.ppu.scroll.v, 0x2001);
    m.cpu.bus.cpu_write(0x2000, 0x04); // increment select: 32
    m.cpu.bus.cpu_write(0x2007, 0x00);
    assert_eq!(m.cpu.bus.ppu.scroll.v, 0x2001 + 32);
}

#[test]
fn shift_on_prg_space_writes_through_the_mapper() {
    // ASL $C000 reads the opcode byte of this very program ($0E), writes
    // the original back, then the shifted byte: NROM routes the write into
    // the PRG vector, so the next read sees $1C.
    let mut m = boot(&[0x0E, 0x00, 0xC0]);
    let cycles = step(&mut m);
    assert_eq!(cycles, 6);
    assert_eq!(m.cpu.bus.cpu_read(0xC000, false), 0x1C);
    assert_eq!(m.cpu.status & FLAG_C, 0); // bit 7 of $0E was clear
}
