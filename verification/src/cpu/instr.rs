//! The 256-entry opcode table of the 6502: each opcode byte maps to its
//! addressing mode, operation and base cycle count, and the addressing-mode
//! resolvers and operation handlers the dispatcher runs.

use vstd::prelude::*;

verus! {

#[derive(Copy, Clone, Debug, PartialEq, Eq, Structural)]
pub enum AddrMode {
    IMM,
    ZP0,
    ZPX,
    ZPY,
    ABS,
    ABX,
    ABY,
    IND,
    IDX,
    IDY,
    REL,
    ACC,
    IMP,
}

#[derive(Copy, Clone, Debug, PartialEq, Eq, Structural)]
pub enum Operation {
    ADC, AND, ASL, BCC, BCS, BEQ, BIT, BMI, BNE, BPL, BRK, BVC, BVS, CLC, CLD, CLI, CLV,
    CMP, CPX, CPY, DEC, DEX, DEY, EOR, INC, INX, INY, JMP, JSR, LDA, LDX, LDY, LSR, NOP,
    ORA, PHA, PHP, PLA, PLP, ROL, ROR, RTI, RTS, SBC, SEC, SED, SEI, STA, STX, STY, TAX,
    TAY, TSX, TXA, TXS, TYA,
    // "Unofficial" opcodes
    SKB, IGN, ISB, DCP, AXS, LAS, LAX, AHX, SAX, XAA, SXA, RRA, TAS, SYA, ARR, SRE, ALR,
    RLA, ANC, SLO, XXX,
}

/// Whether an operation is one of the eight conditional branches.
pub open spec fn spec_is_branch(op: Operation) -> bool {
    op == Operation::BPL || op == Operation::BMI || op == Operation::BVC || op
        == Operation::BVS || op == Operation::BCC || op == Operation::BCS || op
        == Operation::BNE || op == Operation::BEQ
}

/// The opcode table as a mathematical function: the row `lookup`
/// returns for each opcode byte.
pub open spec fn spec_lookup(opcode: u8) -> Instr {
    if opcode == 0x00 {
        Instr(0x00, AddrMode::IMM, Operation::BRK, 7)
    } else if opcode == 0x01 {
        Instr(0x01, AddrMode::IDX, Operation::ORA, 6)
    } else if opcode == 0x02 {
        Instr(0x02, AddrMode::IMP, Operation::XXX, 2)
    } else if opcode == 0x03 {
        Instr(0x03, AddrMode::IDX, Operation::SLO, 8)
    } else if opcode == 0x04 {
        Instr(0x04, AddrMode::ZP0, Operation::NOP, 3)
    } else if opcode == 0x05 {
        Instr(0x05, AddrMode::ZP0, Operation::ORA, 3)
    } else if opcode == 0x06 {
        Instr(0x06, AddrMode::ZP0, Operation::ASL, 5)
    } else if opcode == 0x07 {
        Instr(0x07, AddrMode::ZP0, Operation::SLO, 5)
    } else if opcode == 0x08 {
        Instr(0x08, AddrMode::IMP, Operation::PHP, 3)
    } else if opcode == 0x09 {
        Instr(0x09, AddrMode::IMM, Operation::ORA, 2)
    } else if opcode == 0x0A {
        Instr(0x0A, AddrMode::ACC, Operation::ASL, 2)
    } else if opcode == 0x0B {
        Instr(0x0B, AddrMode::IMM, Operation::ANC, 2)
    } else if opcode == 0x0C {
        Instr(0x0C, AddrMode::ABS, Operation::NOP, 4)
    } else if opcode == 0x0D {
        Instr(0x0D, AddrMode::ABS, Operation::ORA, 4)
    } else if opcode == 0x0E {
        Instr(0x0E, AddrMode::ABS, Operation::ASL, 6)
    } else if opcode == 0x0F {
        Instr(0x0F, AddrMode::ABS, Operation::SLO, 6)
    } else if opcode == 0x10 {
        Instr(0x10, AddrMode::REL, Operation::BPL, 2)
    } else if opcode == 0x11 {
        Instr(0x11, AddrMode::IDY, Operation::ORA, 5)
    } else if opcode == 0x12 {
        Instr(0x12, AddrMode::IMP, Operation::XXX, 2)
    } else if opcode == 0x13 {
        Instr(0x13, AddrMode::IDY, Operation::SLO, 8)
    } else if opcode == 0x14 {
        Instr(0x14, AddrMode::ZPX, Operation::NOP, 4)
    } else if opcode == 0x15 {
        Instr(0x15, AddrMode::ZPX, Operation::ORA, 4)
    } else if opcode == 0x16 {
        Instr(0x16, AddrMode::ZPX, Operation::ASL, 6)
    } else if opcode == 0x17 {
        Instr(0x17, AddrMode::ZPX, Operation::SLO, 6)
    } else if opcode == 0x18 {
        Instr(0x18, AddrMode::IMP, Operation::CLC, 2)
    } else if opcode == 0x19 {
        Instr(0x19, AddrMode::ABY, Operation::ORA, 4)
    } else if opcode == 0x1A {
        Instr(0x1A, AddrMode::IMP, Operation::NOP, 2)
    } else if opcode == 0x1B {
        Instr(0x1B, AddrMode::ABY, Operation::SLO, 7)
    } else if opcode == 0x1C {
        Instr(0x1C, AddrMode::ABX, Operation::IGN, 4)
    } else if opcode == 0x1D {
        Instr(0x1D, AddrMode::ABX, Operation::ORA, 4)
    } else if opcode == 0x1E {
        Instr(0x1E, AddrMode::ABX, Operation::ASL, 7)
    } else if opcode == 0x1F {
        Instr(0x1F, AddrMode::ABX, Operation::SLO, 7)
    } else if opcode == 0x20 {
        Instr(0x20, AddrMode::ABS, Operation::JSR, 6)
    } else if opcode == 0x21 {
        Instr(0x21, AddrMode::IDX, Operation::AND, 6)
    } else if opcode == 0x22 {
        Instr(0x22, AddrMode::IMP, Operation::XXX, 2)
    } else if opcode == 0x23 {
        Instr(0x23, AddrMode::IDX, Operation::RLA, 8)
    } else if opcode == 0x24 {
        Instr(0x24, AddrMode::ZP0, Operation::BIT, 3)
    } else if opcode == 0x25 {
        Instr(0x25, AddrMode::ZP0, Operation::AND, 3)
    } else if opcode == 0x26 {
        Instr(0x26, AddrMode::ZP0, Operation::ROL, 5)
    } else if opcode == 0x27 {
        Instr(0x27, AddrMode::ZP0, Operation::RLA, 5)
    } else if opcode == 0x28 {
        Instr(0x28, AddrMode::IMP, Operation::PLP, 4)
    } else if opcode == 0x29 {
        Instr(0x29, AddrMode::IMM, Operation::AND, 2)
    } else if opcode == 0x2A {
        Instr(0x2A, AddrMode::ACC, Operation::ROL, 2)
    } else if opcode == 0x2B {
        Instr(0x2B, AddrMode::IMM, Operation::ANC, 2)
    } else if opcode == 0x2C {
        Instr(0x2C, AddrMode::ABS, Operation::BIT, 4)
    } else if opcode == 0x2D {
        Instr(0x2D, AddrMode::ABS, Operation::AND, 4)
    } else if opcode == 0x2E {
        Instr(0x2E, AddrMode::ABS, Operation::ROL, 6)
    } else if opcode == 0x2F {
        Instr(0x2F, AddrMode::ABS, Operation::RLA, 6)
    } else if opcode == 0x30 {
        Instr(0x30, AddrMode::REL, Operation::BMI, 2)
    } else if opcode == 0x31 {
        Instr(0x31, AddrMode::IDY, Operation::AND, 5)
    } else if opcode == 0x32 {
        Instr(0x32, AddrMode::IMP, Operation::XXX, 2)
    } else if opcode == 0x33 {
        Instr(0x33, AddrMode::IDY, Operation::RLA, 8)
    } else if opcode == 0x34 {
        Instr(0x34, AddrMode::ZPX, Operation::NOP, 4)
    } else if opcode == 0x35 {
        Instr(0x35, AddrMode::ZPX, Operation::AND, 4)
    } else if opcode == 0x36 {
        Instr(0x36, AddrMode::ZPX, Operation::ROL, 6)
    } else if opcode == 0x37 {
        Instr(0x37, AddrMode::ZPX, Operation::RLA, 6)
    } else if opcode == 0x38 {
        Instr(0x38, AddrMode::IMP, Operation::SEC, 2)
    } else if opcode == 0x39 {
        Instr(0x39, AddrMode::ABY, Operation::AND, 4)
    } else if opcode == 0x3A {
        Instr(0x3A, AddrMode::IMP, Operation::NOP, 2)
    } else if opcode == 0x3B {
        Instr(0x3B, AddrMode::ABY, Operation::RLA, 7)
    } else if opcode == 0x3C {
        Instr(0x3C, AddrMode::ABX, Operation::IGN, 4)
    } else if opcode == 0x3D {
        Instr(0x3D, AddrMode::ABX, Operation::AND, 4)
    } else if opcode == 0x3E {
        Instr(0x3E, AddrMode::ABX, Operation::ROL, 7)
    } else if opcode == 0x3F {
        Instr(0x3F, AddrMode::ABX, Operation::RLA, 7)
    } else if opcode == 0x40 {
        Instr(0x40, AddrMode::IMP, Operation::RTI, 6)
    } else if opcode == 0x41 {
        Instr(0x41, AddrMode::IDX, Operation::EOR, 6)
    } else if opcode == 0x42 {
        Instr(0x42, AddrMode::IMP, Operation::XXX, 2)
    } else if opcode == 0x43 {
        Instr(0x43, AddrMode::IDX, Operation::SRE, 8)
    } else if opcode == 0x44 {
        Instr(0x44, AddrMode::ZP0, Operation::NOP, 3)
    } else if opcode == 0x45 {
        Instr(0x45, AddrMode::ZP0, Operation::EOR, 3)
    } else if opcode == 0x46 {
        Instr(0x46, AddrMode::ZP0, Operation::LSR, 5)
    } else if opcode == 0x47 {
        Instr(0x47, AddrMode::ZP0, Operation::SRE, 5)
    } else if opcode == 0x48 {
        Instr(0x48, AddrMode::IMP, Operation::PHA, 3)
    } else if opcode == 0x49 {
        Instr(0x49, AddrMode::IMM, Operation::EOR, 2)
    } else if opcode == 0x4A {
        Instr(0x4A, AddrMode::ACC, Operation::LSR, 2)
    } else if opcode == 0x4B {
        Instr(0x4B, AddrMode::IMM, Operation::ALR, 2)
    } else if opcode == 0x4C {
        Instr(0x4C, AddrMode::ABS, Operation::JMP, 3)
    } else if opcode == 0x4D {
        Instr(0x4D, AddrMode::ABS, Operation::EOR, 4)
    } else if opcode == 0x4E {
        Instr(0x4E, AddrMode::ABS, Operation::LSR, 6)
    } else if opcode == 0x4F {
        Instr(0x4F, AddrMode::ABS, Operation::SRE, 6)
    } else if opcode == 0x50 {
        Instr(0x50, AddrMode::REL, Operation::BVC, 2)
    } else if opcode == 0x51 {
        Instr(0x51, AddrMode::IDY, Operation::EOR, 5)
    } else if opcode == 0x52 {
        Instr(0x52, AddrMode::IMP, Operation::XXX, 2)
    } else if opcode == 0x53 {
        Instr(0x53, AddrMode::IDY, Operation::SRE, 8)
    } else if opcode == 0x54 {
        Instr(0x54, AddrMode::ZPX, Operation::NOP, 4)
    } else if opcode == 0x55 {
        Instr(0x55, AddrMode::ZPX, Operation::EOR, 4)
    } else if opcode == 0x56 {
        Instr(0x56, AddrMode::ZPX, Operation::LSR, 6)
    } else if opcode == 0x57 {
        Instr(0x57, AddrMode::ZPX, Operation::SRE, 6)
    } else if opcode == 0x58 {
        Instr(0x58, AddrMode::IMP, Operation::CLI, 2)
    } else if opcode == 0x59 {
        Instr(0x59, AddrMode::ABY, Operation::EOR, 4)
    } else if opcode == 0x5A {
        Instr(0x5A, AddrMode::IMP, Operation::NOP, 2)
    } else if opcode == 0x5B {
        Instr(0x5B, AddrMode::ABY, Operation::SRE, 7)
    } else if opcode == 0x5C {
        Instr(0x5C, AddrMode::ABX, Operation::IGN, 4)
    } else if opcode == 0x5D {
        Instr(0x5D, AddrMode::ABX, Operation::EOR, 4)
    } else if opcode == 0x5E {
        Instr(0x5E, AddrMode::ABX, Operation::LSR, 7)
    } else if opcode == 0x5F {
        Instr(0x5F, AddrMode::ABX, Operation::SRE, 7)
    } else if opcode == 0x60 {
        Instr(0x60, AddrMode::IMP, Operation::RTS, 6)
    } else if opcode == 0x61 {
        Instr(0x61, AddrMode::IDX, Operation::ADC, 6)
    } else if opcode == 0x62 {
        Instr(0x62, AddrMode::IMP, Operation::XXX, 2)
    } else if opcode == 0x63 {
        Instr(0x63, AddrMode::IDX, Operation::RRA, 8)
    } else if opcode == 0x64 {
        Instr(0x64, AddrMode::ZP0, Operation::NOP, 3)
    } else if opcode == 0x65 {
        Instr(0x65, AddrMode::ZP0, Operation::ADC, 3)
    } else if opcode == 0x66 {
        Instr(0x66, AddrMode::ZP0, Operation::ROR, 5)
    } else if opcode == 0x67 {
        Instr(0x67, AddrMode::ZP0, Operation::RRA, 5)
    } else if opcode == 0x68 {
        Instr(0x68, AddrMode::IMP, Operation::PLA, 4)
    } else if opcode == 0x69 {
        Instr(0x69, AddrMode::IMM, Operation::ADC, 2)
    } else if opcode == 0x6A {
        Instr(0x6A, AddrMode::ACC, Operation::ROR, 2)
    } else if opcode == 0x6B {
        Instr(0x6B, AddrMode::IMM, Operation::ARR, 2)
    } else if opcode == 0x6C {
        Instr(0x6C, AddrMode::IND, Operation::JMP, 5)
    } else if opcode == 0x6D {
        Instr(0x6D, AddrMode::ABS, Operation::ADC, 4)
    } else if opcode == 0x6E {
        Instr(0x6E, AddrMode::ABS, Operation::ROR, 6)
    } else if opcode == 0x6F {
        Instr(0x6F, AddrMode::ABS, Operation::RRA, 6)
    } else if opcode == 0x70 {
        Instr(0x70, AddrMode::REL, Operation::BVS, 2)
    } else if opcode == 0x71 {
        Instr(0x71, AddrMode::IDY, Operation::ADC, 5)
    } else if opcode == 0x72 {
        Instr(0x72, AddrMode::IMP, Operation::XXX, 2)
    } else if opcode == 0x73 {
        Instr(0x73, AddrMode::IDY, Operation::RRA, 8)
    } else if opcode == 0x74 {
        Instr(0x74, AddrMode::ZPX, Operation::NOP, 4)
    } else if opcode == 0x75 {
        Instr(0x75, AddrMode::ZPX, Operation::ADC, 4)
    } else if opcode == 0x76 {
        Instr(0x76, AddrMode::ZPX, Operation::ROR, 6)
    } else if opcode == 0x77 {
        Instr(0x77, AddrMode::ZPX, Operation::RRA, 6)
    } else if opcode == 0x78 {
        Instr(0x78, AddrMode::IMP, Operation::SEI, 2)
    } else if opcode == 0x79 {
        Instr(0x79, AddrMode::ABY, Operation::ADC, 4)
    } else if opcode == 0x7A {
        Instr(0x7A, AddrMode::IMP, Operation::NOP, 2)
    } else if opcode == 0x7B {
        Instr(0x7B, AddrMode::ABY, Operation::RRA, 7)
    } else if opcode == 0x7C {
        Instr(0x7C, AddrMode::ABX, Operation::IGN, 4)
    } else if opcode == 0x7D {
        Instr(0x7D, AddrMode::ABX, Operation::ADC, 4)
    } else if opcode == 0x7E {
        Instr(0x7E, AddrMode::ABX, Operation::ROR, 7)
    } else if opcode == 0x7F {
        Instr(0x7F, AddrMode::ABX, Operation::RRA, 7)
    } else if opcode == 0x80 {
        Instr(0x80, AddrMode::IMM, Operation::SKB, 2)
    } else if opcode == 0x81 {
        Instr(0x81, AddrMode::IDX, Operation::STA, 6)
    } else if opcode == 0x82 {
        Instr(0x82, AddrMode::IMM, Operation::SKB, 2)
    } else if opcode == 0x83 {
        Instr(0x83, AddrMode::IDX, Operation::SAX, 6)
    } else if opcode == 0x84 {
        Instr(0x84, AddrMode::ZP0, Operation::STY, 3)
    } else if opcode == 0x85 {
        Instr(0x85, AddrMode::ZP0, Operation::STA, 3)
    } else if opcode == 0x86 {
        Instr(0x86, AddrMode::ZP0, Operation::STX, 3)
    } else if opcode == 0x87 {
        Instr(0x87, AddrMode::ZP0, Operation::SAX, 3)
    } else if opcode == 0x88 {
        Instr(0x88, AddrMode::IMP, Operation::DEY, 2)
    } else if opcode == 0x89 {
        Instr(0x89, AddrMode::IMM, Operation::SKB, 2)
    } else if opcode == 0x8A {
        Instr(0x8A, AddrMode::IMP, Operation::TXA, 2)
    } else if opcode == 0x8B {
        Instr(0x8B, AddrMode::IMM, Operation::XAA, 2)
    } else if opcode == 0x8C {
        Instr(0x8C, AddrMode::ABS, Operation::STY, 4)
    } else if opcode == 0x8D {
        Instr(0x8D, AddrMode::ABS, Operation::STA, 4)
    } else if opcode == 0x8E {
        Instr(0x8E, AddrMode::ABS, Operation::STX, 4)
    } else if opcode == 0x8F {
        Instr(0x8F, AddrMode::ABS, Operation::SAX, 4)
    } else if opcode == 0x90 {
        Instr(0x90, AddrMode::REL, Operation::BCC, 2)
    } else if opcode == 0x91 {
        Instr(0x91, AddrMode::IDY, Operation::STA, 6)
    } else if opcode == 0x92 {
        Instr(0x92, AddrMode::IMP, Operation::XXX, 2)
    } else if opcode == 0x93 {
        Instr(0x93, AddrMode::IDY, Operation::AHX, 6)
    } else if opcode == 0x94 {
        Instr(0x94, AddrMode::ZPX, Operation::STY, 4)
    } else if opcode == 0x95 {
        Instr(0x95, AddrMode::ZPX, Operation::STA, 4)
    } else if opcode == 0x96 {
        Instr(0x96, AddrMode::ZPY, Operation::STX, 4)
    } else if opcode == 0x97 {
        Instr(0x97, AddrMode::ZPY, Operation::SAX, 4)
    } else if opcode == 0x98 {
        Instr(0x98, AddrMode::IMP, Operation::TYA, 2)
    } else if opcode == 0x99 {
        Instr(0x99, AddrMode::ABY, Operation::STA, 5)
    } else if opcode == 0x9A {
        Instr(0x9A, AddrMode::IMP, Operation::TXS, 2)
    } else if opcode == 0x9B {
        Instr(0x9B, AddrMode::ABY, Operation::TAS, 5)
    } else if opcode == 0x9C {
        Instr(0x9C, AddrMode::ABX, Operation::SYA, 5)
    } else if opcode == 0x9D {
        Instr(0x9D, AddrMode::ABX, Operation::STA, 5)
    } else if opcode == 0x9E {
        Instr(0x9E, AddrMode::ABY, Operation::SXA, 5)
    } else if opcode == 0x9F {
        Instr(0x9F, AddrMode::ABY, Operation::AHX, 5)
    } else if opcode == 0xA0 {
        Instr(0xA0, AddrMode::IMM, Operation::LDY, 2)
    } else if opcode == 0xA1 {
        Instr(0xA1, AddrMode::IDX, Operation::LDA, 6)
    } else if opcode == 0xA2 {
        Instr(0xA2, AddrMode::IMM, Operation::LDX, 2)
    } else if opcode == 0xA3 {
        Instr(0xA3, AddrMode::IDX, Operation::LAX, 6)
    } else if opcode == 0xA4 {
        Instr(0xA4, AddrMode::ZP0, Operation::LDY, 3)
    } else if opcode == 0xA5 {
        Instr(0xA5, AddrMode::ZP0, Operation::LDA, 3)
    } else if opcode == 0xA6 {
        Instr(0xA6, AddrMode::ZP0, Operation::LDX, 3)
    } else if opcode == 0xA7 {
        Instr(0xA7, AddrMode::ZP0, Operation::LAX, 3)
    } else if opcode == 0xA8 {
        Instr(0xA8, AddrMode::IMP, Operation::TAY, 2)
    } else if opcode == 0xA9 {
        Instr(0xA9, AddrMode::IMM, Operation::LDA, 2)
    } else if opcode == 0xAA {
        Instr(0xAA, AddrMode::IMP, Operation::TAX, 2)
    } else if opcode == 0xAB {
        Instr(0xAB, AddrMode::IMM, Operation::LAX, 2)
    } else if opcode == 0xAC {
        Instr(0xAC, AddrMode::ABS, Operation::LDY, 4)
    } else if opcode == 0xAD {
        Instr(0xAD, AddrMode::ABS, Operation::LDA, 4)
    } else if opcode == 0xAE {
        Instr(0xAE, AddrMode::ABS, Operation::LDX, 4)
    } else if opcode == 0xAF {
        Instr(0xAF, AddrMode::ABS, Operation::LAX, 4)
    } else if opcode == 0xB0 {
        Instr(0xB0, AddrMode::REL, Operation::BCS, 2)
    } else if opcode == 0xB1 {
        Instr(0xB1, AddrMode::IDY, Operation::LDA, 5)
    } else if opcode == 0xB2 {
        Instr(0xB2, AddrMode::IMP, Operation::XXX, 2)
    } else if opcode == 0xB3 {
        Instr(0xB3, AddrMode::IDY, Operation::LAX, 5)
    } else if opcode == 0xB4 {
        Instr(0xB4, AddrMode::ZPX, Operation::LDY, 4)
    } else if opcode == 0xB5 {
        Instr(0xB5, AddrMode::ZPX, Operation::LDA, 4)
    } else if opcode == 0xB6 {
        Instr(0xB6, AddrMode::ZPY, Operation::LDX, 4)
    } else if opcode == 0xB7 {
        Instr(0xB7, AddrMode::ZPY, Operation::LAX, 4)
    } else if opcode == 0xB8 {
        Instr(0xB8, AddrMode::IMP, Operation::CLV, 2)
    } else if opcode == 0xB9 {
        Instr(0xB9, AddrMode::ABY, Operation::LDA, 4)
    } else if opcode == 0xBA {
        Instr(0xBA, AddrMode::IMP, Operation::TSX, 2)
    } else if opcode == 0xBB {
        Instr(0xBB, AddrMode::ABY, Operation::LAS, 4)
    } else if opcode == 0xBC {
        Instr(0xBC, AddrMode::ABX, Operation::LDY, 4)
    } else if opcode == 0xBD {
        Instr(0xBD, AddrMode::ABX, Operation::LDA, 4)
    } else if opcode == 0xBE {
        Instr(0xBE, AddrMode::ABY, Operation::LDX, 4)
    } else if opcode == 0xBF {
        Instr(0xBF, AddrMode::ABY, Operation::LAX, 4)
    } else if opcode == 0xC0 {
        Instr(0xC0, AddrMode::IMM, Operation::CPY, 2)
    } else if opcode == 0xC1 {
        Instr(0xC1, AddrMode::IDX, Operation::CMP, 6)
    } else if opcode == 0xC2 {
        Instr(0xC2, AddrMode::IMM, Operation::SKB, 2)
    } else if opcode == 0xC3 {
        Instr(0xC3, AddrMode::IDX, Operation::DCP, 8)
    } else if opcode == 0xC4 {
        Instr(0xC4, AddrMode::ZP0, Operation::CPY, 3)
    } else if opcode == 0xC5 {
        Instr(0xC5, AddrMode::ZP0, Operation::CMP, 3)
    } else if opcode == 0xC6 {
        Instr(0xC6, AddrMode::ZP0, Operation::DEC, 5)
    } else if opcode == 0xC7 {
        Instr(0xC7, AddrMode::ZP0, Operation::DCP, 5)
    } else if opcode == 0xC8 {
        Instr(0xC8, AddrMode::IMP, Operation::INY, 2)
    } else if opcode == 0xC9 {
        Instr(0xC9, AddrMode::IMM, Operation::CMP, 2)
    } else if opcode == 0xCA {
        Instr(0xCA, AddrMode::IMP, Operation::DEX, 2)
    } else if opcode == 0xCB {
        Instr(0xCB, AddrMode::IMM, Operation::AXS, 2)
    } else if opcode == 0xCC {
        Instr(0xCC, AddrMode::ABS, Operation::CPY, 4)
    } else if opcode == 0xCD {
        Instr(0xCD, AddrMode::ABS, Operation::CMP, 4)
    } else if opcode == 0xCE {
        Instr(0xCE, AddrMode::ABS, Operation::DEC, 6)
    } else if opcode == 0xCF {
        Instr(0xCF, AddrMode::ABS, Operation::DCP, 6)
    } else if opcode == 0xD0 {
        Instr(0xD0, AddrMode::REL, Operation::BNE, 2)
    } else if opcode == 0xD1 {
        Instr(0xD1, AddrMode::IDY, Operation::CMP, 5)
    } else if opcode == 0xD2 {
        Instr(0xD2, AddrMode::IMP, Operation::XXX, 2)
    } else if opcode == 0xD3 {
        Instr(0xD3, AddrMode::IDY, Operation::DCP, 8)
    } else if opcode == 0xD4 {
        Instr(0xD4, AddrMode::ZPX, Operation::NOP, 4)
    } else if opcode == 0xD5 {
        Instr(0xD5, AddrMode::ZPX, Operation::CMP, 4)
    } else if opcode == 0xD6 {
        Instr(0xD6, AddrMode::ZPX, Operation::DEC, 6)
    } else if opcode == 0xD7 {
        Instr(0xD7, AddrMode::ZPX, Operation::DCP, 6)
    } else if opcode == 0xD8 {
        Instr(0xD8, AddrMode::IMP, Operation::CLD, 2)
    } else if opcode == 0xD9 {
        Instr(0xD9, AddrMode::ABY, Operation::CMP, 4)
    } else if opcode == 0xDA {
        Instr(0xDA, AddrMode::IMP, Operation::NOP, 2)
    } else if opcode == 0xDB {
        Instr(0xDB, AddrMode::ABY, Operation::DCP, 7)
    } else if opcode == 0xDC {
        Instr(0xDC, AddrMode::ABX, Operation::IGN, 4)
    } else if opcode == 0xDD {
        Instr(0xDD, AddrMode::ABX, Operation::CMP, 4)
    } else if opcode == 0xDE {
        Instr(0xDE, AddrMode::ABX, Operation::DEC, 7)
    } else if opcode == 0xDF {
        Instr(0xDF, AddrMode::ABX, Operation::DCP, 7)
    } else if opcode == 0xE0 {
        Instr(0xE0, AddrMode::IMM, Operation::CPX, 2)
    } else if opcode == 0xE1 {
        Instr(0xE1, AddrMode::IDX, Operation::SBC, 6)
    } else if opcode == 0xE2 {
        Instr(0xE2, AddrMode::IMM, Operation::SKB, 2)
    } else if opcode == 0xE3 {
        Instr(0xE3, AddrMode::IDX, Operation::ISB, 8)
    } else if opcode == 0xE4 {
        Instr(0xE4, AddrMode::ZP0, Operation::CPX, 3)
    } else if opcode == 0xE5 {
        Instr(0xE5, AddrMode::ZP0, Operation::SBC, 3)
    } else if opcode == 0xE6 {
        Instr(0xE6, AddrMode::ZP0, Operation::INC, 5)
    } else if opcode == 0xE7 {
        Instr(0xE7, AddrMode::ZP0, Operation::ISB, 5)
    } else if opcode == 0xE8 {
        Instr(0xE8, AddrMode::IMP, Operation::INX, 2)
    } else if opcode == 0xE9 {
        Instr(0xE9, AddrMode::IMM, Operation::SBC, 2)
    } else if opcode == 0xEA {
        Instr(0xEA, AddrMode::IMP, Operation::NOP, 2)
    } else if opcode == 0xEB {
        Instr(0xEB, AddrMode::IMM, Operation::SBC, 2)
    } else if opcode == 0xEC {
        Instr(0xEC, AddrMode::ABS, Operation::CPX, 4)
    } else if opcode == 0xED {
        Instr(0xED, AddrMode::ABS, Operation::SBC, 4)
    } else if opcode == 0xEE {
        Instr(0xEE, AddrMode::ABS, Operation::INC, 6)
    } else if opcode == 0xEF {
        Instr(0xEF, AddrMode::ABS, Operation::ISB, 6)
    } else if opcode == 0xF0 {
        Instr(0xF0, AddrMode::REL, Operation::BEQ, 2)
    } else if opcode == 0xF1 {
        Instr(0xF1, AddrMode::IDY, Operation::SBC, 5)
    } else if opcode == 0xF2 {
        Instr(0xF2, AddrMode::IMP, Operation::XXX, 2)
    } else if opcode == 0xF3 {
        Instr(0xF3, AddrMode::IDY, Operation::ISB, 8)
    } else if opcode == 0xF4 {
        Instr(0xF4, AddrMode::ZPX, Operation::NOP, 4)
    } else if opcode == 0xF5 {
        Instr(0xF5, AddrMode::ZPX, Operation::SBC, 4)
    } else if opcode == 0xF6 {
        Instr(0xF6, AddrMode::ZPX, Operation::INC, 6)
    } else if opcode == 0xF7 {
        Instr(0xF7, AddrMode::ZPX, Operation::ISB, 6)
    } else if opcode == 0xF8 {
        Instr(0xF8, AddrMode::IMP, Operation::SED, 2)
    } else if opcode == 0xF9 {
        Instr(0xF9, AddrMode::ABY, Operation::SBC, 4)
    } else if opcode == 0xFA {
        Instr(0xFA, AddrMode::IMP, Operation::NOP, 2)
    } else if opcode == 0xFB {
        Instr(0xFB, AddrMode::ABY, Operation::ISB, 7)
    } else if opcode == 0xFC {
        Instr(0xFC, AddrMode::ABX, Operation::IGN, 4)
    } else if opcode == 0xFD {
        Instr(0xFD, AddrMode::ABX, Operation::SBC, 4)
    } else if opcode == 0xFE {
        Instr(0xFE, AddrMode::ABX, Operation::INC, 7)
    } else {
        Instr(0xFF, AddrMode::ABX, Operation::ISB, 7)
    }
}

/// One row of the opcode table: opcode, addressing mode, operation, base
/// cycle count.
#[derive(Copy, Clone, Debug)]
pub struct Instr(pub u8, pub AddrMode, pub Operation, pub usize);

impl Instr {
    pub fn opcode(&self) -> (r: u8)
        ensures
            r == self.0,
    {
        self.0
    }

    pub fn addr_mode(&self) -> (r: AddrMode)
        ensures
            r == self.1,
    {
        self.1
    }

    pub fn op(&self) -> (r: Operation)
        ensures
            r == self.2,
    {
        self.2
    }

    pub fn cycles(&self) -> (r: usize)
        ensures
            r == self.3,
    {
        self.3
    }

    /// The table row for an opcode byte. Relative addressing belongs to the
    /// branches alone, and every branch row carries a base cost of two
    /// cycles.
    pub fn lookup(opcode: u8) -> (r: Instr)
        ensures
            r == spec_lookup(opcode),
            r.0 == opcode,
            r.1 == AddrMode::REL <==> spec_is_branch(r.2),
            r.1 == AddrMode::REL ==> r.3 == 2,
    {
        match opcode {
            0x00 => Instr(0x00, AddrMode::IMM, Operation::BRK, 7),
            0x01 => Instr(0x01, AddrMode::IDX, Operation::ORA, 6),
            0x02 => Instr(0x02, AddrMode::IMP, Operation::XXX, 2),
            0x03 => Instr(0x03, AddrMode::IDX, Operation::SLO, 8),
            0x04 => Instr(0x04, AddrMode::ZP0, Operation::NOP, 3),
            0x05 => Instr(0x05, AddrMode::ZP0, Operation::ORA, 3),
            0x06 => Instr(0x06, AddrMode::ZP0, Operation::ASL, 5),
            0x07 => Instr(0x07, AddrMode::ZP0, Operation::SLO, 5),
            0x08 => Instr(0x08, AddrMode::IMP, Operation::PHP, 3),
            0x09 => Instr(0x09, AddrMode::IMM, Operation::ORA, 2),
            0x0A => Instr(0x0A, AddrMode::ACC, Operation::ASL, 2),
            0x0B => Instr(0x0B, AddrMode::IMM, Operation::ANC, 2),
            0x0C => Instr(0x0C, AddrMode::ABS, Operation::NOP, 4),
            0x0D => Instr(0x0D, AddrMode::ABS, Operation::ORA, 4),
            0x0E => Instr(0x0E, AddrMode::ABS, Operation::ASL, 6),
            0x0F => Instr(0x0F, AddrMode::ABS, Operation::SLO, 6),
            0x10 => Instr(0x10, AddrMode::REL, Operation::BPL, 2),
            0x11 => Instr(0x11, AddrMode::IDY, Operation::ORA, 5),
            0x12 => Instr(0x12, AddrMode::IMP, Operation::XXX, 2),
            0x13 => Instr(0x13, AddrMode::IDY, Operation::SLO, 8),
            0x14 => Instr(0x14, AddrMode::ZPX, Operation::NOP, 4),
            0x15 => Instr(0x15, AddrMode::ZPX, Operation::ORA, 4),
            0x16 => Instr(0x16, AddrMode::ZPX, Operation::ASL, 6),
            0x17 => Instr(0x17, AddrMode::ZPX, Operation::SLO, 6),
            0x18 => Instr(0x18, AddrMode::IMP, Operation::CLC, 2),
            0x19 => Instr(0x19, AddrMode::ABY, Operation::ORA, 4),
            0x1A => Instr(0x1A, AddrMode::IMP, Operation::NOP, 2),
            0x1B => Instr(0x1B, AddrMode::ABY, Operation::SLO, 7),
            0x1C => Instr(0x1C, AddrMode::ABX, Operation::IGN, 4),
            0x1D => Instr(0x1D, AddrMode::ABX, Operation::ORA, 4),
            0x1E => Instr(0x1E, AddrMode::ABX, Operation::ASL, 7),
            0x1F => Instr(0x1F, AddrMode::ABX, Operation::SLO, 7),
            0x20 => Instr(0x20, AddrMode::ABS, Operation::JSR, 6),
            0x21 => Instr(0x21, AddrMode::IDX, Operation::AND, 6),
            0x22 => Instr(0x22, AddrMode::IMP, Operation::XXX, 2),
            0x23 => Instr(0x23, AddrMode::IDX, Operation::RLA, 8),
            0x24 => Instr(0x24, AddrMode::ZP0, Operation::BIT, 3),
            0x25 => Instr(0x25, AddrMode::ZP0, Operation::AND, 3),
            0x26 => Instr(0x26, AddrMode::ZP0, Operation::ROL, 5),
            0x27 => Instr(0x27, AddrMode::ZP0, Operation::RLA, 5),
            0x28 => Instr(0x28, AddrMode::IMP, Operation::PLP, 4),
            0x29 => Instr(0x29, AddrMode::IMM, Operation::AND, 2),
            0x2A => Instr(0x2A, AddrMode::ACC, Operation::ROL, 2),
            0x2B => Instr(0x2B, AddrMode::IMM, Operation::ANC, 2),
            0x2C => Instr(0x2C, AddrMode::ABS, Operation::BIT, 4),
            0x2D => Instr(0x2D, AddrMode::ABS, Operation::AND, 4),
            0x2E => Instr(0x2E, AddrMode::ABS, Operation::ROL, 6),
            0x2F => Instr(0x2F, AddrMode::ABS, Operation::RLA, 6),
            0x30 => Instr(0x30, AddrMode::REL, Operation::BMI, 2),
            0x31 => Instr(0x31, AddrMode::IDY, Operation::AND, 5),
            0x32 => Instr(0x32, AddrMode::IMP, Operation::XXX, 2),
            0x33 => Instr(0x33, AddrMode::IDY, Operation::RLA, 8),
            0x34 => Instr(0x34, AddrMode::ZPX, Operation::NOP, 4),
            0x35 => Instr(0x35, AddrMode::ZPX, Operation::AND, 4),
            0x36 => Instr(0x36, AddrMode::ZPX, Operation::ROL, 6),
            0x37 => Instr(0x37, AddrMode::ZPX, Operation::RLA, 6),
            0x38 => Instr(0x38, AddrMode::IMP, Operation::SEC, 2),
            0x39 => Instr(0x39, AddrMode::ABY, Operation::AND, 4),
            0x3A => Instr(0x3A, AddrMode::IMP, Operation::NOP, 2),
            0x3B => Instr(0x3B, AddrMode::ABY, Operation::RLA, 7),
            0x3C => Instr(0x3C, AddrMode::ABX, Operation::IGN, 4),
            0x3D => Instr(0x3D, AddrMode::ABX, Operation::AND, 4),
            0x3E => Instr(0x3E, AddrMode::ABX, Operation::ROL, 7),
            0x3F => Instr(0x3F, AddrMode::ABX, Operation::RLA, 7),
            0x40 => Instr(0x40, AddrMode::IMP, Operation::RTI, 6),
            0x41 => Instr(0x41, AddrMode::IDX, Operation::EOR, 6),
            0x42 => Instr(0x42, AddrMode::IMP, Operation::XXX, 2),
            0x43 => Instr(0x43, AddrMode::IDX, Operation::SRE, 8),
            0x44 => Instr(0x44, AddrMode::ZP0, Operation::NOP, 3),
            0x45 => Instr(0x45, AddrMode::ZP0, Operation::EOR, 3),
            0x46 => Instr(0x46, AddrMode::ZP0, Operation::LSR, 5),
            0x47 => Instr(0x47, AddrMode::ZP0, Operation::SRE, 5),
            0x48 => Instr(0x48, AddrMode::IMP, Operation::PHA, 3),
            0x49 => Instr(0x49, AddrMode::IMM, Operation::EOR, 2),
            0x4A => Instr(0x4A, AddrMode::ACC, Operation::LSR, 2),
            0x4B => Instr(0x4B, AddrMode::IMM, Operation::ALR, 2),
            0x4C => Instr(0x4C, AddrMode::ABS, Operation::JMP, 3),
            0x4D => Instr(0x4D, AddrMode::ABS, Operation::EOR, 4),
            0x4E => Instr(0x4E, AddrMode::ABS, Operation::LSR, 6),
            0x4F => Instr(0x4F, AddrMode::ABS, Operation::SRE, 6),
            0x50 => Instr(0x50, AddrMode::REL, Operation::BVC, 2),
            0x51 => Instr(0x51, AddrMode::IDY, Operation::EOR, 5),
            0x52 => Instr(0x52, AddrMode::IMP, Operation::XXX, 2),
            0x53 => Instr(0x53, AddrMode::IDY, Operation::SRE, 8),
            0x54 => Instr(0x54, AddrMode::ZPX, Operation::NOP, 4),
            0x55 => Instr(0x55, AddrMode::ZPX, Operation::EOR, 4),
            0x56 => Instr(0x56, AddrMode::ZPX, Operation::LSR, 6),
            0x57 => Instr(0x57, AddrMode::ZPX, Operation::SRE, 6),
            0x58 => Instr(0x58, AddrMode::IMP, Operation::CLI, 2),
            0x59 => Instr(0x59, AddrMode::ABY, Operation::EOR, 4),
            0x5A => Instr(0x5A, AddrMode::IMP, Operation::NOP, 2),
            0x5B => Instr(0x5B, AddrMode::ABY, Operation::SRE, 7),
            0x5C => Instr(0x5C, AddrMode::ABX, Operation::IGN, 4),
            0x5D => Instr(0x5D, AddrMode::ABX, Operation::EOR, 4),
            0x5E => Instr(0x5E, AddrMode::ABX, Operation::LSR, 7),
            0x5F => Instr(0x5F, AddrMode::ABX, Operation::SRE, 7),
            0x60 => Instr(0x60, AddrMode::IMP, Operation::RTS, 6),
            0x61 => Instr(0x61, AddrMode::IDX, Operation::ADC, 6),
            0x62 => Instr(0x62, AddrMode::IMP, Operation::XXX, 2),
            0x63 => Instr(0x63, AddrMode::IDX, Operation::RRA, 8),
            0x64 => Instr(0x64, AddrMode::ZP0, Operation::NOP, 3),
            0x65 => Instr(0x65, AddrMode::ZP0, Operation::ADC, 3),
            0x66 => Instr(0x66, AddrMode::ZP0, Operation::ROR, 5),
            0x67 => Instr(0x67, AddrMode::ZP0, Operation::RRA, 5),
            0x68 => Instr(0x68, AddrMode::IMP, Operation::PLA, 4),
            0x69 => Instr(0x69, AddrMode::IMM, Operation::ADC, 2),
            0x6A => Instr(0x6A, AddrMode::ACC, Operation::ROR, 2),
            0x6B => Instr(0x6B, AddrMode::IMM, Operation::ARR, 2),
            0x6C => Instr(0x6C, AddrMode::IND, Operation::JMP, 5),
            0x6D => Instr(0x6D, AddrMode::ABS, Operation::ADC, 4),
            0x6E => Instr(0x6E, AddrMode::ABS, Operation::ROR, 6),
            0x6F => Instr(0x6F, AddrMode::ABS, Operation::RRA, 6),
            0x70 => Instr(0x70, AddrMode::REL, Operation::BVS, 2),
            0x71 => Instr(0x71, AddrMode::IDY, Operation::ADC, 5),
            0x72 => Instr(0x72, AddrMode::IMP, Operation::XXX, 2),
            0x73 => Instr(0x73, AddrMode::IDY, Operation::RRA, 8),
            0x74 => Instr(0x74, AddrMode::ZPX, Operation::NOP, 4),
            0x75 => Instr(0x75, AddrMode::ZPX, Operation::ADC, 4),
            0x76 => Instr(0x76, AddrMode::ZPX, Operation::ROR, 6),
            0x77 => Instr(0x77, AddrMode::ZPX, Operation::RRA, 6),
            0x78 => Instr(0x78, AddrMode::IMP, Operation::SEI, 2),
            0x79 => Instr(0x79, AddrMode::ABY, Operation::ADC, 4),
            0x7A => Instr(0x7A, AddrMode::IMP, Operation::NOP, 2),
            0x7B => Instr(0x7B, AddrMode::ABY, Operation::RRA, 7),
            0x7C => Instr(0x7C, AddrMode::ABX, Operation::IGN, 4),
            0x7D => Instr(0x7D, AddrMode::ABX, Operation::ADC, 4),
            0x7E => Instr(0x7E, AddrMode::ABX, Operation::ROR, 7),
            0x7F => Instr(0x7F, AddrMode::ABX, Operation::RRA, 7),
            0x80 => Instr(0x80, AddrMode::IMM, Operation::SKB, 2),
            0x81 => Instr(0x81, AddrMode::IDX, Operation::STA, 6),
            0x82 => Instr(0x82, AddrMode::IMM, Operation::SKB, 2),
            0x83 => Instr(0x83, AddrMode::IDX, Operation::SAX, 6),
            0x84 => Instr(0x84, AddrMode::ZP0, Operation::STY, 3),
            0x85 => Instr(0x85, AddrMode::ZP0, Operation::STA, 3),
            0x86 => Instr(0x86, AddrMode::ZP0, Operation::STX, 3),
            0x87 => Instr(0x87, AddrMode::ZP0, Operation::SAX, 3),
            0x88 => Instr(0x88, AddrMode::IMP, Operation::DEY, 2),
            0x89 => Instr(0x89, AddrMode::IMM, Operation::SKB, 2),
            0x8A => Instr(0x8A, AddrMode::IMP, Operation::TXA, 2),
            0x8B => Instr(0x8B, AddrMode::IMM, Operation::XAA, 2),
            0x8C => Instr(0x8C, AddrMode::ABS, Operation::STY, 4),
            0x8D => Instr(0x8D, AddrMode::ABS, Operation::STA, 4),
            0x8E => Instr(0x8E, AddrMode::ABS, Operation::STX, 4),
            0x8F => Instr(0x8F, AddrMode::ABS, Operation::SAX, 4),
            0x90 => Instr(0x90, AddrMode::REL, Operation::BCC, 2),
            0x91 => Instr(0x91, AddrMode::IDY, Operation::STA, 6),
            0x92 => Instr(0x92, AddrMode::IMP, Operation::XXX, 2),
            0x93 => Instr(0x93, AddrMode::IDY, Operation::AHX, 6),
            0x94 => Instr(0x94, AddrMode::ZPX, Operation::STY, 4),
            0x95 => Instr(0x95, AddrMode::ZPX, Operation::STA, 4),
            0x96 => Instr(0x96, AddrMode::ZPY, Operation::STX, 4),
            0x97 => Instr(0x97, AddrMode::ZPY, Operation::SAX, 4),
            0x98 => Instr(0x98, AddrMode::IMP, Operation::TYA, 2),
            0x99 => Instr(0x99, AddrMode::ABY, Operation::STA, 5),
            0x9A => Instr(0x9A, AddrMode::IMP, Operation::TXS, 2),
            0x9B => Instr(0x9B, AddrMode::ABY, Operation::TAS, 5),
            0x9C => Instr(0x9C, AddrMode::ABX, Operation::SYA, 5),
            0x9D => Instr(0x9D, AddrMode::ABX, Operation::STA, 5),
            0x9E => Instr(0x9E, AddrMode::ABY, Operation::SXA, 5),
            0x9F => Instr(0x9F, AddrMode::ABY, Operation::AHX, 5),
            0xA0 => Instr(0xA0, AddrMode::IMM, Operation::LDY, 2),
            0xA1 => Instr(0xA1, AddrMode::IDX, Operation::LDA, 6),
            0xA2 => Instr(0xA2, AddrMode::IMM, Operation::LDX, 2),
            0xA3 => Instr(0xA3, AddrMode::IDX, Operation::LAX, 6),
            0xA4 => Instr(0xA4, AddrMode::ZP0, Operation::LDY, 3),
            0xA5 => Instr(0xA5, AddrMode::ZP0, Operation::LDA, 3),
            0xA6 => Instr(0xA6, AddrMode::ZP0, Operation::LDX, 3),
            0xA7 => Instr(0xA7, AddrMode::ZP0, Operation::LAX, 3),
            0xA8 => Instr(0xA8, AddrMode::IMP, Operation::TAY, 2),
            0xA9 => Instr(0xA9, AddrMode::IMM, Operation::LDA, 2),
            0xAA => Instr(0xAA, AddrMode::IMP, Operation::TAX, 2),
            0xAB => Instr(0xAB, AddrMode::IMM, Operation::LAX, 2),
            0xAC => Instr(0xAC, AddrMode::ABS, Operation::LDY, 4),
            0xAD => Instr(0xAD, AddrMode::ABS, Operation::LDA, 4),
            0xAE => Instr(0xAE, AddrMode::ABS, Operation::LDX, 4),
            0xAF => Instr(0xAF, AddrMode::ABS, Operation::LAX, 4),
            0xB0 => Instr(0xB0, AddrMode::REL, Operation::BCS, 2),
            0xB1 => Instr(0xB1, AddrMode::IDY, Operation::LDA, 5),
            0xB2 => Instr(0xB2, AddrMode::IMP, Operation::XXX, 2),
            0xB3 => Instr(0xB3, AddrMode::IDY, Operation::LAX, 5),
            0xB4 => Instr(0xB4, AddrMode::ZPX, Operation::LDY, 4),
            0xB5 => Instr(0xB5, AddrMode::ZPX, Operation::LDA, 4),
            0xB6 => Instr(0xB6, AddrMode::ZPY, Operation::LDX, 4),
            0xB7 => Instr(0xB7, AddrMode::ZPY, Operation::LAX, 4),
            0xB8 => Instr(0xB8, AddrMode::IMP, Operation::CLV, 2),
            0xB9 => Instr(0xB9, AddrMode::ABY, Operation::LDA, 4),
            0xBA => Instr(0xBA, AddrMode::IMP, Operation::TSX, 2),
            0xBB => Instr(0xBB, AddrMode::ABY, Operation::LAS, 4),
            0xBC => Instr(0xBC, AddrMode::ABX, Operation::LDY, 4),
            0xBD => Instr(0xBD, AddrMode::ABX, Operation::LDA, 4),
            0xBE => Instr(0xBE, AddrMode::ABY, Operation::LDX, 4),
            0xBF => Instr(0xBF, AddrMode::ABY, Operation::LAX, 4),
            0xC0 => Instr(0xC0, AddrMode::IMM, Operation::CPY, 2),
            0xC1 => Instr(0xC1, AddrMode::IDX, Operation::CMP, 6),
            0xC2 => Instr(0xC2, AddrMode::IMM, Operation::SKB, 2),
            0xC3 => Instr(0xC3, AddrMode::IDX, Operation::DCP, 8),
            0xC4 => Instr(0xC4, AddrMode::ZP0, Operation::CPY, 3),
            0xC5 => Instr(0xC5, AddrMode::ZP0, Operation::CMP, 3),
            0xC6 => Instr(0xC6, AddrMode::ZP0, Operation::DEC, 5),
            0xC7 => Instr(0xC7, AddrMode::ZP0, Operation::DCP, 5),
            0xC8 => Instr(0xC8, AddrMode::IMP, Operation::INY, 2),
            0xC9 => Instr(0xC9, AddrMode::IMM, Operation::CMP, 2),
            0xCA => Instr(0xCA, AddrMode::IMP, Operation::DEX, 2),
            0xCB => Instr(0xCB, AddrMode::IMM, Operation::AXS, 2),
            0xCC => Instr(0xCC, AddrMode::ABS, Operation::CPY, 4),
            0xCD => Instr(0xCD, AddrMode::ABS, Operation::CMP, 4),
            0xCE => Instr(0xCE, AddrMode::ABS, Operation::DEC, 6),
            0xCF => Instr(0xCF, AddrMode::ABS, Operation::DCP, 6),
            0xD0 => Instr(0xD0, AddrMode::REL, Operation::BNE, 2),
            0xD1 => Instr(0xD1, AddrMode::IDY, Operation::CMP, 5),
            0xD2 => Instr(0xD2, AddrMode::IMP, Operation::XXX, 2),
            0xD3 => Instr(0xD3, AddrMode::IDY, Operation::DCP, 8),
            0xD4 => Instr(0xD4, AddrMode::ZPX, Operation::NOP, 4),
            0xD5 => Instr(0xD5, AddrMode::ZPX, Operation::CMP, 4),
            0xD6 => Instr(0xD6, AddrMode::ZPX, Operation::DEC, 6),
            0xD7 => Instr(0xD7, AddrMode::ZPX, Operation::DCP, 6),
            0xD8 => Instr(0xD8, AddrMode::IMP, Operation::CLD, 2),
            0xD9 => Instr(0xD9, AddrMode::ABY, Operation::CMP, 4),
            0xDA => Instr(0xDA, AddrMode::IMP, Operation::NOP, 2),
            0xDB => Instr(0xDB, AddrMode::ABY, Operation::DCP, 7),
            0xDC => Instr(0xDC, AddrMode::ABX, Operation::IGN, 4),
            0xDD => Instr(0xDD, AddrMode::ABX, Operation::CMP, 4),
            0xDE => Instr(0xDE, AddrMode::ABX, Operation::DEC, 7),
            0xDF => Instr(0xDF, AddrMode::ABX, Operation::DCP, 7),
            0xE0 => Instr(0xE0, AddrMode::IMM, Operation::CPX, 2),
            0xE1 => Instr(0xE1, AddrMode::IDX, Operation::SBC, 6),
            0xE2 => Instr(0xE2, AddrMode::IMM, Operation::SKB, 2),
            0xE3 => Instr(0xE3, AddrMode::IDX, Operation::ISB, 8),
            0xE4 => Instr(0xE4, AddrMode::ZP0, Operation::CPX, 3),
            0xE5 => Instr(0xE5, AddrMode::ZP0, Operation::SBC, 3),
            0xE6 => Instr(0xE6, AddrMode::ZP0, Operation::INC, 5),
            0xE7 => Instr(0xE7, AddrMode::ZP0, Operation::ISB, 5),
            0xE8 => Instr(0xE8, AddrMode::IMP, Operation::INX, 2),
            0xE9 => Instr(0xE9, AddrMode::IMM, Operation::SBC, 2),
            0xEA => Instr(0xEA, AddrMode::IMP, Operation::NOP, 2),
            0xEB => Instr(0xEB, AddrMode::IMM, Operation::SBC, 2),
            0xEC => Instr(0xEC, AddrMode::ABS, Operation::CPX, 4),
            0xED => Instr(0xED, AddrMode::ABS, Operation::SBC, 4),
            0xEE => Instr(0xEE, AddrMode::ABS, Operation::INC, 6),
            0xEF => Instr(0xEF, AddrMode::ABS, Operation::ISB, 6),
            0xF0 => Instr(0xF0, AddrMode::REL, Operation::BEQ, 2),
            0xF1 => Instr(0xF1, AddrMode::IDY, Operation::SBC, 5),
            0xF2 => Instr(0xF2, AddrMode::IMP, Operation::XXX, 2),
            0xF3 => Instr(0xF3, AddrMode::IDY, Operation::ISB, 8),
            0xF4 => Instr(0xF4, AddrMode::ZPX, Operation::NOP, 4),
            0xF5 => Instr(0xF5, AddrMode::ZPX, Operation::SBC, 4),
            0xF6 => Instr(0xF6, AddrMode::ZPX, Operation::INC, 6),
            0xF7 => Instr(0xF7, AddrMode::ZPX, Operation::ISB, 6),
            0xF8 => Instr(0xF8, AddrMode::IMP, Operation::SED, 2),
            0xF9 => Instr(0xF9, AddrMode::ABY, Operation::SBC, 4),
            0xFA => Instr(0xFA, AddrMode::IMP, Operation::NOP, 2),
            0xFB => Instr(0xFB, AddrMode::ABY, Operation::ISB, 7),
            0xFC => Instr(0xFC, AddrMode::ABX, Operation::IGN, 4),
            0xFD => Instr(0xFD, AddrMode::ABX, Operation::SBC, 4),
            0xFE => Instr(0xFE, AddrMode::ABX, Operation::INC, 7),
            0xFF => Instr(0xFF, AddrMode::ABX, Operation::ISB, 7),
        }
    }
}

use vstd::wrapping::u16_specs;
use vstd::wrapping::u8_specs;
use vstd::wrapping::usize_specs;
use crate::bus::spec_bus_pure;
use crate::bus::spec_bus_read;
use crate::bus::spec_bus_value;
use crate::bus::spec_bus_write;
use crate::cpu::CPU;
use crate::ppu::spec_same_counters;
use crate::cpu::FLAG_B;
use crate::cpu::FLAG_C;
use crate::cpu::FLAG_D;
use crate::cpu::FLAG_I;
use crate::cpu::FLAG_N;
use crate::cpu::FLAG_U;
use crate::cpu::FLAG_V;
use crate::cpu::FLAG_Z;
use crate::cpu::spec_keeps_ub;
use crate::cpu::spec_set_flag;
use crate::cpu::spec_zn;

/// Where a relative branch lands: the offset is sign-extended and added to
/// the program counter with wrap.
pub open spec fn spec_branch_target(pc: u16, rel: u16) -> u16 {
    if rel & 0x0080 == 0x0080 {
        u16_specs::wrapping_add(pc, rel | 0xFF00)
    } else {
        u16_specs::wrapping_add(pc, rel)
    }
}

/// Whether a branch operation fires under a given status byte.
pub open spec fn spec_branch_taken(op: Operation, p: u8) -> bool {
    if op == Operation::BCS {
        p & FLAG_C != 0
    } else if op == Operation::BCC {
        p & FLAG_C == 0
    } else if op == Operation::BEQ {
        p & FLAG_Z != 0
    } else if op == Operation::BNE {
        p & FLAG_Z == 0
    } else if op == Operation::BMI {
        p & FLAG_N != 0
    } else if op == Operation::BPL {
        p & FLAG_N == 0
    } else if op == Operation::BVS {
        p & FLAG_V != 0
    } else if op == Operation::BVC {
        p & FLAG_V == 0
    } else {
        false
    }
}

/// What a taken branch does: one dummy read, a second on a page cross, and
/// the jump itself.
pub open spec fn spec_branch_effect(pre: &CPU, post: &CPU) -> bool {
    &&& *post == (CPU {
        pc: post.pc,
        abs_addr: post.abs_addr,
        clock_count: post.clock_count,
        bus: post.bus,
        ..*pre
    })
    &&& post.abs_addr == spec_branch_target(pre.pc, pre.rel_addr)
    &&& post.pc == post.abs_addr
    &&& post.clock_count == usize_specs::wrapping_add(
        pre.clock_count,
        (if (spec_branch_target(pre.pc, pre.rel_addr) & 0xFF00) == (pre.pc & 0xFF00) {
            1usize
        } else {
            2usize
        }),
    )
}

/// The branch timing law: a taken branch whose target sits in the same
/// page as the instruction that follows it costs one extra cycle, and one
/// whose target sits in another page costs two. Every branch row of the
/// opcode table carries a base cost of two, so a taken branch costs three
/// cycles to the same page and four across a page boundary.
pub proof fn lemma_branch_cycle_cost(pre: &CPU, post: &CPU)
    requires
        spec_branch_effect(pre, post),
    ensures
        (spec_branch_target(pre.pc, pre.rel_addr) & 0xFF00) == (pre.pc & 0xFF00)
            ==> post.clock_count == usize_specs::wrapping_add(pre.clock_count, 1),
        (spec_branch_target(pre.pc, pre.rel_addr) & 0xFF00) != (pre.pc & 0xFF00)
            ==> post.clock_count == usize_specs::wrapping_add(pre.clock_count, 2),
{
}

impl CPU {
    //
    // addressing modes
    //

    /// Implied: the operand is the accumulator; one dummy read at PC.
    pub fn imp(&mut self)
        requires
            old(self).wf(),
        ensures
            final(self).wf(),
            spec_same_counters(&final(self).bus.ppu, &old(self).bus.ppu),
            old(self).bus.ppu.nmi ==> final(self).bus.ppu.nmi,
            *final(self) == (CPU {
                clock_count: final(self).clock_count,
                bus: final(self).bus,
                ..*old(self)
            }),
            final(self).clock_count == usize_specs::wrapping_add(old(self).clock_count, 1),
    {
        let _ = self.read(self.pc);
    }

    /// Absolute: a two-byte operand names the address.
    pub fn abs(&mut self)
        requires
            old(self).wf(),
        ensures
            final(self).wf(),
            spec_same_counters(&final(self).bus.ppu, &old(self).bus.ppu),
            old(self).bus.ppu.nmi ==> final(self).bus.ppu.nmi,
            *final(self) == (CPU {
                abs_addr: final(self).abs_addr,
                pc: final(self).pc,
                clock_count: final(self).clock_count,
                bus: final(self).bus,
                ..*old(self)
            }),
            final(self).pc == u16_specs::wrapping_add(old(self).pc, 2),
            final(self).clock_count == usize_specs::wrapping_add(old(self).clock_count, 2),
            spec_bus_pure(old(self).pc) && spec_bus_pure(
                u16_specs::wrapping_add(old(self).pc, 1),
            ) ==> final(self).bus == old(self).bus && final(self).abs_addr == ((
            spec_bus_value(&old(self).bus, old(self).pc) as u16) | ((spec_bus_value(
                &old(self).bus,
                u16_specs::wrapping_add(old(self).pc, 1),
            ) as u16) << 8)),
    {
        self.abs_addr = self.read_instr_u16();
    }

    /// Immediate: the operand is the byte at PC itself.
    pub fn imm(&mut self)
        ensures
            *final(self) == (CPU {
                abs_addr: old(self).pc,
                pc: u16_specs::wrapping_add(old(self).pc, 1),
                ..*old(self)
            }),
    {
        self.abs_addr = self.pc;
        self.pc = self.pc.wrapping_add(1);
    }

    /// Relative: a one-byte signed offset for the branches.
    pub fn rel(&mut self)
        requires
            old(self).wf(),
        ensures
            final(self).wf(),
            spec_same_counters(&final(self).bus.ppu, &old(self).bus.ppu),
            old(self).bus.ppu.nmi ==> final(self).bus.ppu.nmi,
            *final(self) == (CPU {
                rel_addr: final(self).rel_addr,
                pc: final(self).pc,
                clock_count: final(self).clock_count,
                bus: final(self).bus,
                ..*old(self)
            }),
            final(self).pc == u16_specs::wrapping_add(old(self).pc, 1),
            final(self).clock_count == usize_specs::wrapping_add(old(self).clock_count, 1),
            final(self).rel_addr <= 0xFF,
            spec_bus_read(
                &old(self).bus,
                &final(self).bus,
                old(self).pc,
                false,
                final(self).rel_addr as u8,
            ),
    {
        let b = self.read_instr();
        self.rel_addr = b as u16;
    }

    /// Zero page: a one-byte operand names an address in page 0.
    pub fn zp0(&mut self)
        requires
            old(self).wf(),
        ensures
            final(self).wf(),
            spec_same_counters(&final(self).bus.ppu, &old(self).bus.ppu),
            old(self).bus.ppu.nmi ==> final(self).bus.ppu.nmi,
            *final(self) == (CPU {
                abs_addr: final(self).abs_addr,
                pc: final(self).pc,
                clock_count: final(self).clock_count,
                bus: final(self).bus,
                ..*old(self)
            }),
            final(self).pc == u16_specs::wrapping_add(old(self).pc, 1),
            final(self).clock_count == usize_specs::wrapping_add(old(self).clock_count, 1),
            final(self).abs_addr <= 0xFF,
            spec_bus_read(
                &old(self).bus,
                &final(self).bus,
                old(self).pc,
                false,
                final(self).abs_addr as u8,
            ),
    {
        let b = self.read_instr();
        self.abs_addr = b as u16;
    }

    /// Accumulator: like implied, one dummy read at PC.
    pub fn acc(&mut self)
        requires
            old(self).wf(),
        ensures
            final(self).wf(),
            spec_same_counters(&final(self).bus.ppu, &old(self).bus.ppu),
            old(self).bus.ppu.nmi ==> final(self).bus.ppu.nmi,
            *final(self) == (CPU {
                clock_count: final(self).clock_count,
                bus: final(self).bus,
                ..*old(self)
            }),
            final(self).clock_count == usize_specs::wrapping_add(old(self).clock_count, 1),
    {
        let _ = self.read(self.pc);
    }

    /// Indexed indirect: a zero-page pointer offset by X names the address.
    pub fn idx(&mut self)
        requires
            old(self).wf(),
        ensures
            final(self).wf(),
            spec_same_counters(&final(self).bus.ppu, &old(self).bus.ppu),
            old(self).bus.ppu.nmi ==> final(self).bus.ppu.nmi,
            *final(self) == (CPU {
                abs_addr: final(self).abs_addr,
                pc: final(self).pc,
                clock_count: final(self).clock_count,
                bus: final(self).bus,
                ..*old(self)
            }),
            final(self).pc == u16_specs::wrapping_add(old(self).pc, 1),
            final(self).clock_count == usize_specs::wrapping_add(old(self).clock_count, 4),
            spec_bus_pure(old(self).pc) ==> final(self).bus == old(self).bus && final(self).abs_addr == ((spec_bus_value(
                &old(self).bus,
                u8_specs::wrapping_add(
                    spec_bus_value(&old(self).bus, old(self).pc),
                    old(self).x,
                ) as u16,
            ) as u16) | ((spec_bus_value(
                &old(self).bus,
                u8_specs::wrapping_add(
                    u8_specs::wrapping_add(
                        spec_bus_value(&old(self).bus, old(self).pc),
                        old(self).x,
                    ),
                    1,
                ) as u16,
            ) as u16) << 8)),
    {
        let addr = self.read_instr();
        let _ = self.read(addr as u16);
        let addr = addr.wrapping_add(self.x);
        self.abs_addr = self.read_zp_u16(addr);
    }

    /// Indirect indexed: a zero-page pointer, then Y added with a dummy
    /// read at the un-carried address.
    pub fn idy(&mut self)
        requires
            old(self).wf(),
        ensures
            final(self).wf(),
            spec_same_counters(&final(self).bus.ppu, &old(self).bus.ppu),
            old(self).bus.ppu.nmi ==> final(self).bus.ppu.nmi,
            *final(self) == (CPU {
                abs_addr: final(self).abs_addr,
                fetched_data: final(self).fetched_data,
                pc: final(self).pc,
                clock_count: final(self).clock_count,
                bus: final(self).bus,
                ..*old(self)
            }),
            final(self).pc == u16_specs::wrapping_add(old(self).pc, 1),
            final(self).clock_count == usize_specs::wrapping_add(old(self).clock_count, 4),
            spec_bus_pure(old(self).pc) ==> {
                let ptr = spec_bus_value(&old(self).bus, old(self).pc);
                let base = ((spec_bus_value(&old(self).bus, ptr as u16) as u16) | ((
                spec_bus_value(
                    &old(self).bus,
                    u8_specs::wrapping_add(ptr, 1) as u16,
                ) as u16) << 8));
                let eff = u16_specs::wrapping_add(base, old(self).y as u16);
                &&& final(self).abs_addr == eff
                &&& (spec_bus_pure((base & 0xFF00) | (eff & 0x00FF)) ==> final(self).bus
                    == old(self).bus && final(self).fetched_data == spec_bus_value(
                    &old(self).bus,
                    (base & 0xFF00) | (eff & 0x00FF),
                ))
            },
    {
        let ptr = self.read_instr();
        let addr = self.read_zp_u16(ptr);
        self.abs_addr = addr.wrapping_add(self.y as u16);
        self.fetched_data = self.read((addr & 0xFF00) | (self.abs_addr & 0x00FF));
    }

    /// Indirect: a two-byte pointer, with the documented page-wrap bug when
    /// the pointer sits at the end of a page.
    pub fn ind(&mut self)
        requires
            old(self).wf(),
        ensures
            final(self).wf(),
            spec_same_counters(&final(self).bus.ppu, &old(self).bus.ppu),
            old(self).bus.ppu.nmi ==> final(self).bus.ppu.nmi,
            *final(self) == (CPU {
                abs_addr: final(self).abs_addr,
                pc: final(self).pc,
                clock_count: final(self).clock_count,
                bus: final(self).bus,
                ..*old(self)
            }),
            final(self).pc == u16_specs::wrapping_add(old(self).pc, 2),
            final(self).clock_count == usize_specs::wrapping_add(old(self).clock_count, 4),
            ({
                let p0 = old(self).pc;
                let p1 = u16_specs::wrapping_add(old(self).pc, 1);
                spec_bus_pure(p0) && spec_bus_pure(p1) ==> {
                    let ptr = ((spec_bus_value(&old(self).bus, p0) as u16) | ((
                    spec_bus_value(&old(self).bus, p1) as u16) << 8));
                    let hi_addr = if ptr & 0xFF == 0xFF {
                        ptr & 0xFF00
                    } else {
                        u16_specs::wrapping_add(ptr, 1)
                    };
                    spec_bus_pure(ptr) && spec_bus_pure(hi_addr) ==> final(self).bus
                        == old(self).bus && final(self).abs_addr == ((spec_bus_value(
                        &old(self).bus,
                        ptr,
                    ) as u16) | ((spec_bus_value(&old(self).bus, hi_addr) as u16) << 8))
                }
            }),
    {
        let addr = self.read_instr_u16();
        if addr & 0xFF == 0xFF {
            // the documented 6502 bug: the high byte wraps within the page
            let lo = self.read(addr);
            let hi = self.read(addr & 0xFF00);
            self.abs_addr = (lo as u16) | ((hi as u16) << 8);
        } else {
            self.abs_addr = self.read_u16(addr);
        }
    }

    /// Absolute indexed by X, with a dummy read at the un-carried address.
    pub fn abx(&mut self)
        requires
            old(self).wf(),
        ensures
            final(self).wf(),
            spec_same_counters(&final(self).bus.ppu, &old(self).bus.ppu),
            old(self).bus.ppu.nmi ==> final(self).bus.ppu.nmi,
            *final(self) == (CPU {
                abs_addr: final(self).abs_addr,
                fetched_data: final(self).fetched_data,
                pc: final(self).pc,
                clock_count: final(self).clock_count,
                bus: final(self).bus,
                ..*old(self)
            }),
            final(self).pc == u16_specs::wrapping_add(old(self).pc, 2),
            final(self).clock_count == usize_specs::wrapping_add(old(self).clock_count, 3),
            spec_bus_pure(old(self).pc) && spec_bus_pure(
                u16_specs::wrapping_add(old(self).pc, 1),
            ) ==> {
                let base = ((spec_bus_value(&old(self).bus, old(self).pc) as u16) | ((
                spec_bus_value(
                    &old(self).bus,
                    u16_specs::wrapping_add(old(self).pc, 1),
                ) as u16) << 8));
                let eff = u16_specs::wrapping_add(base, old(self).x as u16);
                &&& final(self).abs_addr == eff
                &&& (spec_bus_pure((base & 0xFF00) | (eff & 0x00FF)) ==> final(self).bus
                    == old(self).bus && final(self).fetched_data == spec_bus_value(
                    &old(self).bus,
                    (base & 0xFF00) | (eff & 0x00FF),
                ))
            },
    {
        let addr = self.read_instr_u16();
        self.abs_addr = addr.wrapping_add(self.x as u16);
        self.fetched_data = self.read((addr & 0xFF00) | (self.abs_addr & 0x00FF));
    }

    /// Absolute indexed by Y, with a dummy read at the un-carried address.
    pub fn aby(&mut self)
        requires
            old(self).wf(),
        ensures
            final(self).wf(),
            spec_same_counters(&final(self).bus.ppu, &old(self).bus.ppu),
            old(self).bus.ppu.nmi ==> final(self).bus.ppu.nmi,
            *final(self) == (CPU {
                abs_addr: final(self).abs_addr,
                fetched_data: final(self).fetched_data,
                pc: final(self).pc,
                clock_count: final(self).clock_count,
                bus: final(self).bus,
                ..*old(self)
            }),
            final(self).pc == u16_specs::wrapping_add(old(self).pc, 2),
            final(self).clock_count == usize_specs::wrapping_add(old(self).clock_count, 3),
            spec_bus_pure(old(self).pc) && spec_bus_pure(
                u16_specs::wrapping_add(old(self).pc, 1),
            ) ==> {
                let base = ((spec_bus_value(&old(self).bus, old(self).pc) as u16) | ((
                spec_bus_value(
                    &old(self).bus,
                    u16_specs::wrapping_add(old(self).pc, 1),
                ) as u16) << 8));
                let eff = u16_specs::wrapping_add(base, old(self).y as u16);
                &&& final(self).abs_addr == eff
                &&& (spec_bus_pure((base & 0xFF00) | (eff & 0x00FF)) ==> final(self).bus
                    == old(self).bus && final(self).fetched_data == spec_bus_value(
                    &old(self).bus,
                    (base & 0xFF00) | (eff & 0x00FF),
                ))
            },
    {
        let addr = self.read_instr_u16();
        self.abs_addr = addr.wrapping_add(self.y as u16);
        self.fetched_data = self.read((addr & 0xFF00) | (self.abs_addr & 0x00FF));
    }

    /// Zero page indexed by X, wrapping within the page.
    pub fn zpx(&mut self)
        requires
            old(self).wf(),
        ensures
            final(self).wf(),
            spec_same_counters(&final(self).bus.ppu, &old(self).bus.ppu),
            old(self).bus.ppu.nmi ==> final(self).bus.ppu.nmi,
            *final(self) == (CPU {
                abs_addr: final(self).abs_addr,
                pc: final(self).pc,
                clock_count: final(self).clock_count,
                bus: final(self).bus,
                ..*old(self)
            }),
            final(self).pc == u16_specs::wrapping_add(old(self).pc, 1),
            final(self).clock_count == usize_specs::wrapping_add(old(self).clock_count, 2),
            final(self).abs_addr <= 0xFF,
    {
        let b = self.read_instr();
        let addr = b as u16;
        let _ = self.read(addr);
        proof { crate::bitmath::lemma_u16_mask_bounds(addr.wrapping_add(self.x as u16)); }
        self.abs_addr = addr.wrapping_add(self.x as u16) & 0x00FF;
    }

    /// Zero page indexed by Y, wrapping within the page.
    pub fn zpy(&mut self)
        requires
            old(self).wf(),
        ensures
            final(self).wf(),
            spec_same_counters(&final(self).bus.ppu, &old(self).bus.ppu),
            old(self).bus.ppu.nmi ==> final(self).bus.ppu.nmi,
            *final(self) == (CPU {
                abs_addr: final(self).abs_addr,
                pc: final(self).pc,
                clock_count: final(self).clock_count,
                bus: final(self).bus,
                ..*old(self)
            }),
            final(self).pc == u16_specs::wrapping_add(old(self).pc, 1),
            final(self).clock_count == usize_specs::wrapping_add(old(self).clock_count, 2),
            final(self).abs_addr <= 0xFF,
    {
        let b = self.read_instr();
        let addr = b as u16;
        let _ = self.read(addr);
        proof { crate::bitmath::lemma_u16_mask_bounds(addr.wrapping_add(self.y as u16)); }
        self.abs_addr = addr.wrapping_add(self.y as u16) & 0x00FF;
    }
}

impl CPU {
    //
    // operations
    //

    pub fn sec(&mut self)
        ensures
            final(self).status == spec_set_flag(old(self).status, FLAG_C, true),
            *final(self) == (CPU { status: final(self).status, ..*old(self) }),
            spec_keeps_ub(old(self).status, final(self).status),
    {
        proof { crate::cpu::lemma_status_ub(); }
        self.set_flag(FLAG_C, true);
    }

    pub fn clc(&mut self)
        ensures
            final(self).status == spec_set_flag(old(self).status, FLAG_C, false),
            *final(self) == (CPU { status: final(self).status, ..*old(self) }),
            spec_keeps_ub(old(self).status, final(self).status),
    {
        proof { crate::cpu::lemma_status_ub(); }
        self.set_flag(FLAG_C, false);
    }

    pub fn cld(&mut self)
        ensures
            final(self).status == spec_set_flag(old(self).status, FLAG_D, false),
            *final(self) == (CPU { status: final(self).status, ..*old(self) }),
            spec_keeps_ub(old(self).status, final(self).status),
    {
        proof { crate::cpu::lemma_status_ub(); }
        self.set_flag(FLAG_D, false);
    }

    pub fn clv(&mut self)
        ensures
            final(self).status == spec_set_flag(old(self).status, FLAG_V, false),
            *final(self) == (CPU { status: final(self).status, ..*old(self) }),
            spec_keeps_ub(old(self).status, final(self).status),
    {
        proof { crate::cpu::lemma_status_ub(); }
        self.set_flag(FLAG_V, false);
    }

    pub fn sei(&mut self)
        ensures
            final(self).status == spec_set_flag(old(self).status, FLAG_I, true),
            *final(self) == (CPU { status: final(self).status, ..*old(self) }),
            spec_keeps_ub(old(self).status, final(self).status),
    {
        proof { crate::cpu::lemma_status_ub(); }
        self.set_flag(FLAG_I, true);
    }

    pub fn sed(&mut self)
        ensures
            final(self).status == spec_set_flag(old(self).status, FLAG_D, true),
            *final(self) == (CPU { status: final(self).status, ..*old(self) }),
            spec_keeps_ub(old(self).status, final(self).status),
    {
        proof { crate::cpu::lemma_status_ub(); }
        self.set_flag(FLAG_D, true);
    }

    pub fn cli(&mut self)
        ensures
            final(self).status == spec_set_flag(old(self).status, FLAG_I, false),
            *final(self) == (CPU { status: final(self).status, ..*old(self) }),
            spec_keeps_ub(old(self).status, final(self).status),
    {
        proof { crate::cpu::lemma_status_ub(); }
        self.set_flag(FLAG_I, false);
    }

    pub fn jmp(&mut self)
        ensures
            *final(self) == (CPU { pc: old(self).abs_addr, ..*old(self) }),
    {
        self.pc = self.abs_addr;
    }

    pub fn lda(&mut self)
        requires
            old(self).wf(),
        ensures
            final(self).wf(),
            spec_same_counters(&final(self).bus.ppu, &old(self).bus.ppu),
            old(self).bus.ppu.nmi ==> final(self).bus.ppu.nmi,
            crate::cpu::spec_operand_loaded(old(self), final(self)),
            final(self).a == final(self).fetched_data,
            final(self).status == spec_zn(old(self).status, final(self).fetched_data),
            spec_keeps_ub(old(self).status, final(self).status),
            *final(self) == (CPU {
                a: final(self).a,
                status: final(self).status,
                fetched_data: final(self).fetched_data,
                clock_count: final(self).clock_count,
                bus: final(self).bus,
                ..*old(self)
            }),
    {
        self.fetch_data_cross();
        self.a = self.fetched_data;
        self.set_zn_status(self.a);
        proof { crate::cpu::lemma_status_ub(); }
    }

    pub fn ldx(&mut self)
        requires
            old(self).wf(),
        ensures
            final(self).wf(),
            spec_same_counters(&final(self).bus.ppu, &old(self).bus.ppu),
            old(self).bus.ppu.nmi ==> final(self).bus.ppu.nmi,
            crate::cpu::spec_operand_loaded(old(self), final(self)),
            final(self).x == final(self).fetched_data,
            final(self).status == spec_zn(old(self).status, final(self).fetched_data),
            spec_keeps_ub(old(self).status, final(self).status),
            *final(self) == (CPU {
                x: final(self).x,
                status: final(self).status,
                fetched_data: final(self).fetched_data,
                clock_count: final(self).clock_count,
                bus: final(self).bus,
                ..*old(self)
            }),
    {
        self.fetch_data_cross();
        self.x = self.fetched_data;
        self.set_zn_status(self.x);
        proof { crate::cpu::lemma_status_ub(); }
    }

    pub fn ldy(&mut self)
        requires
            old(self).wf(),
        ensures
            final(self).wf(),
            spec_same_counters(&final(self).bus.ppu, &old(self).bus.ppu),
            old(self).bus.ppu.nmi ==> final(self).bus.ppu.nmi,
            crate::cpu::spec_operand_loaded(old(self), final(self)),
            final(self).y == final(self).fetched_data,
            final(self).status == spec_zn(old(self).status, final(self).fetched_data),
            spec_keeps_ub(old(self).status, final(self).status),
            *final(self) == (CPU {
                y: final(self).y,
                status: final(self).status,
                fetched_data: final(self).fetched_data,
                clock_count: final(self).clock_count,
                bus: final(self).bus,
                ..*old(self)
            }),
    {
        self.fetch_data_cross();
        self.y = self.fetched_data;
        self.set_zn_status(self.y);
        proof { crate::cpu::lemma_status_ub(); }
    }

    pub fn sta(&mut self)
        requires
            old(self).wf(),
        ensures
            final(self).wf(),
            spec_same_counters(&final(self).bus.ppu, &old(self).bus.ppu),
            old(self).bus.ppu.nmi ==> final(self).bus.ppu.nmi,
            *final(self) == (CPU {
                clock_count: final(self).clock_count,
                bus: final(self).bus,
                ..*old(self)
            }),
            final(self).clock_count == usize_specs::wrapping_add(old(self).clock_count, 1),
            spec_bus_write(&old(self).bus, &final(self).bus, old(self).abs_addr, old(self).a),
    {
        self.write(self.abs_addr, self.a);
    }

    pub fn stx(&mut self)
        requires
            old(self).wf(),
        ensures
            final(self).wf(),
            spec_same_counters(&final(self).bus.ppu, &old(self).bus.ppu),
            old(self).bus.ppu.nmi ==> final(self).bus.ppu.nmi,
            *final(self) == (CPU {
                clock_count: final(self).clock_count,
                bus: final(self).bus,
                ..*old(self)
            }),
            final(self).clock_count == usize_specs::wrapping_add(old(self).clock_count, 1),
            spec_bus_write(&old(self).bus, &final(self).bus, old(self).abs_addr, old(self).x),
    {
        self.write(self.abs_addr, self.x);
    }

    pub fn sty(&mut self)
        requires
            old(self).wf(),
        ensures
            final(self).wf(),
            spec_same_counters(&final(self).bus.ppu, &old(self).bus.ppu),
            old(self).bus.ppu.nmi ==> final(self).bus.ppu.nmi,
            *final(self) == (CPU {
                clock_count: final(self).clock_count,
                bus: final(self).bus,
                ..*old(self)
            }),
            final(self).clock_count == usize_specs::wrapping_add(old(self).clock_count, 1),
            spec_bus_write(&old(self).bus, &final(self).bus, old(self).abs_addr, old(self).y),
    {
        self.write(self.abs_addr, self.y);
    }

    pub fn bit(&mut self)
        requires
            old(self).wf(),
        ensures
            final(self).wf(),
            spec_same_counters(&final(self).bus.ppu, &old(self).bus.ppu),
            old(self).bus.ppu.nmi ==> final(self).bus.ppu.nmi,
            crate::cpu::spec_operand_loaded(old(self), final(self)),
            ({
                let fd = final(self).fetched_data;
                final(self).status == spec_set_flag(
                    spec_set_flag(
                        spec_set_flag(old(self).status, FLAG_Z, old(self).a & fd == 0),
                        FLAG_N,
                        fd & 0x80 != 0,
                    ),
                    FLAG_V,
                    fd & 0x40 != 0,
                )
            }),
            spec_keeps_ub(old(self).status, final(self).status),
            *final(self) == (CPU {
                status: final(self).status,
                fetched_data: final(self).fetched_data,
                clock_count: final(self).clock_count,
                bus: final(self).bus,
                ..*old(self)
            }),
    {
        self.fetch_data_cross();
        let val = self.a & self.fetched_data;
        self.set_flag(FLAG_Z, val == 0);
        self.set_flag(FLAG_N, self.fetched_data & 0x80 != 0);
        self.set_flag(FLAG_V, self.fetched_data & 0x40 != 0);
        proof { crate::cpu::lemma_status_ub(); }
    }

    fn branch(&mut self)
        requires
            old(self).wf(),
        ensures
            final(self).wf(),
            spec_same_counters(&final(self).bus.ppu, &old(self).bus.ppu),
            old(self).bus.ppu.nmi ==> final(self).bus.ppu.nmi,
            spec_branch_effect(old(self), final(self)),
    {
        let _ = self.read(self.pc);

        self.abs_addr = if self.rel_addr & 0x0080 == 0x0080 {
            self.pc.wrapping_add(self.rel_addr | 0xFF00)
        } else {
            self.pc.wrapping_add(self.rel_addr)
        };

        if CPU::pages_differ(self.abs_addr, self.pc) {
            let _ = self.read(self.pc);
        }

        self.pc = self.abs_addr;
    }

    pub fn bcc(&mut self)
        requires
            old(self).wf(),
        ensures
            final(self).wf(),
            spec_same_counters(&final(self).bus.ppu, &old(self).bus.ppu),
            old(self).bus.ppu.nmi ==> final(self).bus.ppu.nmi,
            !spec_branch_taken(Operation::BCC, old(self).status) ==> *final(self) == *old(self),
            spec_branch_taken(Operation::BCC, old(self).status) ==> spec_branch_effect(
                old(self),
                final(self),
            ),
    {
        if self.status_bit(FLAG_C) == 0 {
            self.branch();
        }
    }

    pub fn bcs(&mut self)
        requires
            old(self).wf(),
        ensures
            final(self).wf(),
            spec_same_counters(&final(self).bus.ppu, &old(self).bus.ppu),
            old(self).bus.ppu.nmi ==> final(self).bus.ppu.nmi,
            !spec_branch_taken(Operation::BCS, old(self).status) ==> *final(self) == *old(self),
            spec_branch_taken(Operation::BCS, old(self).status) ==> spec_branch_effect(
                old(self),
                final(self),
            ),
    {
        if self.status_bit(FLAG_C) != 0 {
            self.branch();
        }
    }

    pub fn bvs(&mut self)
        requires
            old(self).wf(),
        ensures
            final(self).wf(),
            spec_same_counters(&final(self).bus.ppu, &old(self).bus.ppu),
            old(self).bus.ppu.nmi ==> final(self).bus.ppu.nmi,
            !spec_branch_taken(Operation::BVS, old(self).status) ==> *final(self) == *old(self),
            spec_branch_taken(Operation::BVS, old(self).status) ==> spec_branch_effect(
                old(self),
                final(self),
            ),
    {
        if self.status_bit(FLAG_V) != 0 {
            self.branch();
        }
    }

    pub fn bvc(&mut self)
        requires
            old(self).wf(),
        ensures
            final(self).wf(),
            spec_same_counters(&final(self).bus.ppu, &old(self).bus.ppu),
            old(self).bus.ppu.nmi ==> final(self).bus.ppu.nmi,
            !spec_branch_taken(Operation::BVC, old(self).status) ==> *final(self) == *old(self),
            spec_branch_taken(Operation::BVC, old(self).status) ==> spec_branch_effect(
                old(self),
                final(self),
            ),
    {
        if self.status_bit(FLAG_V) == 0 {
            self.branch();
        }
    }

    pub fn bpl(&mut self)
        requires
            old(self).wf(),
        ensures
            final(self).wf(),
            spec_same_counters(&final(self).bus.ppu, &old(self).bus.ppu),
            old(self).bus.ppu.nmi ==> final(self).bus.ppu.nmi,
            !spec_branch_taken(Operation::BPL, old(self).status) ==> *final(self) == *old(self),
            spec_branch_taken(Operation::BPL, old(self).status) ==> spec_branch_effect(
                old(self),
                final(self),
            ),
    {
        if self.status_bit(FLAG_N) == 0 {
            self.branch();
        }
    }

    pub fn beq(&mut self)
        requires
            old(self).wf(),
        ensures
            final(self).wf(),
            spec_same_counters(&final(self).bus.ppu, &old(self).bus.ppu),
            old(self).bus.ppu.nmi ==> final(self).bus.ppu.nmi,
            !spec_branch_taken(Operation::BEQ, old(self).status) ==> *final(self) == *old(self),
            spec_branch_taken(Operation::BEQ, old(self).status) ==> spec_branch_effect(
                old(self),
                final(self),
            ),
    {
        if self.status_bit(FLAG_Z) != 0 {
            self.branch();
        }
    }

    pub fn bne(&mut self)
        requires
            old(self).wf(),
        ensures
            final(self).wf(),
            spec_same_counters(&final(self).bus.ppu, &old(self).bus.ppu),
            old(self).bus.ppu.nmi ==> final(self).bus.ppu.nmi,
            !spec_branch_taken(Operation::BNE, old(self).status) ==> *final(self) == *old(self),
            spec_branch_taken(Operation::BNE, old(self).status) ==> spec_branch_effect(
                old(self),
                final(self),
            ),
    {
        if self.status_bit(FLAG_Z) == 0 {
            self.branch();
        }
    }

    pub fn bmi(&mut self)
        requires
            old(self).wf(),
        ensures
            final(self).wf(),
            spec_same_counters(&final(self).bus.ppu, &old(self).bus.ppu),
            old(self).bus.ppu.nmi ==> final(self).bus.ppu.nmi,
            !spec_branch_taken(Operation::BMI, old(self).status) ==> *final(self) == *old(self),
            spec_branch_taken(Operation::BMI, old(self).status) ==> spec_branch_effect(
                old(self),
                final(self),
            ),
    {
        if self.status_bit(FLAG_N) != 0 {
            self.branch();
        }
    }

    pub fn ora(&mut self)
        requires
            old(self).wf(),
        ensures
            final(self).wf(),
            spec_same_counters(&final(self).bus.ppu, &old(self).bus.ppu),
            old(self).bus.ppu.nmi ==> final(self).bus.ppu.nmi,
            crate::cpu::spec_operand_loaded(old(self), final(self)),
            final(self).a == (old(self).a | final(self).fetched_data),
            final(self).status == spec_zn(old(self).status, final(self).a),
            spec_keeps_ub(old(self).status, final(self).status),
            *final(self) == (CPU {
                a: final(self).a,
                status: final(self).status,
                fetched_data: final(self).fetched_data,
                clock_count: final(self).clock_count,
                bus: final(self).bus,
                ..*old(self)
            }),
    {
        self.fetch_data_cross();
        self.a = self.a | self.fetched_data;
        self.set_zn_status(self.a);
        proof { crate::cpu::lemma_status_ub(); }
    }

    pub fn eor(&mut self)
        requires
            old(self).wf(),
        ensures
            final(self).wf(),
            spec_same_counters(&final(self).bus.ppu, &old(self).bus.ppu),
            old(self).bus.ppu.nmi ==> final(self).bus.ppu.nmi,
            crate::cpu::spec_operand_loaded(old(self), final(self)),
            final(self).a == (old(self).a ^ final(self).fetched_data),
            final(self).status == spec_zn(old(self).status, final(self).a),
            spec_keeps_ub(old(self).status, final(self).status),
            *final(self) == (CPU {
                a: final(self).a,
                status: final(self).status,
                fetched_data: final(self).fetched_data,
                clock_count: final(self).clock_count,
                bus: final(self).bus,
                ..*old(self)
            }),
    {
        self.fetch_data_cross();
        self.a = self.a ^ self.fetched_data;
        self.set_zn_status(self.a);
        proof { crate::cpu::lemma_status_ub(); }
    }

    pub fn and(&mut self)
        requires
            old(self).wf(),
        ensures
            final(self).wf(),
            spec_same_counters(&final(self).bus.ppu, &old(self).bus.ppu),
            old(self).bus.ppu.nmi ==> final(self).bus.ppu.nmi,
            crate::cpu::spec_operand_loaded(old(self), final(self)),
            final(self).a == (old(self).a & final(self).fetched_data),
            final(self).status == spec_zn(old(self).status, final(self).a),
            spec_keeps_ub(old(self).status, final(self).status),
            *final(self) == (CPU {
                a: final(self).a,
                status: final(self).status,
                fetched_data: final(self).fetched_data,
                clock_count: final(self).clock_count,
                bus: final(self).bus,
                ..*old(self)
            }),
    {
        self.fetch_data_cross();
        self.a = self.a & self.fetched_data;
        self.set_zn_status(self.a);
        proof { crate::cpu::lemma_status_ub(); }
    }

    /// Add with carry: an eight-bit sum with carry out and the signed
    /// overflow flag.
    pub fn adc(&mut self)
        requires
            old(self).wf(),
        ensures
            final(self).wf(),
            spec_same_counters(&final(self).bus.ppu, &old(self).bus.ppu),
            old(self).bus.ppu.nmi ==> final(self).bus.ppu.nmi,
            crate::cpu::spec_operand_loaded(old(self), final(self)),
            ({
                let m = final(self).fetched_data;
                let sum = ((old(self).a + m + (old(self).status & FLAG_C)) as u16);
                &&& final(self).a == (sum & 0x00FF) as u8
                &&& final(self).status == spec_zn(
                    spec_set_flag(
                        spec_set_flag(old(self).status, FLAG_C, sum > 0xFF),
                        FLAG_V,
                        (old(self).a ^ m) & 0x80 == 0 && (old(self).a ^ final(self).a)
                            & 0x80 != 0,
                    ),
                    final(self).a,
                )
            }),
            spec_keeps_ub(old(self).status, final(self).status),
            *final(self) == (CPU {
                a: final(self).a,
                status: final(self).status,
                fetched_data: final(self).fetched_data,
                clock_count: final(self).clock_count,
                bus: final(self).bus,
                ..*old(self)
            }),
    {
        self.fetch_data_cross();
        let a = self.a;
        let m = self.fetched_data;
        let c = self.status_bit(FLAG_C);
        let sum: u16 = (a as u16) + (m as u16) + (c as u16);
        self.a = (sum & 0x00FF) as u8;
        self.set_flag(FLAG_C, sum > 0xFF);
        self.set_flag(FLAG_V, (a ^ m) & 0x80 == 0 && (a ^ self.a) & 0x80 != 0);
        self.set_zn_status(self.a);
        proof { crate::cpu::lemma_status_ub(); }
    }

    /// Subtract with carry: the same sum taken over the operand's
    /// complement.
    pub fn sbc(&mut self)
        requires
            old(self).wf(),
        ensures
            final(self).wf(),
            spec_same_counters(&final(self).bus.ppu, &old(self).bus.ppu),
            old(self).bus.ppu.nmi ==> final(self).bus.ppu.nmi,
            crate::cpu::spec_operand_loaded(old(self), final(self)),
            ({
                let m = !final(self).fetched_data;
                let sum = ((old(self).a + m + (old(self).status & FLAG_C)) as u16);
                &&& final(self).a == (sum & 0x00FF) as u8
                &&& final(self).status == spec_zn(
                    spec_set_flag(
                        spec_set_flag(old(self).status, FLAG_C, sum > 0xFF),
                        FLAG_V,
                        (old(self).a ^ m) & 0x80 == 0 && (old(self).a ^ final(self).a)
                            & 0x80 != 0,
                    ),
                    final(self).a,
                )
            }),
            spec_keeps_ub(old(self).status, final(self).status),
            *final(self) == (CPU {
                a: final(self).a,
                status: final(self).status,
                fetched_data: final(self).fetched_data,
                clock_count: final(self).clock_count,
                bus: final(self).bus,
                ..*old(self)
            }),
    {
        self.fetch_data_cross();
        let a = self.a;
        let m = !self.fetched_data;
        let c = self.status_bit(FLAG_C);
        let sum: u16 = (a as u16) + (m as u16) + (c as u16);
        self.a = (sum & 0x00FF) as u8;
        self.set_flag(FLAG_C, sum > 0xFF);
        self.set_flag(FLAG_V, (a ^ m) & 0x80 == 0 && (a ^ self.a) & 0x80 != 0);
        self.set_zn_status(self.a);
        proof { crate::cpu::lemma_status_ub(); }
    }

    pub fn php(&mut self)
        requires
            old(self).wf(),
        ensures
            final(self).wf(),
            spec_same_counters(&final(self).bus.ppu, &old(self).bus.ppu),
            old(self).bus.ppu.nmi ==> final(self).bus.ppu.nmi,
            *final(self) == (CPU {
                sp: final(self).sp,
                clock_count: final(self).clock_count,
                bus: final(self).bus,
                ..*old(self)
            }),
            final(self).sp == u8_specs::wrapping_sub(old(self).sp, 1),
            final(self).clock_count == usize_specs::wrapping_add(old(self).clock_count, 1),
            final(self).bus.memory.bytes@ == old(self).bus.memory.bytes@.update(
                0x0100 + old(self).sp,
                old(self).status | FLAG_U | FLAG_B,
            ),
            final(self).bus.ppu == old(self).bus.ppu,
            final(self).bus.cartridge.v_prg_memory@ == old(self).bus.cartridge.v_prg_memory@,
            final(self).bus.cartridge.v_chr_memory@ == old(self).bus.cartridge.v_chr_memory@,
    {
        self.push(self.status | FLAG_U | FLAG_B);
    }

    pub fn pha(&mut self)
        requires
            old(self).wf(),
        ensures
            final(self).wf(),
            spec_same_counters(&final(self).bus.ppu, &old(self).bus.ppu),
            old(self).bus.ppu.nmi ==> final(self).bus.ppu.nmi,
            *final(self) == (CPU {
                sp: final(self).sp,
                clock_count: final(self).clock_count,
                bus: final(self).bus,
                ..*old(self)
            }),
            final(self).sp == u8_specs::wrapping_sub(old(self).sp, 1),
            final(self).clock_count == usize_specs::wrapping_add(old(self).clock_count, 1),
            final(self).bus.memory.bytes@ == old(self).bus.memory.bytes@.update(
                0x0100 + old(self).sp,
                old(self).a,
            ),
            final(self).bus.ppu == old(self).bus.ppu,
            final(self).bus.cartridge.v_prg_memory@ == old(self).bus.cartridge.v_prg_memory@,
            final(self).bus.cartridge.v_chr_memory@ == old(self).bus.cartridge.v_chr_memory@,
    {
        self.push(self.a);
    }

    pub fn pla(&mut self)
        requires
            old(self).wf(),
        ensures
            final(self).wf(),
            spec_same_counters(&final(self).bus.ppu, &old(self).bus.ppu),
            old(self).bus.ppu.nmi ==> final(self).bus.ppu.nmi,
            final(self).a == old(self).bus.memory.bytes@[0x0100 + u8_specs::wrapping_add(
                old(self).sp,
                1,
            )],
            final(self).status == spec_zn(old(self).status, final(self).a),
            spec_keeps_ub(old(self).status, final(self).status),
            final(self).sp == u8_specs::wrapping_add(old(self).sp, 1),
            final(self).clock_count == usize_specs::wrapping_add(old(self).clock_count, 2),
            final(self).bus == old(self).bus,
            *final(self) == (CPU {
                a: final(self).a,
                status: final(self).status,
                sp: final(self).sp,
                clock_count: final(self).clock_count,
                bus: final(self).bus,
                ..*old(self)
            }),
    {
        proof { crate::cpu::lemma_stack_addr(self.sp); }
        let _ = self.read(0x0100 | (self.sp as u16));
        self.a = self.pop();
        self.set_zn_status(self.a);
        proof { crate::cpu::lemma_status_ub(); }
    }

    /// Pull status: the unused bit reads back as set, the break bit as
    /// clear, whatever was pushed.
    pub fn plp(&mut self)
        requires
            old(self).wf(),
        ensures
            final(self).wf(),
            spec_same_counters(&final(self).bus.ppu, &old(self).bus.ppu),
            old(self).bus.ppu.nmi ==> final(self).bus.ppu.nmi,
            final(self).status == (old(self).bus.memory.bytes@[0x0100
                + u8_specs::wrapping_add(old(self).sp, 1)] | FLAG_U) & !FLAG_B,
            final(self).status & 0x30 == 0x20,
            final(self).sp == u8_specs::wrapping_add(old(self).sp, 1),
            final(self).clock_count == usize_specs::wrapping_add(old(self).clock_count, 2),
            final(self).bus == old(self).bus,
            *final(self) == (CPU {
                status: final(self).status,
                sp: final(self).sp,
                clock_count: final(self).clock_count,
                bus: final(self).bus,
                ..*old(self)
            }),
    {
        proof { crate::cpu::lemma_stack_addr(self.sp); }
        let _ = self.read(0x0100 | (self.sp as u16));
        let pulled = self.pop();
        self.status = (pulled | FLAG_U) & !FLAG_B;
        proof { crate::cpu::lemma_status_ub(); }
    }

    fn compare(&mut self, a: u8, b: u8)
        ensures
            final(self).status == spec_set_flag(
                spec_zn(old(self).status, u8_specs::wrapping_sub(a, b)),
                FLAG_C,
                a >= b,
            ),
            spec_keeps_ub(old(self).status, final(self).status),
            *final(self) == (CPU { status: final(self).status, ..*old(self) }),
    {
        let result = a.wrapping_sub(b);
        self.set_zn_status(result);
        self.set_flag(FLAG_C, a >= b);
        proof { crate::cpu::lemma_status_ub(); }
    }

    pub fn cmp(&mut self)
        requires
            old(self).wf(),
        ensures
            final(self).wf(),
            spec_same_counters(&final(self).bus.ppu, &old(self).bus.ppu),
            old(self).bus.ppu.nmi ==> final(self).bus.ppu.nmi,
            crate::cpu::spec_operand_loaded(old(self), final(self)),
            final(self).status == spec_set_flag(
                spec_zn(
                    old(self).status,
                    u8_specs::wrapping_sub(old(self).a, final(self).fetched_data),
                ),
                FLAG_C,
                old(self).a >= final(self).fetched_data,
            ),
            spec_keeps_ub(old(self).status, final(self).status),
            *final(self) == (CPU {
                status: final(self).status,
                fetched_data: final(self).fetched_data,
                clock_count: final(self).clock_count,
                bus: final(self).bus,
                ..*old(self)
            }),
    {
        self.fetch_data_cross();
        self.compare(self.a, self.fetched_data);
    }

    pub fn cpy(&mut self)
        requires
            old(self).wf(),
        ensures
            final(self).wf(),
            spec_same_counters(&final(self).bus.ppu, &old(self).bus.ppu),
            old(self).bus.ppu.nmi ==> final(self).bus.ppu.nmi,
            crate::cpu::spec_operand_loaded_direct(old(self), final(self)),
            final(self).status == spec_set_flag(
                spec_zn(
                    old(self).status,
                    u8_specs::wrapping_sub(old(self).y, final(self).fetched_data),
                ),
                FLAG_C,
                old(self).y >= final(self).fetched_data,
            ),
            spec_keeps_ub(old(self).status, final(self).status),
            *final(self) == (CPU {
                status: final(self).status,
                fetched_data: final(self).fetched_data,
                clock_count: final(self).clock_count,
                bus: final(self).bus,
                ..*old(self)
            }),
    {
        self.fetch_data();
        self.compare(self.y, self.fetched_data);
    }

    pub fn cpx(&mut self)
        requires
            old(self).wf(),
        ensures
            final(self).wf(),
            spec_same_counters(&final(self).bus.ppu, &old(self).bus.ppu),
            old(self).bus.ppu.nmi ==> final(self).bus.ppu.nmi,
            crate::cpu::spec_operand_loaded_direct(old(self), final(self)),
            final(self).status == spec_set_flag(
                spec_zn(
                    old(self).status,
                    u8_specs::wrapping_sub(old(self).x, final(self).fetched_data),
                ),
                FLAG_C,
                old(self).x >= final(self).fetched_data,
            ),
            spec_keeps_ub(old(self).status, final(self).status),
            *final(self) == (CPU {
                status: final(self).status,
                fetched_data: final(self).fetched_data,
                clock_count: final(self).clock_count,
                bus: final(self).bus,
                ..*old(self)
            }),
    {
        self.fetch_data();
        self.compare(self.x, self.fetched_data);
    }

    /// Jump to subroutine: pushes the address of the last operand byte.
    pub fn jsr(&mut self)
        requires
            old(self).wf(),
        ensures
            final(self).wf(),
            spec_same_counters(&final(self).bus.ppu, &old(self).bus.ppu),
            old(self).bus.ppu.nmi ==> final(self).bus.ppu.nmi,
            final(self).pc == old(self).abs_addr,
            final(self).sp == u8_specs::wrapping_sub(old(self).sp, 2),
            final(self).clock_count == usize_specs::wrapping_add(old(self).clock_count, 3),
            final(self).bus.memory.bytes@ == old(self).bus.memory.bytes@.update(
                0x0100 + old(self).sp,
                (u16_specs::wrapping_sub(old(self).pc, 1) >> 8) as u8,
            ).update(
                0x0100 + u8_specs::wrapping_sub(old(self).sp, 1),
                u16_specs::wrapping_sub(old(self).pc, 1) as u8,
            ),
            final(self).bus.ppu == old(self).bus.ppu,
            final(self).bus.cartridge.v_prg_memory@ == old(self).bus.cartridge.v_prg_memory@,
            final(self).bus.cartridge.v_chr_memory@ == old(self).bus.cartridge.v_chr_memory@,
            *final(self) == (CPU {
                pc: final(self).pc,
                sp: final(self).sp,
                clock_count: final(self).clock_count,
                bus: final(self).bus,
                ..*old(self)
            }),
    {
        proof { crate::cpu::lemma_stack_addr(self.sp); }
        let _ = self.read(0x0100 | (self.sp as u16));
        self.push_u16(self.pc.wrapping_sub(1));
        self.pc = self.abs_addr;
    }

    /// Return from subroutine: the pulled address plus one.
    pub fn rts(&mut self)
        requires
            old(self).wf(),
        ensures
            final(self).wf(),
            spec_same_counters(&final(self).bus.ppu, &old(self).bus.ppu),
            old(self).bus.ppu.nmi ==> final(self).bus.ppu.nmi,
            final(self).pc == u16_specs::wrapping_add(
                ((old(self).bus.memory.bytes@[0x0100 + u8_specs::wrapping_add(
                    old(self).sp,
                    1,
                )] as u16) | ((old(self).bus.memory.bytes@[0x0100 + u8_specs::wrapping_add(
                    old(self).sp,
                    2,
                )] as u16) << 8)),
                1,
            ),
            final(self).sp == u8_specs::wrapping_add(old(self).sp, 2),
            final(self).clock_count == usize_specs::wrapping_add(old(self).clock_count, 2),
            final(self).bus == old(self).bus,
            *final(self) == (CPU {
                pc: final(self).pc,
                sp: final(self).sp,
                clock_count: final(self).clock_count,
                bus: final(self).bus,
                ..*old(self)
            }),
    {
        let pulled = self.pop_u16();
        self.pc = pulled.wrapping_add(1);
    }

    pub fn iny(&mut self)
        ensures
            final(self).y == u8_specs::wrapping_add(old(self).y, 1),
            final(self).status == spec_zn(old(self).status, final(self).y),
            spec_keeps_ub(old(self).status, final(self).status),
            *final(self) == (CPU { y: final(self).y, status: final(self).status, ..*old(self) }),
    {
        self.y = self.y.wrapping_add(1);
        self.set_zn_status(self.y);
        proof { crate::cpu::lemma_status_ub(); }
    }

    pub fn inx(&mut self)
        ensures
            final(self).x == u8_specs::wrapping_add(old(self).x, 1),
            final(self).status == spec_zn(old(self).status, final(self).x),
            spec_keeps_ub(old(self).status, final(self).status),
            *final(self) == (CPU { x: final(self).x, status: final(self).status, ..*old(self) }),
    {
        self.x = self.x.wrapping_add(1);
        self.set_zn_status(self.x);
        proof { crate::cpu::lemma_status_ub(); }
    }

    pub fn dey(&mut self)
        ensures
            final(self).y == u8_specs::wrapping_sub(old(self).y, 1),
            final(self).status == spec_zn(old(self).status, final(self).y),
            spec_keeps_ub(old(self).status, final(self).status),
            *final(self) == (CPU { y: final(self).y, status: final(self).status, ..*old(self) }),
    {
        self.y = self.y.wrapping_sub(1);
        self.set_zn_status(self.y);
        proof { crate::cpu::lemma_status_ub(); }
    }

    pub fn dex(&mut self)
        ensures
            final(self).x == u8_specs::wrapping_sub(old(self).x, 1),
            final(self).status == spec_zn(old(self).status, final(self).x),
            spec_keeps_ub(old(self).status, final(self).status),
            *final(self) == (CPU { x: final(self).x, status: final(self).status, ..*old(self) }),
    {
        self.x = self.x.wrapping_sub(1);
        self.set_zn_status(self.x);
        proof { crate::cpu::lemma_status_ub(); }
    }

    pub fn tay(&mut self)
        ensures
            final(self).y == old(self).a,
            final(self).status == spec_zn(old(self).status, old(self).a),
            spec_keeps_ub(old(self).status, final(self).status),
            *final(self) == (CPU { y: final(self).y, status: final(self).status, ..*old(self) }),
    {
        self.y = self.a;
        self.set_zn_status(self.y);
        proof { crate::cpu::lemma_status_ub(); }
    }

    pub fn tax(&mut self)
        ensures
            final(self).x == old(self).a,
            final(self).status == spec_zn(old(self).status, old(self).a),
            spec_keeps_ub(old(self).status, final(self).status),
            *final(self) == (CPU { x: final(self).x, status: final(self).status, ..*old(self) }),
    {
        self.x = self.a;
        self.set_zn_status(self.x);
        proof { crate::cpu::lemma_status_ub(); }
    }

    pub fn tya(&mut self)
        ensures
            final(self).a == old(self).y,
            final(self).status == spec_zn(old(self).status, old(self).y),
            spec_keeps_ub(old(self).status, final(self).status),
            *final(self) == (CPU { a: final(self).a, status: final(self).status, ..*old(self) }),
    {
        self.a = self.y;
        self.set_zn_status(self.a);
        proof { crate::cpu::lemma_status_ub(); }
    }

    pub fn txa(&mut self)
        ensures
            final(self).a == old(self).x,
            final(self).status == spec_zn(old(self).status, old(self).x),
            spec_keeps_ub(old(self).status, final(self).status),
            *final(self) == (CPU { a: final(self).a, status: final(self).status, ..*old(self) }),
    {
        self.a = self.x;
        self.set_zn_status(self.a);
        proof { crate::cpu::lemma_status_ub(); }
    }

    pub fn tsx(&mut self)
        ensures
            final(self).x == old(self).sp,
            final(self).status == spec_zn(old(self).status, old(self).sp),
            spec_keeps_ub(old(self).status, final(self).status),
            *final(self) == (CPU { x: final(self).x, status: final(self).status, ..*old(self) }),
    {
        self.x = self.sp;
        self.set_zn_status(self.x);
        proof { crate::cpu::lemma_status_ub(); }
    }

    pub fn txs(&mut self)
        ensures
            *final(self) == (CPU { sp: old(self).x, ..*old(self) }),
    {
        self.sp = self.x;
    }

    /// Return from interrupt: status comes back with the unused and break
    /// bits cleared, then the program counter is pulled.
    pub fn rti(&mut self)
        requires
            old(self).wf(),
        ensures
            final(self).wf(),
            spec_same_counters(&final(self).bus.ppu, &old(self).bus.ppu),
            old(self).bus.ppu.nmi ==> final(self).bus.ppu.nmi,
            final(self).status == (old(self).bus.memory.bytes@[0x0100
                + u8_specs::wrapping_add(old(self).sp, 1)] & !FLAG_U) & !FLAG_B,
            final(self).pc == ((old(self).bus.memory.bytes@[0x0100 + u8_specs::wrapping_add(
                old(self).sp,
                2,
            )] as u16) | ((old(self).bus.memory.bytes@[0x0100 + u8_specs::wrapping_add(
                old(self).sp,
                3,
            )] as u16) << 8)),
            final(self).sp == u8_specs::wrapping_add(old(self).sp, 3),
            final(self).clock_count == usize_specs::wrapping_add(old(self).clock_count, 4),
            final(self).bus == old(self).bus,
            *final(self) == (CPU {
                status: final(self).status,
                pc: final(self).pc,
                sp: final(self).sp,
                clock_count: final(self).clock_count,
                bus: final(self).bus,
                ..*old(self)
            }),
    {
        proof { crate::cpu::lemma_stack_addr(self.sp); }
        let _ = self.read(0x0100 | (self.sp as u16));
        let pulled = self.pop();
        self.status = (pulled & !FLAG_U) & !FLAG_B;
        self.pc = self.pop_u16();
    }

    pub fn nop(&mut self)
        requires
            old(self).wf(),
        ensures
            final(self).wf(),
            spec_same_counters(&final(self).bus.ppu, &old(self).bus.ppu),
            old(self).bus.ppu.nmi ==> final(self).bus.ppu.nmi,
            crate::cpu::spec_operand_loaded(old(self), final(self)),
            *final(self) == (CPU {
                fetched_data: final(self).fetched_data,
                clock_count: final(self).clock_count,
                bus: final(self).bus,
                ..*old(self)
            }),
    {
        self.fetch_data_cross();
    }

    pub fn skb(&mut self)
        requires
            old(self).wf(),
        ensures
            final(self).wf(),
            spec_same_counters(&final(self).bus.ppu, &old(self).bus.ppu),
            old(self).bus.ppu.nmi ==> final(self).bus.ppu.nmi,
            crate::cpu::spec_operand_loaded_direct(old(self), final(self)),
            *final(self) == (CPU {
                fetched_data: final(self).fetched_data,
                clock_count: final(self).clock_count,
                bus: final(self).bus,
                ..*old(self)
            }),
    {
        self.fetch_data();
    }

    pub fn ign(&mut self)
        requires
            old(self).wf(),
        ensures
            final(self).wf(),
            spec_same_counters(&final(self).bus.ppu, &old(self).bus.ppu),
            old(self).bus.ppu.nmi ==> final(self).bus.ppu.nmi,
            crate::cpu::spec_operand_loaded(old(self), final(self)),
            *final(self) == (CPU {
                fetched_data: final(self).fetched_data,
                clock_count: final(self).clock_count,
                bus: final(self).bus,
                ..*old(self)
            }),
    {
        self.fetch_data_cross();
    }

    /// Load accumulator and X together.
    pub fn lax(&mut self)
        requires
            old(self).wf(),
        ensures
            final(self).wf(),
            spec_same_counters(&final(self).bus.ppu, &old(self).bus.ppu),
            old(self).bus.ppu.nmi ==> final(self).bus.ppu.nmi,
            crate::cpu::spec_operand_loaded(old(self), final(self)),
            final(self).a == final(self).fetched_data,
            final(self).x == final(self).fetched_data,
            final(self).status == spec_zn(
                spec_zn(old(self).status, final(self).fetched_data),
                final(self).fetched_data,
            ),
            spec_keeps_ub(old(self).status, final(self).status),
            *final(self) == (CPU {
                a: final(self).a,
                x: final(self).x,
                status: final(self).status,
                fetched_data: final(self).fetched_data,
                clock_count: final(self).clock_count,
                bus: final(self).bus,
                ..*old(self)
            }),
    {
        self.lda();
        self.tax();
        proof { crate::cpu::lemma_status_ub(); }
    }

    /// Store the AND of accumulator and X.
    pub fn sax(&mut self)
        requires
            old(self).wf(),
        ensures
            final(self).wf(),
            spec_same_counters(&final(self).bus.ppu, &old(self).bus.ppu),
            old(self).bus.ppu.nmi ==> final(self).bus.ppu.nmi,
            final(self).status == old(self).status,
            final(self).instr == old(self).instr,
            final(self).pc == old(self).pc,
            final(self).sp == old(self).sp,
            final(self).x == old(self).x,
            final(self).y == old(self).y,
            final(self).rel_addr == old(self).rel_addr,
            final(self).nmi == old(self).nmi,
            final(self).corrupted == old(self).corrupted,
            old(self).instr.1 != AddrMode::IMP && old(self).instr.1 != AddrMode::ACC && old(self).instr.1 != AddrMode::IMM && old(self).instr.1 != AddrMode::IDY ==> *final(self)
                == (CPU {
                clock_count: final(self).clock_count,
                bus: final(self).bus,
                ..*old(self)
            }) && spec_bus_write(
                &old(self).bus,
                &final(self).bus,
                old(self).abs_addr,
                old(self).a & old(self).x,
            ),
            old(self).instr.1 == AddrMode::IMP || old(self).instr.1 == AddrMode::ACC
                ==> *final(self) == (CPU {
                a: old(self).a & old(self).x,
                fetched_data: final(self).fetched_data,
                ..*old(self)
            }),
    {
        if self.instr.addr_mode() == AddrMode::IDY {
            self.fetch_data();
        }
        let val = self.a & self.x;
        self.write_fetched(val);
    }

    pub fn xxx(&mut self)
        ensures
            *final(self) == (CPU { corrupted: true, ..*old(self) }),
    {
        self.corrupted = true;
    }
}

impl CPU {
    //
    // read-modify-write operations: the original byte is written back
    // before the modified byte, as the hardware does
    //

    pub fn lsr(&mut self)
        requires
            old(self).wf(),
        ensures
            final(self).wf(),
            spec_same_counters(&final(self).bus.ppu, &old(self).bus.ppu),
            old(self).bus.ppu.nmi ==> final(self).bus.ppu.nmi,
            crate::cpu::spec_operand_byte(old(self), final(self)),
            ({
                let fd = final(self).fetched_data;
                let val = fd >> 1;
                &&& final(self).status == spec_zn(
                    spec_set_flag(old(self).status, FLAG_C, fd & 1 != 0),
                    val,
                )
                &&& (old(self).instr.1 == AddrMode::IMP || old(self).instr.1
                    == AddrMode::ACC ==> fd == old(self).a && *final(self) == (CPU {
                    a: val,
                    status: final(self).status,
                    fetched_data: fd,
                    ..*old(self)
                }))
                &&& (old(self).instr.1 != AddrMode::IMP && old(self).instr.1
                    != AddrMode::ACC ==> *final(self) == (CPU {
                    status: final(self).status,
                    fetched_data: fd,
                    clock_count: final(self).clock_count,
                    bus: final(self).bus,
                    ..*old(self)
                }))
                &&& (old(self).instr.1 != AddrMode::IMP && old(self).instr.1
                    != AddrMode::ACC && old(self).instr.1 != AddrMode::IMM && old(self).abs_addr <= 0x1FFF ==> final(self).bus.memory.bytes@ == old(self).bus.memory.bytes@.update((old(self).abs_addr & 0x07FF) as int, val))
                &&& (old(self).instr.1 != AddrMode::IMP && old(self).instr.1
                    != AddrMode::ACC && old(self).instr.1 != AddrMode::IMM && old(self).abs_addr >= 0x8000 ==> final(self).bus.memory == old(self).bus.memory && (if old(self).bus.cartridge.spec_prg_offset(old(self).abs_addr) < old(self).bus.cartridge.v_prg_memory@.len() {
                        final(self).bus.cartridge.v_prg_memory@ == old(self).bus.cartridge.v_prg_memory@.update(old(self).bus.cartridge.spec_prg_offset(old(self).abs_addr), val)
                    } else {
                        final(self).bus.cartridge.v_prg_memory@ == old(self).bus.cartridge.v_prg_memory@
                    }))
            }),
            spec_keeps_ub(old(self).status, final(self).status),
    {
        self.fetch_data();
        self.write_fetched(self.fetched_data);
        self.set_flag(FLAG_C, self.fetched_data & 1 != 0);
        let val = self.fetched_data >> 1;
        self.set_zn_status(val);
        proof {
            crate::cpu::lemma_status_ub();
            crate::bitmath::lemma_u16_mask_bounds(old(self).abs_addr);
            if old(self).wf() && old(self).abs_addr <= 0x1FFF {
                crate::cpu::lemma_overwrite(
                    old(self).bus.memory.bytes@,
                    (old(self).abs_addr & 0x07FF) as int,
                    self.fetched_data,
                    val,
                );
            }
            if old(self).wf() && old(self).abs_addr >= 0x8000
                && old(self).bus.cartridge.spec_prg_offset(old(self).abs_addr)
                < old(self).bus.cartridge.v_prg_memory@.len() {
                crate::cpu::lemma_overwrite(
                    old(self).bus.cartridge.v_prg_memory@,
                    old(self).bus.cartridge.spec_prg_offset(old(self).abs_addr),
                    self.fetched_data,
                    val,
                );
            }
        }
        self.write_fetched(val);
    }

    pub fn asl(&mut self)
        requires
            old(self).wf(),
        ensures
            final(self).wf(),
            spec_same_counters(&final(self).bus.ppu, &old(self).bus.ppu),
            old(self).bus.ppu.nmi ==> final(self).bus.ppu.nmi,
            crate::cpu::spec_operand_byte(old(self), final(self)),
            ({
                let fd = final(self).fetched_data;
                let val = fd << 1;
                &&& final(self).status == spec_zn(
                    spec_set_flag(old(self).status, FLAG_C, (fd >> 7) & 1 != 0),
                    val,
                )
                &&& (old(self).instr.1 == AddrMode::IMP || old(self).instr.1
                    == AddrMode::ACC ==> fd == old(self).a && *final(self) == (CPU {
                    a: val,
                    status: final(self).status,
                    fetched_data: fd,
                    ..*old(self)
                }))
                &&& (old(self).instr.1 != AddrMode::IMP && old(self).instr.1
                    != AddrMode::ACC ==> *final(self) == (CPU {
                    status: final(self).status,
                    fetched_data: fd,
                    clock_count: final(self).clock_count,
                    bus: final(self).bus,
                    ..*old(self)
                }))
                &&& (old(self).instr.1 != AddrMode::IMP && old(self).instr.1
                    != AddrMode::ACC && old(self).instr.1 != AddrMode::IMM && old(self).abs_addr <= 0x1FFF ==> final(self).bus.memory.bytes@ == old(self).bus.memory.bytes@.update((old(self).abs_addr & 0x07FF) as int, val))
                &&& (old(self).instr.1 != AddrMode::IMP && old(self).instr.1
                    != AddrMode::ACC && old(self).instr.1 != AddrMode::IMM && old(self).abs_addr >= 0x8000 ==> final(self).bus.memory == old(self).bus.memory && (if old(self).bus.cartridge.spec_prg_offset(old(self).abs_addr) < old(self).bus.cartridge.v_prg_memory@.len() {
                        final(self).bus.cartridge.v_prg_memory@ == old(self).bus.cartridge.v_prg_memory@.update(old(self).bus.cartridge.spec_prg_offset(old(self).abs_addr), val)
                    } else {
                        final(self).bus.cartridge.v_prg_memory@ == old(self).bus.cartridge.v_prg_memory@
                    }))
            }),
            spec_keeps_ub(old(self).status, final(self).status),
    {
        self.fetch_data();
        self.write_fetched(self.fetched_data);
        self.set_flag(FLAG_C, (self.fetched_data >> 7) & 1 != 0);
        let val = self.fetched_data << 1;
        self.set_zn_status(val);
        proof {
            crate::cpu::lemma_status_ub();
            crate::bitmath::lemma_u16_mask_bounds(old(self).abs_addr);
            if old(self).wf() && old(self).abs_addr <= 0x1FFF {
                crate::cpu::lemma_overwrite(
                    old(self).bus.memory.bytes@,
                    (old(self).abs_addr & 0x07FF) as int,
                    self.fetched_data,
                    val,
                );
            }
            if old(self).wf() && old(self).abs_addr >= 0x8000
                && old(self).bus.cartridge.spec_prg_offset(old(self).abs_addr)
                < old(self).bus.cartridge.v_prg_memory@.len() {
                crate::cpu::lemma_overwrite(
                    old(self).bus.cartridge.v_prg_memory@,
                    old(self).bus.cartridge.spec_prg_offset(old(self).abs_addr),
                    self.fetched_data,
                    val,
                );
            }
        }
        self.write_fetched(val);
    }

    pub fn ror(&mut self)
        requires
            old(self).wf(),
        ensures
            final(self).wf(),
            spec_same_counters(&final(self).bus.ppu, &old(self).bus.ppu),
            old(self).bus.ppu.nmi ==> final(self).bus.ppu.nmi,
            crate::cpu::spec_operand_byte(old(self), final(self)),
            ({
                let fd = final(self).fetched_data;
                let val = if old(self).status & FLAG_C != 0 {
                    (fd >> 1) | 0x80
                } else {
                    fd >> 1
                };
                &&& final(self).status == spec_zn(
                    spec_set_flag(old(self).status, FLAG_C, fd & 1 != 0),
                    val,
                )
                &&& (old(self).instr.1 == AddrMode::IMP || old(self).instr.1
                    == AddrMode::ACC ==> fd == old(self).a && *final(self) == (CPU {
                    a: val,
                    status: final(self).status,
                    fetched_data: fd,
                    ..*old(self)
                }))
                &&& (old(self).instr.1 != AddrMode::IMP && old(self).instr.1
                    != AddrMode::ACC ==> *final(self) == (CPU {
                    status: final(self).status,
                    fetched_data: fd,
                    clock_count: final(self).clock_count,
                    bus: final(self).bus,
                    ..*old(self)
                }))
                &&& (old(self).instr.1 != AddrMode::IMP && old(self).instr.1
                    != AddrMode::ACC && old(self).instr.1 != AddrMode::IMM && old(self).abs_addr <= 0x1FFF ==> final(self).bus.memory.bytes@ == old(self).bus.memory.bytes@.update((old(self).abs_addr & 0x07FF) as int, val))
                &&& (old(self).instr.1 != AddrMode::IMP && old(self).instr.1
                    != AddrMode::ACC && old(self).instr.1 != AddrMode::IMM && old(self).abs_addr >= 0x8000 ==> final(self).bus.memory == old(self).bus.memory && (if old(self).bus.cartridge.spec_prg_offset(old(self).abs_addr) < old(self).bus.cartridge.v_prg_memory@.len() {
                        final(self).bus.cartridge.v_prg_memory@ == old(self).bus.cartridge.v_prg_memory@.update(old(self).bus.cartridge.spec_prg_offset(old(self).abs_addr), val)
                    } else {
                        final(self).bus.cartridge.v_prg_memory@ == old(self).bus.cartridge.v_prg_memory@
                    }))
            }),
            spec_keeps_ub(old(self).status, final(self).status),
    {
        self.fetch_data();
        self.write_fetched(self.fetched_data);
        let carry_in = self.status_bit(FLAG_C);
        let val = if carry_in != 0 {
            (self.fetched_data >> 1) | 0x80
        } else {
            self.fetched_data >> 1
        };
        self.set_flag(FLAG_C, self.fetched_data & 1 != 0);
        self.set_zn_status(val);
        proof {
            crate::cpu::lemma_status_ub();
            crate::bitmath::lemma_u16_mask_bounds(old(self).abs_addr);
            if old(self).wf() && old(self).abs_addr <= 0x1FFF {
                crate::cpu::lemma_overwrite(
                    old(self).bus.memory.bytes@,
                    (old(self).abs_addr & 0x07FF) as int,
                    self.fetched_data,
                    val,
                );
            }
            if old(self).wf() && old(self).abs_addr >= 0x8000
                && old(self).bus.cartridge.spec_prg_offset(old(self).abs_addr)
                < old(self).bus.cartridge.v_prg_memory@.len() {
                crate::cpu::lemma_overwrite(
                    old(self).bus.cartridge.v_prg_memory@,
                    old(self).bus.cartridge.spec_prg_offset(old(self).abs_addr),
                    self.fetched_data,
                    val,
                );
            }
        }
        self.write_fetched(val);
    }

    pub fn rol(&mut self)
        requires
            old(self).wf(),
        ensures
            final(self).wf(),
            spec_same_counters(&final(self).bus.ppu, &old(self).bus.ppu),
            old(self).bus.ppu.nmi ==> final(self).bus.ppu.nmi,
            crate::cpu::spec_operand_byte(old(self), final(self)),
            ({
                let fd = final(self).fetched_data;
                let val = (fd << 1) | (old(self).status & FLAG_C);
                &&& final(self).status == spec_zn(
                    spec_set_flag(old(self).status, FLAG_C, (fd >> 7) & 1 != 0),
                    val,
                )
                &&& (old(self).instr.1 == AddrMode::IMP || old(self).instr.1
                    == AddrMode::ACC ==> fd == old(self).a && *final(self) == (CPU {
                    a: val,
                    status: final(self).status,
                    fetched_data: fd,
                    ..*old(self)
                }))
                &&& (old(self).instr.1 != AddrMode::IMP && old(self).instr.1
                    != AddrMode::ACC ==> *final(self) == (CPU {
                    status: final(self).status,
                    fetched_data: fd,
                    clock_count: final(self).clock_count,
                    bus: final(self).bus,
                    ..*old(self)
                }))
                &&& (old(self).instr.1 != AddrMode::IMP && old(self).instr.1
                    != AddrMode::ACC && old(self).instr.1 != AddrMode::IMM && old(self).abs_addr <= 0x1FFF ==> final(self).bus.memory.bytes@ == old(self).bus.memory.bytes@.update((old(self).abs_addr & 0x07FF) as int, val))
                &&& (old(self).instr.1 != AddrMode::IMP && old(self).instr.1
                    != AddrMode::ACC && old(self).instr.1 != AddrMode::IMM && old(self).abs_addr >= 0x8000 ==> final(self).bus.memory == old(self).bus.memory && (if old(self).bus.cartridge.spec_prg_offset(old(self).abs_addr) < old(self).bus.cartridge.v_prg_memory@.len() {
                        final(self).bus.cartridge.v_prg_memory@ == old(self).bus.cartridge.v_prg_memory@.update(old(self).bus.cartridge.spec_prg_offset(old(self).abs_addr), val)
                    } else {
                        final(self).bus.cartridge.v_prg_memory@ == old(self).bus.cartridge.v_prg_memory@
                    }))
            }),
            spec_keeps_ub(old(self).status, final(self).status),
    {
        self.fetch_data();
        self.write_fetched(self.fetched_data);
        let old_c = self.status_bit(FLAG_C);
        self.set_flag(FLAG_C, (self.fetched_data >> 7) & 1 != 0);
        let val = (self.fetched_data << 1) | old_c;
        self.set_zn_status(val);
        proof {
            crate::cpu::lemma_status_ub();
            crate::bitmath::lemma_u16_mask_bounds(old(self).abs_addr);
            if old(self).wf() && old(self).abs_addr <= 0x1FFF {
                crate::cpu::lemma_overwrite(
                    old(self).bus.memory.bytes@,
                    (old(self).abs_addr & 0x07FF) as int,
                    self.fetched_data,
                    val,
                );
            }
            if old(self).wf() && old(self).abs_addr >= 0x8000
                && old(self).bus.cartridge.spec_prg_offset(old(self).abs_addr)
                < old(self).bus.cartridge.v_prg_memory@.len() {
                crate::cpu::lemma_overwrite(
                    old(self).bus.cartridge.v_prg_memory@,
                    old(self).bus.cartridge.spec_prg_offset(old(self).abs_addr),
                    self.fetched_data,
                    val,
                );
            }
        }
        self.write_fetched(val);
    }

    pub fn inc(&mut self)
        requires
            old(self).wf(),
        ensures
            final(self).wf(),
            spec_same_counters(&final(self).bus.ppu, &old(self).bus.ppu),
            old(self).bus.ppu.nmi ==> final(self).bus.ppu.nmi,
            crate::cpu::spec_operand_byte(old(self), final(self)),
            ({
                let fd = final(self).fetched_data;
                let val = u8_specs::wrapping_add(fd, 1);
                &&& final(self).status == spec_zn(old(self).status, val)
                &&& (old(self).instr.1 == AddrMode::IMP || old(self).instr.1
                    == AddrMode::ACC ==> fd == old(self).a && *final(self) == (CPU {
                    a: val,
                    status: final(self).status,
                    fetched_data: fd,
                    ..*old(self)
                }))
                &&& (old(self).instr.1 != AddrMode::IMP && old(self).instr.1
                    != AddrMode::ACC ==> *final(self) == (CPU {
                    status: final(self).status,
                    fetched_data: fd,
                    clock_count: final(self).clock_count,
                    bus: final(self).bus,
                    ..*old(self)
                }))
                &&& (old(self).instr.1 != AddrMode::IMP && old(self).instr.1
                    != AddrMode::ACC && old(self).instr.1 != AddrMode::IMM && old(self).abs_addr <= 0x1FFF ==> final(self).bus.memory.bytes@ == old(self).bus.memory.bytes@.update((old(self).abs_addr & 0x07FF) as int, val))
                &&& (old(self).instr.1 != AddrMode::IMP && old(self).instr.1
                    != AddrMode::ACC && old(self).instr.1 != AddrMode::IMM && old(self).abs_addr >= 0x8000 ==> final(self).bus.memory == old(self).bus.memory && (if old(self).bus.cartridge.spec_prg_offset(old(self).abs_addr) < old(self).bus.cartridge.v_prg_memory@.len() {
                        final(self).bus.cartridge.v_prg_memory@ == old(self).bus.cartridge.v_prg_memory@.update(old(self).bus.cartridge.spec_prg_offset(old(self).abs_addr), val)
                    } else {
                        final(self).bus.cartridge.v_prg_memory@ == old(self).bus.cartridge.v_prg_memory@
                    }))
            }),
            spec_keeps_ub(old(self).status, final(self).status),
    {
        self.fetch_data();
        self.write_fetched(self.fetched_data);
        let val = self.fetched_data.wrapping_add(1);
        self.set_zn_status(val);
        proof {
            crate::cpu::lemma_status_ub();
            crate::bitmath::lemma_u16_mask_bounds(old(self).abs_addr);
            if old(self).wf() && old(self).abs_addr <= 0x1FFF {
                crate::cpu::lemma_overwrite(
                    old(self).bus.memory.bytes@,
                    (old(self).abs_addr & 0x07FF) as int,
                    self.fetched_data,
                    val,
                );
            }
            if old(self).wf() && old(self).abs_addr >= 0x8000
                && old(self).bus.cartridge.spec_prg_offset(old(self).abs_addr)
                < old(self).bus.cartridge.v_prg_memory@.len() {
                crate::cpu::lemma_overwrite(
                    old(self).bus.cartridge.v_prg_memory@,
                    old(self).bus.cartridge.spec_prg_offset(old(self).abs_addr),
                    self.fetched_data,
                    val,
                );
            }
        }
        self.write_fetched(val);
    }

    pub fn dec(&mut self)
        requires
            old(self).wf(),
        ensures
            final(self).wf(),
            spec_same_counters(&final(self).bus.ppu, &old(self).bus.ppu),
            old(self).bus.ppu.nmi ==> final(self).bus.ppu.nmi,
            crate::cpu::spec_operand_byte(old(self), final(self)),
            ({
                let fd = final(self).fetched_data;
                let val = u8_specs::wrapping_sub(fd, 1);
                &&& final(self).status == spec_zn(old(self).status, val)
                &&& (old(self).instr.1 == AddrMode::IMP || old(self).instr.1
                    == AddrMode::ACC ==> fd == old(self).a && *final(self) == (CPU {
                    a: val,
                    status: final(self).status,
                    fetched_data: fd,
                    ..*old(self)
                }))
                &&& (old(self).instr.1 != AddrMode::IMP && old(self).instr.1
                    != AddrMode::ACC ==> *final(self) == (CPU {
                    status: final(self).status,
                    fetched_data: fd,
                    clock_count: final(self).clock_count,
                    bus: final(self).bus,
                    ..*old(self)
                }))
                &&& (old(self).instr.1 != AddrMode::IMP && old(self).instr.1
                    != AddrMode::ACC && old(self).instr.1 != AddrMode::IMM && old(self).abs_addr <= 0x1FFF ==> final(self).bus.memory.bytes@ == old(self).bus.memory.bytes@.update((old(self).abs_addr & 0x07FF) as int, val))
                &&& (old(self).instr.1 != AddrMode::IMP && old(self).instr.1
                    != AddrMode::ACC && old(self).instr.1 != AddrMode::IMM && old(self).abs_addr >= 0x8000 ==> final(self).bus.memory == old(self).bus.memory && (if old(self).bus.cartridge.spec_prg_offset(old(self).abs_addr) < old(self).bus.cartridge.v_prg_memory@.len() {
                        final(self).bus.cartridge.v_prg_memory@ == old(self).bus.cartridge.v_prg_memory@.update(old(self).bus.cartridge.spec_prg_offset(old(self).abs_addr), val)
                    } else {
                        final(self).bus.cartridge.v_prg_memory@ == old(self).bus.cartridge.v_prg_memory@
                    }))
            }),
            spec_keeps_ub(old(self).status, final(self).status),
    {
        self.fetch_data();
        self.write_fetched(self.fetched_data);
        let val = self.fetched_data.wrapping_sub(1);
        self.set_zn_status(val);
        proof {
            crate::cpu::lemma_status_ub();
            crate::bitmath::lemma_u16_mask_bounds(old(self).abs_addr);
            if old(self).wf() && old(self).abs_addr <= 0x1FFF {
                crate::cpu::lemma_overwrite(
                    old(self).bus.memory.bytes@,
                    (old(self).abs_addr & 0x07FF) as int,
                    self.fetched_data,
                    val,
                );
            }
            if old(self).wf() && old(self).abs_addr >= 0x8000
                && old(self).bus.cartridge.spec_prg_offset(old(self).abs_addr)
                < old(self).bus.cartridge.v_prg_memory@.len() {
                crate::cpu::lemma_overwrite(
                    old(self).bus.cartridge.v_prg_memory@,
                    old(self).bus.cartridge.spec_prg_offset(old(self).abs_addr),
                    self.fetched_data,
                    val,
                );
            }
        }
        self.write_fetched(val);
    }

    /// Decrement memory then compare it against the accumulator.
    pub fn dcp(&mut self)
        requires
            old(self).wf(),
        ensures
            final(self).wf(),
            spec_same_counters(&final(self).bus.ppu, &old(self).bus.ppu),
            old(self).bus.ppu.nmi ==> final(self).bus.ppu.nmi,
            crate::cpu::spec_operand_byte(old(self), final(self)),
            ({
                let fd = final(self).fetched_data;
                let val = u8_specs::wrapping_sub(fd, 1);
                &&& final(self).status == spec_set_flag(
                    spec_zn(old(self).status, u8_specs::wrapping_sub(old(self).a, val)),
                    FLAG_C,
                    old(self).a >= val,
                )
                &&& (old(self).instr.1 == AddrMode::IMP || old(self).instr.1
                    == AddrMode::ACC ==> fd == old(self).a && *final(self) == (CPU {
                    a: val,
                    status: final(self).status,
                    fetched_data: fd,
                    ..*old(self)
                }))
                &&& (old(self).instr.1 != AddrMode::IMP && old(self).instr.1
                    != AddrMode::ACC ==> *final(self) == (CPU {
                    status: final(self).status,
                    fetched_data: fd,
                    clock_count: final(self).clock_count,
                    bus: final(self).bus,
                    ..*old(self)
                }))
                &&& (old(self).instr.1 != AddrMode::IMP && old(self).instr.1
                    != AddrMode::ACC && old(self).instr.1 != AddrMode::IMM && old(self).abs_addr <= 0x1FFF ==> final(self).bus.memory.bytes@ == old(self).bus.memory.bytes@.update((old(self).abs_addr & 0x07FF) as int, val))
                &&& (old(self).instr.1 != AddrMode::IMP && old(self).instr.1
                    != AddrMode::ACC && old(self).instr.1 != AddrMode::IMM && old(self).abs_addr >= 0x8000 ==> final(self).bus.memory == old(self).bus.memory && (if old(self).bus.cartridge.spec_prg_offset(old(self).abs_addr) < old(self).bus.cartridge.v_prg_memory@.len() {
                        final(self).bus.cartridge.v_prg_memory@ == old(self).bus.cartridge.v_prg_memory@.update(old(self).bus.cartridge.spec_prg_offset(old(self).abs_addr), val)
                    } else {
                        final(self).bus.cartridge.v_prg_memory@ == old(self).bus.cartridge.v_prg_memory@
                    }))
            }),
            spec_keeps_ub(old(self).status, final(self).status),
    {
        self.fetch_data();
        self.write_fetched(self.fetched_data);
        let val = self.fetched_data.wrapping_sub(1);
        self.compare(self.a, val);
        proof {
            crate::bitmath::lemma_u16_mask_bounds(old(self).abs_addr);
            if old(self).wf() && old(self).abs_addr <= 0x1FFF {
                crate::cpu::lemma_overwrite(
                    old(self).bus.memory.bytes@,
                    (old(self).abs_addr & 0x07FF) as int,
                    self.fetched_data,
                    val,
                );
            }
            if old(self).wf() && old(self).abs_addr >= 0x8000
                && old(self).bus.cartridge.spec_prg_offset(old(self).abs_addr)
                < old(self).bus.cartridge.v_prg_memory@.len() {
                crate::cpu::lemma_overwrite(
                    old(self).bus.cartridge.v_prg_memory@,
                    old(self).bus.cartridge.spec_prg_offset(old(self).abs_addr),
                    self.fetched_data,
                    val,
                );
            }
        }
        self.write_fetched(val);
    }

    /// Increment memory then subtract it from the accumulator.
    pub fn isb(&mut self)
        requires
            old(self).wf(),
        ensures
            final(self).wf(),
            spec_same_counters(&final(self).bus.ppu, &old(self).bus.ppu),
            old(self).bus.ppu.nmi ==> final(self).bus.ppu.nmi,
            crate::cpu::spec_operand_byte(old(self), final(self)),
            ({
                let fd = final(self).fetched_data;
                let val = u8_specs::wrapping_add(fd, 1);
                let m = !val;
                let sum = ((old(self).a + m + (old(self).status & FLAG_C)) as u16);
                &&& (old(self).instr.1 != AddrMode::IMP && old(self).instr.1
                    != AddrMode::ACC ==> final(self).a == (sum & 0x00FF) as u8 && final(self).status == spec_zn(
                    spec_set_flag(
                        spec_set_flag(old(self).status, FLAG_C, sum > 0xFF),
                        FLAG_V,
                        (old(self).a ^ m) & 0x80 == 0 && (old(self).a ^ final(self).a)
                            & 0x80 != 0,
                    ),
                    final(self).a,
                ))
                &&& (old(self).instr.1 != AddrMode::IMP && old(self).instr.1
                    != AddrMode::ACC && old(self).instr.1 != AddrMode::IMM && old(self).abs_addr <= 0x1FFF ==> final(self).bus.memory.bytes@ == old(self).bus.memory.bytes@.update((old(self).abs_addr & 0x07FF) as int, val))
                &&& (old(self).instr.1 != AddrMode::IMP && old(self).instr.1
                    != AddrMode::ACC && old(self).instr.1 != AddrMode::IMM && old(self).abs_addr >= 0x8000 ==> final(self).bus.memory == old(self).bus.memory && (if old(self).bus.cartridge.spec_prg_offset(old(self).abs_addr) < old(self).bus.cartridge.v_prg_memory@.len() {
                        final(self).bus.cartridge.v_prg_memory@ == old(self).bus.cartridge.v_prg_memory@.update(old(self).bus.cartridge.spec_prg_offset(old(self).abs_addr), val)
                    } else {
                        final(self).bus.cartridge.v_prg_memory@ == old(self).bus.cartridge.v_prg_memory@
                    }))
                &&& (old(self).instr.1 != AddrMode::IMP && old(self).instr.1
                    != AddrMode::ACC ==> *final(self) == (CPU {
                    a: final(self).a,
                    status: final(self).status,
                    fetched_data: fd,
                    clock_count: final(self).clock_count,
                    bus: final(self).bus,
                    ..*old(self)
                }))
            }),
            spec_keeps_ub(old(self).status, final(self).status),
            final(self).instr == old(self).instr,
            final(self).pc == old(self).pc,
            final(self).sp == old(self).sp,
            final(self).rel_addr == old(self).rel_addr,
            final(self).nmi == old(self).nmi,
            final(self).corrupted == old(self).corrupted,
    {
        self.fetch_data();
        self.write_fetched(self.fetched_data);
        let val = self.fetched_data.wrapping_add(1);
        let a = self.a;
        let m = !val;
        let c = self.status_bit(FLAG_C);
        let sum: u16 = (a as u16) + (m as u16) + (c as u16);
        self.a = (sum & 0x00FF) as u8;
        self.set_flag(FLAG_C, sum > 0xFF);
        self.set_flag(FLAG_V, (a ^ m) & 0x80 == 0 && (a ^ self.a) & 0x80 != 0);
        self.set_zn_status(self.a);
        proof {
            crate::cpu::lemma_status_ub();
            crate::bitmath::lemma_u16_mask_bounds(old(self).abs_addr);
            if old(self).wf() && old(self).abs_addr <= 0x1FFF {
                crate::cpu::lemma_overwrite(
                    old(self).bus.memory.bytes@,
                    (old(self).abs_addr & 0x07FF) as int,
                    self.fetched_data,
                    val,
                );
            }
            if old(self).wf() && old(self).abs_addr >= 0x8000
                && old(self).bus.cartridge.spec_prg_offset(old(self).abs_addr)
                < old(self).bus.cartridge.v_prg_memory@.len() {
                crate::cpu::lemma_overwrite(
                    old(self).bus.cartridge.v_prg_memory@,
                    old(self).bus.cartridge.spec_prg_offset(old(self).abs_addr),
                    self.fetched_data,
                    val,
                );
            }
        }
        self.write_fetched(val);
    }

    /// Shift memory left then OR it into the accumulator.
    pub fn slo(&mut self)
        requires
            old(self).wf(),
        ensures
            final(self).wf(),
            spec_same_counters(&final(self).bus.ppu, &old(self).bus.ppu),
            old(self).bus.ppu.nmi ==> final(self).bus.ppu.nmi,
            crate::cpu::spec_operand_byte(old(self), final(self)),
            ({
                let fd = final(self).fetched_data;
                let val = fd << 1;
                &&& (old(self).instr.1 != AddrMode::IMP && old(self).instr.1
                    != AddrMode::ACC ==> final(self).a == (old(self).a | val)
                    && final(self).status == spec_zn(
                    spec_set_flag(old(self).status, FLAG_C, (fd >> 7) & 1 != 0),
                    final(self).a,
                ))
                &&& (old(self).instr.1 != AddrMode::IMP && old(self).instr.1
                    != AddrMode::ACC && old(self).instr.1 != AddrMode::IMM && old(self).abs_addr <= 0x1FFF ==> final(self).bus.memory.bytes@ == old(self).bus.memory.bytes@.update((old(self).abs_addr & 0x07FF) as int, val))
                &&& (old(self).instr.1 != AddrMode::IMP && old(self).instr.1
                    != AddrMode::ACC && old(self).instr.1 != AddrMode::IMM && old(self).abs_addr >= 0x8000 ==> final(self).bus.memory == old(self).bus.memory && (if old(self).bus.cartridge.spec_prg_offset(old(self).abs_addr) < old(self).bus.cartridge.v_prg_memory@.len() {
                        final(self).bus.cartridge.v_prg_memory@ == old(self).bus.cartridge.v_prg_memory@.update(old(self).bus.cartridge.spec_prg_offset(old(self).abs_addr), val)
                    } else {
                        final(self).bus.cartridge.v_prg_memory@ == old(self).bus.cartridge.v_prg_memory@
                    }))
                &&& (old(self).instr.1 != AddrMode::IMP && old(self).instr.1
                    != AddrMode::ACC ==> *final(self) == (CPU {
                    a: final(self).a,
                    status: final(self).status,
                    fetched_data: fd,
                    clock_count: final(self).clock_count,
                    bus: final(self).bus,
                    ..*old(self)
                }))
            }),
            spec_keeps_ub(old(self).status, final(self).status),
            final(self).instr == old(self).instr,
            final(self).pc == old(self).pc,
            final(self).sp == old(self).sp,
            final(self).rel_addr == old(self).rel_addr,
            final(self).nmi == old(self).nmi,
            final(self).corrupted == old(self).corrupted,
    {
        self.fetch_data();
        self.write_fetched(self.fetched_data);
        self.set_flag(FLAG_C, (self.fetched_data >> 7) & 1 != 0);
        let val = self.fetched_data << 1;
        proof {
            crate::bitmath::lemma_u16_mask_bounds(old(self).abs_addr);
            if old(self).wf() && old(self).abs_addr <= 0x1FFF {
                crate::cpu::lemma_overwrite(
                    old(self).bus.memory.bytes@,
                    (old(self).abs_addr & 0x07FF) as int,
                    self.fetched_data,
                    val,
                );
            }
            if old(self).wf() && old(self).abs_addr >= 0x8000
                && old(self).bus.cartridge.spec_prg_offset(old(self).abs_addr)
                < old(self).bus.cartridge.v_prg_memory@.len() {
                crate::cpu::lemma_overwrite(
                    old(self).bus.cartridge.v_prg_memory@,
                    old(self).bus.cartridge.spec_prg_offset(old(self).abs_addr),
                    self.fetched_data,
                    val,
                );
            }
        }
        self.write_fetched(val);
        self.a = self.a | val;
        self.set_zn_status(self.a);
        proof { crate::cpu::lemma_status_ub(); }
    }

    /// Rotate memory left then AND it into the accumulator.
    pub fn rla(&mut self)
        requires
            old(self).wf(),
        ensures
            final(self).wf(),
            spec_same_counters(&final(self).bus.ppu, &old(self).bus.ppu),
            old(self).bus.ppu.nmi ==> final(self).bus.ppu.nmi,
            crate::cpu::spec_operand_byte(old(self), final(self)),
            ({
                let fd = final(self).fetched_data;
                let val = (fd << 1) | (old(self).status & FLAG_C);
                &&& (old(self).instr.1 != AddrMode::IMP && old(self).instr.1
                    != AddrMode::ACC ==> final(self).a == (old(self).a & val)
                    && final(self).status == spec_zn(
                    spec_set_flag(old(self).status, FLAG_C, (fd >> 7) & 1 != 0),
                    final(self).a,
                ))
                &&& (old(self).instr.1 != AddrMode::IMP && old(self).instr.1
                    != AddrMode::ACC && old(self).instr.1 != AddrMode::IMM && old(self).abs_addr <= 0x1FFF ==> final(self).bus.memory.bytes@ == old(self).bus.memory.bytes@.update((old(self).abs_addr & 0x07FF) as int, val))
                &&& (old(self).instr.1 != AddrMode::IMP && old(self).instr.1
                    != AddrMode::ACC && old(self).instr.1 != AddrMode::IMM && old(self).abs_addr >= 0x8000 ==> final(self).bus.memory == old(self).bus.memory && (if old(self).bus.cartridge.spec_prg_offset(old(self).abs_addr) < old(self).bus.cartridge.v_prg_memory@.len() {
                        final(self).bus.cartridge.v_prg_memory@ == old(self).bus.cartridge.v_prg_memory@.update(old(self).bus.cartridge.spec_prg_offset(old(self).abs_addr), val)
                    } else {
                        final(self).bus.cartridge.v_prg_memory@ == old(self).bus.cartridge.v_prg_memory@
                    }))
                &&& (old(self).instr.1 != AddrMode::IMP && old(self).instr.1
                    != AddrMode::ACC ==> *final(self) == (CPU {
                    a: final(self).a,
                    status: final(self).status,
                    fetched_data: fd,
                    clock_count: final(self).clock_count,
                    bus: final(self).bus,
                    ..*old(self)
                }))
            }),
            spec_keeps_ub(old(self).status, final(self).status),
            final(self).instr == old(self).instr,
            final(self).pc == old(self).pc,
            final(self).sp == old(self).sp,
            final(self).rel_addr == old(self).rel_addr,
            final(self).nmi == old(self).nmi,
            final(self).corrupted == old(self).corrupted,
    {
        self.fetch_data();
        self.write_fetched(self.fetched_data);
        let old_c = self.status_bit(FLAG_C);
        self.set_flag(FLAG_C, (self.fetched_data >> 7) & 1 != 0);
        let val = (self.fetched_data << 1) | old_c;
        self.a = self.a & val;
        self.set_zn_status(self.a);
        proof {
            crate::cpu::lemma_status_ub();
            crate::bitmath::lemma_u16_mask_bounds(old(self).abs_addr);
            if old(self).wf() && old(self).abs_addr <= 0x1FFF {
                crate::cpu::lemma_overwrite(
                    old(self).bus.memory.bytes@,
                    (old(self).abs_addr & 0x07FF) as int,
                    self.fetched_data,
                    val,
                );
            }
            if old(self).wf() && old(self).abs_addr >= 0x8000
                && old(self).bus.cartridge.spec_prg_offset(old(self).abs_addr)
                < old(self).bus.cartridge.v_prg_memory@.len() {
                crate::cpu::lemma_overwrite(
                    old(self).bus.cartridge.v_prg_memory@,
                    old(self).bus.cartridge.spec_prg_offset(old(self).abs_addr),
                    self.fetched_data,
                    val,
                );
            }
        }
        self.write_fetched(val);
    }

    /// Shift memory right then XOR it into the accumulator.
    pub fn sre(&mut self)
        requires
            old(self).wf(),
        ensures
            final(self).wf(),
            spec_same_counters(&final(self).bus.ppu, &old(self).bus.ppu),
            old(self).bus.ppu.nmi ==> final(self).bus.ppu.nmi,
            crate::cpu::spec_operand_byte(old(self), final(self)),
            ({
                let fd = final(self).fetched_data;
                let val = fd >> 1;
                &&& (old(self).instr.1 != AddrMode::IMP && old(self).instr.1
                    != AddrMode::ACC ==> final(self).a == (old(self).a ^ val)
                    && final(self).status == spec_zn(
                    spec_set_flag(old(self).status, FLAG_C, fd & 1 != 0),
                    final(self).a,
                ))
                &&& (old(self).instr.1 != AddrMode::IMP && old(self).instr.1
                    != AddrMode::ACC && old(self).instr.1 != AddrMode::IMM && old(self).abs_addr <= 0x1FFF ==> final(self).bus.memory.bytes@ == old(self).bus.memory.bytes@.update((old(self).abs_addr & 0x07FF) as int, val))
                &&& (old(self).instr.1 != AddrMode::IMP && old(self).instr.1
                    != AddrMode::ACC && old(self).instr.1 != AddrMode::IMM && old(self).abs_addr >= 0x8000 ==> final(self).bus.memory == old(self).bus.memory && (if old(self).bus.cartridge.spec_prg_offset(old(self).abs_addr) < old(self).bus.cartridge.v_prg_memory@.len() {
                        final(self).bus.cartridge.v_prg_memory@ == old(self).bus.cartridge.v_prg_memory@.update(old(self).bus.cartridge.spec_prg_offset(old(self).abs_addr), val)
                    } else {
                        final(self).bus.cartridge.v_prg_memory@ == old(self).bus.cartridge.v_prg_memory@
                    }))
                &&& (old(self).instr.1 != AddrMode::IMP && old(self).instr.1
                    != AddrMode::ACC ==> *final(self) == (CPU {
                    a: final(self).a,
                    status: final(self).status,
                    fetched_data: fd,
                    clock_count: final(self).clock_count,
                    bus: final(self).bus,
                    ..*old(self)
                }))
            }),
            spec_keeps_ub(old(self).status, final(self).status),
            final(self).instr == old(self).instr,
            final(self).pc == old(self).pc,
            final(self).sp == old(self).sp,
            final(self).rel_addr == old(self).rel_addr,
            final(self).nmi == old(self).nmi,
            final(self).corrupted == old(self).corrupted,
    {
        self.fetch_data();
        self.write_fetched(self.fetched_data);
        self.set_flag(FLAG_C, self.fetched_data & 1 != 0);
        let val = self.fetched_data >> 1;
        self.a = self.a ^ val;
        self.set_zn_status(self.a);
        proof {
            crate::cpu::lemma_status_ub();
            crate::bitmath::lemma_u16_mask_bounds(old(self).abs_addr);
            if old(self).wf() && old(self).abs_addr <= 0x1FFF {
                crate::cpu::lemma_overwrite(
                    old(self).bus.memory.bytes@,
                    (old(self).abs_addr & 0x07FF) as int,
                    self.fetched_data,
                    val,
                );
            }
            if old(self).wf() && old(self).abs_addr >= 0x8000
                && old(self).bus.cartridge.spec_prg_offset(old(self).abs_addr)
                < old(self).bus.cartridge.v_prg_memory@.len() {
                crate::cpu::lemma_overwrite(
                    old(self).bus.cartridge.v_prg_memory@,
                    old(self).bus.cartridge.spec_prg_offset(old(self).abs_addr),
                    self.fetched_data,
                    val,
                );
            }
        }
        self.write_fetched(val);
    }

    /// Rotate memory right then add it to the accumulator with carry.
    pub fn rra(&mut self)
        requires
            old(self).wf(),
        ensures
            final(self).wf(),
            spec_same_counters(&final(self).bus.ppu, &old(self).bus.ppu),
            old(self).bus.ppu.nmi ==> final(self).bus.ppu.nmi,
            crate::cpu::spec_operand_byte(old(self), final(self)),
            ({
                let fd = final(self).fetched_data;
                let ret = if old(self).status & FLAG_C != 0 {
                    (fd >> 1) | 0x80
                } else {
                    fd >> 1
                };
                let sum = ((old(self).a + ret + (fd & 1)) as u16);
                &&& (old(self).instr.1 != AddrMode::IMP && old(self).instr.1
                    != AddrMode::ACC ==> final(self).a == (sum & 0x00FF) as u8
                    && final(self).status == spec_zn(
                    spec_set_flag(
                        spec_set_flag(
                            spec_set_flag(old(self).status, FLAG_C, fd & 1 != 0),
                            FLAG_C,
                            sum > 0xFF,
                        ),
                        FLAG_V,
                        (old(self).a ^ ret) & 0x80 == 0 && (old(self).a ^ final(self).a)
                            & 0x80 != 0,
                    ),
                    final(self).a,
                ))
                &&& (old(self).instr.1 != AddrMode::IMP && old(self).instr.1
                    != AddrMode::ACC && old(self).instr.1 != AddrMode::IMM && old(self).abs_addr <= 0x1FFF ==> final(self).bus.memory.bytes@ == old(self).bus.memory.bytes@.update((old(self).abs_addr & 0x07FF) as int, ret))
                &&& (old(self).instr.1 != AddrMode::IMP && old(self).instr.1
                    != AddrMode::ACC && old(self).instr.1 != AddrMode::IMM && old(self).abs_addr >= 0x8000 ==> final(self).bus.memory == old(self).bus.memory && (if old(self).bus.cartridge.spec_prg_offset(old(self).abs_addr) < old(self).bus.cartridge.v_prg_memory@.len() {
                        final(self).bus.cartridge.v_prg_memory@ == old(self).bus.cartridge.v_prg_memory@.update(old(self).bus.cartridge.spec_prg_offset(old(self).abs_addr), ret)
                    } else {
                        final(self).bus.cartridge.v_prg_memory@ == old(self).bus.cartridge.v_prg_memory@
                    }))
                &&& (old(self).instr.1 != AddrMode::IMP && old(self).instr.1
                    != AddrMode::ACC ==> *final(self) == (CPU {
                    a: final(self).a,
                    status: final(self).status,
                    fetched_data: fd,
                    clock_count: final(self).clock_count,
                    bus: final(self).bus,
                    ..*old(self)
                }))
            }),
            spec_keeps_ub(old(self).status, final(self).status),
            final(self).instr == old(self).instr,
            final(self).pc == old(self).pc,
            final(self).sp == old(self).sp,
            final(self).rel_addr == old(self).rel_addr,
            final(self).nmi == old(self).nmi,
            final(self).corrupted == old(self).corrupted,
    {
        self.fetch_data();
        self.write_fetched(self.fetched_data);
        let carry_in = self.status_bit(FLAG_C);
        let ret = if carry_in != 0 {
            (self.fetched_data >> 1) | 0x80
        } else {
            self.fetched_data >> 1
        };
        self.set_flag(FLAG_C, self.fetched_data & 1 != 0);
        let a = self.a;
        let c = self.status_bit(FLAG_C);
        let sum: u16 = (a as u16) + (ret as u16) + (c as u16);
        self.a = (sum & 0x00FF) as u8;
        self.set_flag(FLAG_C, sum > 0xFF);
        self.set_flag(FLAG_V, (a ^ ret) & 0x80 == 0 && (a ^ self.a) & 0x80 != 0);
        self.set_zn_status(self.a);
        proof {
            crate::cpu::lemma_status_ub();
            crate::bitmath::lemma_u16_mask_bounds(old(self).abs_addr);
            if old(self).wf() && old(self).abs_addr <= 0x1FFF {
                crate::cpu::lemma_overwrite(
                    old(self).bus.memory.bytes@,
                    (old(self).abs_addr & 0x07FF) as int,
                    self.fetched_data,
                    ret,
                );
            }
            if old(self).wf() && old(self).abs_addr >= 0x8000
                && old(self).bus.cartridge.spec_prg_offset(old(self).abs_addr)
                < old(self).bus.cartridge.v_prg_memory@.len() {
                crate::cpu::lemma_overwrite(
                    old(self).bus.cartridge.v_prg_memory@,
                    old(self).bus.cartridge.spec_prg_offset(old(self).abs_addr),
                    self.fetched_data,
                    ret,
                );
            }
        }
        self.write_fetched(ret);
    }

    /// Software interrupt: pushes the address after the padding byte and
    /// the status with the break bit set, then vectors through `$FFFE`.
    pub fn brk(&mut self)
        requires
            old(self).wf(),
        ensures
            final(self).wf(),
            spec_same_counters(&final(self).bus.ppu, &old(self).bus.ppu),
            old(self).bus.ppu.nmi ==> final(self).bus.ppu.nmi,
            ({
                let pc1 = u16_specs::wrapping_add(old(self).pc, 1);
                &&& final(self).bus.memory.bytes@ == old(self).bus.memory.bytes@.update(
                    0x0100 + old(self).sp,
                    (pc1 >> 8) as u8,
                ).update(
                    0x0100 + u8_specs::wrapping_sub(old(self).sp, 1),
                    pc1 as u8,
                ).update(
                    0x0100 + u8_specs::wrapping_sub(old(self).sp, 2),
                    spec_set_flag(spec_set_flag(old(self).status, FLAG_I, true), FLAG_B, true),
                )
                &&& final(self).pc == ((spec_bus_value(&old(self).bus, 0xFFFE) as u16) | ((
                spec_bus_value(&old(self).bus, 0xFFFF) as u16) << 8))
            }),
            final(self).status == spec_set_flag(
                spec_set_flag(spec_set_flag(old(self).status, FLAG_I, true), FLAG_B, true),
                FLAG_B,
                false,
            ),
            spec_keeps_ub(old(self).status, final(self).status),
            final(self).sp == u8_specs::wrapping_sub(old(self).sp, 3),
            final(self).clock_count == usize_specs::wrapping_add(old(self).clock_count, 5),
            final(self).bus.ppu == old(self).bus.ppu,
            final(self).bus.cartridge.v_prg_memory@ == old(self).bus.cartridge.v_prg_memory@,
            final(self).bus.cartridge.v_chr_memory@ == old(self).bus.cartridge.v_chr_memory@,
            *final(self) == (CPU {
                status: final(self).status,
                pc: final(self).pc,
                sp: final(self).sp,
                clock_count: final(self).clock_count,
                bus: final(self).bus,
                ..*old(self)
            }),
    {
        self.pc = self.pc.wrapping_add(1);

        self.set_flag(FLAG_I, true);

        self.push_u16(self.pc);

        self.set_flag(FLAG_B, true);
        self.push(self.status);
        self.set_flag(FLAG_B, false);

        proof {
            crate::cpu::lemma_status_ub();
            let ghost s1 = spec_set_flag(old(self).status, FLAG_I, true);
            assert(((s1 | FLAG_B) & !FLAG_B) & 0x30 == s1 & 0x20);
            assert(s1 & 0x30 == 0x20 ==> s1 & 0x20 == 0x20);
        }
        self.pc = self.read_u16(0xFFFE);
    }

    /// Transfer the accumulator into memory and X into the stack pointer.
    pub fn tas(&mut self)
        requires
            old(self).wf(),
        ensures
            final(self).wf(),
            spec_same_counters(&final(self).bus.ppu, &old(self).bus.ppu),
            old(self).bus.ppu.nmi ==> final(self).bus.ppu.nmi,
            *final(self) == (CPU {
                sp: old(self).x,
                clock_count: final(self).clock_count,
                bus: final(self).bus,
                ..*old(self)
            }),
            final(self).clock_count == usize_specs::wrapping_add(old(self).clock_count, 1),
            spec_bus_write(&old(self).bus, &final(self).bus, old(self).abs_addr, old(self).a),
    {
        self.write(self.abs_addr, self.a);
        self.sp = self.x;
    }

    /// Store X masked by the high address byte plus one; the high byte of
    /// the target address is corrupted the same way, as the hardware
    /// quirk has it.
    pub fn sxa(&mut self)
        requires
            old(self).wf(),
        ensures
            final(self).wf(),
            spec_same_counters(&final(self).bus.ppu, &old(self).bus.ppu),
            old(self).bus.ppu.nmi ==> final(self).bus.ppu.nmi,
            ({
                let val = old(self).x & u8_specs::wrapping_add(
                    (old(self).abs_addr >> 8) as u8,
                    1,
                );
                let new_abs = ((old(self).abs_addr & 0xFF) | ((val as u16) << 8));
                &&& final(self).abs_addr == new_abs
                &&& (old(self).instr.1 != AddrMode::IMP && old(self).instr.1
                    != AddrMode::ACC && old(self).instr.1 != AddrMode::IMM ==> *final(self)
                    == (CPU {
                    abs_addr: new_abs,
                    clock_count: final(self).clock_count,
                    bus: final(self).bus,
                    ..*old(self)
                }) && spec_bus_write(&old(self).bus, &final(self).bus, new_abs, val))
            }),
    {
        let hi = (self.abs_addr >> 8) as u8;
        let lo = self.abs_addr & 0xFF;
        let val = self.x & hi.wrapping_add(1);
        self.abs_addr = lo | ((val as u16) << 8);
        self.write_fetched(val);
    }
}

} // verus!
