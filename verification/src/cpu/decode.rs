use vstd::prelude::*;

use crate::cpu::instructions::{Instruction, Mode};

verus! {

// An opcode is laid out as `aaabbbcc`: `cc` picks an instruction group,
// `aaa` the operation within it and `bbb` (mostly) the addressing mode.
pub open spec fn op_a(op: u8) -> int { op as int / 32 }
pub open spec fn op_b(op: u8) -> int { (op as int / 4) % 8 }
pub open spec fn op_c(op: u8) -> int { op as int % 4 }

/// Addressing modes of the `cc == 01` and `cc == 11` groups, by `bbb`.
pub open spec fn group_mode(b: int) -> Mode {
    if b == 0 { Mode::IndX } else if b == 1 { Mode::Zp } else if b == 2 { Mode::Imm }
    else if b == 3 { Mode::Abs } else if b == 4 { Mode::IndY } else if b == 5 { Mode::Zpx }
    else if b == 6 { Mode::AbsY } else { Mode::AbsX }
}

pub open spec fn pick(a: int, i0: Instruction, i1: Instruction, i2: Instruction, i3: Instruction,
    i4: Instruction, i5: Instruction, i6: Instruction, i7: Instruction) -> Instruction {
    if a == 0 { i0 } else if a == 1 { i1 } else if a == 2 { i2 } else if a == 3 { i3 }
    else if a == 4 { i4 } else if a == 5 { i5 } else if a == 6 { i6 } else { i7 }
}

/// The instruction and addressing mode an opcode selects.
pub open spec fn opcode_meaning(op: u8) -> (Instruction, Mode) {
    let a = op_a(op);
    let b = op_b(op);
    let c = op_c(op);
    if c == 1 {
        // the ALU group; "STA immediate" would store into the instruction stream and is a NOP
        if op == 0x89 {
            (Instruction::NOP, Mode::Imm)
        } else {
            (pick(a, Instruction::ORA, Instruction::AND, Instruction::EOR, Instruction::ADC,
                Instruction::STA, Instruction::LDA, Instruction::CMP, Instruction::SBC), group_mode(b))
        }
    } else if c == 3 {
        // undocumented combinations of the `cc == 01` and `cc == 10` groups
        if b == 2 {
            (pick(a, Instruction::ANC, Instruction::ANC, Instruction::ASR, Instruction::ARR,
                Instruction::XXA, Instruction::LAX, Instruction::SBX, Instruction::SBC), Mode::Imm)
        } else {
            let mode = if (a == 4 || a == 5) && b == 5 { Mode::Zpy }
                else if (a == 4 || a == 5) && b == 7 { Mode::AbsY } else { group_mode(b) };
            let ins = if a == 4 && (b == 4 || b == 7) { Instruction::SHA }
                else if a == 4 && b == 6 { Instruction::SHS }
                else if a == 5 && b == 6 { Instruction::LAS }
                else { pick(a, Instruction::SLO, Instruction::RLA, Instruction::SRE, Instruction::RRA,
                    Instruction::SAX, Instruction::LAX, Instruction::DCP, Instruction::ISC) };
            (ins, mode)
        }
    } else if c == 2 {
        // shifts, X register operations, and the jams
        if b == 4 || (b == 0 && a < 4) {
            (Instruction::JAM, Mode::Imp)
        } else if b == 0 {
            (pick(a, Instruction::JAM, Instruction::JAM, Instruction::JAM, Instruction::JAM,
                Instruction::NOP, Instruction::LDX, Instruction::NOP, Instruction::NOP), Mode::Imm)
        } else if b == 6 {
            (pick(a, Instruction::NOP, Instruction::NOP, Instruction::NOP, Instruction::NOP,
                Instruction::TXS, Instruction::TSX, Instruction::NOP, Instruction::NOP), Mode::Imp)
        } else if b == 2 {
            if a < 4 {
                (pick(a, Instruction::ASL, Instruction::ROL, Instruction::LSR, Instruction::ROR,
                    Instruction::NOP, Instruction::NOP, Instruction::NOP, Instruction::NOP), Mode::A)
            } else {
                (pick(a, Instruction::NOP, Instruction::NOP, Instruction::NOP, Instruction::NOP,
                    Instruction::TXA, Instruction::TAX, Instruction::DEX, Instruction::NOP), Mode::Imp)
            }
        } else {
            let mode = if (a == 4 || a == 5) && b == 5 { Mode::Zpy }
                else if (a == 4 || a == 5) && b == 7 { Mode::AbsY }
                else if b == 1 { Mode::Zp } else if b == 3 { Mode::Abs }
                else if b == 5 { Mode::Zpx } else { Mode::AbsX };
            let ins = if a == 4 && b == 7 { Instruction::SHX } else {
                pick(a, Instruction::ASL, Instruction::ROL, Instruction::LSR, Instruction::ROR,
                    Instruction::STX, Instruction::LDX, Instruction::DEC, Instruction::INC) };
            (ins, mode)
        }
    } else {
        // branches, flag operations, stack and Y register operations, jumps
        if b == 4 {
            (pick(a, Instruction::BPL, Instruction::BMI, Instruction::BVC, Instruction::BVS,
                Instruction::BCC, Instruction::BCS, Instruction::BNE, Instruction::BEQ), Mode::Rel)
        } else if b == 6 {
            (pick(a, Instruction::CLC, Instruction::SEC, Instruction::CLI, Instruction::SEI,
                Instruction::TYA, Instruction::CLV, Instruction::CLD, Instruction::SED), Mode::Imp)
        } else if b == 2 {
            (pick(a, Instruction::PHP, Instruction::PLP, Instruction::PHA, Instruction::PLA,
                Instruction::DEY, Instruction::TAY, Instruction::INY, Instruction::INX), Mode::Imp)
        } else if b == 0 {
            if a == 0 { (Instruction::BRK, Mode::Imp) }
            else if a == 1 { (Instruction::JSR, Mode::Abs) }
            else if a == 2 { (Instruction::RTI, Mode::Imp) }
            else if a == 3 { (Instruction::RTS, Mode::Imp) }
            else { (pick(a, Instruction::NOP, Instruction::NOP, Instruction::NOP, Instruction::NOP,
                Instruction::NOP, Instruction::LDY, Instruction::CPY, Instruction::CPX), Mode::Imm) }
        } else if b == 1 {
            (pick(a, Instruction::NOP, Instruction::BIT, Instruction::NOP, Instruction::NOP,
                Instruction::STY, Instruction::LDY, Instruction::CPY, Instruction::CPX), Mode::Zp)
        } else if b == 3 {
            if a == 2 { (Instruction::JMP, Mode::Abs) }
            else if a == 3 { (Instruction::JMP, Mode::AbsInd) }
            else { (pick(a, Instruction::NOP, Instruction::BIT, Instruction::NOP, Instruction::NOP,
                Instruction::STY, Instruction::LDY, Instruction::CPY, Instruction::CPX), Mode::Abs) }
        } else if b == 5 {
            (pick(a, Instruction::NOP, Instruction::NOP, Instruction::NOP, Instruction::NOP,
                Instruction::STY, Instruction::LDY, Instruction::NOP, Instruction::NOP), Mode::Zpx)
        } else {
            if a == 4 { (Instruction::SHY, Mode::AbsY) }
            else { (pick(a, Instruction::NOP, Instruction::NOP, Instruction::NOP, Instruction::NOP,
                Instruction::NOP, Instruction::LDY, Instruction::NOP, Instruction::NOP), Mode::AbsX) }
        }
    }
}

/// Instructions that modify memory in place (read, modify, write back).
pub open spec fn is_read_modify_write(i: Instruction) -> bool {
    i == Instruction::ASL || i == Instruction::ROL || i == Instruction::LSR || i == Instruction::ROR
        || i == Instruction::INC || i == Instruction::DEC
}

/// Undocumented read-modify-write instructions, which also take the slow indexed forms.
pub open spec fn is_combined_read_modify_write(i: Instruction) -> bool {
    i == Instruction::SLO || i == Instruction::RLA || i == Instruction::SRE || i == Instruction::RRA
        || i == Instruction::DCP || i == Instruction::ISC
}

/// Instructions that only write their operand.
pub open spec fn is_store(i: Instruction) -> bool {
    i == Instruction::STA || i == Instruction::STX || i == Instruction::STY || i == Instruction::SAX
        || i == Instruction::SHA || i == Instruction::SHX || i == Instruction::SHY || i == Instruction::SHS
}

/// How many cycles an instruction takes in a mode, before any page-crossing penalty.
pub open spec fn base_cycles(i: Instruction, m: Mode) -> u8 {
    if i == Instruction::BRK { 7 }
    else if i == Instruction::JSR { 5 }
    else if i == Instruction::RTI || i == Instruction::RTS { 6 }
    else if i == Instruction::PHP || i == Instruction::PHA { 3 }
    else if i == Instruction::PLP || i == Instruction::PLA { 4 }
    else if i == Instruction::JAM { 1 }
    else if i == Instruction::JMP { if m == Mode::Abs { 2 } else { 4 } }
    else if m == Mode::Rel || m == Mode::Imp || m == Mode::A || m == Mode::Imm { 2 }
    else if is_read_modify_write(i) {
        if m == Mode::Zp { 5 } else if m == Mode::AbsX { 7 } else { 6 }
    } else if is_combined_read_modify_write(i) {
        if m == Mode::Zp { 5 } else if m == Mode::Zpx || m == Mode::Abs { 6 }
        else if m == Mode::AbsX || m == Mode::AbsY { 7 } else { 8 }
    } else if is_store(i) {
        if m == Mode::Zp { 3 } else if m == Mode::Zpx || m == Mode::Zpy || m == Mode::Abs { 4 }
        else if m == Mode::AbsX || m == Mode::AbsY { 5 } else { 6 }
    } else {
        if m == Mode::Zp { 3 } else if m == Mode::IndX { 6 } else if m == Mode::IndY { 5 } else { 4 }
    }
}

/// Whether an extra cycle is owed when the effective address crosses a page
/// (or, for branches, when the branch is taken): reads in the indexed modes, and branches.
pub open spec fn page_penalty(i: Instruction, m: Mode) -> bool {
    m == Mode::Rel || (!is_read_modify_write(i) && !is_combined_read_modify_write(i) && !is_store(i)
        && (m == Mode::AbsX || m == Mode::AbsY || m == Mode::IndY))
}

pub open spec fn decode_spec(op: u8) -> (Instruction, Mode, u8, bool) {
    let (i, m) = opcode_meaning(op);
    (i, m, base_cycles(i, m), page_penalty(i, m))
}

/// Every opcode takes between one and eight cycles.
pub proof fn lemma_decode_cycles()
    ensures
        forall|op: u8| 1 <= #[trigger] decode_spec(op).2 <= 8,
{
}

/// Every opcode but `XXA #imm` decodes to an instruction whose mode suits it, and only
/// the jams take a single cycle.
pub proof fn lemma_decode_executable()
    ensures
        forall|op: u8| op != 0x8B ==> crate::cpu::semantics::executable(#[trigger] decode_spec(op).0, decode_spec(op).1),
        forall|op: u8| (#[trigger] decode_spec(op)).0 == Instruction::JAM ==> decode_spec(op).2 == 1,
{
}

/// Decodes an opcode into its instruction, addressing mode, cycle count, and
/// whether an extra cycle is owed on a page crossing.
#[verifier::rlimit(50)]
pub fn decode(op: u8) -> (r: (Instruction, Mode, u8, bool))
    ensures
        r == decode_spec(op),
{
    match op {
        0x00 => (Instruction::BRK, Mode::Imp, 7, false),
        0x01 => (Instruction::ORA, Mode::IndX, 6, false),
        0x02 => (Instruction::JAM, Mode::Imp, 1, false),
        0x03 => (Instruction::SLO, Mode::IndX, 8, false),
        0x04 => (Instruction::NOP, Mode::Zp, 3, false),
        0x05 => (Instruction::ORA, Mode::Zp, 3, false),
        0x06 => (Instruction::ASL, Mode::Zp, 5, false),
        0x07 => (Instruction::SLO, Mode::Zp, 5, false),
        0x08 => (Instruction::PHP, Mode::Imp, 3, false),
        0x09 => (Instruction::ORA, Mode::Imm, 2, false),
        0x0A => (Instruction::ASL, Mode::A, 2, false),
        0x0B => (Instruction::ANC, Mode::Imm, 2, false),
        0x0C => (Instruction::NOP, Mode::Abs, 4, false),
        0x0D => (Instruction::ORA, Mode::Abs, 4, false),
        0x0E => (Instruction::ASL, Mode::Abs, 6, false),
        0x0F => (Instruction::SLO, Mode::Abs, 6, false),
        0x10 => (Instruction::BPL, Mode::Rel, 2, true),
        0x11 => (Instruction::ORA, Mode::IndY, 5, true),
        0x12 => (Instruction::JAM, Mode::Imp, 1, false),
        0x13 => (Instruction::SLO, Mode::IndY, 8, false),
        0x14 => (Instruction::NOP, Mode::Zpx, 4, false),
        0x15 => (Instruction::ORA, Mode::Zpx, 4, false),
        0x16 => (Instruction::ASL, Mode::Zpx, 6, false),
        0x17 => (Instruction::SLO, Mode::Zpx, 6, false),
        0x18 => (Instruction::CLC, Mode::Imp, 2, false),
        0x19 => (Instruction::ORA, Mode::AbsY, 4, true),
        0x1A => (Instruction::NOP, Mode::Imp, 2, false),
        0x1B => (Instruction::SLO, Mode::AbsY, 7, false),
        0x1C => (Instruction::NOP, Mode::AbsX, 4, true),
        0x1D => (Instruction::ORA, Mode::AbsX, 4, true),
        0x1E => (Instruction::ASL, Mode::AbsX, 7, false),
        0x1F => (Instruction::SLO, Mode::AbsX, 7, false),
        0x20 => (Instruction::JSR, Mode::Abs, 5, false),
        0x21 => (Instruction::AND, Mode::IndX, 6, false),
        0x22 => (Instruction::JAM, Mode::Imp, 1, false),
        0x23 => (Instruction::RLA, Mode::IndX, 8, false),
        0x24 => (Instruction::BIT, Mode::Zp, 3, false),
        0x25 => (Instruction::AND, Mode::Zp, 3, false),
        0x26 => (Instruction::ROL, Mode::Zp, 5, false),
        0x27 => (Instruction::RLA, Mode::Zp, 5, false),
        0x28 => (Instruction::PLP, Mode::Imp, 4, false),
        0x29 => (Instruction::AND, Mode::Imm, 2, false),
        0x2A => (Instruction::ROL, Mode::A, 2, false),
        0x2B => (Instruction::ANC, Mode::Imm, 2, false),
        0x2C => (Instruction::BIT, Mode::Abs, 4, false),
        0x2D => (Instruction::AND, Mode::Abs, 4, false),
        0x2E => (Instruction::ROL, Mode::Abs, 6, false),
        0x2F => (Instruction::RLA, Mode::Abs, 6, false),
        0x30 => (Instruction::BMI, Mode::Rel, 2, true),
        0x31 => (Instruction::AND, Mode::IndY, 5, true),
        0x32 => (Instruction::JAM, Mode::Imp, 1, false),
        0x33 => (Instruction::RLA, Mode::IndY, 8, false),
        0x34 => (Instruction::NOP, Mode::Zpx, 4, false),
        0x35 => (Instruction::AND, Mode::Zpx, 4, false),
        0x36 => (Instruction::ROL, Mode::Zpx, 6, false),
        0x37 => (Instruction::RLA, Mode::Zpx, 6, false),
        0x38 => (Instruction::SEC, Mode::Imp, 2, false),
        0x39 => (Instruction::AND, Mode::AbsY, 4, true),
        0x3A => (Instruction::NOP, Mode::Imp, 2, false),
        0x3B => (Instruction::RLA, Mode::AbsY, 7, false),
        0x3C => (Instruction::NOP, Mode::AbsX, 4, true),
        0x3D => (Instruction::AND, Mode::AbsX, 4, true),
        0x3E => (Instruction::ROL, Mode::AbsX, 7, false),
        0x3F => (Instruction::RLA, Mode::AbsX, 7, false),
        0x40 => (Instruction::RTI, Mode::Imp, 6, false),
        0x41 => (Instruction::EOR, Mode::IndX, 6, false),
        0x42 => (Instruction::JAM, Mode::Imp, 1, false),
        0x43 => (Instruction::SRE, Mode::IndX, 8, false),
        0x44 => (Instruction::NOP, Mode::Zp, 3, false),
        0x45 => (Instruction::EOR, Mode::Zp, 3, false),
        0x46 => (Instruction::LSR, Mode::Zp, 5, false),
        0x47 => (Instruction::SRE, Mode::Zp, 5, false),
        0x48 => (Instruction::PHA, Mode::Imp, 3, false),
        0x49 => (Instruction::EOR, Mode::Imm, 2, false),
        0x4A => (Instruction::LSR, Mode::A, 2, false),
        0x4B => (Instruction::ASR, Mode::Imm, 2, false),
        0x4C => (Instruction::JMP, Mode::Abs, 2, false),
        0x4D => (Instruction::EOR, Mode::Abs, 4, false),
        0x4E => (Instruction::LSR, Mode::Abs, 6, false),
        0x4F => (Instruction::SRE, Mode::Abs, 6, false),
        0x50 => (Instruction::BVC, Mode::Rel, 2, true),
        0x51 => (Instruction::EOR, Mode::IndY, 5, true),
        0x52 => (Instruction::JAM, Mode::Imp, 1, false),
        0x53 => (Instruction::SRE, Mode::IndY, 8, false),
        0x54 => (Instruction::NOP, Mode::Zpx, 4, false),
        0x55 => (Instruction::EOR, Mode::Zpx, 4, false),
        0x56 => (Instruction::LSR, Mode::Zpx, 6, false),
        0x57 => (Instruction::SRE, Mode::Zpx, 6, false),
        0x58 => (Instruction::CLI, Mode::Imp, 2, false),
        0x59 => (Instruction::EOR, Mode::AbsY, 4, true),
        0x5A => (Instruction::NOP, Mode::Imp, 2, false),
        0x5B => (Instruction::SRE, Mode::AbsY, 7, false),
        0x5C => (Instruction::NOP, Mode::AbsX, 4, true),
        0x5D => (Instruction::EOR, Mode::AbsX, 4, true),
        0x5E => (Instruction::LSR, Mode::AbsX, 7, false),
        0x5F => (Instruction::SRE, Mode::AbsX, 7, false),
        0x60 => (Instruction::RTS, Mode::Imp, 6, false),
        0x61 => (Instruction::ADC, Mode::IndX, 6, false),
        0x62 => (Instruction::JAM, Mode::Imp, 1, false),
        0x63 => (Instruction::RRA, Mode::IndX, 8, false),
        0x64 => (Instruction::NOP, Mode::Zp, 3, false),
        0x65 => (Instruction::ADC, Mode::Zp, 3, false),
        0x66 => (Instruction::ROR, Mode::Zp, 5, false),
        0x67 => (Instruction::RRA, Mode::Zp, 5, false),
        0x68 => (Instruction::PLA, Mode::Imp, 4, false),
        0x69 => (Instruction::ADC, Mode::Imm, 2, false),
        0x6A => (Instruction::ROR, Mode::A, 2, false),
        0x6B => (Instruction::ARR, Mode::Imm, 2, false),
        0x6C => (Instruction::JMP, Mode::AbsInd, 4, false),
        0x6D => (Instruction::ADC, Mode::Abs, 4, false),
        0x6E => (Instruction::ROR, Mode::Abs, 6, false),
        0x6F => (Instruction::RRA, Mode::Abs, 6, false),
        0x70 => (Instruction::BVS, Mode::Rel, 2, true),
        0x71 => (Instruction::ADC, Mode::IndY, 5, true),
        0x72 => (Instruction::JAM, Mode::Imp, 1, false),
        0x73 => (Instruction::RRA, Mode::IndY, 8, false),
        0x74 => (Instruction::NOP, Mode::Zpx, 4, false),
        0x75 => (Instruction::ADC, Mode::Zpx, 4, false),
        0x76 => (Instruction::ROR, Mode::Zpx, 6, false),
        0x77 => (Instruction::RRA, Mode::Zpx, 6, false),
        0x78 => (Instruction::SEI, Mode::Imp, 2, false),
        0x79 => (Instruction::ADC, Mode::AbsY, 4, true),
        0x7A => (Instruction::NOP, Mode::Imp, 2, false),
        0x7B => (Instruction::RRA, Mode::AbsY, 7, false),
        0x7C => (Instruction::NOP, Mode::AbsX, 4, true),
        0x7D => (Instruction::ADC, Mode::AbsX, 4, true),
        0x7E => (Instruction::ROR, Mode::AbsX, 7, false),
        0x7F => (Instruction::RRA, Mode::AbsX, 7, false),
        0x80 => (Instruction::NOP, Mode::Imm, 2, false),
        0x81 => (Instruction::STA, Mode::IndX, 6, false),
        0x82 => (Instruction::NOP, Mode::Imm, 2, false),
        0x83 => (Instruction::SAX, Mode::IndX, 6, false),
        0x84 => (Instruction::STY, Mode::Zp, 3, false),
        0x85 => (Instruction::STA, Mode::Zp, 3, false),
        0x86 => (Instruction::STX, Mode::Zp, 3, false),
        0x87 => (Instruction::SAX, Mode::Zp, 3, false),
        0x88 => (Instruction::DEY, Mode::Imp, 2, false),
        0x89 => (Instruction::NOP, Mode::Imm, 2, false),
        0x8A => (Instruction::TXA, Mode::Imp, 2, false),
        0x8B => (Instruction::XXA, Mode::Imm, 2, false),
        0x8C => (Instruction::STY, Mode::Abs, 4, false),
        0x8D => (Instruction::STA, Mode::Abs, 4, false),
        0x8E => (Instruction::STX, Mode::Abs, 4, false),
        0x8F => (Instruction::SAX, Mode::Abs, 4, false),
        0x90 => (Instruction::BCC, Mode::Rel, 2, true),
        0x91 => (Instruction::STA, Mode::IndY, 6, false),
        0x92 => (Instruction::JAM, Mode::Imp, 1, false),
        0x93 => (Instruction::SHA, Mode::IndY, 6, false),
        0x94 => (Instruction::STY, Mode::Zpx, 4, false),
        0x95 => (Instruction::STA, Mode::Zpx, 4, false),
        0x96 => (Instruction::STX, Mode::Zpy, 4, false),
        0x97 => (Instruction::SAX, Mode::Zpy, 4, false),
        0x98 => (Instruction::TYA, Mode::Imp, 2, false),
        0x99 => (Instruction::STA, Mode::AbsY, 5, false),
        0x9A => (Instruction::TXS, Mode::Imp, 2, false),
        0x9B => (Instruction::SHS, Mode::AbsY, 5, false),
        0x9C => (Instruction::SHY, Mode::AbsY, 5, false),
        0x9D => (Instruction::STA, Mode::AbsX, 5, false),
        0x9E => (Instruction::SHX, Mode::AbsY, 5, false),
        0x9F => (Instruction::SHA, Mode::AbsY, 5, false),
        0xA0 => (Instruction::LDY, Mode::Imm, 2, false),
        0xA1 => (Instruction::LDA, Mode::IndX, 6, false),
        0xA2 => (Instruction::LDX, Mode::Imm, 2, false),
        0xA3 => (Instruction::LAX, Mode::IndX, 6, false),
        0xA4 => (Instruction::LDY, Mode::Zp, 3, false),
        0xA5 => (Instruction::LDA, Mode::Zp, 3, false),
        0xA6 => (Instruction::LDX, Mode::Zp, 3, false),
        0xA7 => (Instruction::LAX, Mode::Zp, 3, false),
        0xA8 => (Instruction::TAY, Mode::Imp, 2, false),
        0xA9 => (Instruction::LDA, Mode::Imm, 2, false),
        0xAA => (Instruction::TAX, Mode::Imp, 2, false),
        0xAB => (Instruction::LAX, Mode::Imm, 2, false),
        0xAC => (Instruction::LDY, Mode::Abs, 4, false),
        0xAD => (Instruction::LDA, Mode::Abs, 4, false),
        0xAE => (Instruction::LDX, Mode::Abs, 4, false),
        0xAF => (Instruction::LAX, Mode::Abs, 4, false),
        0xB0 => (Instruction::BCS, Mode::Rel, 2, true),
        0xB1 => (Instruction::LDA, Mode::IndY, 5, true),
        0xB2 => (Instruction::JAM, Mode::Imp, 1, false),
        0xB3 => (Instruction::LAX, Mode::IndY, 5, true),
        0xB4 => (Instruction::LDY, Mode::Zpx, 4, false),
        0xB5 => (Instruction::LDA, Mode::Zpx, 4, false),
        0xB6 => (Instruction::LDX, Mode::Zpy, 4, false),
        0xB7 => (Instruction::LAX, Mode::Zpy, 4, false),
        0xB8 => (Instruction::CLV, Mode::Imp, 2, false),
        0xB9 => (Instruction::LDA, Mode::AbsY, 4, true),
        0xBA => (Instruction::TSX, Mode::Imp, 2, false),
        0xBB => (Instruction::LAS, Mode::AbsY, 4, true),
        0xBC => (Instruction::LDY, Mode::AbsX, 4, true),
        0xBD => (Instruction::LDA, Mode::AbsX, 4, true),
        0xBE => (Instruction::LDX, Mode::AbsY, 4, true),
        0xBF => (Instruction::LAX, Mode::AbsY, 4, true),
        0xC0 => (Instruction::CPY, Mode::Imm, 2, false),
        0xC1 => (Instruction::CMP, Mode::IndX, 6, false),
        0xC2 => (Instruction::NOP, Mode::Imm, 2, false),
        0xC3 => (Instruction::DCP, Mode::IndX, 8, false),
        0xC4 => (Instruction::CPY, Mode::Zp, 3, false),
        0xC5 => (Instruction::CMP, Mode::Zp, 3, false),
        0xC6 => (Instruction::DEC, Mode::Zp, 5, false),
        0xC7 => (Instruction::DCP, Mode::Zp, 5, false),
        0xC8 => (Instruction::INY, Mode::Imp, 2, false),
        0xC9 => (Instruction::CMP, Mode::Imm, 2, false),
        0xCA => (Instruction::DEX, Mode::Imp, 2, false),
        0xCB => (Instruction::SBX, Mode::Imm, 2, false),
        0xCC => (Instruction::CPY, Mode::Abs, 4, false),
        0xCD => (Instruction::CMP, Mode::Abs, 4, false),
        0xCE => (Instruction::DEC, Mode::Abs, 6, false),
        0xCF => (Instruction::DCP, Mode::Abs, 6, false),
        0xD0 => (Instruction::BNE, Mode::Rel, 2, true),
        0xD1 => (Instruction::CMP, Mode::IndY, 5, true),
        0xD2 => (Instruction::JAM, Mode::Imp, 1, false),
        0xD3 => (Instruction::DCP, Mode::IndY, 8, false),
        0xD4 => (Instruction::NOP, Mode::Zpx, 4, false),
        0xD5 => (Instruction::CMP, Mode::Zpx, 4, false),
        0xD6 => (Instruction::DEC, Mode::Zpx, 6, false),
        0xD7 => (Instruction::DCP, Mode::Zpx, 6, false),
        0xD8 => (Instruction::CLD, Mode::Imp, 2, false),
        0xD9 => (Instruction::CMP, Mode::AbsY, 4, true),
        0xDA => (Instruction::NOP, Mode::Imp, 2, false),
        0xDB => (Instruction::DCP, Mode::AbsY, 7, false),
        0xDC => (Instruction::NOP, Mode::AbsX, 4, true),
        0xDD => (Instruction::CMP, Mode::AbsX, 4, true),
        0xDE => (Instruction::DEC, Mode::AbsX, 7, false),
        0xDF => (Instruction::DCP, Mode::AbsX, 7, false),
        0xE0 => (Instruction::CPX, Mode::Imm, 2, false),
        0xE1 => (Instruction::SBC, Mode::IndX, 6, false),
        0xE2 => (Instruction::NOP, Mode::Imm, 2, false),
        0xE3 => (Instruction::ISC, Mode::IndX, 8, false),
        0xE4 => (Instruction::CPX, Mode::Zp, 3, false),
        0xE5 => (Instruction::SBC, Mode::Zp, 3, false),
        0xE6 => (Instruction::INC, Mode::Zp, 5, false),
        0xE7 => (Instruction::ISC, Mode::Zp, 5, false),
        0xE8 => (Instruction::INX, Mode::Imp, 2, false),
        0xE9 => (Instruction::SBC, Mode::Imm, 2, false),
        0xEA => (Instruction::NOP, Mode::Imp, 2, false),
        0xEB => (Instruction::SBC, Mode::Imm, 2, false),
        0xEC => (Instruction::CPX, Mode::Abs, 4, false),
        0xED => (Instruction::SBC, Mode::Abs, 4, false),
        0xEE => (Instruction::INC, Mode::Abs, 6, false),
        0xEF => (Instruction::ISC, Mode::Abs, 6, false),
        0xF0 => (Instruction::BEQ, Mode::Rel, 2, true),
        0xF1 => (Instruction::SBC, Mode::IndY, 5, true),
        0xF2 => (Instruction::JAM, Mode::Imp, 1, false),
        0xF3 => (Instruction::ISC, Mode::IndY, 8, false),
        0xF4 => (Instruction::NOP, Mode::Zpx, 4, false),
        0xF5 => (Instruction::SBC, Mode::Zpx, 4, false),
        0xF6 => (Instruction::INC, Mode::Zpx, 6, false),
        0xF7 => (Instruction::ISC, Mode::Zpx, 6, false),
        0xF8 => (Instruction::SED, Mode::Imp, 2, false),
        0xF9 => (Instruction::SBC, Mode::AbsY, 4, true),
        0xFA => (Instruction::NOP, Mode::Imp, 2, false),
        0xFB => (Instruction::ISC, Mode::AbsY, 7, false),
        0xFC => (Instruction::NOP, Mode::AbsX, 4, true),
        0xFD => (Instruction::SBC, Mode::AbsX, 4, true),
        0xFE => (Instruction::INC, Mode::AbsX, 7, false),
        0xFF => (Instruction::ISC, Mode::AbsX, 7, false),
    }
}

} // verus!
