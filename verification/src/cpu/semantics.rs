use vstd::prelude::*;

use crate::cpu::alu::{adc_binary, adc_decimal, compare_flags, sbc_binary, sbc_decimal, shifted_left, shifted_right, wrap_dec, wrap_inc};
use crate::cpu::flags::Flag;
use crate::cpu::instructions::{Instruction, Mode};
use crate::cpu::{boundary_of, flag_of, high_of, inc16, is_memory_mode, is_readable_mode, is_writable_mode,
    BinaryOp, Branch, BranchType, CpuState, Interrupt, Location, PageBoundary, ShiftStyle, UnaryOp,
    IRQ_ADDR, NMI_ADDR, RESET_ADDR, SIGN_BIT};

verus! {

/// The pairs of instruction and mode that have a meaning: reads need a readable
/// operand, writes a writable one, and jumps and the high-byte stores an address.
pub open spec fn executable(ins: Instruction, mode: Mode) -> bool {
    match ins {
        Instruction::ADC | Instruction::AND | Instruction::EOR | Instruction::ORA | Instruction::CMP
        | Instruction::CPX | Instruction::CPY | Instruction::BIT | Instruction::LDA | Instruction::LDX
        | Instruction::LDY | Instruction::SBC | Instruction::LAX | Instruction::LAS | Instruction::ANC
        | Instruction::ASR | Instruction::ARR | Instruction::SBX => is_readable_mode(mode),
        Instruction::ASL | Instruction::LSR | Instruction::ROL | Instruction::ROR | Instruction::INC
        | Instruction::DEC | Instruction::DCP | Instruction::ISC | Instruction::RLA | Instruction::RRA
        | Instruction::SLO | Instruction::SRE | Instruction::XXA | Instruction::STA | Instruction::STX
        | Instruction::STY | Instruction::SAX => is_writable_mode(mode),
        Instruction::SHA | Instruction::SHS | Instruction::SHX | Instruction::SHY | Instruction::BCC
        | Instruction::BCS | Instruction::BEQ | Instruction::BMI | Instruction::BNE | Instruction::BPL
        | Instruction::BVC | Instruction::BVS | Instruction::JMP | Instruction::JSR => is_memory_mode(mode),
        _ => true,
    }
}

/// Checks `executable`.
pub fn is_executable(ins: Instruction, mode: Mode) -> (r: bool)
    ensures
        r == executable(ins, mode),
{
    let readable = match mode {
        Mode::Imp => false,
        _ => true,
    };
    let writable = match mode {
        Mode::Imp | Mode::Imm => false,
        _ => true,
    };
    let memory = match mode {
        Mode::Abs | Mode::AbsX | Mode::AbsY | Mode::AbsInd | Mode::IndX | Mode::IndY | Mode::Rel | Mode::Zp | Mode::Zpx
        | Mode::Zpy => true,
        _ => false,
    };
    match ins {
        Instruction::ADC | Instruction::AND | Instruction::EOR | Instruction::ORA | Instruction::CMP
        | Instruction::CPX | Instruction::CPY | Instruction::BIT | Instruction::LDA | Instruction::LDX
        | Instruction::LDY | Instruction::SBC | Instruction::LAX | Instruction::LAS | Instruction::ANC
        | Instruction::ASR | Instruction::ARR | Instruction::SBX => readable,
        Instruction::ASL | Instruction::LSR | Instruction::ROL | Instruction::ROR | Instruction::INC
        | Instruction::DEC | Instruction::DCP | Instruction::ISC | Instruction::RLA | Instruction::RRA
        | Instruction::SLO | Instruction::SRE | Instruction::XXA | Instruction::STA | Instruction::STX
        | Instruction::STY | Instruction::SAX => writable,
        Instruction::SHA | Instruction::SHS | Instruction::SHX | Instruction::SHY | Instruction::BCC
        | Instruction::BCS | Instruction::BEQ | Instruction::BMI | Instruction::BNE | Instruction::BPL
        | Instruction::BVC | Instruction::BVS | Instruction::JMP | Instruction::JSR => memory,
        _ => true,
    }
}

pub type Outcome = (CpuState, PageBoundary, Branch);

pub open spec fn done(s: CpuState, pb: PageBoundary) -> Outcome {
    (s, pb, Branch::NotTaken)
}

pub open spec fn branch_condition(status: u8, t: BranchType) -> bool {
    match t {
        BranchType::CC => !flag_of(status, Flag::Carry),
        BranchType::CS => flag_of(status, Flag::Carry),
        BranchType::NE => !flag_of(status, Flag::Zero),
        BranchType::EQ => flag_of(status, Flag::Zero),
        BranchType::PL => !flag_of(status, Flag::Negative),
        BranchType::MI => flag_of(status, Flag::Negative),
        BranchType::VC => !flag_of(status, Flag::Overflow),
        BranchType::VS => flag_of(status, Flag::Overflow),
        BranchType::JMP => true,
        BranchType::JSR => true,
    }
}

pub open spec fn binary_result(op: BinaryOp, a: u8, m: u8) -> u8 {
    match op {
        BinaryOp::And => a & m,
        BinaryOp::Or => a | m,
        BinaryOp::Xor => a ^ m,
    }
}

pub open spec fn unary_result(op: UnaryOp, m: u8) -> u8 {
    match op {
        UnaryOp::Inc => wrap_inc(m),
        UnaryOp::Dec => wrap_dec(m),
    }
}

/// High byte of the unindexed address, plus one, as the SHA family uses it.
pub open spec fn h_plus_1_of(loc: Location) -> u8 {
    match loc {
        Location::Addr(orig, _) => ((high_of(orig) as int + 1) % 256) as u8,
        _ => 0,
    }
}

impl CpuState {
    pub open spec fn run_binary(self, op: BinaryOp, mode: Mode) -> Outcome {
        let (loc, s1) = self.locate(mode);
        let (m, s2) = s1.operand(loc);
        done(s2.store_nz(Location::A, binary_result(op, s2.a, m)), boundary_of(loc))
    }

    pub open spec fn run_unary(self, op: UnaryOp, mode: Mode) -> Outcome {
        let (loc, s1) = self.locate(mode);
        let (m, s2) = s1.operand(loc);
        done(s2.store_nz(loc, unary_result(op, m)), boundary_of(loc))
    }

    pub open spec fn run_shift_left(self, style: ShiftStyle, mode: Mode) -> Outcome {
        let (loc, s1) = self.locate(mode);
        let (m, s2) = s1.operand(loc);
        let (v, out) = shifted_left(m, style == ShiftStyle::Rotate && s2.flag(Flag::Carry));
        done(s2.store_nz(loc, v).set_flag(Flag::Carry, out), boundary_of(loc))
    }

    pub open spec fn run_shift_right(self, style: ShiftStyle, mode: Mode) -> Outcome {
        let (loc, s1) = self.locate(mode);
        let (m, s2) = s1.operand(loc);
        let (v, out) = shifted_right(m, style == ShiftStyle::Rotate && s2.flag(Flag::Carry));
        done(s2.store_nz(loc, v).set_flag(Flag::Carry, out), boundary_of(loc))
    }

    pub open spec fn run_adc(self, mode: Mode, bcd: bool) -> Outcome {
        let (loc, s1) = self.locate(mode);
        let (m, s2) = s1.operand(loc);
        let c = s2.flag(Flag::Carry);
        let (r, n, v, z, cf) = if s2.flag(Flag::Decimal) && bcd { adc_decimal(s2.a, m, c) } else { adc_binary(s2.a, m, c) };
        let s3 = s2.set_flag(Flag::Zero, z).set_flag(Flag::Negative, n).set_flag(Flag::Overflow, v).set_flag(Flag::Carry, cf);
        done(s3.store(Location::A, r), boundary_of(loc))
    }

    pub open spec fn run_sbc(self, mode: Mode, bcd: bool) -> Outcome {
        let (loc, s1) = self.locate(mode);
        let (m, s2) = s1.operand(loc);
        let c = s2.flag(Flag::Carry);
        let (r, n, v, z, cf) = if s2.flag(Flag::Decimal) && bcd { sbc_decimal(s2.a, m, c) } else { sbc_binary(s2.a, m, c) };
        let s3 = s2.set_flag(Flag::Negative, n).set_flag(Flag::Zero, z).set_flag(Flag::Overflow, v).set_flag(Flag::Carry, cf);
        done(s3.store(Location::A, r), boundary_of(loc))
    }

    pub open spec fn run_compare(self, mode: Mode, reg: u8) -> Outcome {
        let (loc, s1) = self.locate(mode);
        let (m, s2) = s1.operand(loc);
        let (n, z, c) = compare_flags(reg, m);
        done(s2.set_flag(Flag::Zero, z).set_flag(Flag::Carry, c).set_flag(Flag::Negative, n), boundary_of(loc))
    }

    pub open spec fn run_branch(self, mode: Mode, t: BranchType) -> Outcome {
        let condition = branch_condition(self.status, t);
        let starting_pc = inc16(self.pc, 0xFFFF);
        let (loc, s1) = self.locate(mode);
        let s2 = if t == BranchType::JSR { s1.push_word(inc16(s1.pc, 0xFFFF)) } else { s1 };
        match loc {
            Location::Addr(_, addr) => if condition {
                (CpuState { trapped: s2.trapped || starting_pc == addr, pc: addr, ..s2 }, boundary_of(loc), Branch::Taken)
            } else {
                (s2, PageBoundary::NotCrossed, Branch::NotTaken)
            },
            _ => (s2, PageBoundary::NotCrossed, Branch::NotTaken),
        }
    }

    pub open spec fn run_transfer(self, in_mode: Mode, out_mode: Mode, with_flags: bool) -> Outcome {
        let (l_in, s1) = self.locate(in_mode);
        let (v, s2) = s1.operand(l_in);
        let (l_out, s3) = s2.locate(out_mode);
        done(if with_flags { s3.store_nz(l_out, v) } else { s3.store(l_out, v) }, boundary_of(l_in))
    }

    pub open spec fn run_set_flag(self, flag: u8, value: bool) -> Outcome {
        done(self.set_flag(flag, value), PageBoundary::NotCrossed)
    }

    pub open spec fn run_push(self, mode: Mode) -> Outcome {
        let (loc, s1) = self.locate(mode);
        let (v, s2) = s1.operand(loc);
        done(s2.push(v), boundary_of(loc))
    }

    pub open spec fn run_pop(self, mode: Mode) -> Outcome {
        let (v0, s1) = self.pop();
        let v = v0 | (if mode == Mode::Status { Flag::Break | Flag::Unused } else { 0u8 });
        let (loc, s2) = s1.locate(mode);
        done(if loc == Location::Status { s2.store(loc, v) } else { s2.store_nz(loc, v) }, boundary_of(loc))
    }

    pub open spec fn run_rti(self) -> Outcome {
        let s1 = self.run_pop(Mode::Status).0;
        let (w, s2) = s1.pop_word();
        done(s2.with_pc(w), PageBoundary::NotCrossed)
    }

    pub open spec fn run_rts(self) -> Outcome {
        let (w, s1) = self.pop_word();
        done(s1.with_pc(inc16(w, 1)), PageBoundary::NotCrossed)
    }

    pub open spec fn run_test_bits(self, mode: Mode) -> Outcome {
        let (loc, s1) = self.locate(mode);
        let (m, s2) = s1.operand(loc);
        done(s2.set_flag(Flag::Negative, m & Flag::Negative != 0).set_flag(Flag::Overflow, m & Flag::Overflow != 0)
            .set_flag(Flag::Zero, s2.a & m == 0), boundary_of(loc))
    }

    pub open spec fn run_nop(self, mode: Mode) -> Outcome {
        let (loc, s1) = self.locate(mode);
        let s2 = match loc {
            Location::Addr(_, _) | Location::Imm => s1.operand(loc).1,
            _ => s1,
        };
        done(s2, boundary_of(loc))
    }

    pub open spec fn run_interrupt(self, i: Interrupt) -> Outcome {
        let s1 = if i == Interrupt::RST {
            CpuState { sp: 0xFD, ..self }
        } else {
            let pushed_pc = inc16(self.pc, if i == Interrupt::BRK { 1 } else { 0 });
            let pushed_status = if i == Interrupt::BRK { self.status | Flag::Break } else { self.status & !Flag::Break };
            self.push_word(pushed_pc).push(pushed_status)
        };
        let s2 = s1.set_flag(Flag::InterruptDisable, true);
        let vector = match i {
            Interrupt::BRK => IRQ_ADDR,
            Interrupt::IRQ => IRQ_ADDR,
            Interrupt::NMI => NMI_ADDR,
            Interrupt::RST => RESET_ADDR,
        };
        done(CpuState { pc: s2.read_word(vector), interrupt: None, ..s2.touch_word(vector) }, PageBoundary::NotCrossed)
    }

    pub open spec fn run_anc(self, mode: Mode) -> Outcome {
        let (s1, pb, br) = self.run_binary(BinaryOp::And, mode);
        (s1.set_flag(Flag::Carry, s1.a & SIGN_BIT != 0), pb, br)
    }

    pub open spec fn run_arr(self, mode: Mode, bcd: bool) -> Outcome {
        let (loc, s1) = self.locate(mode);
        let (op, s2) = s1.operand(loc);
        let anded = s2.a & op;
        let value = (anded >> 1u8) | (if s2.flag(Flag::Carry) { SIGN_BIT } else { 0u8 });
        let s3 = s2.store_nz(Location::A, value);
        let s4 = s3.set_flag(Flag::Overflow, ((value & 0x80u8) >> 1u8) != value & 0x20u8);
        let carry = if bcd && s4.flag(Flag::Decimal) {
            ((((op & 0xF0u8) as int + (op & 0x10u8) as int) % 256) as u8) > 0x50
        } else {
            value & 0x40u8 != 0
        };
        done(s4.set_flag(Flag::Carry, carry), boundary_of(loc))
    }

    pub open spec fn run_asr(self, mode: Mode) -> Outcome {
        let (loc, s1) = self.locate(mode);
        let (m, s2) = s1.operand(loc);
        let orig = s2.a & m;
        let value = orig >> 1u8;
        let s3 = s2.set_flag(Flag::Negative, false).set_flag(Flag::Carry, orig & 1 != 0).set_flag(Flag::Zero, value == 0);
        done(CpuState { a: value, ..s3 }, boundary_of(loc))
    }

    pub open spec fn run_dcp(self, mode: Mode) -> Outcome {
        let (loc, s1) = self.locate(mode);
        let (m, s2) = s1.operand(loc);
        let value = wrap_dec(m);
        let diff = ((s2.a as int - value as int + 256) % 256) as u8;
        let s3 = s2.set_flag(Flag::Negative, diff & SIGN_BIT != 0).set_flag(Flag::Zero, diff == 0)
            .set_flag(Flag::Carry, value <= s2.a);
        done(s3.store(loc, value), boundary_of(loc))
    }

    pub open spec fn run_isc(self, mode: Mode) -> Outcome {
        let (loc, s1) = self.locate(mode);
        let (m0, s2) = s1.operand(loc);
        let m = wrap_inc(m0);
        let (r, n, v, z, c) = sbc_binary(s2.a, m, s2.flag(Flag::Carry));
        let s3 = s2.set_flag(Flag::Negative, n).set_flag(Flag::Zero, z).set_flag(Flag::Overflow, v).set_flag(Flag::Carry, c);
        done(s3.store(Location::A, r).store(loc, m), boundary_of(loc))
    }

    pub open spec fn run_las(self, mode: Mode) -> Outcome {
        let (loc, s1) = self.locate(mode);
        let (m, s2) = s1.operand(loc);
        let value = m & s2.sp;
        let s3 = s2.store_nz(Location::A, value);
        done(CpuState { x: value, sp: value, ..s3 }, boundary_of(loc))
    }

    pub open spec fn run_lax(self, mode: Mode) -> Outcome {
        let (loc, s1) = self.locate(mode);
        let (m, s2) = s1.operand(loc);
        done(s2.store_nz(Location::A, m).store(Location::X, m), boundary_of(loc))
    }

    pub open spec fn run_sax(self, mode: Mode) -> Outcome {
        let value = self.a & self.x;
        let (loc, s1) = self.locate(mode);
        done(s1.store(loc, value), boundary_of(loc))
    }

    pub open spec fn run_sha(self, mode: Mode) -> Outcome {
        let (loc, s1) = self.locate(mode);
        done(s1.store(loc, s1.a & s1.x & h_plus_1_of(loc)), boundary_of(loc))
    }

    pub open spec fn run_shs(self, mode: Mode) -> Outcome {
        let v1 = self.a & self.x;
        let (loc, s1) = CpuState { sp: v1, ..self }.locate(mode);
        done(s1.store(loc, v1 & h_plus_1_of(loc)), boundary_of(loc))
    }

    pub open spec fn run_shx(self, mode: Mode) -> Outcome {
        let (loc, s1) = self.locate(mode);
        done(s1.store(loc, s1.x & h_plus_1_of(loc)), boundary_of(loc))
    }

    pub open spec fn run_shy(self, mode: Mode) -> Outcome {
        let (loc, s1) = self.locate(mode);
        done(s1.store(loc, s1.y & h_plus_1_of(loc)), boundary_of(loc))
    }

    pub open spec fn run_rla(self, mode: Mode) -> Outcome {
        let (loc, s1) = self.locate(mode);
        let (orig, s2) = s1.operand(loc);
        let (m, out) = shifted_left(orig, s2.flag(Flag::Carry));
        let s3 = s2.set_flag(Flag::Carry, out);
        done(s3.store_nz(Location::A, s3.a & m).store(loc, m), boundary_of(loc))
    }

    pub open spec fn run_rra(self, mode: Mode, bcd: bool) -> Outcome {
        let (loc, s1) = self.locate(mode);
        let (orig, s2) = s1.operand(loc);
        let (m, out) = shifted_right(orig, s2.flag(Flag::Carry));
        let s3 = s2.set_flag(Flag::Carry, out);
        let value = s3.a as int + m as int + (orig % 2) as int;
        let s4 = s3.set_flag(Flag::Carry, if bcd && s3.flag(Flag::Decimal) { value > 0x99 } else { value > 0xFF });
        let s5 = s4.set_flag(Flag::Overflow, (s4.a >= 128) == (m >= 128) && (s4.a >= 128) != ((value / 128) % 2 == 1));
        done(s5.store_nz(Location::A, (value % 256) as u8).store(loc, m), boundary_of(loc))
    }

    pub open spec fn run_sbx(self, mode: Mode) -> Outcome {
        let (loc, s1) = self.locate(mode);
        let (m, s2) = s1.operand(loc);
        let value = (((s2.a & s2.x) as int - m as int + 256) % 256) as u8;
        let s3 = s2.set_flag(Flag::Carry, value & SIGN_BIT == 0);
        done(s3.store_nz(Location::X, value), PageBoundary::NotCrossed)
    }

    pub open spec fn run_slo(self, mode: Mode) -> Outcome {
        let (loc, s1) = self.locate(mode);
        let (orig, s2) = s1.operand(loc);
        let m = shifted_left(orig, false).0;
        let s3 = s2.store(loc, m).set_flag(Flag::Carry, orig & SIGN_BIT != 0);
        done(s3.store_nz(Location::A, s3.a | m), boundary_of(loc))
    }

    pub open spec fn run_sre(self, mode: Mode) -> Outcome {
        let (loc, s1) = self.locate(mode);
        let (orig, s2) = s1.operand(loc);
        let m = shifted_right(orig, false).0;
        let s3 = s2.store(loc, m).set_flag(Flag::Carry, orig & 1 != 0);
        done(s3.store_nz(Location::A, s3.a ^ m), boundary_of(loc))
    }

    pub open spec fn run_xxa(self, mode: Mode) -> Outcome {
        let (loc, s1) = self.locate(mode);
        let (m, s2) = s1.operand(loc);
        done(s2.store_nz(loc, (s2.a | 0xEEu8) & s2.x & m), boundary_of(loc))
    }

    /// The effect of executing one instruction in a mode.
    #[verifier::opaque]
    pub open spec fn run(self, ins: Instruction, mode: Mode, bcd: bool) -> Outcome {
        match ins {
            Instruction::ADC => self.run_adc(mode, bcd),
            Instruction::AND => self.run_binary(BinaryOp::And, mode),
            Instruction::ASL => self.run_shift_left(ShiftStyle::ShiftOff, mode),
            Instruction::BCC => self.run_branch(mode, BranchType::CC),
            Instruction::BCS => self.run_branch(mode, BranchType::CS),
            Instruction::BEQ => self.run_branch(mode, BranchType::EQ),
            Instruction::BIT => self.run_test_bits(mode),
            Instruction::BMI => self.run_branch(mode, BranchType::MI),
            Instruction::BNE => self.run_branch(mode, BranchType::NE),
            Instruction::BPL => self.run_branch(mode, BranchType::PL),
            Instruction::BRK => self.run_interrupt(Interrupt::BRK),
            Instruction::BVC => self.run_branch(mode, BranchType::VC),
            Instruction::BVS => self.run_branch(mode, BranchType::VS),
            Instruction::CLC => self.run_set_flag(Flag::Carry, false),
            Instruction::CLD => self.run_set_flag(Flag::Decimal, false),
            Instruction::CLI => self.run_set_flag(Flag::InterruptDisable, false),
            Instruction::CLV => self.run_set_flag(Flag::Overflow, false),
            Instruction::CMP => self.run_compare(mode, self.a),
            Instruction::CPX => self.run_compare(mode, self.x),
            Instruction::CPY => self.run_compare(mode, self.y),
            Instruction::DEC => self.run_unary(UnaryOp::Dec, mode),
            Instruction::DEX => self.run_unary(UnaryOp::Dec, Mode::X),
            Instruction::DEY => self.run_unary(UnaryOp::Dec, Mode::Y),
            Instruction::EOR => self.run_binary(BinaryOp::Xor, mode),
            Instruction::INC => self.run_unary(UnaryOp::Inc, mode),
            Instruction::INX => self.run_unary(UnaryOp::Inc, Mode::X),
            Instruction::INY => self.run_unary(UnaryOp::Inc, Mode::Y),
            Instruction::JMP => self.run_branch(mode, BranchType::JMP),
            Instruction::JSR => self.run_branch(mode, BranchType::JSR),
            Instruction::LDA => self.run_transfer(mode, Mode::A, true),
            Instruction::LDX => self.run_transfer(mode, Mode::X, true),
            Instruction::LDY => self.run_transfer(mode, Mode::Y, true),
            Instruction::LSR => self.run_shift_right(ShiftStyle::ShiftOff, mode),
            Instruction::NOP => self.run_nop(mode),
            Instruction::ORA => self.run_binary(BinaryOp::Or, mode),
            Instruction::PHA => self.run_push(Mode::A),
            Instruction::PHP => self.run_push(Mode::Status),
            Instruction::PLA => self.run_pop(Mode::A),
            Instruction::PLP => self.run_pop(Mode::Status),
            Instruction::ROL => self.run_shift_left(ShiftStyle::Rotate, mode),
            Instruction::ROR => self.run_shift_right(ShiftStyle::Rotate, mode),
            Instruction::RTI => self.run_rti(),
            Instruction::RTS => self.run_rts(),
            Instruction::SBC => self.run_sbc(mode, bcd),
            Instruction::SEC => self.run_set_flag(Flag::Carry, true),
            Instruction::SED => self.run_set_flag(Flag::Decimal, true),
            Instruction::SEI => self.run_set_flag(Flag::InterruptDisable, true),
            Instruction::STA => self.run_transfer(Mode::A, mode, false),
            Instruction::STX => self.run_transfer(Mode::X, mode, false),
            Instruction::STY => self.run_transfer(Mode::Y, mode, false),
            Instruction::TAX => self.run_transfer(Mode::A, Mode::X, true),
            Instruction::TAY => self.run_transfer(Mode::A, Mode::Y, true),
            Instruction::TSX => self.run_transfer(Mode::SP, Mode::X, true),
            Instruction::TXA => self.run_transfer(Mode::X, Mode::A, true),
            Instruction::TXS => self.run_transfer(Mode::X, Mode::SP, false),
            Instruction::TYA => self.run_transfer(Mode::Y, Mode::A, true),
            Instruction::RST => self.run_interrupt(Interrupt::RST),
            Instruction::IRQ => self.run_interrupt(Interrupt::IRQ),
            Instruction::NMI => self.run_interrupt(Interrupt::NMI),
            Instruction::ANC => self.run_anc(mode),
            Instruction::ASR => self.run_asr(mode),
            Instruction::ARR => self.run_arr(mode, bcd),
            Instruction::DCP => self.run_dcp(mode),
            Instruction::ISC => self.run_isc(mode),
            // the jam stops the clock; it changes nothing an instruction sees
            Instruction::JAM => done(self, PageBoundary::NotCrossed),
            Instruction::LAS => self.run_las(mode),
            Instruction::LAX => self.run_lax(mode),
            Instruction::RLA => self.run_rla(mode),
            Instruction::RRA => self.run_rra(mode, bcd),
            Instruction::SAX => self.run_sax(mode),
            Instruction::SBX => self.run_sbx(mode),
            Instruction::SHA => self.run_sha(mode),
            Instruction::SHS => self.run_shs(mode),
            Instruction::SHX => self.run_shx(mode),
            Instruction::SHY => self.run_shy(mode),
            Instruction::SLO => self.run_slo(mode),
            Instruction::SRE => self.run_sre(mode),
            Instruction::XXA => self.run_xxa(mode),
        }
    }
}

} // verus!

