use vstd::prelude::*;

verus! {

/// The operations the CPU knows: the documented 6502 set, the undocumented
/// ones it decodes, and the three interrupt sequences it runs as instructions.
#[derive(Clone, Copy, PartialEq, Eq, Debug, Structural)]
pub enum Instruction {
    ADC, AND, ASL, BCC, BCS, BEQ, BIT, BMI, BNE, BPL, BRK, BVC, BVS, CLC, CLD, CLI, CLV, CMP,
    CPX, CPY, DEC, DEX, DEY, EOR, INC, INX, INY, JMP, JSR, LDA, LDX, LDY, LSR, NOP, ORA, PHA,
    PHP, PLA, PLP, ROL, ROR, RTI, RTS, SBC, SEC, SED, SEI, STA, STX, STY, TAX, TAY, TSX, TXA,
    TXS, TYA,
    // interrupt sequences
    RST, IRQ, NMI,
    // undocumented
    ANC, ARR, ASR, DCP, ISC, JAM, LAS, LAX, RLA, RRA, SAX, SBX, SHA, SHS, SHX, SHY, SLO, SRE,
    XXA,
}

/// Addressing modes, plus the register "modes" used to name an operand.
#[derive(Clone, Copy, PartialEq, Eq, Debug, Structural)]
pub enum Mode {
    Abs, AbsX, AbsY, AbsInd, A, X, Y, SP, Status, Imm, Imp, IndX, IndY, Rel, Zp, Zpx, Zpy,
}

} // verus!
