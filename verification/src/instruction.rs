use vstd::prelude::*;

verus! {

use crate::error::Error;
use crate::utils::{
    bitmatch,
    bittest,
    idx2rp_psw,
    idx2rp_sp,
    idx2src,
    lemma_field_bounds,
    spec_bitmatch,
    spec_bittest,
    spec_idx2rp_psw,
    spec_idx2rp_sp,
    spec_idx2src,
};

/// One decoded 8080 instruction, with every operand byte already fetched.
#[derive(Debug, Clone, Copy)]
pub enum Instruction {
    // Carry bit instructions
    CMC,
    STC,
    // Single register instructions
    INR(Src),
    DCR(Src),
    CMA,
    DAA,
    // Nop instruction
    NOP,
    // Data transfer instructions
    MOV(Src, Src),
    STAX(RegPair),
    LDAX(RegPair),
    // Register or memory to accumulator instructions
    ADD(Src),
    ADC(Src),
    SUB(Src),
    SBB(Src),
    ANA(Src),
    XRA(Src),
    ORA(Src),
    CMP(Src),
    // Rotate accumulator instructions
    RLC,
    RRC,
    RAL,
    RAR,
    // Register pair instructions
    PUSH(RegPair),
    POP(RegPair),
    DAD(RegPair),
    INX(RegPair),
    DCX(RegPair),
    XCHG,
    XTHL,
    SPHL,
    // Immediate instructions
    LXI(RegPair, u8, u8),
    MVI(Src, u8),
    ADI(u8),
    ACI(u8),
    SUI(u8),
    SBI(u8),
    ANI(u8),
    XRI(u8),
    ORI(u8),
    CPI(u8),
    // Direct addressing instructions
    STA(u8, u8),
    LDA(u8, u8),
    SHLD(u8, u8),
    LHLD(u8, u8),
    // Jump instructions
    PCHL,
    JMP(u8, u8),
    JC(u8, u8),
    JNC(u8, u8),
    JZ(u8, u8),
    JNZ(u8, u8),
    JM(u8, u8),
    JP(u8, u8),
    JPE(u8, u8),
    JPO(u8, u8),
    // Call subroutine instructions
    CALL(u8, u8),
    CC(u8, u8),
    CNC(u8, u8),
    CZ(u8, u8),
    CNZ(u8, u8),
    CM(u8, u8),
    CP(u8, u8),
    CPE(u8, u8),
    CPO(u8, u8),
    // Return from subroutine instructions
    RET,
    RC,
    RNC,
    RZ,
    RNZ,
    RM,
    RP,
    RPE,
    RPO,
    // Restart, interrupt enable/disable
    RST(u8),
    EI,
    DI,
    // Input/Output instructions
    IN(u8),
    OUT(u8),
    // Halt instruction
    HLT,
}

/// A register named by a 3-bit register-select field; index 6 denotes
/// the memory byte addressed by HL rather than a register.
#[derive(Debug, Clone, Copy)]
pub enum Src {
    B,
    C,
    D,
    E,
    H,
    L,
    A,
    Mem,
}

/// A register pair: two 8-bit registers read as one big-endian 16-bit value,
/// the accumulator-flag pairing, or the stack pointer.
#[derive(Debug, Clone, Copy)]
pub enum RegPair {
    BC,
    DE,
    HL,
    PSW,
    SP,
}

// ---------------------------------------------------------------------------
// Decoding
// ---------------------------------------------------------------------------

/// How many bytes an instruction occupies in memory: the opcode byte
/// plus its immediate or address operands.
pub open spec fn spec_instr_len(i: Instruction) -> u16 {
    match i {
        Instruction::LXI(_, _, _) => 3,
        Instruction::STA(_, _)
        | Instruction::LDA(_, _)
        | Instruction::SHLD(_, _)
        | Instruction::LHLD(_, _) => 3,
        Instruction::JMP(_, _)
        | Instruction::JC(_, _)
        | Instruction::JNC(_, _)
        | Instruction::JZ(_, _)
        | Instruction::JNZ(_, _)
        | Instruction::JM(_, _)
        | Instruction::JP(_, _)
        | Instruction::JPE(_, _)
        | Instruction::JPO(_, _) => 3,
        Instruction::CALL(_, _)
        | Instruction::CC(_, _)
        | Instruction::CNC(_, _)
        | Instruction::CZ(_, _)
        | Instruction::CNZ(_, _)
        | Instruction::CM(_, _)
        | Instruction::CP(_, _)
        | Instruction::CPE(_, _)
        | Instruction::CPO(_, _) => 3,
        Instruction::MVI(_, _) => 2,
        Instruction::ADI(_)
        | Instruction::ACI(_)
        | Instruction::SUI(_)
        | Instruction::SBI(_)
        | Instruction::ANI(_)
        | Instruction::XRI(_)
        | Instruction::ORI(_)
        | Instruction::CPI(_) => 2,
        Instruction::IN(_) | Instruction::OUT(_) => 2,
        _ => 1,
    }
}

pub fn instruction_size(i: &Instruction) -> (r: u16)
    ensures
        r == spec_instr_len(*i),
{
    match i {
        Instruction::LXI(_, _, _) => 3,
        Instruction::STA(_, _)
        | Instruction::LDA(_, _)
        | Instruction::SHLD(_, _)
        | Instruction::LHLD(_, _) => 3,
        Instruction::JMP(_, _)
        | Instruction::JC(_, _)
        | Instruction::JNC(_, _)
        | Instruction::JZ(_, _)
        | Instruction::JNZ(_, _)
        | Instruction::JM(_, _)
        | Instruction::JP(_, _)
        | Instruction::JPE(_, _)
        | Instruction::JPO(_, _) => 3,
        Instruction::CALL(_, _)
        | Instruction::CC(_, _)
        | Instruction::CNC(_, _)
        | Instruction::CZ(_, _)
        | Instruction::CNZ(_, _)
        | Instruction::CM(_, _)
        | Instruction::CP(_, _)
        | Instruction::CPE(_, _)
        | Instruction::CPO(_, _) => 3,
        Instruction::MVI(_, _) => 2,
        Instruction::ADI(_)
        | Instruction::ACI(_)
        | Instruction::SUI(_)
        | Instruction::SBI(_)
        | Instruction::ANI(_)
        | Instruction::XRI(_)
        | Instruction::ORI(_)
        | Instruction::CPI(_) => 2,
        Instruction::IN(_) | Instruction::OUT(_) => 2,
        _ => 1,
    }
}

/// The instruction an opcode byte denotes, with its operand bytes
/// (`b1` first, then `b2`, matching the little-endian bus convention),
/// or nothing when the byte is unassigned in the 8080 map. Exact
/// fixed-byte opcodes are matched before the masked families whose bit
/// pattern could also cover them; in particular HLT comes before the
/// MOV family, whose pattern its byte shares.
pub open spec fn spec_decode(b0: u8, b1: u8, b2: u8) -> Option<Instruction> {
    if b0 == 0x00 {
        Some(Instruction::NOP)
    } else if b0 == 0x3f {
        Some(Instruction::CMC)
    } else if b0 == 0x37 {
        Some(Instruction::STC)
    } else if spec_bitmatch(b0, 0x04, 0xc7) {
        Some(Instruction::INR(spec_idx2src((b0 & 0x38) >> 3)))
    } else if spec_bitmatch(b0, 0x05, 0xc7) {
        Some(Instruction::DCR(spec_idx2src((b0 & 0x38) >> 3)))
    } else if b0 == 0x2f {
        Some(Instruction::CMA)
    } else if b0 == 0x27 {
        Some(Instruction::DAA)
    } else if b0 == 0x76 {
        Some(Instruction::HLT)
    } else if spec_bitmatch(b0, 0x40, 0xc0) {
        Some(Instruction::MOV(spec_idx2src((b0 & 0x38) >> 3), spec_idx2src(b0 & 0x07)))
    } else if spec_bitmatch(b0, 0x02, 0xe7) {
        if spec_bittest(b0, 3) {
            Some(Instruction::LDAX(spec_idx2rp_psw((b0 & 0x10) >> 4)))
        } else {
            Some(Instruction::STAX(spec_idx2rp_psw((b0 & 0x10) >> 4)))
        }
    } else if spec_bitmatch(b0, 0x80, 0xc0) {
        let op = (b0 & 0x38) >> 3;
        let reg = spec_idx2src(b0 & 0x07);
        match op {
            0 => Some(Instruction::ADD(reg)),
            1 => Some(Instruction::ADC(reg)),
            2 => Some(Instruction::SUB(reg)),
            3 => Some(Instruction::SBB(reg)),
            4 => Some(Instruction::ANA(reg)),
            5 => Some(Instruction::XRA(reg)),
            6 => Some(Instruction::ORA(reg)),
            _ => Some(Instruction::CMP(reg)),
        }
    } else if b0 == 0x07 {
        Some(Instruction::RLC)
    } else if b0 == 0x0f {
        Some(Instruction::RRC)
    } else if b0 == 0x17 {
        Some(Instruction::RAL)
    } else if b0 == 0x1f {
        Some(Instruction::RAR)
    } else if spec_bitmatch(b0, 0xc5, 0xcf) {
        Some(Instruction::PUSH(spec_idx2rp_psw((b0 & 0x30) >> 4)))
    } else if spec_bitmatch(b0, 0xc1, 0xcf) {
        Some(Instruction::POP(spec_idx2rp_psw((b0 & 0x30) >> 4)))
    } else if spec_bitmatch(b0, 0x09, 0xcf) {
        Some(Instruction::DAD(spec_idx2rp_sp((b0 & 0x30) >> 4)))
    } else if spec_bitmatch(b0, 0x03, 0xcf) {
        Some(Instruction::INX(spec_idx2rp_sp((b0 & 0x30) >> 4)))
    } else if spec_bitmatch(b0, 0x0b, 0xcf) {
        Some(Instruction::DCX(spec_idx2rp_sp((b0 & 0x30) >> 4)))
    } else if b0 == 0xeb {
        Some(Instruction::XCHG)
    } else if b0 == 0xe3 {
        Some(Instruction::XTHL)
    } else if b0 == 0xf9 {
        Some(Instruction::SPHL)
    } else if spec_bitmatch(b0, 0x01, 0xcf) {
        Some(Instruction::LXI(spec_idx2rp_sp((b0 & 0x30) >> 4), b1, b2))
    } else if spec_bitmatch(b0, 0x06, 0xc7) {
        Some(Instruction::MVI(spec_idx2src((b0 & 0x38) >> 3), b1))
    } else if b0 == 0xc6 {
        Some(Instruction::ADI(b1))
    } else if b0 == 0xce {
        Some(Instruction::ACI(b1))
    } else if b0 == 0xd6 {
        Some(Instruction::SUI(b1))
    } else if b0 == 0xde {
        Some(Instruction::SBI(b1))
    } else if b0 == 0xe6 {
        Some(Instruction::ANI(b1))
    } else if b0 == 0xee {
        Some(Instruction::XRI(b1))
    } else if b0 == 0xf6 {
        Some(Instruction::ORI(b1))
    } else if b0 == 0xfe {
        Some(Instruction::CPI(b1))
    } else if b0 == 0x32 {
        Some(Instruction::STA(b1, b2))
    } else if b0 == 0x3a {
        Some(Instruction::LDA(b1, b2))
    } else if b0 == 0x22 {
        Some(Instruction::SHLD(b1, b2))
    } else if b0 == 0x2a {
        Some(Instruction::LHLD(b1, b2))
    } else if b0 == 0xe9 {
        Some(Instruction::PCHL)
    } else if b0 == 0xc3 {
        Some(Instruction::JMP(b1, b2))
    } else if b0 == 0xda {
        Some(Instruction::JC(b1, b2))
    } else if b0 == 0xd2 {
        Some(Instruction::JNC(b1, b2))
    } else if b0 == 0xca {
        Some(Instruction::JZ(b1, b2))
    } else if b0 == 0xc2 {
        Some(Instruction::JNZ(b1, b2))
    } else if b0 == 0xfa {
        Some(Instruction::JM(b1, b2))
    } else if b0 == 0xf2 {
        Some(Instruction::JP(b1, b2))
    } else if b0 == 0xea {
        Some(Instruction::JPE(b1, b2))
    } else if b0 == 0xe2 {
        Some(Instruction::JPO(b1, b2))
    } else if b0 == 0xcd {
        Some(Instruction::CALL(b1, b2))
    } else if b0 == 0xdc {
        Some(Instruction::CC(b1, b2))
    } else if b0 == 0xd4 {
        Some(Instruction::CNC(b1, b2))
    } else if b0 == 0xcc {
        Some(Instruction::CZ(b1, b2))
    } else if b0 == 0xc4 {
        Some(Instruction::CNZ(b1, b2))
    } else if b0 == 0xfc {
        Some(Instruction::CM(b1, b2))
    } else if b0 == 0xf4 {
        Some(Instruction::CP(b1, b2))
    } else if b0 == 0xec {
        Some(Instruction::CPE(b1, b2))
    } else if b0 == 0xe4 {
        Some(Instruction::CPO(b1, b2))
    } else if b0 == 0xc9 {
        Some(Instruction::RET)
    } else if b0 == 0xd8 {
        Some(Instruction::RC)
    } else if b0 == 0xd0 {
        Some(Instruction::RNC)
    } else if b0 == 0xc8 {
        Some(Instruction::RZ)
    } else if b0 == 0xc0 {
        Some(Instruction::RNZ)
    } else if b0 == 0xf8 {
        Some(Instruction::RM)
    } else if b0 == 0xf0 {
        Some(Instruction::RP)
    } else if b0 == 0xe8 {
        Some(Instruction::RPE)
    } else if b0 == 0xe0 {
        Some(Instruction::RPO)
    } else if spec_bitmatch(b0, 0xc7, 0xc7) {
        Some(Instruction::RST((b0 & 0x38) >> 3))
    } else if b0 == 0xfb {
        Some(Instruction::EI)
    } else if b0 == 0xf3 {
        Some(Instruction::DI)
    } else if b0 == 0xdb {
        Some(Instruction::IN(b1))
    } else if b0 == 0xd3 {
        Some(Instruction::OUT(b1))
    } else {
        None
    }
}

/// Decode one opcode byte and its two following bytes; an unassigned
/// opcode byte is reported, never skipped.
pub fn decode(b0: u8, b1: u8, b2: u8) -> (r: Result<Instruction, Error>)
    ensures
        match spec_decode(b0, b1, b2) {
            Some(i) => r == Ok::<Instruction, Error>(i),
            None => r == Err::<Instruction, Error>(Error::UnknownOpcode(b0)),
        },
{
    proof {
        lemma_field_bounds(b0);
    }
    if b0 == 0x00 {
        Ok(Instruction::NOP)
    } else if b0 == 0x3f {
        Ok(Instruction::CMC)
    } else if b0 == 0x37 {
        Ok(Instruction::STC)
    } else if bitmatch(b0, 0x04, 0xc7) {
        Ok(Instruction::INR(idx2src((b0 & 0x38) >> 3)))
    } else if bitmatch(b0, 0x05, 0xc7) {
        Ok(Instruction::DCR(idx2src((b0 & 0x38) >> 3)))
    } else if b0 == 0x2f {
        Ok(Instruction::CMA)
    } else if b0 == 0x27 {
        Ok(Instruction::DAA)
    } else if b0 == 0x76 {
        Ok(Instruction::HLT)
    } else if bitmatch(b0, 0x40, 0xc0) {
        Ok(Instruction::MOV(idx2src((b0 & 0x38) >> 3), idx2src(b0 & 0x07)))
    } else if bitmatch(b0, 0x02, 0xe7) {
        let pair = idx2rp_psw((b0 & 0x10) >> 4);
        if bittest(b0, 3) {
            Ok(Instruction::LDAX(pair))
        } else {
            Ok(Instruction::STAX(pair))
        }
    } else if bitmatch(b0, 0x80, 0xc0) {
        let op: u8 = (b0 & 0x38) >> 3;
        let reg = idx2src(b0 & 0x07);
        match op {
            0 => Ok(Instruction::ADD(reg)),
            1 => Ok(Instruction::ADC(reg)),
            2 => Ok(Instruction::SUB(reg)),
            3 => Ok(Instruction::SBB(reg)),
            4 => Ok(Instruction::ANA(reg)),
            5 => Ok(Instruction::XRA(reg)),
            6 => Ok(Instruction::ORA(reg)),
            _ => Ok(Instruction::CMP(reg)),
        }
    } else if b0 == 0x07 {
        Ok(Instruction::RLC)
    } else if b0 == 0x0f {
        Ok(Instruction::RRC)
    } else if b0 == 0x17 {
        Ok(Instruction::RAL)
    } else if b0 == 0x1f {
        Ok(Instruction::RAR)
    } else if bitmatch(b0, 0xc5, 0xcf) {
        Ok(Instruction::PUSH(idx2rp_psw((b0 & 0x30) >> 4)))
    } else if bitmatch(b0, 0xc1, 0xcf) {
        Ok(Instruction::POP(idx2rp_psw((b0 & 0x30) >> 4)))
    } else if bitmatch(b0, 0x09, 0xcf) {
        Ok(Instruction::DAD(idx2rp_sp((b0 & 0x30) >> 4)))
    } else if bitmatch(b0, 0x03, 0xcf) {
        Ok(Instruction::INX(idx2rp_sp((b0 & 0x30) >> 4)))
    } else if bitmatch(b0, 0x0b, 0xcf) {
        Ok(Instruction::DCX(idx2rp_sp((b0 & 0x30) >> 4)))
    } else if b0 == 0xeb {
        Ok(Instruction::XCHG)
    } else if b0 == 0xe3 {
        Ok(Instruction::XTHL)
    } else if b0 == 0xf9 {
        Ok(Instruction::SPHL)
    } else if bitmatch(b0, 0x01, 0xcf) {
        Ok(Instruction::LXI(idx2rp_sp((b0 & 0x30) >> 4), b1, b2))
    } else if bitmatch(b0, 0x06, 0xc7) {
        Ok(Instruction::MVI(idx2src((b0 & 0x38) >> 3), b1))
    } else if b0 == 0xc6 {
        Ok(Instruction::ADI(b1))
    } else if b0 == 0xce {
        Ok(Instruction::ACI(b1))
    } else if b0 == 0xd6 {
        Ok(Instruction::SUI(b1))
    } else if b0 == 0xde {
        Ok(Instruction::SBI(b1))
    } else if b0 == 0xe6 {
        Ok(Instruction::ANI(b1))
    } else if b0 == 0xee {
        Ok(Instruction::XRI(b1))
    } else if b0 == 0xf6 {
        Ok(Instruction::ORI(b1))
    } else if b0 == 0xfe {
        Ok(Instruction::CPI(b1))
    } else if b0 == 0x32 {
        Ok(Instruction::STA(b1, b2))
    } else if b0 == 0x3a {
        Ok(Instruction::LDA(b1, b2))
    } else if b0 == 0x22 {
        Ok(Instruction::SHLD(b1, b2))
    } else if b0 == 0x2a {
        Ok(Instruction::LHLD(b1, b2))
    } else if b0 == 0xe9 {
        Ok(Instruction::PCHL)
    } else if b0 == 0xc3 {
        Ok(Instruction::JMP(b1, b2))
    } else if b0 == 0xda {
        Ok(Instruction::JC(b1, b2))
    } else if b0 == 0xd2 {
        Ok(Instruction::JNC(b1, b2))
    } else if b0 == 0xca {
        Ok(Instruction::JZ(b1, b2))
    } else if b0 == 0xc2 {
        Ok(Instruction::JNZ(b1, b2))
    } else if b0 == 0xfa {
        Ok(Instruction::JM(b1, b2))
    } else if b0 == 0xf2 {
        Ok(Instruction::JP(b1, b2))
    } else if b0 == 0xea {
        Ok(Instruction::JPE(b1, b2))
    } else if b0 == 0xe2 {
        Ok(Instruction::JPO(b1, b2))
    } else if b0 == 0xcd {
        Ok(Instruction::CALL(b1, b2))
    } else if b0 == 0xdc {
        Ok(Instruction::CC(b1, b2))
    } else if b0 == 0xd4 {
        Ok(Instruction::CNC(b1, b2))
    } else if b0 == 0xcc {
        Ok(Instruction::CZ(b1, b2))
    } else if b0 == 0xc4 {
        Ok(Instruction::CNZ(b1, b2))
    } else if b0 == 0xfc {
        Ok(Instruction::CM(b1, b2))
    } else if b0 == 0xf4 {
        Ok(Instruction::CP(b1, b2))
    } else if b0 == 0xec {
        Ok(Instruction::CPE(b1, b2))
    } else if b0 == 0xe4 {
        Ok(Instruction::CPO(b1, b2))
    } else if b0 == 0xc9 {
        Ok(Instruction::RET)
    } else if b0 == 0xd8 {
        Ok(Instruction::RC)
    } else if b0 == 0xd0 {
        Ok(Instruction::RNC)
    } else if b0 == 0xc8 {
        Ok(Instruction::RZ)
    } else if b0 == 0xc0 {
        Ok(Instruction::RNZ)
    } else if b0 == 0xf8 {
        Ok(Instruction::RM)
    } else if b0 == 0xf0 {
        Ok(Instruction::RP)
    } else if b0 == 0xe8 {
        Ok(Instruction::RPE)
    } else if b0 == 0xe0 {
        Ok(Instruction::RPO)
    } else if bitmatch(b0, 0xc7, 0xc7) {
        Ok(Instruction::RST((b0 & 0x38) >> 3))
    } else if b0 == 0xfb {
        Ok(Instruction::EI)
    } else if b0 == 0xf3 {
        Ok(Instruction::DI)
    } else if b0 == 0xdb {
        Ok(Instruction::IN(b1))
    } else if b0 == 0xd3 {
        Ok(Instruction::OUT(b1))
    } else {
        Err(Error::UnknownOpcode(b0))
    }
}

} // verus!
