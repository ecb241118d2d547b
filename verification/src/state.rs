use vstd::prelude::*;

verus! {

use crate::cpu::{AUXILIARY_CARRY_BIT, CARRY_BIT, PARITY_BIT, SIGN_BIT, ZERO_BIT};
use crate::dram::{spec_word_at, spec_word_write, zero_memory};
use crate::instruction::{Instruction, RegPair, Src};
use crate::utils::{
    spec_add_aux,
    spec_add_carry,
    spec_add_result,
    spec_bitset,
    spec_bittest,
    spec_get_u16,
    spec_high,
    spec_low,
    spec_parity,
    spec_sign,
    spec_sub_aux,
    spec_sub_carry,
    spec_sub_result,
};

/// The mathematical state of the machine: the register file, the flag
/// register, the halt and interrupt-enable bits, and the 64K memory image.
/// The device ports are not part of this state; what an instruction does
/// to them is stated separately, since a device's behaviour is its own.
#[verifier::ext_equal]
pub struct CpuState {
    pub a: u8,
    pub b: u8,
    pub c: u8,
    pub d: u8,
    pub e: u8,
    pub h: u8,
    pub l: u8,
    pub flag: u8,
    pub sp: u16,
    pub pc: u16,
    pub halted: bool,
    pub inte: bool,
    pub mem: Seq<u8>,
}

/// The state of a freshly constructed machine: everything zero, except
/// that bit 1 of the flag register conventionally reads as 1.
pub open spec fn initial_state() -> CpuState {
    CpuState {
        a: 0,
        b: 0,
        c: 0,
        d: 0,
        e: 0,
        h: 0,
        l: 0,
        flag: 2,
        sp: 0,
        pc: 0,
        halted: false,
        inte: false,
        mem: zero_memory(),
    }
}

// ---------------------------------------------------------------------------
// Flags
// ---------------------------------------------------------------------------

pub open spec fn flag_of(s: CpuState, bit: u8) -> bool {
    spec_bittest(s.flag, bit)
}

pub open spec fn set_flag_state(s: CpuState, bit: u8, v: bool) -> CpuState {
    CpuState { flag: spec_bitset(s.flag, bit, v), ..s }
}

/// One flag bit forced to a value, or left alone.
pub open spec fn apply_flag(f: u8, bit: u8, v: Option<bool>) -> u8 {
    match v {
        Some(x) => spec_bitset(f, bit, x),
        None => f,
    }
}

/// The five flag bits, each either forced or left alone, applied in the
/// fixed order carry, parity, auxiliary carry, zero, sign.
pub open spec fn spec_set_flags(
    f: u8,
    carry: Option<bool>,
    parity: Option<bool>,
    aux: Option<bool>,
    zero: Option<bool>,
    sign: Option<bool>,
) -> u8 {
    apply_flag(
        apply_flag(
            apply_flag(apply_flag(apply_flag(f, CARRY_BIT, carry), PARITY_BIT, parity), AUXILIARY_CARRY_BIT, aux),
            ZERO_BIT,
            zero,
        ),
        SIGN_BIT,
        sign,
    )
}

pub open spec fn with_flags(
    s: CpuState,
    carry: Option<bool>,
    parity: Option<bool>,
    aux: Option<bool>,
    zero: Option<bool>,
    sign: Option<bool>,
) -> CpuState {
    CpuState { flag: spec_set_flags(s.flag, carry, parity, aux, zero, sign), ..s }
}

/// The flag settings every logical instruction produces: carry and
/// auxiliary carry cleared, parity, zero and sign from the accumulator.
pub open spec fn logical_flags(s: CpuState) -> CpuState {
    with_flags(
        s,
        Some(false),
        Some(spec_parity(s.a)),
        Some(false),
        Some(s.a == 0),
        Some(spec_sign(s.a)),
    )
}

// ---------------------------------------------------------------------------
// Registers, register pairs, and the register-or-memory operand
// ---------------------------------------------------------------------------

/// The address held in HL.
pub open spec fn hl_addr(s: CpuState) -> u16 {
    spec_get_u16(s.h, s.l)
}

/// The value a register-select field names: a register, or the memory
/// byte addressed by HL.
pub open spec fn read_src(s: CpuState, src: Src) -> u8 {
    match src {
        Src::B => s.b,
        Src::C => s.c,
        Src::D => s.d,
        Src::E => s.e,
        Src::H => s.h,
        Src::L => s.l,
        Src::A => s.a,
        Src::Mem => s.mem[hl_addr(s) as int],
    }
}

/// The state after writing to what a register-select field names.
pub open spec fn store_src(s: CpuState, src: Src, v: u8) -> CpuState {
    match src {
        Src::B => CpuState { b: v, ..s },
        Src::C => CpuState { c: v, ..s },
        Src::D => CpuState { d: v, ..s },
        Src::E => CpuState { e: v, ..s },
        Src::H => CpuState { h: v, ..s },
        Src::L => CpuState { l: v, ..s },
        Src::A => CpuState { a: v, ..s },
        Src::Mem => CpuState { mem: s.mem.update(hl_addr(s) as int, v), ..s },
    }
}

/// The 16-bit value of a register pair, of the accumulator-flag pair,
/// or of the stack pointer.
pub open spec fn pair_value(s: CpuState, rp: RegPair) -> u16 {
    match rp {
        RegPair::BC => spec_get_u16(s.b, s.c),
        RegPair::DE => spec_get_u16(s.d, s.e),
        RegPair::HL => spec_get_u16(s.h, s.l),
        RegPair::PSW => spec_get_u16(s.a, s.flag),
        RegPair::SP => s.sp,
    }
}

/// The state after loading a 16-bit value into a register pair; the
/// high byte goes to the first register of the pair.
pub open spec fn store_pair(s: CpuState, rp: RegPair, v: u16) -> CpuState {
    match rp {
        RegPair::BC => CpuState { b: spec_high(v), c: spec_low(v), ..s },
        RegPair::DE => CpuState { d: spec_high(v), e: spec_low(v), ..s },
        RegPair::HL => CpuState { h: spec_high(v), l: spec_low(v), ..s },
        RegPair::PSW => CpuState { a: spec_high(v), flag: spec_low(v), ..s },
        RegPair::SP => CpuState { sp: v, ..s },
    }
}

// ---------------------------------------------------------------------------
// Arithmetic, logic, and stack building blocks
// ---------------------------------------------------------------------------

/// Accumulator addition with a carry-in of 0 or 1: the carry-in takes
/// part both in the byte result and in the auxiliary-carry rule.
pub open spec fn op_add(s: CpuState, v: u8, cin: u8) -> CpuState {
    let res = ((s.a + v + cin) % 256) as u8;
    with_flags(
        CpuState { a: res, ..s },
        Some(s.a + v + cin > 0xff),
        Some(spec_parity(res)),
        Some((s.a & 0xf) + (v & 0xf) + cin > 0xf),
        Some(res == 0),
        Some(spec_sign(res)),
    )
}

/// Accumulator subtraction with a borrow-in of 0 or 1 (`%` is Euclidean,
/// so the result is in 0..256).
pub open spec fn op_sub(s: CpuState, v: u8, bin: u8) -> CpuState {
    let res = ((s.a - v - bin) % 256) as u8;
    with_flags(
        CpuState { a: res, ..s },
        Some(s.a < v + bin),
        Some(spec_parity(res)),
        Some((s.a & 0xf) >= (v & 0xf) + bin),
        Some(res == 0),
        Some(spec_sign(res)),
    )
}

/// Comparison: the flags of a subtraction, with the accumulator untouched.
pub open spec fn op_cmp(s: CpuState, v: u8) -> CpuState {
    let res = spec_sub_result(s.a, v);
    with_flags(
        s,
        Some(spec_sub_carry(s.a, v)),
        Some(spec_parity(res)),
        Some(spec_sub_aux(s.a, v)),
        Some(res == 0),
        Some(spec_sign(res)),
    )
}

/// Increment of a register or of the memory byte at HL: every flag but
/// carry is updated.
pub open spec fn op_inr(s: CpuState, src: Src) -> CpuState {
    let v = read_src(s, src);
    let res = spec_add_result(v, 1);
    with_flags(
        store_src(s, src, res),
        None,
        Some(spec_parity(res)),
        Some(spec_add_aux(v, 1)),
        Some(res == 0),
        Some(spec_sign(res)),
    )
}

/// Decrement of a register or of the memory byte at HL: every flag but
/// carry is updated.
pub open spec fn op_dcr(s: CpuState, src: Src) -> CpuState {
    let v = read_src(s, src);
    let res = spec_sub_result(v, 1);
    with_flags(
        store_src(s, src, res),
        None,
        Some(spec_parity(res)),
        Some(spec_sub_aux(v, 1)),
        Some(res == 0),
        Some(spec_sign(res)),
    )
}

/// Decimal adjust: add 6 to the low nibble if it exceeds 9 or auxiliary
/// carry is set; add 0x60 on top if the high nibble exceeds 9, carry was
/// already set, or the low-nibble correction carries into a high nibble
/// of 9; carry is then the OR of the old carry and that second stage.
pub open spec fn op_daa(s: CpuState) -> CpuState {
    let lsb = s.a & 0x0f;
    let msb = s.a >> 4;
    let low6 = lsb > 9 || flag_of(s, AUXILIARY_CARRY_BIT);
    let high6 = msb > 9 || flag_of(s, CARRY_BIT) || (msb >= 9 && lsb > 9);
    let adj = ((if low6 {
        6int
    } else {
        0int
    }) + (if high6 {
        0x60int
    } else {
        0int
    })) as u8;
    let res = spec_add_result(s.a, adj);
    set_flag_state(
        with_flags(
            CpuState { a: res, ..s },
            Some(spec_add_carry(s.a, adj)),
            Some(spec_parity(res)),
            Some(spec_add_aux(s.a, adj)),
            Some(res == 0),
            Some(spec_sign(res)),
        ),
        CARRY_BIT,
        flag_of(s, CARRY_BIT) || high6,
    )
}

/// The state after pushing a word: SP drops by two, the high byte lands
/// at the new SP + 1, the low byte at the new SP.
pub open spec fn push_state(s: CpuState, word: u16) -> CpuState {
    CpuState {
        sp: s.sp.wrapping_sub(2),
        mem: spec_word_write(s.mem, s.sp.wrapping_sub(2), word),
        ..s
    }
}

/// The word a pop reads: low byte at SP, high byte at SP + 1.
pub open spec fn pop_value(s: CpuState) -> u16 {
    spec_word_at(s.mem, s.sp)
}

/// The state after a pop: SP rises by two.
pub open spec fn pop_state(s: CpuState) -> CpuState {
    CpuState { sp: s.sp.wrapping_add(2), ..s }
}

pub open spec fn jump_if(s: CpuState, cond: bool, low: u8, high: u8) -> CpuState {
    if cond {
        CpuState { pc: spec_get_u16(high, low), ..s }
    } else {
        s
    }
}

/// A taken call pushes the address of the next instruction, then jumps.
pub open spec fn call_if(s: CpuState, cond: bool, low: u8, high: u8) -> CpuState {
    if cond {
        CpuState { pc: spec_get_u16(high, low), ..push_state(s, s.pc) }
    } else {
        s
    }
}

/// A taken return pops the program counter off the stack.
pub open spec fn ret_if(s: CpuState, cond: bool) -> CpuState {
    if cond {
        CpuState { pc: pop_value(s), ..pop_state(s) }
    } else {
        s
    }
}

// ---------------------------------------------------------------------------
// The instruction semantics
// ---------------------------------------------------------------------------

/// What one instruction does to the machine state, given that its operand
/// bytes were already fetched and the program counter already advanced
/// past it. IN and OUT are the only instructions whose outcome depends on
/// a device, so this function leaves the state unchanged for them; the
/// execution engine states their effect separately. Register-pair forms
/// that the decoder never produces (for example a PUSH of the stack
/// pointer) follow the same uniform rule as the decodable ones.
pub open spec fn spec_execute(s: CpuState, i: Instruction) -> CpuState {
    match i {
        Instruction::NOP => s,
        Instruction::CMC => set_flag_state(s, CARRY_BIT, !flag_of(s, CARRY_BIT)),
        Instruction::STC => set_flag_state(s, CARRY_BIT, true),
        Instruction::INR(src) => op_inr(s, src),
        Instruction::DCR(src) => op_dcr(s, src),
        Instruction::CMA => CpuState { a: !s.a, ..s },
        Instruction::DAA => op_daa(s),
        Instruction::MOV(dst, src) => store_src(s, dst, read_src(s, src)),
        Instruction::STAX(rp) => CpuState {
            mem: s.mem.update(pair_value(s, rp) as int, s.a),
            ..s
        },
        Instruction::LDAX(rp) => CpuState { a: s.mem[pair_value(s, rp) as int], ..s },
        Instruction::ADD(src) => op_add(s, read_src(s, src), 0),
        Instruction::ADC(src) => op_add(s, read_src(s, src), if flag_of(s, CARRY_BIT) {
            1
        } else {
            0
        }),
        Instruction::SUB(src) => op_sub(s, read_src(s, src), 0),
        Instruction::SBB(src) => op_sub(s, read_src(s, src), if flag_of(s, CARRY_BIT) {
            1
        } else {
            0
        }),
        Instruction::ANA(src) => logical_flags(CpuState { a: s.a & read_src(s, src), ..s }),
        Instruction::XRA(src) => logical_flags(CpuState { a: s.a ^ read_src(s, src), ..s }),
        Instruction::ORA(src) => logical_flags(CpuState { a: s.a | read_src(s, src), ..s }),
        Instruction::CMP(src) => op_cmp(s, read_src(s, src)),
        Instruction::RLC => {
            let c = spec_bittest(s.a, 7);
            set_flag_state(
                CpuState {
                    a: (s.a << 1) | (if c {
                        1
                    } else {
                        0
                    }),
                    ..s
                },
                CARRY_BIT,
                c,
            )
        },
        Instruction::RRC => {
            let c = spec_bittest(s.a, 0);
            set_flag_state(
                CpuState {
                    a: if c {
                        0x80 | (s.a >> 1)
                    } else {
                        s.a >> 1
                    },
                    ..s
                },
                CARRY_BIT,
                c,
            )
        },
        Instruction::RAL => {
            let high = spec_bittest(s.a, 7);
            set_flag_state(
                CpuState {
                    a: (s.a << 1) | (if flag_of(s, CARRY_BIT) {
                        1
                    } else {
                        0
                    }),
                    ..s
                },
                CARRY_BIT,
                high,
            )
        },
        Instruction::RAR => {
            let low = spec_bittest(s.a, 0);
            set_flag_state(
                CpuState {
                    a: if flag_of(s, CARRY_BIT) {
                        0x80 | (s.a >> 1)
                    } else {
                        s.a >> 1
                    },
                    ..s
                },
                CARRY_BIT,
                low,
            )
        },
        Instruction::PUSH(rp) => push_state(s, pair_value(s, rp)),
        Instruction::POP(rp) => store_pair(pop_state(s), rp, pop_value(s)),
        Instruction::DAD(rp) => {
            let sum = pair_value(s, rp) + hl_addr(s);
            let res = (sum % 0x10000) as u16;
            set_flag_state(
                CpuState { h: spec_high(res), l: spec_low(res), ..s },
                CARRY_BIT,
                sum > 0xffff,
            )
        },
        Instruction::INX(rp) => store_pair(s, rp, pair_value(s, rp).wrapping_add(1)),
        Instruction::DCX(rp) => store_pair(s, rp, pair_value(s, rp).wrapping_sub(1)),
        Instruction::XCHG => CpuState { d: s.h, e: s.l, h: s.d, l: s.e, ..s },
        Instruction::XTHL => {
            let w = spec_word_at(s.mem, s.sp);
            CpuState {
                h: spec_high(w),
                l: spec_low(w),
                mem: spec_word_write(s.mem, s.sp, spec_get_u16(s.h, s.l)),
                ..s
            }
        },
        Instruction::SPHL => CpuState { sp: spec_get_u16(s.h, s.l), ..s },
        Instruction::LXI(rp, low, high) => store_pair(s, rp, spec_get_u16(high, low)),
        Instruction::MVI(src, data) => store_src(s, src, data),
        Instruction::ADI(data) => op_add(s, data, 0),
        Instruction::ACI(data) => op_add(s, data, if flag_of(s, CARRY_BIT) {
            1
        } else {
            0
        }),
        Instruction::SUI(data) => op_sub(s, data, 0),
        Instruction::SBI(data) => op_sub(s, data, if flag_of(s, CARRY_BIT) {
            1
        } else {
            0
        }),
        Instruction::ANI(data) => logical_flags(CpuState { a: s.a & data, ..s }),
        Instruction::XRI(data) => logical_flags(CpuState { a: s.a ^ data, ..s }),
        Instruction::ORI(data) => logical_flags(CpuState { a: s.a | data, ..s }),
        Instruction::CPI(data) => op_cmp(s, data),
        Instruction::STA(low, high) => CpuState {
            mem: s.mem.update(spec_get_u16(high, low) as int, s.a),
            ..s
        },
        Instruction::LDA(low, high) => CpuState {
            a: s.mem[spec_get_u16(high, low) as int],
            ..s
        },
        Instruction::SHLD(low, high) => CpuState {
            mem: spec_word_write(s.mem, spec_get_u16(high, low), spec_get_u16(s.h, s.l)),
            ..s
        },
        Instruction::LHLD(low, high) => {
            let w = spec_word_at(s.mem, spec_get_u16(high, low));
            CpuState { h: spec_high(w), l: spec_low(w), ..s }
        },
        Instruction::PCHL => CpuState { pc: spec_get_u16(s.h, s.l), ..s },
        Instruction::JMP(low, high) => jump_if(s, true, low, high),
        Instruction::JC(low, high) => jump_if(s, flag_of(s, CARRY_BIT), low, high),
        Instruction::JNC(low, high) => jump_if(s, !flag_of(s, CARRY_BIT), low, high),
        Instruction::JZ(low, high) => jump_if(s, flag_of(s, ZERO_BIT), low, high),
        Instruction::JNZ(low, high) => jump_if(s, !flag_of(s, ZERO_BIT), low, high),
        Instruction::JM(low, high) => jump_if(s, flag_of(s, SIGN_BIT), low, high),
        Instruction::JP(low, high) => jump_if(s, !flag_of(s, SIGN_BIT), low, high),
        Instruction::JPE(low, high) => jump_if(s, flag_of(s, PARITY_BIT), low, high),
        Instruction::JPO(low, high) => jump_if(s, !flag_of(s, PARITY_BIT), low, high),
        Instruction::CALL(low, high) => call_if(s, true, low, high),
        Instruction::CC(low, high) => call_if(s, flag_of(s, CARRY_BIT), low, high),
        Instruction::CNC(low, high) => call_if(s, !flag_of(s, CARRY_BIT), low, high),
        Instruction::CZ(low, high) => call_if(s, flag_of(s, ZERO_BIT), low, high),
        Instruction::CNZ(low, high) => call_if(s, !flag_of(s, ZERO_BIT), low, high),
        Instruction::CM(low, high) => call_if(s, flag_of(s, SIGN_BIT), low, high),
        Instruction::CP(low, high) => call_if(s, !flag_of(s, SIGN_BIT), low, high),
        Instruction::CPE(low, high) => call_if(s, flag_of(s, PARITY_BIT), low, high),
        Instruction::CPO(low, high) => call_if(s, !flag_of(s, PARITY_BIT), low, high),
        Instruction::RET => ret_if(s, true),
        Instruction::RC => ret_if(s, flag_of(s, CARRY_BIT)),
        Instruction::RNC => ret_if(s, !flag_of(s, CARRY_BIT)),
        Instruction::RZ => ret_if(s, flag_of(s, ZERO_BIT)),
        Instruction::RNZ => ret_if(s, !flag_of(s, ZERO_BIT)),
        Instruction::RM => ret_if(s, flag_of(s, SIGN_BIT)),
        Instruction::RP => ret_if(s, !flag_of(s, SIGN_BIT)),
        Instruction::RPE => ret_if(s, flag_of(s, PARITY_BIT)),
        Instruction::RPO => ret_if(s, !flag_of(s, PARITY_BIT)),
        Instruction::RST(exp) => CpuState {
            pc: ((exp * 8) % 256) as u16,
            ..push_state(s, s.pc)
        },
        Instruction::EI => CpuState { inte: true, ..s },
        Instruction::DI => CpuState { inte: false, ..s },
        Instruction::IN(_) => s,
        Instruction::OUT(_) => s,
        Instruction::HLT => CpuState { halted: true, ..s },
    }
}

/// The instruction the three bytes at the program counter decode to,
/// or nothing when the opcode byte is unassigned. Operand addresses
/// wrap at the top of memory, as the bus convention demands.
pub open spec fn decoded_at(s: CpuState) -> Option<Instruction> {
    crate::instruction::spec_decode(
        s.mem[s.pc as int],
        s.mem[s.pc.wrapping_add(1) as int],
        s.mem[s.pc.wrapping_add(2) as int],
    )
}

/// The state after the fetch of an instruction: the program counter has
/// moved past the bytes the instruction occupies, and nothing else.
pub open spec fn after_fetch(s: CpuState, i: Instruction) -> CpuState {
    CpuState { pc: s.pc.wrapping_add(crate::instruction::spec_instr_len(i)), ..s }
}

/// One fetch-decode-execute step: what a successful single step of the
/// engine does to the machine state. `bound` is the set of ports that
/// carry a device; no instruction changes it, so it is one value for a
/// whole run. A state whose program counter holds an unassigned opcode
/// byte has no step. For IN on a bound port the byte read is the
/// device's to choose, so any accumulator value is a step.
pub open spec fn one_step(bound: Set<u8>, s0: CpuState, s1: CpuState) -> bool {
    match decoded_at(s0) {
        None => false,
        Some(i) => {
            let sf = after_fetch(s0, i);
            match i {
                Instruction::IN(port) => if bound.contains(port) {
                    s1 == (CpuState { a: s1.a, ..sf })
                } else {
                    s1 == (CpuState { halted: true, ..sf })
                },
                Instruction::OUT(port) => if bound.contains(port) {
                    s1 == sf
                } else {
                    s1 == (CpuState { halted: true, ..sf })
                },
                _ => s1 == spec_execute(sf, i),
            }
        },
    }
}

/// `s1` is what `n` consecutive steps, each completing fully before the
/// next begins, leave behind when started from `s0`.
pub open spec fn reaches(bound: Set<u8>, s0: CpuState, s1: CpuState, n: nat) -> bool
    decreases n,
{
    if n == 0 {
        s1 == s0
    } else {
        exists|mid: CpuState|
            reaches(bound, s0, mid, (n - 1) as nat) && #[trigger] one_step(bound, mid, s1)
    }
}

/// How a finished run relates its final state to its starting state:
/// either the final state is what `n` instruction steps left behind, or
/// — only once the engine's whole step budget of 2^64 - 1 instructions
/// has been spent — it is such a state halted by the engine itself
/// rather than by an instruction.
pub open spec fn run_reaches(bound: Set<u8>, s0: CpuState, s1: CpuState, n: nat) -> bool {
    reaches(bound, s0, s1, n) || (n == u64::MAX && s1.halted && reaches(
        bound,
        s0,
        CpuState { halted: false, ..s1 },
        n,
    ))
}

/// Instructions that only move data never alter the flag register.
/// Every decodable data-transfer form is covered; a hand-built LXI of
/// the accumulator-flag pair is the one shape left out, since loading
/// that pair writes the flag register by definition.
pub proof fn lemma_transfer_preserves_flags(s: CpuState, i: Instruction)
    requires
        i matches Instruction::MOV(_, _) || i matches Instruction::STAX(_) || i matches Instruction::LDAX(
            _,
        ) || (i matches Instruction::LXI(rp, _, _) && !(rp is PSW)) || i matches Instruction::MVI(
            _,
            _,
        ) || i matches Instruction::STA(_, _) || i matches Instruction::LDA(_, _)
            || i matches Instruction::SHLD(_, _) || i matches Instruction::LHLD(_, _)
            || i matches Instruction::XCHG || i matches Instruction::XTHL
            || i matches Instruction::SPHL,
    ensures
        spec_execute(s, i).flag == s.flag,
{
}

/// Increment and decrement update zero, sign, parity and auxiliary
/// carry, but never the carry flag.
pub proof fn lemma_inr_dcr_preserve_carry(s: CpuState, src: Src)
    ensures
        flag_of(spec_execute(s, Instruction::INR(src)), CARRY_BIT) == flag_of(s, CARRY_BIT),
        flag_of(spec_execute(s, Instruction::DCR(src)), CARRY_BIT) == flag_of(s, CARRY_BIT),
{
    assert(forall|f: u8, p: bool, a: bool, z: bool, g: bool|
        spec_bittest(
            #[trigger] spec_bitset(spec_bitset(spec_bitset(spec_bitset(f, 2, p), 4, a), 6, z), 7, g),
            0,
        ) == spec_bittest(f, 0)) by (bit_vector);
}

/// Every logical instruction leaves carry and auxiliary carry clear.
pub proof fn lemma_logical_clears_carry_aux(s: CpuState, i: Instruction)
    requires
        i matches Instruction::ANA(_) || i matches Instruction::XRA(_) || i matches Instruction::ORA(
            _,
        ) || i matches Instruction::ANI(_) || i matches Instruction::XRI(_)
            || i matches Instruction::ORI(_),
    ensures
        !flag_of(spec_execute(s, i), CARRY_BIT),
        !flag_of(spec_execute(s, i), AUXILIARY_CARRY_BIT),
{
    assert(forall|f: u8, p: bool, z: bool, g: bool|
        {
            let r = #[trigger] spec_bitset(
                spec_bitset(spec_bitset(spec_bitset(spec_bitset(f, 0, false), 2, p), 4, false), 6, z),
                7,
                g,
            );
            !spec_bittest(r, 0) && !spec_bittest(r, 4)
        }) by (bit_vector);
}

/// PUSH then POP of the same register pair restores the pair and brings
/// the stack pointer back, whatever the pair holds, for any SP of at
/// least 2.
pub proof fn lemma_push_pop_roundtrip(s: CpuState, rp: RegPair)
    requires
        s.mem.len() == 65536,
        s.sp >= 2,
        !(rp is SP),
    ensures
        pair_value(
            spec_execute(spec_execute(s, Instruction::PUSH(rp)), Instruction::POP(rp)),
            rp,
        ) == pair_value(s, rp),
        spec_execute(spec_execute(s, Instruction::PUSH(rp)), Instruction::POP(rp)).sp == s.sp,
{
    let w = pair_value(s, rp);
    crate::utils::lemma_u16_roundtrip(spec_high(w), spec_low(w), w);
}

} // verus!
