use vstd::prelude::*;

verus! {

use crate::device::Device;
use crate::dram::{Dram, RAM_SIZE};
use crate::error::Error;
use crate::instruction::{decode, instruction_size, Instruction, RegPair, Src};
use crate::state::{
    after_fetch,
    decoded_at,
    one_step,
    reaches,
    run_reaches,
    flag_of,
    hl_addr,
    initial_state,
    logical_flags,
    op_add,
    op_sub,
    pair_value,
    pop_state,
    pop_value,
    push_state,
    read_src,
    spec_execute,
    store_pair,
    store_src,
    with_flags,
    CpuState,
};
use crate::utils::{
    bitset,
    bittest,
    flagged_add,
    flagged_sub,
    get_u16,
    lemma_carry_in_add,
    lemma_carry_in_sub,
    split_u16,
    spec_bitset,
    spec_bittest,
    spec_get_u16,
};

/// Bit positions inside the 8-bit flag register.
pub const CARRY_BIT: u8 = 0;

pub const PARITY_BIT: u8 = 2;

pub const AUXILIARY_CARRY_BIT: u8 = 4;

pub const ZERO_BIT: u8 = 6;

pub const SIGN_BIT: u8 = 7;

/// Number of addressable I/O ports.
pub const PORT_NUM: usize = 256;

/// The machine: seven 8-bit registers, the flag register, stack pointer,
/// program counter, interrupt-enable and halt bits, the 64K memory, and
/// 256 I/O ports each optionally bound to a device.
pub struct Cpu {
    pub a: u8,
    pub b: u8,
    pub c: u8,
    pub d: u8,
    pub e: u8,
    pub h: u8,
    pub l: u8,
    pub sp: u16,
    pub pc: u16,
    pub halted: bool,
    pub flag: u8,
    pub inte: bool,
    pub ram: Dram,
    pub devices: Vec<Option<Box<dyn Device>>>,
}

impl View for Cpu {
    type V = CpuState;

    open spec fn view(&self) -> CpuState {
        CpuState {
            a: self.a,
            b: self.b,
            c: self.c,
            d: self.d,
            e: self.e,
            h: self.h,
            l: self.l,
            flag: self.flag,
            sp: self.sp,
            pc: self.pc,
            halted: self.halted,
            inte: self.inte,
            mem: self.ram@,
        }
    }
}

impl Cpu {
    /// Whether a device is bound to the given port.
    pub open spec fn port_bound(&self, port: u8) -> bool {
        (port as int) < self.devices@.len() && self.devices@[port as int] is Some
    }

    /// The set of ports that carry a device.
    pub open spec fn bound_ports(&self) -> Set<u8> {
        Set::new(|p: u8| self.port_bound(p))
    }
}

// interface
impl Cpu {
    pub fn new() -> (r: Self)
        ensures
            r@ == initial_state(),
            forall|p: u8| !r.port_bound(p),
    {
        let mut devices: Vec<Option<Box<dyn Device>>> = Vec::new();
        let mut i: usize = 0;
        while i < PORT_NUM
            invariant
                i <= PORT_NUM,
                devices@.len() == i,
                forall|j: int| 0 <= j < i ==> devices@[j] is None,
            decreases PORT_NUM - i,
        {
            devices.push(None);
            i += 1;
        }
        let cpu = Self {
            a: 0,
            b: 0,
            c: 0,
            d: 0,
            e: 0,
            h: 0,
            l: 0,
            sp: 0,
            pc: 0,  // 0x00 ~ 0x3f is where the rst vectors land
            halted: false,
            ram: Dram::new(),
            devices,
            flag: 2,  // bit 1 of the flag register conventionally reads as 1
            inte: false,
        };
        cpu
    }

    /// The machine with a program image written over the start of memory.
    pub fn load(self, data: &[u8]) -> (r: Self)
        requires
            data@.len() <= 65536,
        ensures
            r@ == (CpuState { mem: crate::dram::overlay(self@.mem, data@), ..self@ }),
            forall|p: u8| r.port_bound(p) == self.port_bound(p),
    {
        let mut cpu = self;
        cpu.ram.load_slice(data);
        cpu
    }

    /// Step until the machine halts, each instruction completing fully
    /// before the next begins: the final state is what a chain of single
    /// steps from the starting state leaves behind. An unassigned opcode
    /// byte aborts the loop with its error and no rollback: the state
    /// keeps the effects of every instruction already executed, and the
    /// failing byte is still at the program counter. The loop carries a
    /// step budget of 2^64 - 1 so that it provably terminates; no real
    /// program exhausts it (at one step per nanosecond it lasts over five
    /// centuries), and a machine that does is halted by the engine, which
    /// the contract surfaces as the budget outcome of `run_reaches`.
    pub fn run(&mut self) -> (r: Result<(), Error>)
        ensures
            r is Ok ==> final(self)@.halted,
            r matches Err(e) ==> decoded_at(final(self)@) is None && e == Error::UnknownOpcode(
                final(self)@.mem[final(self)@.pc as int],
            ),
            old(self)@.halted ==> r is Ok && final(self)@ == old(self)@,
            exists|n: nat| run_reaches(old(self).bound_ports(), old(self)@, final(self)@, n),
            forall|p: u8| final(self).port_bound(p) == old(self).port_bound(p),
    {
        let ghost bound = old(self).bound_ports();
        let ghost mut steps: nat = 0nat;
        let mut fuel: u64 = u64::MAX;
        loop
            invariant
                forall|p: u8| self.port_bound(p) == old(self).port_bound(p),
                old(self)@.halted ==> self@ == old(self)@,
                bound == old(self).bound_ports(),
                steps == u64::MAX - fuel,
                reaches(bound, old(self)@, self@, steps),
            decreases fuel,
        {
            if self.halted {
                proof {
                    assert(run_reaches(bound, old(self)@, self@, steps));
                }
                return Ok(());
            }
            // a 16-bit program counter cannot leave the 64K space, so this
            // guard never fires; it keeps the range error a wider counter
            // would raise
            if self.pc as usize >= RAM_SIZE {
                return Err(Error::PcOutOfRange);
            }
            if fuel == 0 {
                let ghost before = self@;
                self.halted = true;
                proof {
                    assert((CpuState { halted: false, ..self@ }) =~= before);
                    assert(run_reaches(bound, old(self)@, self@, steps));
                }
                return Ok(());
            }
            fuel -= 1;
            let ghost before = self@;
            let ghost before_bound = self.bound_ports();
            match self.next() {
                Ok(()) => {
                    proof {
                        assert(before_bound =~= bound);
                        assert(one_step(bound, before, self@));
                        steps = steps + 1nat;
                        assert(reaches(bound, old(self)@, self@, steps));
                    }
                },
                Err(e) => {
                    proof {
                        assert(run_reaches(bound, old(self)@, self@, steps));
                    }
                    return Err(e);
                },
            }
        }
    }

    /// Fetch, decode and execute one instruction. An unassigned opcode
    /// byte is a terminal error that leaves the whole machine state
    /// exactly as it was before the fetch. What IN and OUT leave behind
    /// depends on the bound device, so for them the contract fixes
    /// everything but the byte the device supplies; an unbound port
    /// halts the machine instead of failing.
    pub fn next(&mut self) -> (r: Result<(), Error>)
        ensures
            forall|p: u8| final(self).port_bound(p) == old(self).port_bound(p),
            decoded_at(old(self)@) is Some ==> one_step(
                old(self).bound_ports(),
                old(self)@,
                final(self)@,
            ),
            match decoded_at(old(self)@) {
                None => r == Err::<(), Error>(
                    Error::UnknownOpcode(old(self)@.mem[old(self)@.pc as int]),
                ) && final(self)@ == old(self)@,
                Some(i) => r is Ok && ({
                    let s1 = after_fetch(old(self)@, i);
                    match i {
                        Instruction::IN(port) => if old(self).port_bound(port) {
                            final(self)@ == (CpuState { a: final(self)@.a, ..s1 })
                        } else {
                            final(self)@ == (CpuState { halted: true, ..s1 })
                        },
                        Instruction::OUT(port) => if old(self).port_bound(port) {
                            final(self)@ == s1
                        } else {
                            final(self)@ == (CpuState { halted: true, ..s1 })
                        },
                        _ => final(self)@ == spec_execute(s1, i),
                    }
                }),
            },
    {
        proof {
            assert(forall|p: u8| old(self).bound_ports().contains(p) == old(self).port_bound(p));
        }
        let ins = match self.fetch() {
            Ok(i) => i,
            Err(e) => {
                return Err(e);
            },
        };
        match self.execute(ins) {
            Ok(()) => Ok(()),
            Err(e) => Err(e),
        }
    }
}

// utils
impl Cpu {
    /// Read the opcode byte at PC and its two successors, decode them,
    /// and advance PC past the bytes the instruction occupies. On an
    /// unassigned opcode nothing moves.
    fn fetch(&mut self) -> (r: Result<Instruction, Error>)
        ensures
            final(self).devices == old(self).devices,
            match decoded_at(old(self)@) {
                Some(i) => r == Ok::<Instruction, Error>(i) && final(self)@ == after_fetch(
                    old(self)@,
                    i,
                ),
                None => r == Err::<Instruction, Error>(
                    Error::UnknownOpcode(old(self)@.mem[old(self)@.pc as int]),
                ) && final(self)@ == old(self)@,
            },
    {
        let b0 = self.ram.load_byte(self.pc);
        let b1 = self.ram.load_byte(self.pc.wrapping_add(1));
        let b2 = self.ram.load_byte(self.pc.wrapping_add(2));
        match decode(b0, b1, b2) {
            Ok(i) => {
                let len = instruction_size(&i);
                self.pc = self.pc.wrapping_add(len);
                Ok(i)
            },
            Err(e) => Err(e),
        }
    }

    /// Apply one decoded instruction to the machine state.
    fn execute(&mut self, instruction: Instruction) -> (r: Result<(), Error>)
        ensures
            r is Ok,
            forall|p: u8| final(self).port_bound(p) == old(self).port_bound(p),
            match instruction {
                Instruction::IN(port) => if old(self).port_bound(port) {
                    final(self)@ == (CpuState { a: final(self)@.a, ..old(self)@ })
                } else {
                    final(self)@ == (CpuState { halted: true, ..old(self)@ })
                },
                Instruction::OUT(port) => if old(self).port_bound(port) {
                    final(self)@ == old(self)@
                } else {
                    final(self)@ == (CpuState { halted: true, ..old(self)@ })
                },
                _ => final(self)@ == spec_execute(old(self)@, instruction),
            },
    {
        match instruction {
            Instruction::NOP => (),
            Instruction::EI => self.inte = true,
            Instruction::DI => self.inte = false,
            Instruction::HLT => self.halted = true,
            Instruction::IN(device_no) => self.port_in(device_no),
            Instruction::OUT(device_no) => self.port_out(device_no),
            Instruction::CMC
            | Instruction::STC
            | Instruction::INR(_)
            | Instruction::DCR(_)
            | Instruction::CMA
            | Instruction::DAA
            | Instruction::RLC
            | Instruction::RRC
            | Instruction::RAL
            | Instruction::RAR => self.execute_single(instruction),
            Instruction::MOV(_, _)
            | Instruction::STAX(_)
            | Instruction::LDAX(_)
            | Instruction::MVI(_, _)
            | Instruction::LXI(_, _, _)
            | Instruction::STA(_, _)
            | Instruction::LDA(_, _)
            | Instruction::SHLD(_, _)
            | Instruction::LHLD(_, _)
            | Instruction::XCHG
            | Instruction::XTHL
            | Instruction::SPHL => self.execute_transfer(instruction),
            Instruction::ADD(_)
            | Instruction::ADC(_)
            | Instruction::SUB(_)
            | Instruction::SBB(_)
            | Instruction::ANA(_)
            | Instruction::XRA(_)
            | Instruction::ORA(_)
            | Instruction::CMP(_)
            | Instruction::ADI(_)
            | Instruction::ACI(_)
            | Instruction::SUI(_)
            | Instruction::SBI(_)
            | Instruction::ANI(_)
            | Instruction::XRI(_)
            | Instruction::ORI(_)
            | Instruction::CPI(_) => self.execute_alu(instruction),
            Instruction::PUSH(_)
            | Instruction::POP(_)
            | Instruction::DAD(_)
            | Instruction::INX(_)
            | Instruction::DCX(_) => self.execute_pair(instruction),
            Instruction::PCHL
            | Instruction::JMP(_, _)
            | Instruction::JC(_, _)
            | Instruction::JNC(_, _)
            | Instruction::JZ(_, _)
            | Instruction::JNZ(_, _)
            | Instruction::JM(_, _)
            | Instruction::JP(_, _)
            | Instruction::JPE(_, _)
            | Instruction::JPO(_, _)
            | Instruction::CALL(_, _)
            | Instruction::CC(_, _)
            | Instruction::CNC(_, _)
            | Instruction::CZ(_, _)
            | Instruction::CNZ(_, _)
            | Instruction::CM(_, _)
            | Instruction::CP(_, _)
            | Instruction::CPE(_, _)
            | Instruction::CPO(_, _)
            | Instruction::RET
            | Instruction::RC
            | Instruction::RNC
            | Instruction::RZ
            | Instruction::RNZ
            | Instruction::RM
            | Instruction::RP
            | Instruction::RPE
            | Instruction::RPO
            | Instruction::RST(_) => self.execute_control(instruction),
        }
        Ok(())
    }

    /// The carry-bit, single-register and rotate instructions.
    fn execute_single(&mut self, instruction: Instruction)
        requires
            instruction matches Instruction::CMC
                || instruction matches Instruction::STC
                || instruction matches Instruction::INR(_)
                || instruction matches Instruction::DCR(_)
                || instruction matches Instruction::CMA
                || instruction matches Instruction::DAA
                || instruction matches Instruction::RLC
                || instruction matches Instruction::RRC
                || instruction matches Instruction::RAL
                || instruction matches Instruction::RAR,
        ensures
            final(self)@ == spec_execute(old(self)@, instruction),
            final(self).devices == old(self).devices,
    {
        match instruction {
            Instruction::CMC => {
                let c = self.get_flag(CARRY_BIT);
                self.set_flag(CARRY_BIT, !c);
            },
            Instruction::STC => self.set_flag(CARRY_BIT, true),
            Instruction::INR(src) => {
                let p = self.get_src(src);
                let (res, _, parity, aux, zero, sign) = flagged_add(*p, 1);
                *p = res;
                self.set_flags(None, Some(parity), Some(aux), Some(zero), Some(sign));
            },
            Instruction::DCR(src) => {
                let p = self.get_src(src);
                let (res, _, parity, aux, zero, sign) = flagged_sub(*p, 1);
                *p = res;
                self.set_flags(None, Some(parity), Some(aux), Some(zero), Some(sign));
            },
            Instruction::CMA => self.a = !self.a,
            Instruction::DAA => {
                let mut adjust: u8 = 0;
                let mut c = self.get_flag(CARRY_BIT);
                let lsb: u8 = self.a & 0x0f;
                let msb: u8 = self.a >> 4;
                // low nibble above 9, or auxiliary carry set: add six to it
                if lsb > 9 || self.get_flag(AUXILIARY_CARRY_BIT) {
                    adjust += 0x06;
                }
                // high nibble above 9, carry set, or the low-nibble correction
                // carrying into a high nibble of 9: add six to the high nibble
                // and force carry
                if msb > 9 || self.get_flag(CARRY_BIT) || (msb >= 9 && lsb > 9) {
                    adjust += 0x60;
                    c = true;
                }
                let (res, carry, parity, aux, zero, sign) = flagged_add(self.a, adjust);
                self.a = res;
                self.set_flags(Some(carry), Some(parity), Some(aux), Some(zero), Some(sign));
                self.set_flag(CARRY_BIT, c);
            },
            Instruction::RLC => {
                let c = bittest(self.a, 7);
                self.a = (self.a << 1) | (if c {
                    1
                } else {
                    0
                });
                self.set_flag(CARRY_BIT, c);
            },
            Instruction::RRC => {
                let c = bittest(self.a, 0);
                self.a = if c {
                    0x80 | (self.a >> 1)
                } else {
                    self.a >> 1
                };
                self.set_flag(CARRY_BIT, c);
            },
            Instruction::RAL => {
                let high = bittest(self.a, 7);
                let c = self.get_flag(CARRY_BIT);
                self.a = (self.a << 1) | (if c {
                    1
                } else {
                    0
                });
                self.set_flag(CARRY_BIT, high);
            },
            Instruction::RAR => {
                let low = bittest(self.a, 0);
                let c = self.get_flag(CARRY_BIT);
                self.a = if c {
                    0x80 | (self.a >> 1)
                } else {
                    self.a >> 1
                };
                self.set_flag(CARRY_BIT, low);
            },
            _ => (),
        }
    }

    /// The data transfer instructions; none of them touches a flag.
    fn execute_transfer(&mut self, instruction: Instruction)
        requires
            instruction matches Instruction::MOV(_, _)
                || instruction matches Instruction::STAX(_)
                || instruction matches Instruction::LDAX(_)
                || instruction matches Instruction::MVI(_, _)
                || instruction matches Instruction::LXI(_, _, _)
                || instruction matches Instruction::STA(_, _)
                || instruction matches Instruction::LDA(_, _)
                || instruction matches Instruction::SHLD(_, _)
                || instruction matches Instruction::LHLD(_, _)
                || instruction matches Instruction::XCHG
                || instruction matches Instruction::XTHL
                || instruction matches Instruction::SPHL,
        ensures
            final(self)@ == spec_execute(old(self)@, instruction),
            final(self).devices == old(self).devices,
    {
        match instruction {
            Instruction::MOV(dst, src) => {
                let v = self.src_value(src);
                let p = self.get_src(dst);
                *p = v;
            },
            Instruction::STAX(rp) => {
                let addr = self.get_rp_val(rp);
                let a = self.a;
                self.ram.save_byte(addr, a);
            },
            Instruction::LDAX(rp) => {
                let addr = self.get_rp_val(rp);
                self.a = self.ram.load_byte(addr);
            },
            Instruction::MVI(src, data) => {
                let p = self.get_src(src);
                *p = data;
            },
            Instruction::LXI(rp, low_data, high_data) => {
                let word = get_u16(high_data, low_data);
                self.store_rp(rp, word);
            },
            Instruction::STA(low_add, hi_add) => {
                let addr = get_u16(hi_add, low_add);
                let a = self.a;
                self.ram.save_byte(addr, a);
            },
            Instruction::LDA(low_add, hi_add) => {
                let addr = get_u16(hi_add, low_add);
                self.a = self.ram.load_byte(addr);
            },
            Instruction::SHLD(low_add, hi_add) => {
                let addr = get_u16(hi_add, low_add);
                let hl = get_u16(self.h, self.l);
                self.ram.save_word(addr, hl);
            },
            Instruction::LHLD(low_add, hi_add) => {
                let addr = get_u16(hi_add, low_add);
                let word = self.ram.load_word(addr);
                let (high, low) = split_u16(word);
                self.h = high;
                self.l = low;
            },
            Instruction::XCHG => {
                let d = self.d;
                let e = self.e;
                self.d = self.h;
                self.e = self.l;
                self.h = d;
                self.l = e;
            },
            Instruction::XTHL => {
                let h = self.h;
                let l = self.l;
                let sp = self.sp;
                let word = self.ram.load_word(sp);
                let (high, low) = split_u16(word);
                self.h = high;
                self.l = low;
                let hl = get_u16(h, l);
                self.ram.save_word(sp, hl);
            },
            Instruction::SPHL => self.sp = get_u16(self.h, self.l),
            _ => (),
        }
    }

    /// The accumulator arithmetic, logic and compare instructions, with
    /// register, memory and immediate operands alike.
    fn execute_alu(&mut self, instruction: Instruction)
        requires
            instruction matches Instruction::ADD(_)
                || instruction matches Instruction::ADC(_)
                || instruction matches Instruction::SUB(_)
                || instruction matches Instruction::SBB(_)
                || instruction matches Instruction::ANA(_)
                || instruction matches Instruction::XRA(_)
                || instruction matches Instruction::ORA(_)
                || instruction matches Instruction::CMP(_)
                || instruction matches Instruction::ADI(_)
                || instruction matches Instruction::ACI(_)
                || instruction matches Instruction::SUI(_)
                || instruction matches Instruction::SBI(_)
                || instruction matches Instruction::ANI(_)
                || instruction matches Instruction::XRI(_)
                || instruction matches Instruction::ORI(_)
                || instruction matches Instruction::CPI(_),
        ensures
            final(self)@ == spec_execute(old(self)@, instruction),
            final(self).devices == old(self).devices,
    {
        match instruction {
            Instruction::ADD(src) => {
                let v = self.src_value(src);
                let (res, carry, parity, aux, zero, sign) = flagged_add(self.a, v);
                self.a = res;
                self.set_flags(Some(carry), Some(parity), Some(aux), Some(zero), Some(sign));
            },
            Instruction::ADC(src) => {
                let v = self.src_value(src);
                self.add_with_carry_in(v);
            },
            Instruction::SUB(src) => {
                let v = self.src_value(src);
                let (res, carry, parity, aux, zero, sign) = flagged_sub(self.a, v);
                self.a = res;
                self.set_flags(Some(carry), Some(parity), Some(aux), Some(zero), Some(sign));
            },
            Instruction::SBB(src) => {
                let v = self.src_value(src);
                self.sub_with_borrow_in(v);
            },
            Instruction::ANA(src) => {
                let v = self.src_value(src);
                self.a &= v;
                self.set_logical_flag();
            },
            Instruction::XRA(src) => {
                let v = self.src_value(src);
                self.a ^= v;
                self.set_logical_flag();
            },
            Instruction::ORA(src) => {
                let v = self.src_value(src);
                self.a |= v;
                self.set_logical_flag();
            },
            Instruction::CMP(src) => {
                let v = self.src_value(src);
                let (_, carry, parity, aux, zero, sign) = flagged_sub(self.a, v);
                self.set_flags(Some(carry), Some(parity), Some(aux), Some(zero), Some(sign));
            },
            Instruction::ADI(data) => {
                let (res, carry, parity, aux, zero, sign) = flagged_add(self.a, data);
                self.a = res;
                self.set_flags(Some(carry), Some(parity), Some(aux), Some(zero), Some(sign));
            },
            Instruction::ACI(data) => self.add_with_carry_in(data),
            Instruction::SUI(data) => {
                let (res, carry, parity, aux, zero, sign) = flagged_sub(self.a, data);
                self.a = res;
                self.set_flags(Some(carry), Some(parity), Some(aux), Some(zero), Some(sign));
            },
            Instruction::SBI(data) => self.sub_with_borrow_in(data),
            Instruction::ANI(data) => {
                self.a &= data;
                self.set_logical_flag();
            },
            Instruction::XRI(data) => {
                self.a ^= data;
                self.set_logical_flag();
            },
            Instruction::ORI(data) => {
                self.a |= data;
                self.set_logical_flag();
            },
            Instruction::CPI(data) => {
                let (_, carry, parity, aux, zero, sign) = flagged_sub(self.a, data);
                self.set_flags(Some(carry), Some(parity), Some(aux), Some(zero), Some(sign));
            },
            _ => (),
        }
    }

    /// The register-pair instructions: stack push and pop, double add,
    /// and 16-bit increment and decrement.
    fn execute_pair(&mut self, instruction: Instruction)
        requires
            instruction matches Instruction::PUSH(_)
                || instruction matches Instruction::POP(_)
                || instruction matches Instruction::DAD(_)
                || instruction matches Instruction::INX(_)
                || instruction matches Instruction::DCX(_),
        ensures
            final(self)@ == spec_execute(old(self)@, instruction),
            final(self).devices == old(self).devices,
    {
        match instruction {
            Instruction::PUSH(rp) => {
                let word = self.get_rp_val(rp);
                self.push(word);
            },
            Instruction::POP(rp) => {
                let word = self.pop();
                self.store_rp(rp, word);
            },
            Instruction::DAD(rp) => {
                let x = self.get_rp_val(rp);
                let hl = get_u16(self.h, self.l);
                let sum: u32 = x as u32 + hl as u32;
                let res: u16 = (sum % 0x10000) as u16;
                let (high, low) = split_u16(res);
                self.h = high;
                self.l = low;
                self.set_flag(CARRY_BIT, sum > 0xffff);
            },
            Instruction::INX(rp) => {
                let x = self.get_rp_val(rp);
                self.store_rp(rp, x.wrapping_add(1));
            },
            Instruction::DCX(rp) => {
                let x = self.get_rp_val(rp);
                self.store_rp(rp, x.wrapping_sub(1));
            },
            _ => (),
        }
    }

    /// The control transfer instructions: jumps, calls, returns and
    /// restarts, plus the unconditional jump through HL.
    fn execute_control(&mut self, instruction: Instruction)
        requires
            instruction matches Instruction::PCHL
                || instruction matches Instruction::JMP(_, _)
                || instruction matches Instruction::JC(_, _)
                || instruction matches Instruction::JNC(_, _)
                || instruction matches Instruction::JZ(_, _)
                || instruction matches Instruction::JNZ(_, _)
                || instruction matches Instruction::JM(_, _)
                || instruction matches Instruction::JP(_, _)
                || instruction matches Instruction::JPE(_, _)
                || instruction matches Instruction::JPO(_, _)
                || instruction matches Instruction::CALL(_, _)
                || instruction matches Instruction::CC(_, _)
                || instruction matches Instruction::CNC(_, _)
                || instruction matches Instruction::CZ(_, _)
                || instruction matches Instruction::CNZ(_, _)
                || instruction matches Instruction::CM(_, _)
                || instruction matches Instruction::CP(_, _)
                || instruction matches Instruction::CPE(_, _)
                || instruction matches Instruction::CPO(_, _)
                || instruction matches Instruction::RET
                || instruction matches Instruction::RC
                || instruction matches Instruction::RNC
                || instruction matches Instruction::RZ
                || instruction matches Instruction::RNZ
                || instruction matches Instruction::RM
                || instruction matches Instruction::RP
                || instruction matches Instruction::RPE
                || instruction matches Instruction::RPO
                || instruction matches Instruction::RST(_),
        ensures
            final(self)@ == spec_execute(old(self)@, instruction),
            final(self).devices == old(self).devices,
    {
        match instruction {
            Instruction::PCHL => self.pc = get_u16(self.h, self.l),
            Instruction::JMP(low_add, hi_add) => self.pc = get_u16(hi_add, low_add),
            Instruction::JC(low_add, hi_add) => {
                if self.get_flag(CARRY_BIT) {
                    self.pc = get_u16(hi_add, low_add);
                }
            },
            Instruction::JNC(low_add, hi_add) => {
                if !self.get_flag(CARRY_BIT) {
                    self.pc = get_u16(hi_add, low_add);
                }
            },
            Instruction::JZ(low_add, hi_add) => {
                if self.get_flag(ZERO_BIT) {
                    self.pc = get_u16(hi_add, low_add);
                }
            },
            Instruction::JNZ(low_add, hi_add) => {
                if !self.get_flag(ZERO_BIT) {
                    self.pc = get_u16(hi_add, low_add);
                }
            },
            Instruction::JM(low_add, hi_add) => {
                if self.get_flag(SIGN_BIT) {
                    self.pc = get_u16(hi_add, low_add);
                }
            },
            Instruction::JP(low_add, hi_add) => {
                if !self.get_flag(SIGN_BIT) {
                    self.pc = get_u16(hi_add, low_add);
                }
            },
            Instruction::JPE(low_add, hi_add) => {
                if self.get_flag(PARITY_BIT) {
                    self.pc = get_u16(hi_add, low_add);
                }
            },
            Instruction::JPO(low_add, hi_add) => {
                if !self.get_flag(PARITY_BIT) {
                    self.pc = get_u16(hi_add, low_add);
                }
            },
            Instruction::CALL(low_add, hi_add) => self.call_to(low_add, hi_add),
            Instruction::CC(low_add, hi_add) => {
                if self.get_flag(CARRY_BIT) {
                    self.call_to(low_add, hi_add);
                }
            },
            Instruction::CNC(low_add, hi_add) => {
                if !self.get_flag(CARRY_BIT) {
                    self.call_to(low_add, hi_add);
                }
            },
            Instruction::CZ(low_add, hi_add) => {
                if self.get_flag(ZERO_BIT) {
                    self.call_to(low_add, hi_add);
                }
            },
            Instruction::CNZ(low_add, hi_add) => {
                if !self.get_flag(ZERO_BIT) {
                    self.call_to(low_add, hi_add);
                }
            },
            Instruction::CM(low_add, hi_add) => {
                if self.get_flag(SIGN_BIT) {
                    self.call_to(low_add, hi_add);
                }
            },
            Instruction::CP(low_add, hi_add) => {
                if !self.get_flag(SIGN_BIT) {
                    self.call_to(low_add, hi_add);
                }
            },
            Instruction::CPE(low_add, hi_add) => {
                if self.get_flag(PARITY_BIT) {
                    self.call_to(low_add, hi_add);
                }
            },
            Instruction::CPO(low_add, hi_add) => {
                if !self.get_flag(PARITY_BIT) {
                    self.call_to(low_add, hi_add);
                }
            },
            Instruction::RET => {
                let word = self.pop();
                self.pc = word;
            },
            Instruction::RC => {
                if self.get_flag(CARRY_BIT) {
                    let word = self.pop();
                    self.pc = word;
                }
            },
            Instruction::RNC => {
                if !self.get_flag(CARRY_BIT) {
                    let word = self.pop();
                    self.pc = word;
                }
            },
            Instruction::RZ => {
                if self.get_flag(ZERO_BIT) {
                    let word = self.pop();
                    self.pc = word;
                }
            },
            Instruction::RNZ => {
                if !self.get_flag(ZERO_BIT) {
                    let word = self.pop();
                    self.pc = word;
                }
            },
            Instruction::RM => {
                if self.get_flag(SIGN_BIT) {
                    let word = self.pop();
                    self.pc = word;
                }
            },
            Instruction::RP => {
                if !self.get_flag(SIGN_BIT) {
                    let word = self.pop();
                    self.pc = word;
                }
            },
            Instruction::RPE => {
                if self.get_flag(PARITY_BIT) {
                    let word = self.pop();
                    self.pc = word;
                }
            },
            Instruction::RPO => {
                if !self.get_flag(PARITY_BIT) {
                    let word = self.pop();
                    self.pc = word;
                }
            },
            Instruction::RST(exp) => {
                let pc = self.pc;
                self.push(pc);
                self.pc = ((exp as u16 * 8) % 256) as u16;
            },
            _ => (),
        }
    }

    /// Read one byte from the device on a port into the accumulator;
    /// device absence halts the machine, it is no error.
    fn port_in(&mut self, device_no: u8)
        ensures
            forall|p: u8| final(self).port_bound(p) == old(self).port_bound(p),
            if old(self).port_bound(device_no) {
                final(self)@ == (CpuState { a: final(self)@.a, ..old(self)@ })
            } else {
                final(self)@ == (CpuState { halted: true, ..old(self)@ })
            },
    {
        let read_value: Option<u8> = if (device_no as usize) < self.devices.len() {
            match &mut self.devices[device_no as usize] {
                Some(device) => Some(device.read()),
                None => None,
            }
        } else {
            None
        };
        match read_value {
            Some(v) => self.a = v,
            None => self.halted = true,
        }
    }

    /// Write the accumulator to the device on a port; device absence
    /// halts the machine, it is no error.
    fn port_out(&mut self, device_no: u8)
        ensures
            forall|p: u8| final(self).port_bound(p) == old(self).port_bound(p),
            if old(self).port_bound(device_no) {
                final(self)@ == old(self)@
            } else {
                final(self)@ == (CpuState { halted: true, ..old(self)@ })
            },
    {
        let a = self.a;
        let written: bool = if (device_no as usize) < self.devices.len() {
            match &mut self.devices[device_no as usize] {
                Some(device) => {
                    device.write(a);
                    true
                },
                None => false,
            }
        } else {
            false
        };
        if !written {
            self.halted = true;
        }
    }

    /// The value a register-select field names, read without mutation.
    fn src_value(&self, src: Src) -> (r: u8)
        ensures
            r == read_src(self@, src),
    {
        match src {
            Src::B => self.b,
            Src::C => self.c,
            Src::D => self.d,
            Src::E => self.e,
            Src::H => self.h,
            Src::L => self.l,
            Src::A => self.a,
            Src::Mem => {
                let addr = get_u16(self.h, self.l);
                self.ram.load_byte(addr)
            },
        }
    }

    /// A mutable view of the register (or the memory byte at HL) that a
    /// register-select field names, for read-modify-write instructions.
    fn get_src(&mut self, src: Src) -> (r: &mut u8)
        ensures
            *r == read_src(old(self)@, src),
            final(self)@ == store_src(old(self)@, src, *final(r)),
            final(self).devices == old(self).devices,
    {
        match src {
            Src::B => &mut self.b,
            Src::C => &mut self.c,
            Src::D => &mut self.d,
            Src::E => &mut self.e,
            Src::H => &mut self.h,
            Src::L => &mut self.l,
            Src::A => &mut self.a,
            Src::Mem => {
                let addr = get_u16(self.h, self.l);
                self.ram.get_ptr(addr)
            },
        }
    }

    /// Accumulator addition folding in the current carry flag: the
    /// carry-in takes part in the byte result, the carry rule, and the
    /// auxiliary-carry rule alike.
    fn add_with_carry_in(&mut self, v: u8)
        ensures
            final(self)@ == op_add(old(self)@, v, if flag_of(old(self)@, CARRY_BIT) {
                1
            } else {
                0
            }),
            final(self).devices == old(self).devices,
    {
        let a = self.a;
        let cin: u8 = if self.get_flag(CARRY_BIT) {
            1
        } else {
            0
        };
        let operand: u8 = ((v as u16 + cin as u16) % 256) as u8;
        let (res, _, parity, _, zero, sign) = flagged_add(a, operand);
        self.a = res;
        let carry = a as u16 + v as u16 + cin as u16 > 0xff;
        let aux = (a & 0xf) as u16 + (v & 0xf) as u16 + cin as u16 > 0xf;
        self.set_flags(Some(carry), Some(parity), Some(aux), Some(zero), Some(sign));
        proof {
            lemma_carry_in_add(a, v, cin);
        }
    }

    /// Accumulator subtraction folding in the current carry flag as a
    /// borrow: the borrow-in takes part in the byte result, the borrow
    /// rule, and the auxiliary-carry rule alike.
    fn sub_with_borrow_in(&mut self, v: u8)
        ensures
            final(self)@ == op_sub(old(self)@, v, if flag_of(old(self)@, CARRY_BIT) {
                1
            } else {
                0
            }),
            final(self).devices == old(self).devices,
    {
        let a = self.a;
        let bin: u8 = if self.get_flag(CARRY_BIT) {
            1
        } else {
            0
        };
        let operand: u8 = ((v as u16 + bin as u16) % 256) as u8;
        let (res, _, parity, _, zero, sign) = flagged_sub(a, operand);
        self.a = res;
        let carry = (a as u16) < v as u16 + bin as u16;
        let aux = (a & 0xf) as u16 >= (v & 0xf) as u16 + bin as u16;
        self.set_flags(Some(carry), Some(parity), Some(aux), Some(zero), Some(sign));
        proof {
            lemma_carry_in_sub(a, v, bin);
        }
    }

    /// Push the return address and transfer control.
    fn call_to(&mut self, low_add: u8, hi_add: u8)
        ensures
            final(self)@ == (CpuState {
                pc: spec_get_u16(hi_add, low_add),
                ..push_state(old(self)@, old(self)@.pc)
            }),
            final(self).devices == old(self).devices,
    {
        let pc = self.pc;
        self.push(pc);
        self.pc = get_u16(hi_add, low_add);
    }

    /// Store a word two bytes down from the current SP, moving SP there.
    fn push(&mut self, word: u16)
        ensures
            final(self)@ == push_state(old(self)@, word),
            final(self).devices == old(self).devices,
    {
        self.sp = self.sp.wrapping_sub(2);
        let sp = self.sp;
        self.ram.save_word(sp, word);
    }

    /// Read the word at SP and move SP up past it.
    fn pop(&mut self) -> (r: u16)
        ensures
            r == pop_value(old(self)@),
            final(self)@ == pop_state(old(self)@),
            final(self).devices == old(self).devices,
    {
        let sp = self.sp;
        let word = self.ram.load_word(sp);
        self.sp = self.sp.wrapping_add(2);
        word
    }

    /// Load a 16-bit value into a register pair, the accumulator-flag
    /// pair, or the stack pointer.
    fn store_rp(&mut self, rp: RegPair, word: u16)
        ensures
            final(self)@ == store_pair(old(self)@, rp, word),
            final(self).devices == old(self).devices,
    {
        let (high, low) = split_u16(word);
        match rp {
            RegPair::BC => {
                self.b = high;
                self.c = low;
            },
            RegPair::DE => {
                self.d = high;
                self.e = low;
            },
            RegPair::HL => {
                self.h = high;
                self.l = low;
            },
            RegPair::PSW => {
                self.a = high;
                self.flag = low;
            },
            RegPair::SP => self.sp = word,
        }
    }

    /// The flag settings every logical instruction produces: carry and
    /// auxiliary carry cleared, parity, zero and sign from the accumulator.
    fn set_logical_flag(&mut self)
        ensures
            final(self)@ == logical_flags(old(self)@),
            final(self).devices == old(self).devices,
    {
        let a = self.a;
        let parity = crate::utils::parity_even(a);
        self.set_flag(CARRY_BIT, false);
        self.set_flag(PARITY_BIT, parity);
        self.set_flag(AUXILIARY_CARRY_BIT, false);
        self.set_flag(ZERO_BIT, a == 0);
        let sign = bittest(a, 7);
        self.set_flag(SIGN_BIT, sign);
    }

    /// Force each of the five flags for which a value is given; a `None`
    /// leaves that flag alone.
    fn set_flags(
        &mut self,
        carry: Option<bool>,
        parity: Option<bool>,
        aux: Option<bool>,
        zero: Option<bool>,
        sign: Option<bool>,
    )
        ensures
            final(self)@ == with_flags(old(self)@, carry, parity, aux, zero, sign),
            final(self).devices == old(self).devices,
    {
        if let Some(v) = carry {
            self.set_flag(CARRY_BIT, v);
        }
        if let Some(v) = parity {
            self.set_flag(PARITY_BIT, v);
        }
        if let Some(v) = aux {
            self.set_flag(AUXILIARY_CARRY_BIT, v);
        }
        if let Some(v) = zero {
            self.set_flag(ZERO_BIT, v);
        }
        if let Some(v) = sign {
            self.set_flag(SIGN_BIT, v);
        }
    }

    pub fn set_flag(&mut self, bit: u8, flag: bool)
        requires
            bit < 8,
        ensures
            final(self)@ == (CpuState {
                flag: spec_bitset(old(self)@.flag, bit, flag),
                ..old(self)@
            }),
            final(self).devices == old(self).devices,
    {
        bitset(&mut self.flag, bit, flag);
    }

    pub fn get_flag(&self, bit: u8) -> (r: bool)
        requires
            bit < 8,
        ensures
            r == spec_bittest(self.flag, bit),
    {
        bittest(self.flag, bit)
    }

    /// The address held in HL.
    pub fn get_hl_addr(&self) -> (r: u16)
        ensures
            r == hl_addr(self@),
    {
        get_u16(self.h, self.l)
    }

    /// The 16-bit value of a register pair, of the accumulator-flag
    /// pair, or of the stack pointer.
    fn get_rp_val(&self, rp: RegPair) -> (r: u16)
        ensures
            r == pair_value(self@, rp),
    {
        match rp {
            RegPair::BC => get_u16(self.b, self.c),
            RegPair::DE => get_u16(self.d, self.e),
            RegPair::HL => get_u16(self.h, self.l),
            RegPair::PSW => get_u16(self.a, self.flag),
            RegPair::SP => self.sp,
        }
    }
}

} // verus!
