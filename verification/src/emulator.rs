//! The CPU engine: the owned architectural state and the single-step
//! interpreter. `step` decodes the opcode at the program counter, applies
//! its effect and reports whether execution continues; it is proved to
//! implement the specification interpreter `machine::step_spec` exactly.
//! Every fault (an undecodable opcode, or a memory access outside the
//! buffer) is an explicit error value returned before any state changes.

use vstd::prelude::*;

verus! {

use crate::disasm::disasm_single;
use crate::disasm::spec_decode_text;
use crate::machine::Machine;
use crate::machine::Run;
use crate::machine::Step;
use crate::machine::acc_flags;
use crate::machine::adv;
use crate::machine::cond;
use crate::machine::get_r;
use crate::machine::hi8;
use crate::machine::in_mem;
use crate::machine::lo8;
use crate::machine::pair16;
use crate::machine::popcount;
use crate::machine::pushed2;
use crate::machine::rd;
use crate::machine::run_n;
use crate::machine::set_r;
use crate::machine::spec_add;
use crate::machine::spec_and;
use crate::machine::spec_cmp;
use crate::machine::spec_dcr;
use crate::machine::spec_inr;
use crate::machine::spec_or;
use crate::machine::spec_parity;
use crate::machine::spec_sub;
use crate::machine::spec_xor;
use crate::machine::stack_ok;
use crate::machine::step_spec;
use crate::machine::szp_only;
use crate::machine::wr;

/// The five condition flags.
pub struct ConditionCodes {
    pub z: bool,
    pub s: bool,
    pub p: bool,
    pub cy: bool,
    pub ac: bool,
}

/// The CPU state: registers, flags, stack pointer, program counter, the
/// interrupt-enable flag, and the memory buffer the engine owns for the
/// lifetime of the run.
pub struct State {
    pub a: u8,
    pub b: u8,
    pub c: u8,
    pub d: u8,
    pub e: u8,
    pub h: u8,
    pub l: u8,
    pub sp: u16,
    pub pc: u16,
    pub cc: ConditionCodes,
    pub mem: Vec<u8>,
    pub int_enable: bool,
}

impl View for State {
    type V = Machine;

    open spec fn view(&self) -> Machine {
        Machine {
            a: self.a,
            b: self.b,
            c: self.c,
            d: self.d,
            e: self.e,
            h: self.h,
            l: self.l,
            sp: self.sp,
            pc: self.pc,
            z: self.cc.z,
            s: self.cc.s,
            p: self.cc.p,
            cy: self.cc.cy,
            ac: self.cc.ac,
            int_enable: self.int_enable,
            mem: self.mem@,
        }
    }
}

/// Why a run stopped without halting.
#[derive(Debug)]
pub enum EmuError {
    /// The opcode byte at `addr` has no defined mapping; `text` is the
    /// disassembler's best-effort rendering of the offending instruction.
    Decode { addr: u16, opcode: u8, text: String },
    /// An instruction would read or write memory at `addr`, outside the
    /// buffer.
    Bounds { addr: u16 },
    /// The run used up the engine's step budget (2^64 - 1 instructions)
    /// without halting. No physical run reaches this; the budget exists so
    /// the run loop provably terminates.
    Stalled,
}

/// What a fault returned by `step` says about the machine it faulted on:
/// a bounds error names exactly the out-of-range address of the model, a
/// decode error names the address and opcode byte and carries the
/// disassembly text; `step` itself never reports a stall.
pub open spec fn fault_post(pre: Machine, e: EmuError) -> bool {
    match e {
        EmuError::Bounds { addr } => step_spec(pre) == (Step::OutOfBounds { addr }),
        EmuError::Decode { addr, opcode, text } => {
            &&& step_spec(pre) == (Step::Undecodable { addr, opcode })
            &&& text@ == spec_decode_text(pre.mem, addr as int)
        },
        EmuError::Stalled => false,
    }
}

/// The full contract of one `step` call: on `Ok(true)` the machine moved to
/// exactly the state the model prescribes; on `Ok(false)` the model halts
/// and nothing changed; on an error nothing changed and the error describes
/// the model's fault.
pub open spec fn step_post(pre: Machine, post: Machine, r: Result<bool, EmuError>) -> bool {
    match r {
        Ok(more) => if more {
            step_spec(pre) == Step::Next(post)
        } else {
            step_spec(pre) == Step::Halt && post == pre
        },
        Err(e) => post == pre && fault_post(pre, e),
    }
}

impl State {
    /// A freshly reset machine owning `mem`: registers cleared, program
    /// counter at zero, stack pointer at the reset default 0xF000, flags in
    /// the reset pattern (all set), interrupts disabled.
    pub fn new(mem: Vec<u8>) -> (st: State)
        ensures
            st@ == (Machine {
                a: 0,
                b: 0,
                c: 0,
                d: 0,
                e: 0,
                h: 0,
                l: 0,
                sp: 0xF000,
                pc: 0,
                z: true,
                s: true,
                p: true,
                cy: true,
                ac: true,
                int_enable: false,
                mem: mem@,
            }),
    {
        State {
            a: 0,
            b: 0,
            c: 0,
            d: 0,
            e: 0,
            h: 0,
            l: 0,
            sp: 0xF000,
            pc: 0,
            cc: ConditionCodes { z: true, s: true, p: true, cy: true, ac: true },
            mem,
            int_enable: false,
        }
    }

    /// A 16-bit value from two registers; the first argument is the high
    /// byte.
    pub fn extend(first: u8, second: u8) -> (r: u16)
        ensures
            r == pair16(first, second),
    {
        (first as u16) * 256 + (second as u16)
    }

    /// A 16-bit value split into (high byte, low byte).
    pub fn seperate(value: u16) -> (r: (u8, u8))
        ensures
            r.0 == hi8(value),
            r.1 == lo8(value),
    {
        ((value / 256) as u8, (value % 256) as u8)
    }

    /// Zero flag: set iff the value is zero.
    pub fn zero_flag(&mut self, answer: u16)
        ensures
            final(self)@ == (Machine { z: answer == 0, ..old(self)@ }),
    {
        self.cc.z = answer == 0;
    }

    /// Sign flag: copies bit 7 of the value.
    pub fn sign_flag(&mut self, answer: u16)
        ensures
            final(self)@ == (Machine { s: (answer & 0x80) == 0x80, ..old(self)@ }),
    {
        self.cc.s = (answer & 0b10000000) == 0b10000000;
    }

    /// Carry flag: set iff the widened result overflowed eight bits.
    pub fn carry_flag(&mut self, answer: u16)
        ensures
            final(self)@ == (Machine { cy: answer > 0xFF, ..old(self)@ }),
    {
        self.cc.cy = answer > 0xFF;
    }

    /// Even parity of the value's one bits.
    pub fn parity(x: u16) -> (r: bool)
        ensures
            r == spec_parity(x),
    {
        let mut cur: u16 = x;
        let mut ones: u32 = 0;
        proof {
            crate::machine::lemma_popcount_le(x as nat);
        }
        while cur != 0
            invariant
                popcount(x as nat) == ones + popcount(cur as nat),
                popcount(x as nat) <= 0xFFFF,
            decreases cur,
        {
            ones = ones + (cur % 2) as u32;
            cur = cur / 2;
        }
        ones % 2 == 0
    }

    /// Parity flag: even parity of the value.
    pub fn parity_flag(&mut self, answer: u16)
        ensures
            final(self)@ == (Machine { p: spec_parity(answer), ..old(self)@ }),
    {
        self.cc.p = Self::parity(answer);
    }

    /// The three flags every arithmetic and logical result defines, from
    /// the truncated result.
    pub fn arith_flags(&mut self, answer: u16)
        ensures
            final(self)@ == (Machine {
                z: answer == 0,
                s: (answer & 0x80) == 0x80,
                p: spec_parity(answer),
                ..old(self)@
            }),
    {
        self.zero_flag(answer);
        self.sign_flag(answer);
        self.parity_flag(answer);
    }

    /// ADD: widened addition into the accumulator; all five flags.
    pub fn add(&mut self, value: u8)
        ensures
            final(self)@ == acc_flags(old(self)@, spec_add(old(self)@.a, value, false)),
    {
        let sum: u16 = self.a as u16 + value as u16;
        let r: u8 = (sum % 256) as u8;
        let aux: bool = self.a % 16 + value % 16 > 15;
        self.carry_flag(sum);
        self.arith_flags(r as u16);
        self.a = r;
        self.cc.ac = aux;
    }

    /// ADC: addition including the carry flag.
    pub fn add_cy(&mut self, value: u8)
        ensures
            final(self)@ == acc_flags(old(self)@, spec_add(old(self)@.a, value, old(self)@.cy)),
    {
        let cin: u16 = if self.cc.cy {
            1
        } else {
            0
        };
        let sum: u16 = self.a as u16 + value as u16 + cin;
        let r: u8 = (sum % 256) as u8;
        let aux: bool = self.a as u16 % 16 + value as u16 % 16 + cin > 15;
        self.carry_flag(sum);
        self.arith_flags(r as u16);
        self.a = r;
        self.cc.ac = aux;
    }

    /// SUB: widened subtraction from the accumulator; carry means borrow.
    pub fn sub(&mut self, value: u8)
        ensures
            final(self)@ == acc_flags(old(self)@, spec_sub(old(self)@.a, value, false)),
    {
        let a = self.a;
        let r: u8 = (((a as u16 + 256) - value as u16) % 256) as u8;
        let aux: bool = a % 16 < value % 16;
        self.cc.cy = a < value;
        self.arith_flags(r as u16);
        self.a = r;
        self.cc.ac = aux;
    }

    /// SBB: subtraction including the borrow.
    pub fn sub_cy(&mut self, value: u8)
        ensures
            final(self)@ == acc_flags(old(self)@, spec_sub(old(self)@.a, value, old(self)@.cy)),
    {
        let bin: u16 = if self.cc.cy {
            1
        } else {
            0
        };
        let a = self.a;
        let r: u8 = (((a as u16 + 256) - value as u16 - bin) % 256) as u8;
        let aux: bool = (a as u16) % 16 < value as u16 % 16 + bin;
        self.cc.cy = (a as u16) < value as u16 + bin;
        self.arith_flags(r as u16);
        self.a = r;
        self.cc.ac = aux;
    }

    /// ANA: bitwise AND; clears carry and auxiliary carry.
    pub fn and(&mut self, value: u8)
        ensures
            final(self)@ == acc_flags(old(self)@, spec_and(old(self)@.a, value)),
    {
        let r = self.a & value;
        self.cc.cy = false;
        self.arith_flags(r as u16);
        self.a = r;
        self.cc.ac = false;
    }

    /// XRA: bitwise XOR; clears carry and auxiliary carry.
    pub fn xor(&mut self, value: u8)
        ensures
            final(self)@ == acc_flags(old(self)@, spec_xor(old(self)@.a, value)),
    {
        let r = self.a ^ value;
        self.cc.cy = false;
        self.arith_flags(r as u16);
        self.a = r;
        self.cc.ac = false;
    }

    /// ORA: bitwise OR; clears carry and auxiliary carry.
    pub fn or(&mut self, value: u8)
        ensures
            final(self)@ == acc_flags(old(self)@, spec_or(old(self)@.a, value)),
    {
        let r = self.a | value;
        self.cc.cy = false;
        self.arith_flags(r as u16);
        self.a = r;
        self.cc.ac = false;
    }

    /// CMP: the flags of a subtraction without writing the accumulator.
    pub fn cmp(&mut self, value: u8)
        ensures
            final(self)@ == acc_flags(old(self)@, spec_cmp(old(self)@.a, value)),
    {
        let a = self.a;
        let r: u8 = (((a as u16 + 256) - value as u16) % 256) as u8;
        self.cc.cy = a < value;
        self.cc.z = a == value;
        self.sign_flag(r as u16);
        self.parity_flag(r as u16);
        self.cc.ac = a % 16 < value % 16;
    }

    /// One byte read with a bounds check.
    fn rd8(&self, addr: u16) -> (r: Result<u8, EmuError>)
        ensures
            match r {
                Ok(v) => in_mem(self@, addr) && v == rd(self@, addr),
                Err(e) => !in_mem(self@, addr) && e == (EmuError::Bounds { addr }),
            },
    {
        if (addr as usize) < self.mem.len() {
            Ok(self.mem[addr as usize])
        } else {
            Err(EmuError::Bounds { addr })
        }
    }

    /// One byte write with a bounds check.
    fn wr8(&mut self, addr: u16, v: u8) -> (r: Result<(), EmuError>)
        ensures
            match r {
                Ok(_) => in_mem(old(self)@, addr) && final(self)@ == wr(old(self)@, addr, v),
                Err(e) => final(self)@ == old(self)@ && !in_mem(old(self)@, addr) && e
                    == (EmuError::Bounds { addr }),
            },
    {
        if (addr as usize) < self.mem.len() {
            self.mem[addr as usize] = v;
            Ok(())
        } else {
            Err(EmuError::Bounds { addr })
        }
    }

    /// The register selected by a 3-bit opcode field (6, the memory operand,
    /// is handled by the callers).
    fn get_reg(&self, idx: u8) -> (r: u8)
        requires
            idx < 8,
            idx != 6,
        ensures
            r == get_r(self@, idx),
    {
        if idx == 0 {
            self.b
        } else if idx == 1 {
            self.c
        } else if idx == 2 {
            self.d
        } else if idx == 3 {
            self.e
        } else if idx == 4 {
            self.h
        } else if idx == 5 {
            self.l
        } else {
            self.a
        }
    }

    /// Replace the register selected by a 3-bit opcode field.
    fn set_reg(&mut self, idx: u8, v: u8)
        requires
            idx < 8,
            idx != 6,
        ensures
            final(self)@ == set_r(old(self)@, idx, v),
    {
        if idx == 0 {
            self.b = v;
        } else if idx == 1 {
            self.c = v;
        } else if idx == 2 {
            self.d = v;
        } else if idx == 3 {
            self.e = v;
        } else if idx == 4 {
            self.h = v;
        } else if idx == 5 {
            self.l = v;
        } else {
            self.a = v;
        }
    }

    /// Advance the program counter, wrapping at the end of the address
    /// space.
    fn bump_pc(&mut self, k: u16)
        ensures
            final(self)@ == adv(old(self)@, k),
    {
        self.pc = self.pc.wrapping_add(k);
    }

    /// The condition a conditional transfer opcode tests, true for the
    /// unconditional ones.
    fn test_cond(&self, op: u8) -> (r: bool)
        ensures
            r == cond(self@, op),
    {
        if op == 0xC0 || op == 0xC2 || op == 0xC4 {
            !self.cc.z
        } else if op == 0xC8 || op == 0xCA || op == 0xCC {
            self.cc.z
        } else if op == 0xD0 || op == 0xD2 || op == 0xD4 {
            !self.cc.cy
        } else if op == 0xD8 {
            self.cc.cy
        } else {
            true
        }
    }

    /// Push two bytes below the stack pointer (high byte first) and drop SP
    /// by two; both slots are checked before anything is written.
    fn push_word(&mut self, hi: u8, lo: u8) -> (r: Result<(), EmuError>)
        ensures
            match r {
                Ok(_) => stack_ok(old(self)@) && final(self)@ == pushed2(old(self)@, hi, lo),
                Err(e) => final(self)@ == old(self)@ && !stack_ok(old(self)@) && e
                    == (EmuError::Bounds { addr: crate::machine::stack_fail(old(self)@) }),
            },
    {
        let s1 = self.sp.wrapping_sub(1);
        let s2 = self.sp.wrapping_sub(2);
        if !((s1 as usize) < self.mem.len()) {
            return Err(EmuError::Bounds { addr: s1 });
        }
        if !((s2 as usize) < self.mem.len()) {
            return Err(EmuError::Bounds { addr: s2 });
        }
        self.mem[s1 as usize] = hi;
        self.mem[s2 as usize] = lo;
        self.sp = s2;
        Ok(())
    }

    /// MOV between registers or between a register and memory at H:L.
    fn mov(&mut self, op: u8) -> (r: Result<bool, EmuError>)
        requires
            0x40 <= op <= 0x7F,
            op != 0x76,
            in_mem(old(self)@, old(self)@.pc),
            rd(old(self)@, old(self)@.pc) == op,
        ensures
            step_post(old(self)@, final(self)@, r),
    {
        let dst = (op / 8) % 8;
        let src = op % 8;
        if src == 6 {
            let addr = State::extend(self.h, self.l);
            let v = match self.rd8(addr) {
                Ok(v) => v,
                Err(e) => {
                    return Err(e);
                },
            };
            self.set_reg(dst, v);
            self.bump_pc(1);
            Ok(true)
        } else if dst == 6 {
            let addr = State::extend(self.h, self.l);
            let v = self.get_reg(src);
            match self.wr8(addr, v) {
                Ok(_) => {},
                Err(e) => {
                    return Err(e);
                },
            }
            self.bump_pc(1);
            Ok(true)
        } else {
            let v = self.get_reg(src);
            self.set_reg(dst, v);
            self.bump_pc(1);
            Ok(true)
        }
    }

    /// The register/memory ALU block: ADD, ADC, SUB, SBB, ANA, XRA, ORA and
    /// CMP on the operand selected by the low three opcode bits.
    fn alu(&mut self, op: u8) -> (r: Result<bool, EmuError>)
        requires
            0x80 <= op <= 0xBF,
            in_mem(old(self)@, old(self)@.pc),
            rd(old(self)@, old(self)@.pc) == op,
        ensures
            step_post(old(self)@, final(self)@, r),
    {
        let src = op % 8;
        let v: u8;
        if src == 6 {
            let addr = State::extend(self.h, self.l);
            v = match self.rd8(addr) {
                Ok(x) => x,
                Err(e) => {
                    return Err(e);
                },
            };
        } else {
            v = self.get_reg(src);
        }
        let fam = (op / 8) % 8;
        if fam == 0 {
            self.add(v);
        } else if fam == 1 {
            self.add_cy(v);
        } else if fam == 2 {
            self.sub(v);
        } else if fam == 3 {
            self.sub_cy(v);
        } else if fam == 4 {
            self.and(v);
        } else if fam == 5 {
            self.xor(v);
        } else if fam == 6 {
            self.or(v);
        } else {
            self.cmp(v);
        }
        self.bump_pc(1);
        Ok(true)
    }

    /// ADI, ACI and SUI: the ALU applied to the immediate operand.
    fn alu_imm(&mut self, op: u8) -> (r: Result<bool, EmuError>)
        requires
            op == 0xC6 || op == 0xCE || op == 0xD6,
            in_mem(old(self)@, old(self)@.pc),
            rd(old(self)@, old(self)@.pc) == op,
        ensures
            step_post(old(self)@, final(self)@, r),
    {
        let v = match self.rd8(self.pc.wrapping_add(1)) {
            Ok(x) => x,
            Err(e) => {
                return Err(e);
            },
        };
        if op == 0xC6 {
            self.add(v);
        } else if op == 0xCE {
            self.add_cy(v);
        } else {
            self.sub(v);
        }
        self.bump_pc(2);
        Ok(true)
    }

    /// The incremented byte an INR stores.
    fn inr_val(x: u8) -> (v: u8)
        ensures
            v == spec_inr(x).r,
    {
        x.wrapping_add(1)
    }

    /// The flags INR defines (zero, sign, parity, auxiliary carry; never
    /// carry).
    fn inr_flags(&mut self, x: u8)
        ensures
            final(self)@ == szp_only(old(self)@, spec_inr(x)),
    {
        let v = x.wrapping_add(1);
        self.arith_flags(v as u16);
        self.cc.ac = x % 16 + 1 > 15;
    }

    /// The decremented byte a DCR stores.
    fn dcr_val(x: u8) -> (v: u8)
        ensures
            v == spec_dcr(x).r,
    {
        x.wrapping_sub(1)
    }

    /// The flags DCR defines (zero, sign, parity, auxiliary carry; never
    /// carry).
    fn dcr_flags(&mut self, x: u8)
        ensures
            final(self)@ == szp_only(old(self)@, spec_dcr(x)),
    {
        let v = x.wrapping_sub(1);
        self.arith_flags(v as u16);
        self.cc.ac = x % 16 == 0;
    }

    /// INR: 8-bit increment of a register or of memory at H:L; carry is
    /// never touched.
    #[verifier::rlimit(100)]
    #[verifier::spinoff_prover]
    fn inr(&mut self, op: u8) -> (r: Result<bool, EmuError>)
        requires
            op == 0x04 || op == 0x0C || op == 0x14 || op == 0x1C || op == 0x24 || op == 0x2C || op
                == 0x34 || op == 0x3C,
            in_mem(old(self)@, old(self)@.pc),
            rd(old(self)@, old(self)@.pc) == op,
        ensures
            step_post(old(self)@, final(self)@, r),
    {
        let idx = (op / 8) % 8;
        if op == 0x34 {
            let addr = State::extend(self.h, self.l);
            let x = match self.rd8(addr) {
                Ok(x) => x,
                Err(e) => {
                    return Err(e);
                },
            };
            let v = State::inr_val(x);
            match self.wr8(addr, v) {
                Ok(_) => {},
                Err(e) => {
                    return Err(e);
                },
            }
            self.inr_flags(x);
            self.bump_pc(1);
            Ok(true)
        } else {
            let x = self.get_reg(idx);
            let v = State::inr_val(x);
            self.set_reg(idx, v);
            self.inr_flags(x);
            self.bump_pc(1);
            Ok(true)
        }
    }

    /// DCR: 8-bit decrement; carry is never touched.
    #[verifier::rlimit(100)]
    #[verifier::spinoff_prover]
    fn dcr(&mut self, op: u8) -> (r: Result<bool, EmuError>)
        requires
            op == 0x05 || op == 0x0D || op == 0x15 || op == 0x1D || op == 0x25 || op == 0x2D || op
                == 0x35 || op == 0x3D,
            in_mem(old(self)@, old(self)@.pc),
            rd(old(self)@, old(self)@.pc) == op,
        ensures
            step_post(old(self)@, final(self)@, r),
    {
        let idx = (op / 8) % 8;
        if op == 0x35 {
            let addr = State::extend(self.h, self.l);
            let x = match self.rd8(addr) {
                Ok(x) => x,
                Err(e) => {
                    return Err(e);
                },
            };
            let v = State::dcr_val(x);
            match self.wr8(addr, v) {
                Ok(_) => {},
                Err(e) => {
                    return Err(e);
                },
            }
            self.dcr_flags(x);
            self.bump_pc(1);
            Ok(true)
        } else {
            let x = self.get_reg(idx);
            let v = State::dcr_val(x);
            self.set_reg(idx, v);
            self.dcr_flags(x);
            self.bump_pc(1);
            Ok(true)
        }
    }

    /// MVI: load the immediate byte into a register or memory at H:L.
    fn mvi(&mut self, op: u8) -> (r: Result<bool, EmuError>)
        requires
            op == 0x06 || op == 0x0E || op == 0x16 || op == 0x1E || op == 0x26 || op == 0x2E || op
                == 0x36 || op == 0x3E,
            in_mem(old(self)@, old(self)@.pc),
            rd(old(self)@, old(self)@.pc) == op,
        ensures
            step_post(old(self)@, final(self)@, r),
    {
        let v = match self.rd8(self.pc.wrapping_add(1)) {
            Ok(x) => x,
            Err(e) => {
                return Err(e);
            },
        };
        let idx = (op / 8) % 8;
        if idx == 6 {
            let addr = State::extend(self.h, self.l);
            match self.wr8(addr, v) {
                Ok(_) => {},
                Err(e) => {
                    return Err(e);
                },
            }
        } else {
            self.set_reg(idx, v);
        }
        self.bump_pc(2);
        Ok(true)
    }

    /// LXI: load the two-byte immediate into a register pair.
    #[verifier::rlimit(60)]
    #[verifier::spinoff_prover]
    fn lxi(&mut self, op: u8) -> (r: Result<bool, EmuError>)
        requires
            op == 0x01 || op == 0x11 || op == 0x21 || op == 0x31,
            in_mem(old(self)@, old(self)@.pc),
            rd(old(self)@, old(self)@.pc) == op,
        ensures
            step_post(old(self)@, final(self)@, r),
    {
        let lo = match self.rd8(self.pc.wrapping_add(1)) {
            Ok(x) => x,
            Err(e) => {
                return Err(e);
            },
        };
        let hi = match self.rd8(self.pc.wrapping_add(2)) {
            Ok(x) => x,
            Err(e) => {
                return Err(e);
            },
        };
        let rp = (op / 16) % 4;
        if rp == 0 {
            self.b = hi;
            self.c = lo;
        } else if rp == 1 {
            self.d = hi;
            self.e = lo;
        } else if rp == 2 {
            self.h = hi;
            self.l = lo;
        } else {
            self.sp = State::extend(hi, lo);
        }
        self.bump_pc(3);
        Ok(true)
    }

    /// INX: 16-bit increment of a register pair; no flags.
    #[verifier::rlimit(60)]
    #[verifier::spinoff_prover]
    fn inx(&mut self, op: u8) -> (r: Result<bool, EmuError>)
        requires
            op == 0x03 || op == 0x13 || op == 0x23 || op == 0x33,
            in_mem(old(self)@, old(self)@.pc),
            rd(old(self)@, old(self)@.pc) == op,
        ensures
            step_post(old(self)@, final(self)@, r),
    {
        let rp = (op / 16) % 4;
        let cur = if rp == 0 {
            State::extend(self.b, self.c)
        } else if rp == 1 {
            State::extend(self.d, self.e)
        } else if rp == 2 {
            State::extend(self.h, self.l)
        } else {
            self.sp
        };
        let nv = cur.wrapping_add(1);
        let (hi, lo) = State::seperate(nv);
        if rp == 0 {
            self.b = hi;
            self.c = lo;
        } else if rp == 1 {
            self.d = hi;
            self.e = lo;
        } else if rp == 2 {
            self.h = hi;
            self.l = lo;
        } else {
            self.sp = nv;
        }
        self.bump_pc(1);
        Ok(true)
    }

    /// DCX: 16-bit decrement of a register pair; no flags.
    #[verifier::rlimit(60)]
    #[verifier::spinoff_prover]
    fn dcx(&mut self, op: u8) -> (r: Result<bool, EmuError>)
        requires
            op == 0x0B || op == 0x1B || op == 0x2B || op == 0x3B,
            in_mem(old(self)@, old(self)@.pc),
            rd(old(self)@, old(self)@.pc) == op,
        ensures
            step_post(old(self)@, final(self)@, r),
    {
        let rp = (op / 16) % 4;
        let cur = if rp == 0 {
            State::extend(self.b, self.c)
        } else if rp == 1 {
            State::extend(self.d, self.e)
        } else if rp == 2 {
            State::extend(self.h, self.l)
        } else {
            self.sp
        };
        let nv = cur.wrapping_sub(1);
        let (hi, lo) = State::seperate(nv);
        if rp == 0 {
            self.b = hi;
            self.c = lo;
        } else if rp == 1 {
            self.d = hi;
            self.e = lo;
        } else if rp == 2 {
            self.h = hi;
            self.l = lo;
        } else {
            self.sp = nv;
        }
        self.bump_pc(1);
        Ok(true)
    }

    /// DAD: 16-bit add of a register pair into H:L; carry is bit 16 of the
    /// widened sum and the only flag touched.
    #[verifier::rlimit(60)]
    #[verifier::spinoff_prover]
    fn dad(&mut self, op: u8) -> (r: Result<bool, EmuError>)
        requires
            op == 0x09 || op == 0x19 || op == 0x29 || op == 0x39,
            in_mem(old(self)@, old(self)@.pc),
            rd(old(self)@, old(self)@.pc) == op,
        ensures
            step_post(old(self)@, final(self)@, r),
    {
        let rp = (op / 16) % 4;
        let hlv = State::extend(self.h, self.l);
        let other = if rp == 0 {
            State::extend(self.b, self.c)
        } else if rp == 1 {
            State::extend(self.d, self.e)
        } else if rp == 2 {
            hlv
        } else {
            self.sp
        };
        let sum: u32 = hlv as u32 + other as u32;
        let x: u16 = (sum % 0x10000) as u16;
        let (hi, lo) = State::seperate(x);
        self.h = hi;
        self.l = lo;
        self.cc.cy = sum > 0xFFFF;
        self.bump_pc(1);
        Ok(true)
    }

    /// STAX: store the accumulator at the address in B:C or D:E.
    fn stax(&mut self, op: u8) -> (r: Result<bool, EmuError>)
        requires
            op == 0x02 || op == 0x12,
            in_mem(old(self)@, old(self)@.pc),
            rd(old(self)@, old(self)@.pc) == op,
        ensures
            step_post(old(self)@, final(self)@, r),
    {
        let addr = if (op / 16) % 2 == 0 {
            State::extend(self.b, self.c)
        } else {
            State::extend(self.d, self.e)
        };
        let a = self.a;
        match self.wr8(addr, a) {
            Ok(_) => {},
            Err(e) => {
                return Err(e);
            },
        }
        self.bump_pc(1);
        Ok(true)
    }

    /// LDAX: load the accumulator from the address in B:C or D:E.
    fn ldax(&mut self, op: u8) -> (r: Result<bool, EmuError>)
        requires
            op == 0x0A || op == 0x1A,
            in_mem(old(self)@, old(self)@.pc),
            rd(old(self)@, old(self)@.pc) == op,
        ensures
            step_post(old(self)@, final(self)@, r),
    {
        let addr = if (op / 16) % 2 == 0 {
            State::extend(self.b, self.c)
        } else {
            State::extend(self.d, self.e)
        };
        let v = match self.rd8(addr) {
            Ok(x) => x,
            Err(e) => {
                return Err(e);
            },
        };
        self.a = v;
        self.bump_pc(1);
        Ok(true)
    }

    /// The four rotates: RLC and RRC rotate the accumulator into itself,
    /// RAL and RAR rotate through the carry flag; carry receives the bit
    /// rotated out.
    fn rotate(&mut self, op: u8) -> (r: Result<bool, EmuError>)
        requires
            op == 0x07 || op == 0x0F || op == 0x17 || op == 0x1F,
            in_mem(old(self)@, old(self)@.pc),
            rd(old(self)@, old(self)@.pc) == op,
        ensures
            step_post(old(self)@, final(self)@, r),
    {
        let a = self.a;
        let cin: u8 = if self.cc.cy {
            1
        } else {
            0
        };
        if op == 0x07 {
            self.a = (a % 128) * 2 + a / 128;
            self.cc.cy = a >= 0x80;
        } else if op == 0x0F {
            self.a = a / 2 + (a % 2) * 128;
            self.cc.cy = a % 2 == 1;
        } else if op == 0x17 {
            self.a = (a % 128) * 2 + cin;
            self.cc.cy = a >= 0x80;
        } else {
            self.a = a / 2 + cin * 128;
            self.cc.cy = a % 2 == 1;
        }
        self.bump_pc(1);
        Ok(true)
    }

    /// SHLD: store L and H at the direct address and the byte above it.
    fn shld(&mut self) -> (r: Result<bool, EmuError>)
        requires
            in_mem(old(self)@, old(self)@.pc),
            rd(old(self)@, old(self)@.pc) == 0x22,
        ensures
            step_post(old(self)@, final(self)@, r),
    {
        let lo = match self.rd8(self.pc.wrapping_add(1)) {
            Ok(x) => x,
            Err(e) => {
                return Err(e);
            },
        };
        let hi = match self.rd8(self.pc.wrapping_add(2)) {
            Ok(x) => x,
            Err(e) => {
                return Err(e);
            },
        };
        let t = State::extend(hi, lo);
        let t2 = t.wrapping_add(1);
        if !((t as usize) < self.mem.len()) {
            return Err(EmuError::Bounds { addr: t });
        }
        if !((t2 as usize) < self.mem.len()) {
            return Err(EmuError::Bounds { addr: t2 });
        }
        self.mem[t as usize] = self.l;
        self.mem[t2 as usize] = self.h;
        self.bump_pc(3);
        Ok(true)
    }

    /// LHLD: load L and H from the direct address and the byte above it.
    fn lhld(&mut self) -> (r: Result<bool, EmuError>)
        requires
            in_mem(old(self)@, old(self)@.pc),
            rd(old(self)@, old(self)@.pc) == 0x2A,
        ensures
            step_post(old(self)@, final(self)@, r),
    {
        let lo = match self.rd8(self.pc.wrapping_add(1)) {
            Ok(x) => x,
            Err(e) => {
                return Err(e);
            },
        };
        let hi = match self.rd8(self.pc.wrapping_add(2)) {
            Ok(x) => x,
            Err(e) => {
                return Err(e);
            },
        };
        let t = State::extend(hi, lo);
        let t2 = t.wrapping_add(1);
        let vl = match self.rd8(t) {
            Ok(x) => x,
            Err(e) => {
                return Err(e);
            },
        };
        let vh = match self.rd8(t2) {
            Ok(x) => x,
            Err(e) => {
                return Err(e);
            },
        };
        self.l = vl;
        self.h = vh;
        self.bump_pc(3);
        Ok(true)
    }

    /// STA: store the accumulator at the direct address.
    fn sta(&mut self) -> (r: Result<bool, EmuError>)
        requires
            in_mem(old(self)@, old(self)@.pc),
            rd(old(self)@, old(self)@.pc) == 0x32,
        ensures
            step_post(old(self)@, final(self)@, r),
    {
        let lo = match self.rd8(self.pc.wrapping_add(1)) {
            Ok(x) => x,
            Err(e) => {
                return Err(e);
            },
        };
        let hi = match self.rd8(self.pc.wrapping_add(2)) {
            Ok(x) => x,
            Err(e) => {
                return Err(e);
            },
        };
        let t = State::extend(hi, lo);
        let a = self.a;
        match self.wr8(t, a) {
            Ok(_) => {},
            Err(e) => {
                return Err(e);
            },
        }
        self.bump_pc(3);
        Ok(true)
    }

    /// LDA: load the accumulator from the direct address.
    fn lda(&mut self) -> (r: Result<bool, EmuError>)
        requires
            in_mem(old(self)@, old(self)@.pc),
            rd(old(self)@, old(self)@.pc) == 0x3A,
        ensures
            step_post(old(self)@, final(self)@, r),
    {
        let lo = match self.rd8(self.pc.wrapping_add(1)) {
            Ok(x) => x,
            Err(e) => {
                return Err(e);
            },
        };
        let hi = match self.rd8(self.pc.wrapping_add(2)) {
            Ok(x) => x,
            Err(e) => {
                return Err(e);
            },
        };
        let t = State::extend(hi, lo);
        let v = match self.rd8(t) {
            Ok(x) => x,
            Err(e) => {
                return Err(e);
            },
        };
        self.a = v;
        self.bump_pc(3);
        Ok(true)
    }

    /// JMP and the conditional jumps: transfer to the operand address when
    /// the condition passes, else fall through the three instruction bytes.
    fn jmp(&mut self, op: u8) -> (r: Result<bool, EmuError>)
        requires
            op == 0xC2 || op == 0xC3 || op == 0xCA || op == 0xCB || op == 0xD2,
            in_mem(old(self)@, old(self)@.pc),
            rd(old(self)@, old(self)@.pc) == op,
        ensures
            step_post(old(self)@, final(self)@, r),
    {
        let lo = match self.rd8(self.pc.wrapping_add(1)) {
            Ok(x) => x,
            Err(e) => {
                return Err(e);
            },
        };
        let hi = match self.rd8(self.pc.wrapping_add(2)) {
            Ok(x) => x,
            Err(e) => {
                return Err(e);
            },
        };
        if self.test_cond(op) {
            self.pc = State::extend(hi, lo);
        } else {
            self.bump_pc(3);
        }
        Ok(true)
    }

    /// CALL and the conditional calls: push the address of the following
    /// instruction, then jump; on a failed condition fall through.
    fn call(&mut self, op: u8) -> (r: Result<bool, EmuError>)
        requires
            op == 0xC4 || op == 0xCC || op == 0xCD || op == 0xD4,
            in_mem(old(self)@, old(self)@.pc),
            rd(old(self)@, old(self)@.pc) == op,
        ensures
            step_post(old(self)@, final(self)@, r),
    {
        let lo = match self.rd8(self.pc.wrapping_add(1)) {
            Ok(x) => x,
            Err(e) => {
                return Err(e);
            },
        };
        let hi = match self.rd8(self.pc.wrapping_add(2)) {
            Ok(x) => x,
            Err(e) => {
                return Err(e);
            },
        };
        if self.test_cond(op) {
            let ret = self.pc.wrapping_add(3);
            let (rh, rl) = State::seperate(ret);
            match self.push_word(rh, rl) {
                Ok(_) => {},
                Err(e) => {
                    return Err(e);
                },
            }
            self.pc = State::extend(hi, lo);
        } else {
            self.bump_pc(3);
        }
        Ok(true)
    }

    /// RET and the conditional returns: pop the return address into the
    /// program counter; on a failed condition fall through one byte.
    fn ret(&mut self, op: u8) -> (r: Result<bool, EmuError>)
        requires
            op == 0xC0 || op == 0xC8 || op == 0xC9 || op == 0xD0 || op == 0xD8 || op == 0xD9,
            in_mem(old(self)@, old(self)@.pc),
            rd(old(self)@, old(self)@.pc) == op,
        ensures
            step_post(old(self)@, final(self)@, r),
    {
        if self.test_cond(op) {
            let lo = match self.rd8(self.sp) {
                Ok(x) => x,
                Err(e) => {
                    return Err(e);
                },
            };
            let hi = match self.rd8(self.sp.wrapping_add(1)) {
                Ok(x) => x,
                Err(e) => {
                    return Err(e);
                },
            };
            self.pc = State::extend(hi, lo);
            self.sp = self.sp.wrapping_add(2);
        } else {
            self.bump_pc(1);
        }
        Ok(true)
    }

    /// RST: a one-byte call to the fixed address eight times the restart
    /// number.
    fn rst(&mut self, op: u8) -> (r: Result<bool, EmuError>)
        requires
            op == 0xC7 || op == 0xCF || op == 0xD7,
            in_mem(old(self)@, old(self)@.pc),
            rd(old(self)@, old(self)@.pc) == op,
        ensures
            step_post(old(self)@, final(self)@, r),
    {
        let ret = self.pc.wrapping_add(1);
        let (rh, rl) = State::seperate(ret);
        match self.push_word(rh, rl) {
            Ok(_) => {},
            Err(e) => {
                return Err(e);
            },
        }
        self.pc = (op as u16) - 0xC7;
        Ok(true)
    }

    /// PUSH of B:C or D:E.
    fn push(&mut self, op: u8) -> (r: Result<bool, EmuError>)
        requires
            op == 0xC5 || op == 0xD5,
            in_mem(old(self)@, old(self)@.pc),
            rd(old(self)@, old(self)@.pc) == op,
        ensures
            step_post(old(self)@, final(self)@, r),
    {
        let (hi, lo) = if op == 0xC5 {
            (self.b, self.c)
        } else {
            (self.d, self.e)
        };
        match self.push_word(hi, lo) {
            Ok(_) => {},
            Err(e) => {
                return Err(e);
            },
        }
        self.bump_pc(1);
        Ok(true)
    }

    /// POP into B:C or D:E: low byte from the stack pointer's address, high
    /// byte from the one above; SP rises by two.
    fn pop(&mut self, op: u8) -> (r: Result<bool, EmuError>)
        requires
            op == 0xC1 || op == 0xD1,
            in_mem(old(self)@, old(self)@.pc),
            rd(old(self)@, old(self)@.pc) == op,
        ensures
            step_post(old(self)@, final(self)@, r),
    {
        let lo = match self.rd8(self.sp) {
            Ok(x) => x,
            Err(e) => {
                return Err(e);
            },
        };
        let hi = match self.rd8(self.sp.wrapping_add(1)) {
            Ok(x) => x,
            Err(e) => {
                return Err(e);
            },
        };
        if op == 0xC1 {
            self.b = hi;
            self.c = lo;
        } else {
            self.d = hi;
            self.e = lo;
        }
        self.sp = self.sp.wrapping_add(2);
        self.bump_pc(1);
        Ok(true)
    }

    /// Execute the instruction at the program counter. Returns `Ok(true)` to
    /// continue, `Ok(false)` when a HLT was reached (the state, including
    /// the program counter, is left at the halt instruction), and an error
    /// for an undecodable opcode or an out-of-bounds access, in which case
    /// no state changed.
    pub fn step(&mut self) -> (r: Result<bool, EmuError>)
        ensures
            step_post(old(self)@, final(self)@, r),
    {
        if !((self.pc as usize) < self.mem.len()) {
            return Err(EmuError::Bounds { addr: self.pc });
        }
        let op = self.mem[self.pc as usize];
        match op {
            0x76 => Ok(false),
            0x40..=0x75 | 0x77..=0x7F => self.mov(op),
            0x80..=0xBF => self.alu(op),
            0x00 | 0x08 | 0x10 | 0x18 | 0x20 | 0x28 | 0x30 | 0x38 => {
                self.bump_pc(1);
                Ok(true)
            },
            0x01 | 0x11 | 0x21 | 0x31 => self.lxi(op),
            0x02 | 0x12 => self.stax(op),
            0x0A | 0x1A => self.ldax(op),
            0x03 | 0x13 | 0x23 | 0x33 => self.inx(op),
            0x0B | 0x1B | 0x2B | 0x3B => self.dcx(op),
            0x04 | 0x0C | 0x14 | 0x1C | 0x24 | 0x2C | 0x34 | 0x3C => self.inr(op),
            0x05 | 0x0D | 0x15 | 0x1D | 0x25 | 0x2D | 0x35 | 0x3D => self.dcr(op),
            0x06 | 0x0E | 0x16 | 0x1E | 0x26 | 0x2E | 0x36 | 0x3E => self.mvi(op),
            0x09 | 0x19 | 0x29 | 0x39 => self.dad(op),
            0x07 | 0x0F | 0x17 | 0x1F => self.rotate(op),
            0x22 => self.shld(),
            0x2A => self.lhld(),
            0x32 => self.sta(),
            0x3A => self.lda(),
            0x2F => {
                self.a = 255 - self.a;
                self.bump_pc(1);
                Ok(true)
            },
            0x37 => {
                self.cc.cy = true;
                self.bump_pc(1);
                Ok(true)
            },
            0x3F => {
                self.cc.cy = !self.cc.cy;
                self.bump_pc(1);
                Ok(true)
            },
            0xC2 | 0xC3 | 0xCA | 0xCB | 0xD2 => self.jmp(op),
            0xC4 | 0xCC | 0xCD | 0xD4 => self.call(op),
            0xC0 | 0xC8 | 0xC9 | 0xD0 | 0xD8 | 0xD9 => self.ret(op),
            0xC7 | 0xCF | 0xD7 => self.rst(op),
            0xC1 | 0xD1 => self.pop(op),
            0xC5 | 0xD5 => self.push(op),
            0xC6 | 0xCE | 0xD6 => self.alu_imm(op),
            _ => {
                let mut text = String::new();
                match disasm_single(&mut text, self.mem.as_slice(), self.pc as usize) {
                    Ok(_) => {},
                    Err(_) => {},
                }
                proof {
                    assert(Seq::<char>::empty() + spec_decode_text(self@.mem, self@.pc as int)
                        =~= spec_decode_text(self@.mem, self@.pc as int));
                }
                Err(EmuError::Decode { addr: self.pc, opcode: op, text })
            },
        }
    }

    /// Run instruction by instruction until a HLT executes; a fault stops
    /// the run with the machine as it stood before the faulting step.
    pub fn start(&mut self) -> (r: Result<(), EmuError>)
        ensures
            match r {
                Ok(_) => exists|n: nat| run_n(old(self)@, n) == Run::Done(final(self)@),
                Err(e) => match e {
                    EmuError::Stalled => run_n(old(self)@, u64::MAX as nat) == Run::More(final(self)@),
                    _ => (exists|n: nat| run_n(old(self)@, n) == Run::Fail(final(self)@)) && fault_post(
                        final(self)@,
                        e,
                    ),
                },
            },
    {
        let mut fuel: u64 = u64::MAX;
        loop
            invariant
                run_n(old(self)@, (u64::MAX - fuel) as nat) == Run::More(self@),
            decreases fuel,
        {
            if fuel == 0 {
                return Err(EmuError::Stalled);
            }
            fuel = fuel - 1;
            let ghost pre = self@;
            let ghost n: nat = (u64::MAX - fuel - 1) as nat;
            let res = self.step();
            match res {
                Ok(true) => {
                    proof {
                        assert(run_n(old(self)@, n + 1) == Run::More(self@));
                    }
                },
                Ok(false) => {
                    proof {
                        assert(run_n(old(self)@, n + 1) == Run::Done(self@));
                    }
                    return Ok(());
                },
                Err(e) => {
                    proof {
                        assert(run_n(old(self)@, n + 1) == Run::Fail(self@));
                    }
                    return Err(e);
                },
            }
        }
    }
}

} // verus!
