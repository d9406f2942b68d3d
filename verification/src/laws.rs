//! The laws the engine and the disassembler obey, stated over the
//! specification model and proved once and for all machines.

use vstd::prelude::*;

verus! {

use crate::machine::Machine;
use crate::machine::Step;
use crate::machine::cond;
use crate::machine::decodable;
use crate::machine::hi8;
use crate::machine::imm16_at;
use crate::machine::in_mem;
use crate::machine::is_control;
use crate::machine::lo8;
use crate::machine::ops2_ok;
use crate::machine::rd;
use crate::machine::spec_add;
use crate::machine::spec_and;
use crate::machine::spec_cmp;
use crate::machine::spec_dcr;
use crate::machine::spec_inr;
use crate::machine::spec_or;
use crate::machine::spec_sub;
use crate::machine::spec_xor;
use crate::machine::stack_ok;
use crate::machine::step_spec;
use crate::machine::wadd;
use crate::machine::wsub;
use crate::optable::instr_len;

/// Length consistency between the engine and the disassembler: whenever a
/// step succeeds and the instruction is not a control transfer whose
/// condition passes (so in particular for every data, arithmetic, logical
/// and flag instruction, and for every conditional transfer that falls
/// through), the program counter advances by exactly the length the shared
/// opcode table — and hence `disasm_single` — reports for that opcode.
pub proof fn lemma_length_consistency(m: Machine, m2: Machine)
    requires
        step_spec(m) == Step::Next(m2),
        !(is_control(rd(m, m.pc)) && cond(m, rd(m, m.pc))),
    ensures
        m2.pc == wadd(m.pc, instr_len(rd(m, m.pc))),
{
}

/// Zero-flag law: every operation that defines the zero flag sets it iff
/// its result, truncated to the operation's eight-bit width, is zero. For
/// ADD/ADC/SUB/SBB and the logical operations the result is the new
/// accumulator byte, for INR/DCR the stored byte, and for CMP the flag is
/// equivalent to equality of accumulator and operand.
pub proof fn lemma_zero_flag(a: u8, v: u8, cin: bool)
    ensures
        spec_add(a, v, cin).z == (spec_add(a, v, cin).r == 0),
        spec_sub(a, v, cin).z == (spec_sub(a, v, cin).r == 0),
        spec_and(a, v).z == (spec_and(a, v).r == 0),
        spec_xor(a, v).z == (spec_xor(a, v).r == 0),
        spec_or(a, v).z == (spec_or(a, v).r == 0),
        spec_cmp(a, v).z == (a == v),
        spec_inr(v).z == (spec_inr(v).r == 0),
        spec_dcr(v).z == (spec_dcr(v).r == 0),
{
}

/// Decode totality: with the program counter in bounds, a step reports an
/// undecodable opcode exactly for the byte values outside the engine's
/// defined mapping — never for a defined one, and never silently skipping
/// an undefined one.
pub proof fn lemma_decode_totality(m: Machine)
    requires
        in_mem(m, m.pc),
    ensures
        (step_spec(m) is Undecodable) <==> !decodable(rd(m, m.pc)),
{
}

/// Stack round trip: a PUSH of a register pair immediately followed by a POP
/// of the same pair (the matching POP opcode is the PUSH opcode minus four)
/// restores the pair, every other register and flag, and the stack pointer,
/// and leaves the program counter two bytes further on. Both steps are
/// guaranteed to succeed. The pushed bytes must not overwrite the POP
/// opcode itself.
pub proof fn lemma_push_pop(m: Machine, op_push: u8)
    requires
        op_push == 0xC5 || op_push == 0xD5,
        in_mem(m, m.pc),
        rd(m, m.pc) == op_push,
        stack_ok(m),
        in_mem(m, wadd(m.pc, 1)),
        rd(m, wadd(m.pc, 1)) == op_push - 4,
        wsub(m.sp, 1) != wadd(m.pc, 1),
        wsub(m.sp, 2) != wadd(m.pc, 1),
    ensures
        step_spec(m) matches Step::Next(m2) && step_spec(m2) matches Step::Next(m3) && {
            &&& m3.a == m.a
            &&& m3.b == m.b
            &&& m3.c == m.c
            &&& m3.d == m.d
            &&& m3.e == m.e
            &&& m3.h == m.h
            &&& m3.l == m.l
            &&& m3.sp == m.sp
            &&& m3.pc == wadd(m.pc, 2)
            &&& m3.z == m.z
            &&& m3.s == m.s
            &&& m3.p == m.p
            &&& m3.cy == m.cy
            &&& m3.ac == m.ac
        },
{
}

/// Control transfer round trip: a CALL pushes the address of the following
/// instruction and jumps to its operand; a later RET executed with the same
/// stack pointer and the pushed bytes still in place resumes at that
/// following instruction with the stack pointer restored to its pre-call
/// value. Both steps are guaranteed to succeed.
pub proof fn lemma_call_ret(m: Machine, m3: Machine)
    requires
        in_mem(m, m.pc),
        rd(m, m.pc) == 0xCD,
        ops2_ok(m),
        stack_ok(m),
        in_mem(m3, m3.pc),
        rd(m3, m3.pc) == 0xC9,
        m3.sp == wsub(m.sp, 2),
        in_mem(m3, m3.sp),
        in_mem(m3, wadd(m3.sp, 1)),
        rd(m3, m3.sp) == lo8(wadd(m.pc, 3)),
        rd(m3, wadd(m3.sp, 1)) == hi8(wadd(m.pc, 3)),
    ensures
        step_spec(m) matches Step::Next(m2) && {
            &&& m2.pc == imm16_at(m)
            &&& m2.sp == wsub(m.sp, 2)
            &&& rd(m2, wsub(m.sp, 2)) == lo8(wadd(m.pc, 3))
            &&& rd(m2, wsub(m.sp, 1)) == hi8(wadd(m.pc, 3))
        },
        step_spec(m3) matches Step::Next(m4) && {
            &&& m4.pc == wadd(m.pc, 3)
            &&& m4.sp == m.sp
        },
{
}

} // verus!
