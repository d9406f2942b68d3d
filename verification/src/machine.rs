//! The mathematical model of the CPU: a ghost machine state and a
//! specification-level interpreter, `step_spec`, that gives the exact meaning
//! of every instruction. The executable engine in `emulator` is proved to
//! implement this model step for step.

use vstd::prelude::*;

verus! {

/// The architectural state: seven 8-bit registers, the five condition flags,
/// the 16-bit stack pointer and program counter, the interrupt-enable flag,
/// and the flat memory the machine owns.
#[verifier::ext_equal]
pub ghost struct Machine {
    pub a: u8,
    pub b: u8,
    pub c: u8,
    pub d: u8,
    pub e: u8,
    pub h: u8,
    pub l: u8,
    pub sp: u16,
    pub pc: u16,
    pub z: bool,
    pub s: bool,
    pub p: bool,
    pub cy: bool,
    pub ac: bool,
    pub int_enable: bool,
    pub mem: Seq<u8>,
}

/// What one step of the machine does: move to a next state, halt (leaving the
/// state as it is), refuse an opcode with no defined mapping, or fault on a
/// memory access outside the buffer. The fault variants carry the address
/// (and for a decode fault the opcode byte) that the engine must report.
pub ghost enum Step {
    Next(Machine),
    Halt,
    Undecodable { addr: u16, opcode: u8 },
    OutOfBounds { addr: u16 },
}

// ---------------------------------------------------------------------------
// 16-bit and 8-bit helpers
// ---------------------------------------------------------------------------

/// Two 8-bit registers side by side as one 16-bit value; the first-named
/// register is always the high byte.
pub open spec fn pair16(hi: u8, lo: u8) -> u16 {
    (hi as int * 256 + lo as int) as u16
}

/// High byte of a 16-bit value.
pub open spec fn hi8(x: u16) -> u8 {
    (x as int / 256) as u8
}

/// Low byte of a 16-bit value.
pub open spec fn lo8(x: u16) -> u8 {
    (x as int % 256) as u8
}

/// 16-bit address arithmetic wraps around the 64 KiB address space.
pub open spec fn wadd(x: u16, k: u16) -> u16 {
    vstd::wrapping::u16_specs::wrapping_add(x, k)
}

/// 16-bit wrapping subtraction.
pub open spec fn wsub(x: u16, k: u16) -> u16 {
    vstd::wrapping::u16_specs::wrapping_sub(x, k)
}

pub open spec fn bc(m: Machine) -> u16 {
    pair16(m.b, m.c)
}

pub open spec fn de(m: Machine) -> u16 {
    pair16(m.d, m.e)
}

pub open spec fn hl(m: Machine) -> u16 {
    pair16(m.h, m.l)
}

// ---------------------------------------------------------------------------
// Memory access
// ---------------------------------------------------------------------------

/// Whether an address lies inside the machine's memory buffer.
pub open spec fn in_mem(m: Machine, addr: u16) -> bool {
    (addr as int) < m.mem.len()
}

/// The byte at an in-bounds address.
pub open spec fn rd(m: Machine, addr: u16) -> u8 {
    m.mem[addr as int]
}

/// The machine with one memory byte replaced.
pub open spec fn wr(m: Machine, addr: u16, v: u8) -> Machine {
    Machine { mem: m.mem.update(addr as int, v), ..m }
}

/// The machine with the program counter advanced by `k` bytes.
pub open spec fn adv(m: Machine, k: u16) -> Machine {
    Machine { pc: wadd(m.pc, k), ..m }
}

// ---------------------------------------------------------------------------
// Flags and the arithmetic/logic unit
// ---------------------------------------------------------------------------

/// Number of one bits in the binary expansion of `n`.
pub open spec fn popcount(n: nat) -> nat
    decreases n,
{
    if n == 0 {
        0
    } else {
        n % 2 + popcount(n / 2)
    }
}

/// A value bounds its own population count.
pub proof fn lemma_popcount_le(n: nat)
    ensures
        popcount(n) <= n,
    decreases n,
{
    if n > 0 {
        lemma_popcount_le(n / 2);
    }
}

/// Even parity: true when the value has an even number of one bits.
pub open spec fn spec_parity(x: u16) -> bool {
    popcount(x as nat) % 2 == 0
}

/// The sign flag copies bit 7 of an 8-bit result.
pub open spec fn spec_sign8(r: u8) -> bool {
    ((r as u16) & 0x80) == 0x80
}

/// One arithmetic/logic result: the 8-bit value to store and the five flags
/// it defines.
pub ghost struct AluOut {
    pub r: u8,
    pub z: bool,
    pub s: bool,
    pub p: bool,
    pub cy: bool,
    pub ac: bool,
}

/// Zero, sign and parity are total functions of the truncated 8-bit result;
/// carry and auxiliary carry are supplied by the operation.
pub open spec fn zsp(r: u8, cy: bool, ac: bool) -> AluOut {
    AluOut { r, z: r == 0, s: spec_sign8(r), p: spec_parity(r as u16), cy, ac }
}

/// 8-bit addition with optional carry in, computed in a widened sum so carry
/// is bit 8 of the result before truncation; auxiliary carry is the carry
/// out of the low nibble.
pub open spec fn spec_add(a: u8, v: u8, cin: bool) -> AluOut {
    let c: int = if cin {
        1
    } else {
        0
    };
    let sum: int = a + v + c;
    zsp((sum % 256) as u8, sum > 255, a as int % 16 + v as int % 16 + c > 15)
}

/// 8-bit subtraction with optional borrow in; carry means borrow, i.e. the
/// subtrahend (plus borrow) exceeds the minuend.
pub open spec fn spec_sub(a: u8, v: u8, bin: bool) -> AluOut {
    let b: int = if bin {
        1
    } else {
        0
    };
    let diff: int = a - v - b;
    zsp(((diff + 256) % 256) as u8, (a as int) < v + b, a as int % 16 < v as int % 16 + b)
}

/// Bitwise AND always clears carry and auxiliary carry.
pub open spec fn spec_and(a: u8, v: u8) -> AluOut {
    zsp(a & v, false, false)
}

/// Bitwise XOR always clears carry and auxiliary carry.
pub open spec fn spec_xor(a: u8, v: u8) -> AluOut {
    zsp(a ^ v, false, false)
}

/// Bitwise OR always clears carry and auxiliary carry.
pub open spec fn spec_or(a: u8, v: u8) -> AluOut {
    zsp(a | v, false, false)
}

/// Compare: the flags of a subtraction, but the accumulator keeps its value.
pub open spec fn spec_cmp(a: u8, v: u8) -> AluOut {
    let d = spec_sub(a, v, false);
    AluOut { r: a, z: d.z, s: d.s, p: d.p, cy: d.cy, ac: d.ac }
}

/// Increment for INR: defines zero, sign, parity and auxiliary carry; the
/// carry field of the output is unused because INR never touches carry.
pub open spec fn spec_inr(x: u8) -> AluOut {
    let sum: int = x + 1;
    zsp((sum % 256) as u8, false, x as int % 16 + 1 > 15)
}

/// Decrement for DCR; as with INR, carry is never touched.
pub open spec fn spec_dcr(x: u8) -> AluOut {
    let diff: int = x - 1;
    zsp(((diff + 256) % 256) as u8, false, x as int % 16 < 1)
}

/// Store an ALU result in the accumulator and all five flags.
pub open spec fn acc_flags(m: Machine, out: AluOut) -> Machine {
    Machine { a: out.r, z: out.z, s: out.s, p: out.p, cy: out.cy, ac: out.ac, ..m }
}

/// Store only the flags that INR/DCR define, leaving carry alone.
pub open spec fn szp_only(m: Machine, out: AluOut) -> Machine {
    Machine { z: out.z, s: out.s, p: out.p, ac: out.ac, ..m }
}

// ---------------------------------------------------------------------------
// Register file and register pairs
// ---------------------------------------------------------------------------

/// The register selected by a 3-bit field of the opcode, in the order
/// B, C, D, E, H, L, (memory), A. Index 6 addresses memory through H:L and is
/// handled by the callers; here it is mapped to A only to stay total.
pub open spec fn get_r(m: Machine, idx: u8) -> u8 {
    if idx == 0 {
        m.b
    } else if idx == 1 {
        m.c
    } else if idx == 2 {
        m.d
    } else if idx == 3 {
        m.e
    } else if idx == 4 {
        m.h
    } else if idx == 5 {
        m.l
    } else {
        m.a
    }
}

/// The machine with the register selected by `idx` replaced.
pub open spec fn set_r(m: Machine, idx: u8, v: u8) -> Machine {
    if idx == 0 {
        Machine { b: v, ..m }
    } else if idx == 1 {
        Machine { c: v, ..m }
    } else if idx == 2 {
        Machine { d: v, ..m }
    } else if idx == 3 {
        Machine { e: v, ..m }
    } else if idx == 4 {
        Machine { h: v, ..m }
    } else if idx == 5 {
        Machine { l: v, ..m }
    } else {
        Machine { a: v, ..m }
    }
}

/// The register pair selected by a 2-bit field: B:C, D:E, H:L, SP.
pub open spec fn rp_get(m: Machine, rp: u8) -> u16 {
    if rp == 0 {
        bc(m)
    } else if rp == 1 {
        de(m)
    } else if rp == 2 {
        hl(m)
    } else {
        m.sp
    }
}

/// The machine with the selected register pair replaced; the high byte goes
/// into the first-named register.
pub open spec fn rp_set(m: Machine, rp: u8, x: u16) -> Machine {
    if rp == 0 {
        Machine { b: hi8(x), c: lo8(x), ..m }
    } else if rp == 1 {
        Machine { d: hi8(x), e: lo8(x), ..m }
    } else if rp == 2 {
        Machine { h: hi8(x), l: lo8(x), ..m }
    } else {
        Machine { sp: x, ..m }
    }
}

// ---------------------------------------------------------------------------
// Operand fetch and conditions
// ---------------------------------------------------------------------------

/// The one-byte immediate operand following the opcode.
pub open spec fn imm8_at(m: Machine) -> u8 {
    rd(m, wadd(m.pc, 1))
}

/// The two-byte operand following the opcode, stored low byte first.
pub open spec fn imm16_at(m: Machine) -> u16 {
    pair16(rd(m, wadd(m.pc, 2)), rd(m, wadd(m.pc, 1)))
}

pub open spec fn ops1_ok(m: Machine) -> bool {
    in_mem(m, wadd(m.pc, 1))
}

pub open spec fn ops2_ok(m: Machine) -> bool {
    in_mem(m, wadd(m.pc, 1)) && in_mem(m, wadd(m.pc, 2))
}

/// The first operand byte address that lies outside memory, when `ops2_ok`
/// fails.
pub open spec fn ops2_fail(m: Machine) -> u16 {
    if !in_mem(m, wadd(m.pc, 1)) {
        wadd(m.pc, 1)
    } else {
        wadd(m.pc, 2)
    }
}

/// The single condition flag a conditional transfer tests; unconditional
/// transfers always pass.
pub open spec fn cond(m: Machine, op: u8) -> bool {
    if op == 0xC0 || op == 0xC2 || op == 0xC4 {
        !m.z
    } else if op == 0xC8 || op == 0xCA || op == 0xCC {
        m.z
    } else if op == 0xD0 || op == 0xD2 || op == 0xD4 {
        !m.cy
    } else if op == 0xD8 {
        m.cy
    } else {
        true
    }
}

// ---------------------------------------------------------------------------
// Stack
// ---------------------------------------------------------------------------

/// Whether the two bytes below the stack pointer are inside memory.
pub open spec fn stack_ok(m: Machine) -> bool {
    in_mem(m, wsub(m.sp, 1)) && in_mem(m, wsub(m.sp, 2))
}

/// The first stack byte address outside memory, when `stack_ok` fails.
pub open spec fn stack_fail(m: Machine) -> u16 {
    if !in_mem(m, wsub(m.sp, 1)) {
        wsub(m.sp, 1)
    } else {
        wsub(m.sp, 2)
    }
}

/// The machine after pushing two bytes: the high byte lands just below the
/// old stack pointer, the low byte below it, and SP drops by two.
pub open spec fn pushed2(m: Machine, hi: u8, lo: u8) -> Machine {
    Machine {
        mem: m.mem.update(wsub(m.sp, 1) as int, hi).update(wsub(m.sp, 2) as int, lo),
        sp: wsub(m.sp, 2),
        ..m
    }
}

// ---------------------------------------------------------------------------
// Instruction families
// ---------------------------------------------------------------------------

/// MOV: copy between registers or between a register and memory at H:L.
/// The destination is bits 5..3 of the opcode, the source bits 2..0.
pub open spec fn mov_spec(m: Machine, op: u8) -> Step {
    let dst = (op / 8) % 8;
    let src = op % 8;
    if src == 6 {
        if !in_mem(m, hl(m)) {
            Step::OutOfBounds { addr: hl(m) }
        } else {
            Step::Next(adv(set_r(m, dst, rd(m, hl(m))), 1))
        }
    } else if dst == 6 {
        if !in_mem(m, hl(m)) {
            Step::OutOfBounds { addr: hl(m) }
        } else {
            Step::Next(adv(wr(m, hl(m), get_r(m, src)), 1))
        }
    } else {
        Step::Next(adv(set_r(m, dst, get_r(m, src)), 1))
    }
}

/// The ALU operation selected by bits 5..3 of an opcode in the ALU block:
/// ADD, ADC, SUB, SBB, ANA, XRA, ORA, CMP.
pub open spec fn alu_out(fam: u8, a: u8, v: u8, cy: bool) -> AluOut {
    if fam == 0 {
        spec_add(a, v, false)
    } else if fam == 1 {
        spec_add(a, v, cy)
    } else if fam == 2 {
        spec_sub(a, v, false)
    } else if fam == 3 {
        spec_sub(a, v, cy)
    } else if fam == 4 {
        spec_and(a, v)
    } else if fam == 5 {
        spec_xor(a, v)
    } else if fam == 6 {
        spec_or(a, v)
    } else {
        spec_cmp(a, v)
    }
}

/// Register/memory ALU block (opcodes 0x80 through 0xBF).
pub open spec fn alu_spec(m: Machine, op: u8) -> Step {
    let src = op % 8;
    if src == 6 && !in_mem(m, hl(m)) {
        Step::OutOfBounds { addr: hl(m) }
    } else {
        let v = if src == 6 {
            rd(m, hl(m))
        } else {
            get_r(m, src)
        };
        Step::Next(adv(acc_flags(m, alu_out((op / 8) % 8, m.a, v, m.cy)), 1))
    }
}

/// ADI, ACI and SUI: the ALU applied to the immediate operand byte.
pub open spec fn alu_imm_spec(m: Machine, op: u8) -> Step {
    if !ops1_ok(m) {
        Step::OutOfBounds { addr: wadd(m.pc, 1) }
    } else {
        let v = imm8_at(m);
        let out = if op == 0xC6 {
            spec_add(m.a, v, false)
        } else if op == 0xCE {
            spec_add(m.a, v, m.cy)
        } else {
            spec_sub(m.a, v, false)
        };
        Step::Next(adv(acc_flags(m, out), 2))
    }
}

/// INR and DCR on a register or on memory at H:L; carry is never touched.
pub open spec fn inrdcr_spec(m: Machine, op: u8, inc: bool) -> Step {
    let idx = (op / 8) % 8;
    if idx == 6 {
        if !in_mem(m, hl(m)) {
            Step::OutOfBounds { addr: hl(m) }
        } else {
            let out = if inc {
                spec_inr(rd(m, hl(m)))
            } else {
                spec_dcr(rd(m, hl(m)))
            };
            Step::Next(adv(szp_only(wr(m, hl(m), out.r), out), 1))
        }
    } else {
        let out = if inc {
            spec_inr(get_r(m, idx))
        } else {
            spec_dcr(get_r(m, idx))
        };
        Step::Next(adv(szp_only(set_r(m, idx, out.r), out), 1))
    }
}

/// MVI: load the immediate byte into a register or into memory at H:L.
pub open spec fn mvi_spec(m: Machine, op: u8) -> Step {
    if !ops1_ok(m) {
        Step::OutOfBounds { addr: wadd(m.pc, 1) }
    } else {
        let idx = (op / 8) % 8;
        let v = imm8_at(m);
        if idx == 6 {
            if !in_mem(m, hl(m)) {
                Step::OutOfBounds { addr: hl(m) }
            } else {
                Step::Next(adv(wr(m, hl(m), v), 2))
            }
        } else {
            Step::Next(adv(set_r(m, idx, v), 2))
        }
    }
}

/// LXI: load the two-byte immediate into a register pair.
pub open spec fn lxi_spec(m: Machine, op: u8) -> Step {
    if !ops2_ok(m) {
        Step::OutOfBounds { addr: ops2_fail(m) }
    } else {
        Step::Next(adv(rp_set(m, (op / 16) % 4, imm16_at(m)), 3))
    }
}

/// INX: 16-bit increment of a register pair; no flags.
pub open spec fn inx_spec(m: Machine, op: u8) -> Step {
    let rp = (op / 16) % 4;
    Step::Next(adv(rp_set(m, rp, wadd(rp_get(m, rp), 1)), 1))
}

/// DCX: 16-bit decrement of a register pair; no flags.
pub open spec fn dcx_spec(m: Machine, op: u8) -> Step {
    let rp = (op / 16) % 4;
    Step::Next(adv(rp_set(m, rp, wsub(rp_get(m, rp), 1)), 1))
}

/// DAD: 16-bit add of a register pair into H:L; carry is bit 16 of the
/// widened sum and is the only flag touched.
pub open spec fn dad_spec(m: Machine, op: u8) -> Step {
    let sum: int = hl(m) + rp_get(m, (op / 16) % 4);
    let x = (sum % 0x10000) as u16;
    Step::Next(adv(Machine { h: hi8(x), l: lo8(x), cy: sum > 0xFFFF, ..m }, 1))
}

/// STAX: store the accumulator at the address in B:C or D:E.
pub open spec fn stax_spec(m: Machine, op: u8) -> Step {
    let addr = if (op / 16) % 2 == 0 {
        bc(m)
    } else {
        de(m)
    };
    if !in_mem(m, addr) {
        Step::OutOfBounds { addr }
    } else {
        Step::Next(adv(wr(m, addr, m.a), 1))
    }
}

/// LDAX: load the accumulator from the address in B:C or D:E.
pub open spec fn ldax_spec(m: Machine, op: u8) -> Step {
    let addr = if (op / 16) % 2 == 0 {
        bc(m)
    } else {
        de(m)
    };
    if !in_mem(m, addr) {
        Step::OutOfBounds { addr }
    } else {
        Step::Next(adv(Machine { a: rd(m, addr), ..m }, 1))
    }
}

/// The four rotates. RLC/RRC rotate the accumulator through its own vacated
/// bit; RAL/RAR rotate through the carry flag (a 9-bit rotate). Carry always
/// receives the bit rotated out; no other flag is touched.
pub open spec fn rot_spec(m: Machine, op: u8) -> Step {
    let a = m.a;
    let cin: int = if m.cy {
        1
    } else {
        0
    };
    let m2 = if op == 0x07 {
        Machine { a: ((a as int % 128) * 2 + a as int / 128) as u8, cy: a >= 0x80, ..m }
    } else if op == 0x0F {
        Machine { a: (a as int / 2 + (a as int % 2) * 128) as u8, cy: a as int % 2 == 1, ..m }
    } else if op == 0x17 {
        Machine { a: ((a as int % 128) * 2 + cin) as u8, cy: a >= 0x80, ..m }
    } else {
        Machine { a: (a as int / 2 + cin * 128) as u8, cy: a as int % 2 == 1, ..m }
    };
    Step::Next(adv(m2, 1))
}

/// SHLD: store L then H at the direct address and the byte above it.
pub open spec fn shld_spec(m: Machine) -> Step {
    if !ops2_ok(m) {
        Step::OutOfBounds { addr: ops2_fail(m) }
    } else {
        let t = imm16_at(m);
        if !in_mem(m, t) {
            Step::OutOfBounds { addr: t }
        } else if !in_mem(m, wadd(t, 1)) {
            Step::OutOfBounds { addr: wadd(t, 1) }
        } else {
            Step::Next(adv(wr(wr(m, t, m.l), wadd(t, 1), m.h), 3))
        }
    }
}

/// LHLD: load L then H from the direct address and the byte above it.
pub open spec fn lhld_spec(m: Machine) -> Step {
    if !ops2_ok(m) {
        Step::OutOfBounds { addr: ops2_fail(m) }
    } else {
        let t = imm16_at(m);
        if !in_mem(m, t) {
            Step::OutOfBounds { addr: t }
        } else if !in_mem(m, wadd(t, 1)) {
            Step::OutOfBounds { addr: wadd(t, 1) }
        } else {
            Step::Next(adv(Machine { l: rd(m, t), h: rd(m, wadd(t, 1)), ..m }, 3))
        }
    }
}

/// STA: store the accumulator at the direct address.
pub open spec fn sta_spec(m: Machine) -> Step {
    if !ops2_ok(m) {
        Step::OutOfBounds { addr: ops2_fail(m) }
    } else {
        let t = imm16_at(m);
        if !in_mem(m, t) {
            Step::OutOfBounds { addr: t }
        } else {
            Step::Next(adv(wr(m, t, m.a), 3))
        }
    }
}

/// LDA: load the accumulator from the direct address.
pub open spec fn lda_spec(m: Machine) -> Step {
    if !ops2_ok(m) {
        Step::OutOfBounds { addr: ops2_fail(m) }
    } else {
        let t = imm16_at(m);
        if !in_mem(m, t) {
            Step::OutOfBounds { addr: t }
        } else {
            Step::Next(adv(Machine { a: rd(m, t), ..m }, 3))
        }
    }
}

/// JMP and the conditional jumps: jump to the operand address when the
/// condition passes, otherwise fall through past the three instruction bytes.
pub open spec fn jmp_spec(m: Machine, op: u8) -> Step {
    if !ops2_ok(m) {
        Step::OutOfBounds { addr: ops2_fail(m) }
    } else if cond(m, op) {
        Step::Next(Machine { pc: imm16_at(m), ..m })
    } else {
        Step::Next(adv(m, 3))
    }
}

/// CALL and the conditional calls: push the address of the next instruction,
/// then jump; on a failed condition fall through.
pub open spec fn call_spec(m: Machine, op: u8) -> Step {
    if !ops2_ok(m) {
        Step::OutOfBounds { addr: ops2_fail(m) }
    } else if cond(m, op) {
        if !stack_ok(m) {
            Step::OutOfBounds { addr: stack_fail(m) }
        } else {
            let ret = wadd(m.pc, 3);
            Step::Next(Machine { pc: imm16_at(m), ..pushed2(m, hi8(ret), lo8(ret)) })
        }
    } else {
        Step::Next(adv(m, 3))
    }
}

/// RET and the conditional returns: pop the return address into the program
/// counter; on a failed condition fall through past the one-byte instruction.
pub open spec fn ret_spec(m: Machine, op: u8) -> Step {
    if cond(m, op) {
        if !in_mem(m, m.sp) {
            Step::OutOfBounds { addr: m.sp }
        } else if !in_mem(m, wadd(m.sp, 1)) {
            Step::OutOfBounds { addr: wadd(m.sp, 1) }
        } else {
            Step::Next(Machine { pc: pair16(rd(m, wadd(m.sp, 1)), rd(m, m.sp)), sp: wadd(m.sp, 2), ..m })
        }
    } else {
        Step::Next(adv(m, 1))
    }
}

/// RST: a fixed-target call; the target is eight times the restart number
/// encoded in the opcode, and the pushed return address is the next byte.
pub open spec fn rst_spec(m: Machine, op: u8) -> Step {
    if !stack_ok(m) {
        Step::OutOfBounds { addr: stack_fail(m) }
    } else {
        let ret = wadd(m.pc, 1);
        Step::Next(Machine { pc: wsub(op as u16, 0xC7), ..pushed2(m, hi8(ret), lo8(ret)) })
    }
}

/// PUSH of B:C or D:E.
pub open spec fn push_spec(m: Machine, op: u8) -> Step {
    if !stack_ok(m) {
        Step::OutOfBounds { addr: stack_fail(m) }
    } else if op == 0xC5 {
        Step::Next(adv(pushed2(m, m.b, m.c), 1))
    } else {
        Step::Next(adv(pushed2(m, m.d, m.e), 1))
    }
}

/// POP into B:C or D:E: the low byte comes from the stack pointer's address,
/// the high byte from the one above; SP rises by two.
pub open spec fn pop_spec(m: Machine, op: u8) -> Step {
    if !in_mem(m, m.sp) {
        Step::OutOfBounds { addr: m.sp }
    } else if !in_mem(m, wadd(m.sp, 1)) {
        Step::OutOfBounds { addr: wadd(m.sp, 1) }
    } else {
        let lo = rd(m, m.sp);
        let hi = rd(m, wadd(m.sp, 1));
        let m2 = if op == 0xC1 {
            Machine { b: hi, c: lo, ..m }
        } else {
            Machine { d: hi, e: lo, ..m }
        };
        Step::Next(adv(Machine { sp: wadd(m.sp, 2), ..m2 }, 1))
    }
}

// ---------------------------------------------------------------------------
// The step function
// ---------------------------------------------------------------------------

/// Whether an opcode byte has a defined mapping in the engine. The engine
/// decodes the range up to 0xD9 except DAA and OUT; everything above it is
/// undefined and must fault rather than execute.
pub open spec fn decodable(op: u8) -> bool {
    op <= 0xD9 && op != 0x27 && op != 0xD3
}

/// Whether an opcode is a control transfer: a jump, call, return or restart,
/// conditional or not. These are the instructions that may rewrite the
/// program counter instead of stepping past their own bytes.
pub open spec fn is_control(op: u8) -> bool {
    op == 0xC0 || op == 0xC2 || op == 0xC3 || op == 0xC4 || op == 0xC7 || op == 0xC8 || op == 0xC9
        || op == 0xCA || op == 0xCB || op == 0xCC || op == 0xCD || op == 0xCF || op == 0xD0 || op
        == 0xD2 || op == 0xD4 || op == 0xD7 || op == 0xD8 || op == 0xD9
}

/// One step of the machine: decode the opcode at the program counter and
/// apply its effect. Every memory access is bounds-checked in the order the
/// engine performs it, so the faulting address is pinned down exactly.
pub open spec fn step_spec(m: Machine) -> Step {
    if !in_mem(m, m.pc) {
        Step::OutOfBounds { addr: m.pc }
    } else {
        let op = rd(m, m.pc);
        if op == 0x76 {
            Step::Halt
        } else if 0x40 <= op && op <= 0x7F {
            mov_spec(m, op)
        } else if 0x80 <= op && op <= 0xBF {
            alu_spec(m, op)
        } else if op == 0x00 || op == 0x08 || op == 0x10 || op == 0x18 || op == 0x20 || op == 0x28
            || op == 0x30 || op == 0x38 {
            Step::Next(adv(m, 1))
        } else if op == 0x01 || op == 0x11 || op == 0x21 || op == 0x31 {
            lxi_spec(m, op)
        } else if op == 0x02 || op == 0x12 {
            stax_spec(m, op)
        } else if op == 0x0A || op == 0x1A {
            ldax_spec(m, op)
        } else if op == 0x03 || op == 0x13 || op == 0x23 || op == 0x33 {
            inx_spec(m, op)
        } else if op == 0x0B || op == 0x1B || op == 0x2B || op == 0x3B {
            dcx_spec(m, op)
        } else if op == 0x04 || op == 0x0C || op == 0x14 || op == 0x1C || op == 0x24 || op == 0x2C
            || op == 0x34 || op == 0x3C {
            inrdcr_spec(m, op, true)
        } else if op == 0x05 || op == 0x0D || op == 0x15 || op == 0x1D || op == 0x25 || op == 0x2D
            || op == 0x35 || op == 0x3D {
            inrdcr_spec(m, op, false)
        } else if op == 0x06 || op == 0x0E || op == 0x16 || op == 0x1E || op == 0x26 || op == 0x2E
            || op == 0x36 || op == 0x3E {
            mvi_spec(m, op)
        } else if op == 0x09 || op == 0x19 || op == 0x29 || op == 0x39 {
            dad_spec(m, op)
        } else if op == 0x07 || op == 0x0F || op == 0x17 || op == 0x1F {
            rot_spec(m, op)
        } else if op == 0x22 {
            shld_spec(m)
        } else if op == 0x2A {
            lhld_spec(m)
        } else if op == 0x32 {
            sta_spec(m)
        } else if op == 0x3A {
            lda_spec(m)
        } else if op == 0x2F {
            Step::Next(adv(Machine { a: (255 - m.a as int) as u8, ..m }, 1))
        } else if op == 0x37 {
            Step::Next(adv(Machine { cy: true, ..m }, 1))
        } else if op == 0x3F {
            Step::Next(adv(Machine { cy: !m.cy, ..m }, 1))
        } else if op == 0xC3 || op == 0xCB || op == 0xC2 || op == 0xCA || op == 0xD2 {
            jmp_spec(m, op)
        } else if op == 0xCD || op == 0xC4 || op == 0xCC || op == 0xD4 {
            call_spec(m, op)
        } else if op == 0xC9 || op == 0xD9 || op == 0xC0 || op == 0xC8 || op == 0xD0 || op == 0xD8 {
            ret_spec(m, op)
        } else if op == 0xC7 || op == 0xCF || op == 0xD7 {
            rst_spec(m, op)
        } else if op == 0xC1 || op == 0xD1 {
            pop_spec(m, op)
        } else if op == 0xC5 || op == 0xD5 {
            push_spec(m, op)
        } else if op == 0xC6 || op == 0xCE || op == 0xD6 {
            alu_imm_spec(m, op)
        } else {
            Step::Undecodable { addr: m.pc, opcode: op }
        }
    }
}

// ---------------------------------------------------------------------------
// Multi-step runs
// ---------------------------------------------------------------------------

/// Where a run stands after a number of steps: still going, halted, or
/// stopped by a fault; the carried machine is the state at that point (for a
/// halt or a fault, the state the faulting step started from, unchanged).
pub ghost enum Run {
    More(Machine),
    Done(Machine),
    Fail(Machine),
}

/// The state of a run after at most `n` steps from `m`: step `n` times, but
/// stop at a halt or fault.
pub open spec fn run_n(m: Machine, n: nat) -> Run
    decreases n,
{
    if n == 0 {
        Run::More(m)
    } else {
        match run_n(m, (n - 1) as nat) {
            Run::More(m2) => match step_spec(m2) {
                Step::Next(m3) => Run::More(m3),
                Step::Halt => Run::Done(m2),
                Step::Undecodable { .. } => Run::Fail(m2),
                Step::OutOfBounds { .. } => Run::Fail(m2),
            },
            r => r,
        }
    }
}

} // verus!
