//! The disassembler: a pure read-and-format pass over the instruction
//! memory. Each line carries a four-digit uppercase hexadecimal address
//! label, the mnemonic text from the shared opcode table, and the operand
//! bytes rendered in the instruction's format (a one-byte immediate as two
//! hex digits, a two-byte little-endian word reassembled high byte first).
//! The reported length of every instruction comes from the same
//! `instr_len` table the engine's model advances by.

use vstd::prelude::*;

verus! {

use crate::optable::OperandKind;
use crate::optable::instr_len;
use crate::optable::op_info;
use crate::optable::operand_kind;
use crate::optable::spec_mnemonic;
use vstd::string::StringExecFns;

/// Reading an instruction's bytes ran past the end of the buffer; `addr` is
/// the first byte offset that lies outside it.
#[derive(Debug)]
pub struct DisasmError {
    pub addr: usize,
}

// ---------------------------------------------------------------------------
// Hexadecimal rendering
// ---------------------------------------------------------------------------

/// One uppercase hexadecimal digit.
pub open spec fn nib_u(n: int) -> Seq<char> {
    if n == 0 {
        "0"@
    } else if n == 1 {
        "1"@
    } else if n == 2 {
        "2"@
    } else if n == 3 {
        "3"@
    } else if n == 4 {
        "4"@
    } else if n == 5 {
        "5"@
    } else if n == 6 {
        "6"@
    } else if n == 7 {
        "7"@
    } else if n == 8 {
        "8"@
    } else if n == 9 {
        "9"@
    } else if n == 10 {
        "A"@
    } else if n == 11 {
        "B"@
    } else if n == 12 {
        "C"@
    } else if n == 13 {
        "D"@
    } else if n == 14 {
        "E"@
    } else {
        "F"@
    }
}

/// One lowercase hexadecimal digit.
pub open spec fn nib_l(n: int) -> Seq<char> {
    if n == 0 {
        "0"@
    } else if n == 1 {
        "1"@
    } else if n == 2 {
        "2"@
    } else if n == 3 {
        "3"@
    } else if n == 4 {
        "4"@
    } else if n == 5 {
        "5"@
    } else if n == 6 {
        "6"@
    } else if n == 7 {
        "7"@
    } else if n == 8 {
        "8"@
    } else if n == 9 {
        "9"@
    } else if n == 10 {
        "a"@
    } else if n == 11 {
        "b"@
    } else if n == 12 {
        "c"@
    } else if n == 13 {
        "d"@
    } else if n == 14 {
        "e"@
    } else {
        "f"@
    }
}

/// A byte as exactly two lowercase hex digits.
pub open spec fn spec_hex2(b: u8) -> Seq<char> {
    nib_l(b as int / 16) + nib_l(b as int % 16)
}

/// A number in uppercase hex with no leading zeroes (one digit minimum).
pub open spec fn spec_hex_digits(n: nat) -> Seq<char>
    decreases n,
{
    if n < 16 {
        nib_u(n as int)
    } else {
        spec_hex_digits(n / 16) + nib_u((n % 16) as int)
    }
}

/// The address label: four uppercase hex digits, zero padded; an offset
/// beyond the 16-bit range keeps all its digits.
pub open spec fn spec_addr4(pos: nat) -> Seq<char> {
    if pos < 0x10000 {
        nib_u((pos / 4096) as int) + nib_u(((pos / 256) % 16) as int) + nib_u(
            ((pos / 16) % 16) as int,
        ) + nib_u((pos % 16) as int)
    } else {
        spec_hex_digits(pos)
    }
}

fn push_nib_u(text: &mut String, n: u8)
    requires
        n < 16,
    ensures
        final(text)@ == old(text)@ + nib_u(n as int),
{
    if n == 0 {
        text.append("0");
    } else if n == 1 {
        text.append("1");
    } else if n == 2 {
        text.append("2");
    } else if n == 3 {
        text.append("3");
    } else if n == 4 {
        text.append("4");
    } else if n == 5 {
        text.append("5");
    } else if n == 6 {
        text.append("6");
    } else if n == 7 {
        text.append("7");
    } else if n == 8 {
        text.append("8");
    } else if n == 9 {
        text.append("9");
    } else if n == 10 {
        text.append("A");
    } else if n == 11 {
        text.append("B");
    } else if n == 12 {
        text.append("C");
    } else if n == 13 {
        text.append("D");
    } else if n == 14 {
        text.append("E");
    } else {
        text.append("F");
    }
}

fn push_nib_l(text: &mut String, n: u8)
    requires
        n < 16,
    ensures
        final(text)@ == old(text)@ + nib_l(n as int),
{
    if n == 0 {
        text.append("0");
    } else if n == 1 {
        text.append("1");
    } else if n == 2 {
        text.append("2");
    } else if n == 3 {
        text.append("3");
    } else if n == 4 {
        text.append("4");
    } else if n == 5 {
        text.append("5");
    } else if n == 6 {
        text.append("6");
    } else if n == 7 {
        text.append("7");
    } else if n == 8 {
        text.append("8");
    } else if n == 9 {
        text.append("9");
    } else if n == 10 {
        text.append("a");
    } else if n == 11 {
        text.append("b");
    } else if n == 12 {
        text.append("c");
    } else if n == 13 {
        text.append("d");
    } else if n == 14 {
        text.append("e");
    } else {
        text.append("f");
    }
}

fn push_hex2(text: &mut String, b: u8)
    ensures
        final(text)@ == old(text)@ + spec_hex2(b),
{
    push_nib_l(text, b / 16);
    push_nib_l(text, b % 16);
    assert(text@ =~= old(text)@ + spec_hex2(b));
}

fn push_hex_digits(text: &mut String, n: usize)
    ensures
        final(text)@ == old(text)@ + spec_hex_digits(n as nat),
    decreases n,
{
    if n < 16 {
        push_nib_u(text, n as u8);
    } else {
        push_hex_digits(text, n / 16);
        push_nib_u(text, (n % 16) as u8);
        assert(text@ =~= old(text)@ + spec_hex_digits(n as nat));
    }
}

fn push_addr4(text: &mut String, pos: usize)
    ensures
        final(text)@ == old(text)@ + spec_addr4(pos as nat),
{
    if pos < 0x10000 {
        push_nib_u(text, (pos / 4096) as u8);
        push_nib_u(text, ((pos / 256) % 16) as u8);
        push_nib_u(text, ((pos / 16) % 16) as u8);
        push_nib_u(text, (pos % 16) as u8);
        assert(text@ =~= old(text)@ + spec_addr4(pos as nat));
    } else {
        push_hex_digits(text, pos);
    }
}

// ---------------------------------------------------------------------------
// Line rendering
// ---------------------------------------------------------------------------

/// The rendered operand bytes of the instruction at `pos`: nothing, one
/// immediate byte, or the two bytes of a little-endian word shown high byte
/// first.
pub open spec fn spec_operand_text(code: Seq<u8>, pos: int) -> Seq<char> {
    match operand_kind(code[pos]) {
        OperandKind::Solo => Seq::empty(),
        OperandKind::Imm8 => spec_hex2(code[pos + 1]),
        OperandKind::Imm16 => spec_hex2(code[pos + 2]) + spec_hex2(code[pos + 1]),
    }
}

/// One full disassembled line: address label, three spaces of separation,
/// mnemonic text, rendered operands, and a newline.
pub open spec fn spec_line(code: Seq<u8>, pos: int) -> Seq<char> {
    spec_addr4(pos as nat) + "   "@ + spec_mnemonic(code[pos]) + spec_operand_text(code, pos)
        + "\n"@
}

/// The best-effort diagnostic text for the instruction at `pos`: its full
/// line when all its bytes are in the buffer, empty otherwise.
pub open spec fn spec_decode_text(code: Seq<u8>, pos: int) -> Seq<char> {
    if 0 <= pos < code.len() && pos + instr_len(code[pos]) <= code.len() {
        spec_line(code, pos)
    } else {
        Seq::empty()
    }
}

/// Append the disassembly of the single instruction at `pos` to `text` and
/// return the instruction's byte length. Purely a read-and-format step: the
/// caller advances its own cursor by the returned length. When any byte of
/// the instruction lies past the end of the buffer nothing is appended and
/// the first missing offset is reported.
pub fn disasm_single(text: &mut String, code: &[u8], pos: usize) -> (r: Result<usize, DisasmError>)
    ensures
        match r {
            Ok(len) => {
                &&& (pos as int) < code@.len()
                &&& len as int == instr_len(code@[pos as int]) as int
                &&& pos + len <= code@.len()
                &&& final(text)@ == old(text)@ + spec_line(code@, pos as int)
            },
            Err(e) => {
                &&& final(text)@ == old(text)@
                &&& ((pos as int) < code@.len() ==> {
                    &&& pos + instr_len(code@[pos as int]) > code@.len()
                    &&& e.addr as int == code@.len()
                })
                &&& ((pos as int) >= code@.len() ==> e.addr == pos)
            },
        },
{
    if !(pos < code.len()) {
        return Err(DisasmError { addr: pos });
    }
    let (txt, kind) = op_info(code[pos]);
    let len: usize = match kind {
        OperandKind::Solo => 1,
        OperandKind::Imm8 => 2,
        OperandKind::Imm16 => 3,
    };
    if code.len() - pos < len {
        return Err(DisasmError { addr: code.len() });
    }
    push_addr4(text, pos);
    text.append("   ");
    text.append(txt);
    match kind {
        OperandKind::Solo => {},
        OperandKind::Imm8 => {
            push_hex2(text, code[pos + 1]);
        },
        OperandKind::Imm16 => {
            push_hex2(text, code[pos + 2]);
            push_hex2(text, code[pos + 1]);
        },
    }
    text.append("\n");
    assert(text@ =~= old(text)@ + spec_line(code@, pos as int));
    Ok(len)
}

// ---------------------------------------------------------------------------
// Whole-buffer listing
// ---------------------------------------------------------------------------

/// The listing from `pos` to the end of the buffer: the concatenation of one
/// line per instruction, advancing by each instruction's length; or, when an
/// instruction's bytes run past the end, the first missing byte offset.
pub open spec fn spec_listing(code: Seq<u8>, pos: int) -> Result<Seq<char>, int>
    decreases code.len() - pos,
{
    if pos < 0 || pos >= code.len() {
        Ok(Seq::empty())
    } else if pos + instr_len(code[pos]) <= code.len() {
        match spec_listing(code, pos + instr_len(code[pos])) {
            Ok(rest) => Ok(spec_line(code, pos) + rest),
            Err(x) => Err(x),
        }
    } else {
        Err(code.len() as int)
    }
}

/// Disassemble the whole buffer from offset zero, one line per instruction.
pub fn disasm(file_contents: &[u8]) -> (r: Result<String, DisasmError>)
    ensures
        match r {
            Ok(s) => spec_listing(file_contents@, 0) == Ok::<Seq<char>, int>(s@),
            Err(e) => spec_listing(file_contents@, 0) == Err::<Seq<char>, int>(e.addr as int),
        },
{
    let mut text = String::new();
    let mut pos: usize = 0;
    while pos < file_contents.len()
        invariant
            pos <= file_contents@.len(),
            match spec_listing(file_contents@, pos as int) {
                Ok(rest) => spec_listing(file_contents@, 0) == Ok::<Seq<char>, int>(text@ + rest),
                Err(x) => spec_listing(file_contents@, 0) == Err::<Seq<char>, int>(x),
            },
        decreases file_contents@.len() - pos,
    {
        let ghost prev = text@;
        match disasm_single(&mut text, file_contents, pos) {
            Ok(len) => {
                proof {
                    match spec_listing(file_contents@, pos + len) {
                        Ok(rest2) => {
                            assert(prev + (spec_line(file_contents@, pos as int) + rest2) =~= text@
                                + rest2);
                        },
                        Err(_) => {},
                    }
                }
                pos = pos + len;
            },
            Err(e) => {
                return Err(e);
            },
        }
    }
    assert(text@ + Seq::<char>::empty() =~= text@);
    Ok(text)
}

} // verus!
