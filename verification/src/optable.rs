use vstd::prelude::*;

verus! {

/// How many operand bytes follow an opcode, and hence how an instruction is
/// rendered: none, one immediate byte, or a two-byte little-endian word.
#[derive(Clone, Copy, PartialEq, Eq, Structural)]
pub enum OperandKind {
    Solo,
    Imm8,
    Imm16,
}

/// The operand shape of each of the 256 opcode values.
pub open spec fn operand_kind(op: u8) -> OperandKind {
    if op == 0x01 || op == 0x11 || op == 0x21 || op == 0x22 || op == 0x2A || op == 0x31 || op == 0x32 || op == 0x3A || op == 0xC2 || op == 0xC3 || op == 0xC4 || op == 0xCA || op == 0xCB || op == 0xCC || op == 0xCD || op == 0xD2 || op == 0xD4 || op == 0xDA || op == 0xDC || op == 0xDD || op == 0xE2 || op == 0xE4 || op == 0xEA || op == 0xEC || op == 0xED || op == 0xF2 || op == 0xF4 || op == 0xFA || op == 0xFC || op == 0xFD {
        OperandKind::Imm16
    } else if op == 0x06 || op == 0x0E || op == 0x16 || op == 0x1E || op == 0x26 || op == 0x2E || op == 0x36 || op == 0x3E || op == 0xC6 || op == 0xCE || op == 0xD3 || op == 0xD6 || op == 0xDB || op == 0xDE || op == 0xE6 || op == 0xEE || op == 0xF6 || op == 0xFE {
        OperandKind::Imm8
    } else {
        OperandKind::Solo
    }
}

/// Total length in bytes of the instruction starting with `op`: the opcode
/// byte plus its operand bytes. Shared by the disassembler and the engine.
pub open spec fn instr_len(op: u8) -> u16 {
    match operand_kind(op) {
        OperandKind::Solo => 1,
        OperandKind::Imm8 => 2,
        OperandKind::Imm16 => 3,
    }
}

/// The text of an instruction line up to (not including) its rendered
/// operand bytes: mnemonic, column padding, register names and the `#$`/`$`
/// operand markers.
pub open spec fn spec_mnemonic(op: u8) -> Seq<char> {
    if op == 0x00 {
        "NOP"@
    } else if op == 0x01 {
        "LXI     B,#$"@
    } else if op == 0x02 {
        "STAX    B"@
    } else if op == 0x03 {
        "INX     B"@
    } else if op == 0x04 {
        "INR     B"@
    } else if op == 0x05 {
        "DCR     B"@
    } else if op == 0x06 {
        "MVI     B,#$"@
    } else if op == 0x07 {
        "RLC"@
    } else if op == 0x08 {
        "NOP"@
    } else if op == 0x09 {
        "DAD     B"@
    } else if op == 0x0A {
        "LDAX    B"@
    } else if op == 0x0B {
        "DCX     B"@
    } else if op == 0x0C {
        "INR     C"@
    } else if op == 0x0D {
        "DCR     C"@
    } else if op == 0x0E {
        "MVI     C,#$"@
    } else if op == 0x0F {
        "RRC"@
    } else if op == 0x10 {
        "NOP"@
    } else if op == 0x11 {
        "LXI     D,#$"@
    } else if op == 0x12 {
        "STAX    D"@
    } else if op == 0x13 {
        "INX     D"@
    } else if op == 0x14 {
        "INR     D"@
    } else if op == 0x15 {
        "DCR     D"@
    } else if op == 0x16 {
        "MVI     D,#$"@
    } else if op == 0x17 {
        "RAL"@
    } else if op == 0x18 {
        "NOP"@
    } else if op == 0x19 {
        "DAD     D"@
    } else if op == 0x1A {
        "LDAX    D"@
    } else if op == 0x1B {
        "DCX     D"@
    } else if op == 0x1C {
        "INR     E"@
    } else if op == 0x1D {
        "DCR     E"@
    } else if op == 0x1E {
        "MVI     E,#$"@
    } else if op == 0x1F {
        "RAR"@
    } else if op == 0x20 {
        "NOP"@
    } else if op == 0x21 {
        "LXI     H,#$"@
    } else if op == 0x22 {
        "SHLD    $"@
    } else if op == 0x23 {
        "INX     H"@
    } else if op == 0x24 {
        "INR     H"@
    } else if op == 0x25 {
        "DCR     H"@
    } else if op == 0x26 {
        "MVI     H,#$"@
    } else if op == 0x27 {
        "DAA"@
    } else if op == 0x28 {
        "NOP"@
    } else if op == 0x29 {
        "DAD     H"@
    } else if op == 0x2A {
        "LDHD    $"@
    } else if op == 0x2B {
        "DCX     H"@
    } else if op == 0x2C {
        "INR     L"@
    } else if op == 0x2D {
        "DCR     L"@
    } else if op == 0x2E {
        "MVI     L,#$"@
    } else if op == 0x2F {
        "CMA"@
    } else if op == 0x30 {
        "NOP"@
    } else if op == 0x31 {
        "LXI     SP,#$"@
    } else if op == 0x32 {
        "STA     $"@
    } else if op == 0x33 {
        "INX     SP"@
    } else if op == 0x34 {
        "INR     M"@
    } else if op == 0x35 {
        "DCR     M"@
    } else if op == 0x36 {
        "MVI     M,#$"@
    } else if op == 0x37 {
        "STC"@
    } else if op == 0x38 {
        "NOP"@
    } else if op == 0x39 {
        "DAD     SP"@
    } else if op == 0x3A {
        "LDA     $"@
    } else if op == 0x3B {
        "DCX     SP"@
    } else if op == 0x3C {
        "INR     A"@
    } else if op == 0x3D {
        "DCR     A"@
    } else if op == 0x3E {
        "MVI     A,#$"@
    } else if op == 0x3F {
        "CMC"@
    } else if op == 0x40 {
        "MOV     B,B"@
    } else if op == 0x41 {
        "MOV     B,C"@
    } else if op == 0x42 {
        "MOV     B,D"@
    } else if op == 0x43 {
        "MOV     B,E"@
    } else if op == 0x44 {
        "MOV     B,H"@
    } else if op == 0x45 {
        "MOV     B,L"@
    } else if op == 0x46 {
        "MOV     B,M"@
    } else if op == 0x47 {
        "MOV     B,A"@
    } else if op == 0x48 {
        "MOV     C,B"@
    } else if op == 0x49 {
        "MOV     C,C"@
    } else if op == 0x4A {
        "MOV     C,D"@
    } else if op == 0x4B {
        "MOV     C,E"@
    } else if op == 0x4C {
        "MOV     C,H"@
    } else if op == 0x4D {
        "MOV     C,L"@
    } else if op == 0x4E {
        "MOV     C,M"@
    } else if op == 0x4F {
        "MOV     C,A"@
    } else if op == 0x50 {
        "MOV     D,B"@
    } else if op == 0x51 {
        "MOV     D,C"@
    } else if op == 0x52 {
        "MOV     D,D"@
    } else if op == 0x53 {
        "MOV     D,E"@
    } else if op == 0x54 {
        "MOV     D,H"@
    } else if op == 0x55 {
        "MOV     D,L"@
    } else if op == 0x56 {
        "MOV     D,M"@
    } else if op == 0x57 {
        "MOV     D,A"@
    } else if op == 0x58 {
        "MOV     E,B"@
    } else if op == 0x59 {
        "MOV     E,C"@
    } else if op == 0x5A {
        "MOV     E,D"@
    } else if op == 0x5B {
        "MOV     E,E"@
    } else if op == 0x5C {
        "MOV     E,H"@
    } else if op == 0x5D {
        "MOV     E,L"@
    } else if op == 0x5E {
        "MOV     E,M"@
    } else if op == 0x5F {
        "MOV     E,A"@
    } else if op == 0x60 {
        "MOV     H,B"@
    } else if op == 0x61 {
        "MOV     H,C"@
    } else if op == 0x62 {
        "MOV     H,D"@
    } else if op == 0x63 {
        "MOV     H,E"@
    } else if op == 0x64 {
        "MOV     H,H"@
    } else if op == 0x65 {
        "MOV     H,L"@
    } else if op == 0x66 {
        "MOV     H,M"@
    } else if op == 0x67 {
        "MOV     H,A"@
    } else if op == 0x68 {
        "MOV     L,B"@
    } else if op == 0x69 {
        "MOV     L,C"@
    } else if op == 0x6A {
        "MOV     L,D"@
    } else if op == 0x6B {
        "MOV     L,E"@
    } else if op == 0x6C {
        "MOV     L,H"@
    } else if op == 0x6D {
        "MOV     L,L"@
    } else if op == 0x6E {
        "MOV     L,M"@
    } else if op == 0x6F {
        "MOV     L,A"@
    } else if op == 0x70 {
        "MOV     M,B"@
    } else if op == 0x71 {
        "MOV     M,C"@
    } else if op == 0x72 {
        "MOV     M,D"@
    } else if op == 0x73 {
        "MOV     M,E"@
    } else if op == 0x74 {
        "MOV     M,H"@
    } else if op == 0x75 {
        "MOV     M,L"@
    } else if op == 0x76 {
        "HLT"@
    } else if op == 0x77 {
        "MOV     M,A"@
    } else if op == 0x78 {
        "MOV     A,B"@
    } else if op == 0x79 {
        "MOV     A,C"@
    } else if op == 0x7A {
        "MOV     A,D"@
    } else if op == 0x7B {
        "MOV     A,E"@
    } else if op == 0x7C {
        "MOV     A,H"@
    } else if op == 0x7D {
        "MOV     A,L"@
    } else if op == 0x7E {
        "MOV     A,M"@
    } else if op == 0x7F {
        "MOV     A,A"@
    } else if op == 0x80 {
        "ADD     B"@
    } else if op == 0x81 {
        "ADD     C"@
    } else if op == 0x82 {
        "ADD     D"@
    } else if op == 0x83 {
        "ADD     E"@
    } else if op == 0x84 {
        "ADD     H"@
    } else if op == 0x85 {
        "ADD     L"@
    } else if op == 0x86 {
        "ADD     M"@
    } else if op == 0x87 {
        "ADD     A"@
    } else if op == 0x88 {
        "ADC     B"@
    } else if op == 0x89 {
        "ADC     C"@
    } else if op == 0x8A {
        "ADC     D"@
    } else if op == 0x8B {
        "ADC     E"@
    } else if op == 0x8C {
        "ADC     H"@
    } else if op == 0x8D {
        "ADC     L"@
    } else if op == 0x8E {
        "ADC     M"@
    } else if op == 0x8F {
        "ADC     A"@
    } else if op == 0x90 {
        "SUB     B"@
    } else if op == 0x91 {
        "SUB     C"@
    } else if op == 0x92 {
        "SUB     D"@
    } else if op == 0x93 {
        "SUB     E"@
    } else if op == 0x94 {
        "SUB     H"@
    } else if op == 0x95 {
        "SUB     L"@
    } else if op == 0x96 {
        "SUB     M"@
    } else if op == 0x97 {
        "SUB     A"@
    } else if op == 0x98 {
        "SBB     B"@
    } else if op == 0x99 {
        "SBB     C"@
    } else if op == 0x9A {
        "SBB     D"@
    } else if op == 0x9B {
        "SBB     E"@
    } else if op == 0x9C {
        "SBB     H"@
    } else if op == 0x9D {
        "SBB     L"@
    } else if op == 0x9E {
        "SBB     M"@
    } else if op == 0x9F {
        "SBB     A"@
    } else if op == 0xA0 {
        "ANA     B"@
    } else if op == 0xA1 {
        "ANA     C"@
    } else if op == 0xA2 {
        "ANA     D"@
    } else if op == 0xA3 {
        "ANA     E"@
    } else if op == 0xA4 {
        "ANA     H"@
    } else if op == 0xA5 {
        "ANA     L"@
    } else if op == 0xA6 {
        "ANA     M"@
    } else if op == 0xA7 {
        "ANA     A"@
    } else if op == 0xA8 {
        "XRA     B"@
    } else if op == 0xA9 {
        "XRA     C"@
    } else if op == 0xAA {
        "XRA     D"@
    } else if op == 0xAB {
        "XRA     E"@
    } else if op == 0xAC {
        "XRA     H"@
    } else if op == 0xAD {
        "XRA     L"@
    } else if op == 0xAE {
        "XRA     M"@
    } else if op == 0xAF {
        "XRA     A"@
    } else if op == 0xB0 {
        "ORA     B"@
    } else if op == 0xB1 {
        "ORA     C"@
    } else if op == 0xB2 {
        "ORA     D"@
    } else if op == 0xB3 {
        "ORA     E"@
    } else if op == 0xB4 {
        "ORA     H"@
    } else if op == 0xB5 {
        "ORA     L"@
    } else if op == 0xB6 {
        "ORA     M"@
    } else if op == 0xB7 {
        "ORA     A"@
    } else if op == 0xB8 {
        "CMP     B"@
    } else if op == 0xB9 {
        "CMP     C"@
    } else if op == 0xBA {
        "CMP     D"@
    } else if op == 0xBB {
        "CMP     E"@
    } else if op == 0xBC {
        "CMP     H"@
    } else if op == 0xBD {
        "CMP     L"@
    } else if op == 0xBE {
        "CMP     M"@
    } else if op == 0xBF {
        "CMP     A"@
    } else if op == 0xC0 {
        "RNZ"@
    } else if op == 0xC1 {
        "POP     B"@
    } else if op == 0xC2 {
        "JNZ     $"@
    } else if op == 0xC3 {
        "JMP     $"@
    } else if op == 0xC4 {
        "CNZ     $"@
    } else if op == 0xC5 {
        "PUSH    B"@
    } else if op == 0xC6 {
        "ADI     #$"@
    } else if op == 0xC7 {
        "RST     0"@
    } else if op == 0xC8 {
        "RZ"@
    } else if op == 0xC9 {
        "RET"@
    } else if op == 0xCA {
        "JZ      $"@
    } else if op == 0xCB {
        "JMP     $"@
    } else if op == 0xCC {
        "CZ      $"@
    } else if op == 0xCD {
        "CALL    $"@
    } else if op == 0xCE {
        "ACI     #$"@
    } else if op == 0xCF {
        "RST     1"@
    } else if op == 0xD0 {
        "RNC"@
    } else if op == 0xD1 {
        "POP     D"@
    } else if op == 0xD2 {
        "JNC     $"@
    } else if op == 0xD3 {
        "OUT     #$"@
    } else if op == 0xD4 {
        "CNC     $"@
    } else if op == 0xD5 {
        "PUSH    D"@
    } else if op == 0xD6 {
        "SUI     #$"@
    } else if op == 0xD7 {
        "RST     2"@
    } else if op == 0xD8 {
        "RC"@
    } else if op == 0xD9 {
        "RET"@
    } else if op == 0xDA {
        "JC      $"@
    } else if op == 0xDB {
        "IN      #$"@
    } else if op == 0xDC {
        "CC     $"@
    } else if op == 0xDD {
        "CALL    $"@
    } else if op == 0xDE {
        "SBI     #$"@
    } else if op == 0xDF {
        "RST     3"@
    } else if op == 0xE0 {
        "RPO"@
    } else if op == 0xE1 {
        "POP     H"@
    } else if op == 0xE2 {
        "JPO     $"@
    } else if op == 0xE3 {
        "XTHL"@
    } else if op == 0xE4 {
        "CTO     $"@
    } else if op == 0xE5 {
        "PUSH    H"@
    } else if op == 0xE6 {
        "ANI     #$"@
    } else if op == 0xE7 {
        "RST     4"@
    } else if op == 0xE8 {
        "RPE"@
    } else if op == 0xE9 {
        "PCHL"@
    } else if op == 0xEA {
        "JPE     $"@
    } else if op == 0xEB {
        "XCHG"@
    } else if op == 0xEC {
        "CPE     $"@
    } else if op == 0xED {
        "CALL    $"@
    } else if op == 0xEE {
        "XRI     #$"@
    } else if op == 0xEF {
        "RST     5"@
    } else if op == 0xF0 {
        "RP"@
    } else if op == 0xF1 {
        "POP     PSW"@
    } else if op == 0xF2 {
        "JP      $"@
    } else if op == 0xF3 {
        "DI"@
    } else if op == 0xF4 {
        "CP      $"@
    } else if op == 0xF5 {
        "PUSH    PSW"@
    } else if op == 0xF6 {
        "ORI     #$"@
    } else if op == 0xF7 {
        "RST     6"@
    } else if op == 0xF8 {
        "RM"@
    } else if op == 0xF9 {
        "SPHL"@
    } else if op == 0xFA {
        "JM      $"@
    } else if op == 0xFB {
        "EI"@
    } else if op == 0xFC {
        "CM      $"@
    } else if op == 0xFD {
        "CALL    $"@
    } else if op == 0xFE {
        "CPI     #$"@
    } else {
        "RST     7"@
    }
}

/// The rendering data for one opcode: the text before the operand digits and
/// the operand shape.
pub fn op_info(op: u8) -> (r: (&'static str, OperandKind))
    ensures
        r.0@ == spec_mnemonic(op),
        r.1 == operand_kind(op),
{
    match op {
        0x00 => ("NOP", OperandKind::Solo),
        0x01 => ("LXI     B,#$", OperandKind::Imm16),
        0x02 => ("STAX    B", OperandKind::Solo),
        0x03 => ("INX     B", OperandKind::Solo),
        0x04 => ("INR     B", OperandKind::Solo),
        0x05 => ("DCR     B", OperandKind::Solo),
        0x06 => ("MVI     B,#$", OperandKind::Imm8),
        0x07 => ("RLC", OperandKind::Solo),
        0x08 => ("NOP", OperandKind::Solo),
        0x09 => ("DAD     B", OperandKind::Solo),
        0x0A => ("LDAX    B", OperandKind::Solo),
        0x0B => ("DCX     B", OperandKind::Solo),
        0x0C => ("INR     C", OperandKind::Solo),
        0x0D => ("DCR     C", OperandKind::Solo),
        0x0E => ("MVI     C,#$", OperandKind::Imm8),
        0x0F => ("RRC", OperandKind::Solo),
        0x10 => ("NOP", OperandKind::Solo),
        0x11 => ("LXI     D,#$", OperandKind::Imm16),
        0x12 => ("STAX    D", OperandKind::Solo),
        0x13 => ("INX     D", OperandKind::Solo),
        0x14 => ("INR     D", OperandKind::Solo),
        0x15 => ("DCR     D", OperandKind::Solo),
        0x16 => ("MVI     D,#$", OperandKind::Imm8),
        0x17 => ("RAL", OperandKind::Solo),
        0x18 => ("NOP", OperandKind::Solo),
        0x19 => ("DAD     D", OperandKind::Solo),
        0x1A => ("LDAX    D", OperandKind::Solo),
        0x1B => ("DCX     D", OperandKind::Solo),
        0x1C => ("INR     E", OperandKind::Solo),
        0x1D => ("DCR     E", OperandKind::Solo),
        0x1E => ("MVI     E,#$", OperandKind::Imm8),
        0x1F => ("RAR", OperandKind::Solo),
        0x20 => ("NOP", OperandKind::Solo),
        0x21 => ("LXI     H,#$", OperandKind::Imm16),
        0x22 => ("SHLD    $", OperandKind::Imm16),
        0x23 => ("INX     H", OperandKind::Solo),
        0x24 => ("INR     H", OperandKind::Solo),
        0x25 => ("DCR     H", OperandKind::Solo),
        0x26 => ("MVI     H,#$", OperandKind::Imm8),
        0x27 => ("DAA", OperandKind::Solo),
        0x28 => ("NOP", OperandKind::Solo),
        0x29 => ("DAD     H", OperandKind::Solo),
        0x2A => ("LDHD    $", OperandKind::Imm16),
        0x2B => ("DCX     H", OperandKind::Solo),
        0x2C => ("INR     L", OperandKind::Solo),
        0x2D => ("DCR     L", OperandKind::Solo),
        0x2E => ("MVI     L,#$", OperandKind::Imm8),
        0x2F => ("CMA", OperandKind::Solo),
        0x30 => ("NOP", OperandKind::Solo),
        0x31 => ("LXI     SP,#$", OperandKind::Imm16),
        0x32 => ("STA     $", OperandKind::Imm16),
        0x33 => ("INX     SP", OperandKind::Solo),
        0x34 => ("INR     M", OperandKind::Solo),
        0x35 => ("DCR     M", OperandKind::Solo),
        0x36 => ("MVI     M,#$", OperandKind::Imm8),
        0x37 => ("STC", OperandKind::Solo),
        0x38 => ("NOP", OperandKind::Solo),
        0x39 => ("DAD     SP", OperandKind::Solo),
        0x3A => ("LDA     $", OperandKind::Imm16),
        0x3B => ("DCX     SP", OperandKind::Solo),
        0x3C => ("INR     A", OperandKind::Solo),
        0x3D => ("DCR     A", OperandKind::Solo),
        0x3E => ("MVI     A,#$", OperandKind::Imm8),
        0x3F => ("CMC", OperandKind::Solo),
        0x40 => ("MOV     B,B", OperandKind::Solo),
        0x41 => ("MOV     B,C", OperandKind::Solo),
        0x42 => ("MOV     B,D", OperandKind::Solo),
        0x43 => ("MOV     B,E", OperandKind::Solo),
        0x44 => ("MOV     B,H", OperandKind::Solo),
        0x45 => ("MOV     B,L", OperandKind::Solo),
        0x46 => ("MOV     B,M", OperandKind::Solo),
        0x47 => ("MOV     B,A", OperandKind::Solo),
        0x48 => ("MOV     C,B", OperandKind::Solo),
        0x49 => ("MOV     C,C", OperandKind::Solo),
        0x4A => ("MOV     C,D", OperandKind::Solo),
        0x4B => ("MOV     C,E", OperandKind::Solo),
        0x4C => ("MOV     C,H", OperandKind::Solo),
        0x4D => ("MOV     C,L", OperandKind::Solo),
        0x4E => ("MOV     C,M", OperandKind::Solo),
        0x4F => ("MOV     C,A", OperandKind::Solo),
        0x50 => ("MOV     D,B", OperandKind::Solo),
        0x51 => ("MOV     D,C", OperandKind::Solo),
        0x52 => ("MOV     D,D", OperandKind::Solo),
        0x53 => ("MOV     D,E", OperandKind::Solo),
        0x54 => ("MOV     D,H", OperandKind::Solo),
        0x55 => ("MOV     D,L", OperandKind::Solo),
        0x56 => ("MOV     D,M", OperandKind::Solo),
        0x57 => ("MOV     D,A", OperandKind::Solo),
        0x58 => ("MOV     E,B", OperandKind::Solo),
        0x59 => ("MOV     E,C", OperandKind::Solo),
        0x5A => ("MOV     E,D", OperandKind::Solo),
        0x5B => ("MOV     E,E", OperandKind::Solo),
        0x5C => ("MOV     E,H", OperandKind::Solo),
        0x5D => ("MOV     E,L", OperandKind::Solo),
        0x5E => ("MOV     E,M", OperandKind::Solo),
        0x5F => ("MOV     E,A", OperandKind::Solo),
        0x60 => ("MOV     H,B", OperandKind::Solo),
        0x61 => ("MOV     H,C", OperandKind::Solo),
        0x62 => ("MOV     H,D", OperandKind::Solo),
        0x63 => ("MOV     H,E", OperandKind::Solo),
        0x64 => ("MOV     H,H", OperandKind::Solo),
        0x65 => ("MOV     H,L", OperandKind::Solo),
        0x66 => ("MOV     H,M", OperandKind::Solo),
        0x67 => ("MOV     H,A", OperandKind::Solo),
        0x68 => ("MOV     L,B", OperandKind::Solo),
        0x69 => ("MOV     L,C", OperandKind::Solo),
        0x6A => ("MOV     L,D", OperandKind::Solo),
        0x6B => ("MOV     L,E", OperandKind::Solo),
        0x6C => ("MOV     L,H", OperandKind::Solo),
        0x6D => ("MOV     L,L", OperandKind::Solo),
        0x6E => ("MOV     L,M", OperandKind::Solo),
        0x6F => ("MOV     L,A", OperandKind::Solo),
        0x70 => ("MOV     M,B", OperandKind::Solo),
        0x71 => ("MOV     M,C", OperandKind::Solo),
        0x72 => ("MOV     M,D", OperandKind::Solo),
        0x73 => ("MOV     M,E", OperandKind::Solo),
        0x74 => ("MOV     M,H", OperandKind::Solo),
        0x75 => ("MOV     M,L", OperandKind::Solo),
        0x76 => ("HLT", OperandKind::Solo),
        0x77 => ("MOV     M,A", OperandKind::Solo),
        0x78 => ("MOV     A,B", OperandKind::Solo),
        0x79 => ("MOV     A,C", OperandKind::Solo),
        0x7A => ("MOV     A,D", OperandKind::Solo),
        0x7B => ("MOV     A,E", OperandKind::Solo),
        0x7C => ("MOV     A,H", OperandKind::Solo),
        0x7D => ("MOV     A,L", OperandKind::Solo),
        0x7E => ("MOV     A,M", OperandKind::Solo),
        0x7F => ("MOV     A,A", OperandKind::Solo),
        0x80 => ("ADD     B", OperandKind::Solo),
        0x81 => ("ADD     C", OperandKind::Solo),
        0x82 => ("ADD     D", OperandKind::Solo),
        0x83 => ("ADD     E", OperandKind::Solo),
        0x84 => ("ADD     H", OperandKind::Solo),
        0x85 => ("ADD     L", OperandKind::Solo),
        0x86 => ("ADD     M", OperandKind::Solo),
        0x87 => ("ADD     A", OperandKind::Solo),
        0x88 => ("ADC     B", OperandKind::Solo),
        0x89 => ("ADC     C", OperandKind::Solo),
        0x8A => ("ADC     D", OperandKind::Solo),
        0x8B => ("ADC     E", OperandKind::Solo),
        0x8C => ("ADC     H", OperandKind::Solo),
        0x8D => ("ADC     L", OperandKind::Solo),
        0x8E => ("ADC     M", OperandKind::Solo),
        0x8F => ("ADC     A", OperandKind::Solo),
        0x90 => ("SUB     B", OperandKind::Solo),
        0x91 => ("SUB     C", OperandKind::Solo),
        0x92 => ("SUB     D", OperandKind::Solo),
        0x93 => ("SUB     E", OperandKind::Solo),
        0x94 => ("SUB     H", OperandKind::Solo),
        0x95 => ("SUB     L", OperandKind::Solo),
        0x96 => ("SUB     M", OperandKind::Solo),
        0x97 => ("SUB     A", OperandKind::Solo),
        0x98 => ("SBB     B", OperandKind::Solo),
        0x99 => ("SBB     C", OperandKind::Solo),
        0x9A => ("SBB     D", OperandKind::Solo),
        0x9B => ("SBB     E", OperandKind::Solo),
        0x9C => ("SBB     H", OperandKind::Solo),
        0x9D => ("SBB     L", OperandKind::Solo),
        0x9E => ("SBB     M", OperandKind::Solo),
        0x9F => ("SBB     A", OperandKind::Solo),
        0xA0 => ("ANA     B", OperandKind::Solo),
        0xA1 => ("ANA     C", OperandKind::Solo),
        0xA2 => ("ANA     D", OperandKind::Solo),
        0xA3 => ("ANA     E", OperandKind::Solo),
        0xA4 => ("ANA     H", OperandKind::Solo),
        0xA5 => ("ANA     L", OperandKind::Solo),
        0xA6 => ("ANA     M", OperandKind::Solo),
        0xA7 => ("ANA     A", OperandKind::Solo),
        0xA8 => ("XRA     B", OperandKind::Solo),
        0xA9 => ("XRA     C", OperandKind::Solo),
        0xAA => ("XRA     D", OperandKind::Solo),
        0xAB => ("XRA     E", OperandKind::Solo),
        0xAC => ("XRA     H", OperandKind::Solo),
        0xAD => ("XRA     L", OperandKind::Solo),
        0xAE => ("XRA     M", OperandKind::Solo),
        0xAF => ("XRA     A", OperandKind::Solo),
        0xB0 => ("ORA     B", OperandKind::Solo),
        0xB1 => ("ORA     C", OperandKind::Solo),
        0xB2 => ("ORA     D", OperandKind::Solo),
        0xB3 => ("ORA     E", OperandKind::Solo),
        0xB4 => ("ORA     H", OperandKind::Solo),
        0xB5 => ("ORA     L", OperandKind::Solo),
        0xB6 => ("ORA     M", OperandKind::Solo),
        0xB7 => ("ORA     A", OperandKind::Solo),
        0xB8 => ("CMP     B", OperandKind::Solo),
        0xB9 => ("CMP     C", OperandKind::Solo),
        0xBA => ("CMP     D", OperandKind::Solo),
        0xBB => ("CMP     E", OperandKind::Solo),
        0xBC => ("CMP     H", OperandKind::Solo),
        0xBD => ("CMP     L", OperandKind::Solo),
        0xBE => ("CMP     M", OperandKind::Solo),
        0xBF => ("CMP     A", OperandKind::Solo),
        0xC0 => ("RNZ", OperandKind::Solo),
        0xC1 => ("POP     B", OperandKind::Solo),
        0xC2 => ("JNZ     $", OperandKind::Imm16),
        0xC3 => ("JMP     $", OperandKind::Imm16),
        0xC4 => ("CNZ     $", OperandKind::Imm16),
        0xC5 => ("PUSH    B", OperandKind::Solo),
        0xC6 => ("ADI     #$", OperandKind::Imm8),
        0xC7 => ("RST     0", OperandKind::Solo),
        0xC8 => ("RZ", OperandKind::Solo),
        0xC9 => ("RET", OperandKind::Solo),
        0xCA => ("JZ      $", OperandKind::Imm16),
        0xCB => ("JMP     $", OperandKind::Imm16),
        0xCC => ("CZ      $", OperandKind::Imm16),
        0xCD => ("CALL    $", OperandKind::Imm16),
        0xCE => ("ACI     #$", OperandKind::Imm8),
        0xCF => ("RST     1", OperandKind::Solo),
        0xD0 => ("RNC", OperandKind::Solo),
        0xD1 => ("POP     D", OperandKind::Solo),
        0xD2 => ("JNC     $", OperandKind::Imm16),
        0xD3 => ("OUT     #$", OperandKind::Imm8),
        0xD4 => ("CNC     $", OperandKind::Imm16),
        0xD5 => ("PUSH    D", OperandKind::Solo),
        0xD6 => ("SUI     #$", OperandKind::Imm8),
        0xD7 => ("RST     2", OperandKind::Solo),
        0xD8 => ("RC", OperandKind::Solo),
        0xD9 => ("RET", OperandKind::Solo),
        0xDA => ("JC      $", OperandKind::Imm16),
        0xDB => ("IN      #$", OperandKind::Imm8),
        0xDC => ("CC     $", OperandKind::Imm16),
        0xDD => ("CALL    $", OperandKind::Imm16),
        0xDE => ("SBI     #$", OperandKind::Imm8),
        0xDF => ("RST     3", OperandKind::Solo),
        0xE0 => ("RPO", OperandKind::Solo),
        0xE1 => ("POP     H", OperandKind::Solo),
        0xE2 => ("JPO     $", OperandKind::Imm16),
        0xE3 => ("XTHL", OperandKind::Solo),
        0xE4 => ("CTO     $", OperandKind::Imm16),
        0xE5 => ("PUSH    H", OperandKind::Solo),
        0xE6 => ("ANI     #$", OperandKind::Imm8),
        0xE7 => ("RST     4", OperandKind::Solo),
        0xE8 => ("RPE", OperandKind::Solo),
        0xE9 => ("PCHL", OperandKind::Solo),
        0xEA => ("JPE     $", OperandKind::Imm16),
        0xEB => ("XCHG", OperandKind::Solo),
        0xEC => ("CPE     $", OperandKind::Imm16),
        0xED => ("CALL    $", OperandKind::Imm16),
        0xEE => ("XRI     #$", OperandKind::Imm8),
        0xEF => ("RST     5", OperandKind::Solo),
        0xF0 => ("RP", OperandKind::Solo),
        0xF1 => ("POP     PSW", OperandKind::Solo),
        0xF2 => ("JP      $", OperandKind::Imm16),
        0xF3 => ("DI", OperandKind::Solo),
        0xF4 => ("CP      $", OperandKind::Imm16),
        0xF5 => ("PUSH    PSW", OperandKind::Solo),
        0xF6 => ("ORI     #$", OperandKind::Imm8),
        0xF7 => ("RST     6", OperandKind::Solo),
        0xF8 => ("RM", OperandKind::Solo),
        0xF9 => ("SPHL", OperandKind::Solo),
        0xFA => ("JM      $", OperandKind::Imm16),
        0xFB => ("EI", OperandKind::Solo),
        0xFC => ("CM      $", OperandKind::Imm16),
        0xFD => ("CALL    $", OperandKind::Imm16),
        0xFE => ("CPI     #$", OperandKind::Imm8),
        _ => ("RST     7", OperandKind::Solo),
    }
}

} // verus!
