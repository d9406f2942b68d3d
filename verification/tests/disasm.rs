use emu8080::disasm::disasm;
use emu8080::disasm::disasm_single;

#[test]
fn single_plain_line() {
    let mut text = String::new();
    let len = disasm_single(&mut text, &[0x00], 0).unwrap();
    assert_eq!(len, 1);
    assert_eq!(text, "0000   NOP\n");
}

#[test]
fn single_immediate_line() {
    let mut text = String::new();
    let len = disasm_single(&mut text, &[0x3E, 0x42], 0).unwrap();
    assert_eq!(len, 2);
    assert_eq!(text, "0000   MVI     A,#$42\n");
}

#[test]
fn single_word_line() {
    let mut text = String::new();
    let len = disasm_single(&mut text, &[0xC3, 0x34, 0x12], 0).unwrap();
    assert_eq!(len, 3);
    assert_eq!(text, "0000   JMP     $1234\n");
}

#[test]
fn address_label_is_padded() {
    let mut text = String::new();
    let code = [0x00, 0x00, 0x0F];
    let len = disasm_single(&mut text, &code, 2).unwrap();
    assert_eq!(len, 1);
    assert_eq!(text, "0002   RRC\n");
}

#[test]
fn appends_to_existing_text() {
    let mut text = String::from("x");
    disasm_single(&mut text, &[0x37], 0).unwrap();
    assert_eq!(text, "x0000   STC\n");
}

#[test]
fn single_truncated_operand() {
    let mut text = String::new();
    let e = disasm_single(&mut text, &[0x3E], 0).unwrap_err();
    assert_eq!(e.addr, 1);
    assert_eq!(text, "");
}

#[test]
fn single_position_past_end() {
    let mut text = String::new();
    let e = disasm_single(&mut text, &[0x00], 5).unwrap_err();
    assert_eq!(e.addr, 5);
}

#[test]
fn whole_listing() {
    let listing = disasm(&[0x3E, 0x05, 0x76, 0x01, 0xCD, 0xAB]).unwrap();
    assert_eq!(listing, "0000   MVI     A,#$05\n0002   HLT\n0003   LXI     B,#$abcd\n");
}

#[test]
fn empty_listing() {
    assert_eq!(disasm(&[]).unwrap(), "");
}

#[test]
fn listing_stops_at_truncated_instruction() {
    let e = disasm(&[0x00, 0xC3, 0x01]).unwrap_err();
    assert_eq!(e.addr, 3);
}

// Every opcode reports a length between one and three bytes, and a buffer
// holding the full instruction always renders.
#[test]
fn every_opcode_renders() {
    for op in 0..=255u8 {
        let code = [op, 0x11, 0x22];
        let mut text = String::new();
        let len = disasm_single(&mut text, &code, 0).unwrap();
        assert!((1..=3).contains(&len), "opcode {:#x} reported length {}", op, len);
        assert!(text.starts_with("0000   "));
        assert!(text.ends_with('\n'));
    }
}

// Unofficial duplicate opcodes alias the same instruction as the canonical
// encoding.
#[test]
fn duplicate_opcodes_alias() {
    let mut canonical = String::new();
    disasm_single(&mut canonical, &[0xC3, 0x34, 0x12], 0).unwrap();
    let mut duplicate = String::new();
    disasm_single(&mut duplicate, &[0xCB, 0x34, 0x12], 0).unwrap();
    assert_eq!(canonical, duplicate);

    let mut nop = String::new();
    disasm_single(&mut nop, &[0x00], 0).unwrap();
    let mut nop_alias = String::new();
    disasm_single(&mut nop_alias, &[0x08], 0).unwrap();
    assert_eq!(nop, nop_alias);
}

// An offset beyond the 16-bit range keeps all its hex digits in the label.
#[test]
fn wide_address_label() {
    let mut code = vec![0u8; 0x10001];
    code[0x10000] = 0x00;
    let mut text = String::new();
    let len = disasm_single(&mut text, &code, 0x10000).unwrap();
    assert_eq!(len, 1);
    assert_eq!(text, "10000   NOP\n");
}
