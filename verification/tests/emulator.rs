use emu8080::emulator::EmuError;
use emu8080::emulator::State;

#[test]
fn zero_flag_true() {
    let mut emu = State::new(Vec::new());

    emu.zero_flag(0x00);

    assert_eq!(emu.cc.z, true);
}

#[test]
fn zero_flag_false() {
    let mut emu = State::new(Vec::new());

    emu.zero_flag(0xFF);

    assert_eq!(emu.cc.z, false);
}

#[test]
fn sign_flag_false() {
    let mut emu = State::new(Vec::new());

    emu.sign_flag(0b01101111);

    assert_eq!(emu.cc.s, false);
}

#[test]
fn sign_flag_true() {
    let mut emu = State::new(Vec::new());

    emu.sign_flag(0b11101011);

    assert_eq!(emu.cc.s, true);
}

#[test]
fn carry_flag_false() {
    let mut emu = State::new(Vec::new());

    emu.carry_flag(0x0001);

    assert_eq!(emu.cc.cy, false);
}

#[test]
fn carry_flag_true() {
    let mut emu = State::new(Vec::new());

    emu.carry_flag(0xFF01);

    assert_eq!(emu.cc.cy, true);
}

#[test]
fn parity_true1() {
    assert_eq!(State::parity(0b1111111111111111), true);
}

#[test]
fn parity_true2() {
    assert_eq!(State::parity(0b1111111111110000), true);
}

#[test]
fn parity_true3() {
    assert_eq!(State::parity(0b1010101010100000), true);
}

#[test]
fn parity_false1() {
    assert_eq!(State::parity(0b1111101111111111), false);
}

#[test]
fn parity_false2() {
    assert_eq!(State::parity(0b1111101111110000), false);
}

#[test]
fn parity_false3() {
    assert_eq!(State::parity(0b1010100010100000), false);
}

#[test]
fn extend1() {
    assert_eq!(State::extend(0x01, 0xF0), 0x01F0);
}

#[test]
fn extend2() {
    assert_eq!(State::extend(0xFF, 0xFF), 0xFFFF);
}

#[test]
fn seperate1() {
    assert_eq!((0x01, 0xF0), State::seperate(0x01F0));
}

#[test]
fn seperate2() {
    assert_eq!((0xFF, 0xFF), State::seperate(0xFFFF));
}

#[test]
fn rotate_left1() {
    let mut emu = State::new(vec![0x07, 0x76]);
    emu.a = 0b10000000;

    emu.start().unwrap();
    assert_eq!(0b00000001, emu.a);
    assert_eq!(true, emu.cc.cy);
}

#[test]
fn rotate_left2() {
    let mut emu = State::new(vec![0x07, 0x76]);
    emu.a = 0b01000000;

    emu.start().unwrap();
    assert_eq!(0b10000000, emu.a);
    assert_eq!(false, emu.cc.cy);
}

#[test]
fn rotate_right1() {
    let mut emu = State::new(vec![0x0F, 0x76]);
    emu.a = 0b10000000;

    emu.start().unwrap();
    assert_eq!(0b01000000, emu.a);
    assert_eq!(false, emu.cc.cy);
}

#[test]
fn rotate_right2() {
    let mut emu = State::new(vec![0x0F, 0x76]);
    emu.a = 0b00000001;

    emu.start().unwrap();
    assert_eq!(0b10000000, emu.a);
    assert_eq!(true, emu.cc.cy);
}

#[test]
fn rotate_carry_left1() {
    let mut emu = State::new(vec![0x17, 0x76]);
    emu.a = 0b10000000;
    emu.cc.cy = false;

    emu.start().unwrap();
    assert_eq!(0b00000000, emu.a);
    assert_eq!(true, emu.cc.cy);
}

#[test]
fn rotate_carry_left2() {
    let mut emu = State::new(vec![0x17, 0x76]);
    emu.a = 0b00000001;
    emu.cc.cy = true;

    emu.start().unwrap();
    assert_eq!(0b00000011, emu.a);
    assert_eq!(false, emu.cc.cy);
}

#[test]
fn rotate_carry_right1() {
    let mut emu = State::new(vec![0x1F, 0x76]);
    emu.a = 0b10000000;
    emu.cc.cy = false;

    emu.start().unwrap();
    assert_eq!(0b01000000, emu.a);
    assert_eq!(false, emu.cc.cy);
}

#[test]
fn rotate_carry_right2() {
    let mut emu = State::new(vec![0x1F, 0x76]);
    emu.a = 0b00000001;
    emu.cc.cy = true;

    emu.start().unwrap();
    assert_eq!(0b10000000, emu.a);
    assert_eq!(true, emu.cc.cy);
}

// A second RAL on the state left by rotate_carry_left1: the bit parked in
// the carry flag comes back in at the bottom.
#[test]
fn rotate_carry_left_twice() {
    let mut emu = State::new(vec![0x17, 0x17, 0x76]);
    emu.a = 0b10000000;
    emu.cc.cy = false;

    assert_eq!(emu.step().unwrap(), true);
    assert_eq!(0b00000000, emu.a);
    assert_eq!(true, emu.cc.cy);

    assert_eq!(emu.step().unwrap(), true);
    assert_eq!(0b00000001, emu.a);
    assert_eq!(false, emu.cc.cy);
}

// ADD with accumulator 0xFF and operand 0x01 wraps to zero and sets both
// carry and zero.
#[test]
fn add_carry_and_zero() {
    let mut emu = State::new(vec![0x80, 0x76]);
    emu.a = 0xFF;
    emu.b = 0x01;

    assert_eq!(emu.step().unwrap(), true);
    assert_eq!(emu.a, 0x00);
    assert_eq!(emu.cc.cy, true);
    assert_eq!(emu.cc.z, true);
}

// DAD with H:L = 0xFFFF and B:C = 0x0001 wraps H:L to zero and sets carry.
#[test]
fn dad_carry() {
    let mut emu = State::new(vec![0x09, 0x76]);
    emu.h = 0xFF;
    emu.l = 0xFF;
    emu.b = 0x00;
    emu.c = 0x01;

    assert_eq!(emu.step().unwrap(), true);
    assert_eq!(emu.h, 0x00);
    assert_eq!(emu.l, 0x00);
    assert_eq!(emu.cc.cy, true);
}

// INR on a register holding 0xFF gives 0x00 with the zero flag set, and
// never touches carry.
#[test]
fn inr_wraps_to_zero() {
    let mut emu = State::new(vec![0x04, 0x76]);
    emu.b = 0xFF;
    emu.cc.cy = false;

    assert_eq!(emu.step().unwrap(), true);
    assert_eq!(emu.b, 0x00);
    assert_eq!(emu.cc.z, true);
    assert_eq!(emu.cc.cy, false);
}

// SUB below zero borrows: carry set, result wrapped.
#[test]
fn sub_borrow() {
    let mut emu = State::new(vec![0x90, 0x76]);
    emu.a = 0x00;
    emu.b = 0x01;

    assert_eq!(emu.step().unwrap(), true);
    assert_eq!(emu.a, 0xFF);
    assert_eq!(emu.cc.cy, true);
    assert_eq!(emu.cc.z, false);
}

// CMP sets flags from the comparison but leaves the accumulator alone.
#[test]
fn cmp_preserves_accumulator() {
    let mut emu = State::new(vec![0xB8, 0x76]);
    emu.a = 5;
    emu.b = 9;

    assert_eq!(emu.step().unwrap(), true);
    assert_eq!(emu.a, 5);
    assert_eq!(emu.cc.cy, true);
    assert_eq!(emu.cc.z, false);
}

// CMP against the C register compares C, not the accumulator with itself.
#[test]
fn cmp_c_register() {
    let mut emu = State::new(vec![0xB9, 0x76]);
    emu.a = 5;
    emu.c = 5;

    assert_eq!(emu.step().unwrap(), true);
    assert_eq!(emu.cc.z, true);
    assert_eq!(emu.cc.cy, false);
}

// SBB subtracts the named register and the borrow.
#[test]
fn sbb_c_register() {
    let mut emu = State::new(vec![0x99, 0x76]);
    emu.a = 10;
    emu.c = 3;
    emu.cc.cy = true;

    assert_eq!(emu.step().unwrap(), true);
    assert_eq!(emu.a, 6);
    assert_eq!(emu.cc.cy, false);
}

// XRA against C clears carry and combines the right operand.
#[test]
fn xra_c_register() {
    let mut emu = State::new(vec![0xA9, 0x76]);
    emu.a = 0b1010;
    emu.c = 0b0110;
    emu.cc.cy = true;

    assert_eq!(emu.step().unwrap(), true);
    assert_eq!(emu.a, 0b1100);
    assert_eq!(emu.cc.cy, false);
}

// MOV C,M loads C (and only C) from memory at H:L.
#[test]
fn mov_c_from_memory() {
    let mut emu = State::new(vec![0x4E, 0x76]);
    emu.h = 0;
    emu.l = 1;

    assert_eq!(emu.step().unwrap(), true);
    assert_eq!(emu.c, 0x76);
    assert_eq!(emu.b, 0);
}

// LXI loads the low operand byte into the second-named register and the
// high byte into the first-named one.
#[test]
fn lxi_byte_order() {
    let mut emu = State::new(vec![0x01, 0x34, 0x12, 0x76]);

    assert_eq!(emu.step().unwrap(), true);
    assert_eq!(emu.b, 0x12);
    assert_eq!(emu.c, 0x34);
    assert_eq!(emu.pc, 3);
}

// PUSH then POP of the same pair restores the pair and the stack pointer;
// the pushed bytes sit just below the old stack pointer, high byte on top.
#[test]
fn push_pop_round_trip() {
    let mut mem = vec![0xC5, 0xC1, 0x76];
    mem.resize(16, 0);
    let mut emu = State::new(mem);
    emu.sp = 16;
    emu.b = 0x12;
    emu.c = 0x34;

    assert_eq!(emu.step().unwrap(), true);
    assert_eq!(emu.sp, 14);
    assert_eq!(emu.mem[15], 0x12);
    assert_eq!(emu.mem[14], 0x34);

    emu.b = 0;
    emu.c = 0;
    assert_eq!(emu.step().unwrap(), true);
    assert_eq!(emu.b, 0x12);
    assert_eq!(emu.c, 0x34);
    assert_eq!(emu.sp, 16);
    assert_eq!(emu.pc, 2);
}

// CALL pushes the address after the call and jumps; RET comes back to it
// with the stack pointer restored.
#[test]
fn call_ret_round_trip() {
    let mut mem = vec![0xCD, 0x05, 0x00, 0x76, 0x00, 0xC9];
    mem.resize(16, 0);
    let mut emu = State::new(mem);
    emu.sp = 16;

    assert_eq!(emu.step().unwrap(), true);
    assert_eq!(emu.pc, 5);
    assert_eq!(emu.sp, 14);
    assert_eq!(emu.mem[14], 0x03);
    assert_eq!(emu.mem[15], 0x00);

    assert_eq!(emu.step().unwrap(), true);
    assert_eq!(emu.pc, 3);
    assert_eq!(emu.sp, 16);

    assert_eq!(emu.step().unwrap(), false);
}

// RST is a one-byte call to a fixed address.
#[test]
fn rst_fixed_target() {
    let mut mem = vec![0xCF];
    mem.resize(16, 0);
    let mut emu = State::new(mem);
    emu.sp = 16;

    assert_eq!(emu.step().unwrap(), true);
    assert_eq!(emu.pc, 8);
    assert_eq!(emu.sp, 14);
    assert_eq!(emu.mem[14], 0x01);
    assert_eq!(emu.mem[15], 0x00);
}

// A conditional jump takes the branch when its flag passes and falls
// through past its operand bytes when it fails.
#[test]
fn conditional_jump_both_ways() {
    let mut emu = State::new(vec![0xCA, 0x04, 0x00, 0x76, 0x76]);
    emu.cc.z = true;
    assert_eq!(emu.step().unwrap(), true);
    assert_eq!(emu.pc, 4);

    let mut emu2 = State::new(vec![0xCA, 0x04, 0x00, 0x76, 0x76]);
    emu2.cc.z = false;
    assert_eq!(emu2.step().unwrap(), true);
    assert_eq!(emu2.pc, 3);
}

// The alias opcode 0x08 is a plain NOP, distinct from DAD B at 0x09.
#[test]
fn nop_alias() {
    let mut emu = State::new(vec![0x08, 0x76]);
    emu.h = 1;
    emu.b = 2;

    emu.start().unwrap();
    assert_eq!(emu.pc, 1);
    assert_eq!(emu.h, 1);
    assert_eq!(emu.b, 2);
}

// Load immediate 5 into the accumulator, then halt: the accumulator holds
// 5 and the program counter rests on the halt instruction.
#[test]
fn immediate_load_then_halt() {
    let mut emu = State::new(vec![0x3E, 0x05, 0x76]);

    emu.start().unwrap();
    assert_eq!(emu.a, 0x05);
    assert_eq!(emu.pc, 2);
}

// An opcode with no defined mapping fails with a decode error naming the
// address and the byte, before any register changes.
#[test]
fn decode_error_reports_opcode() {
    let mut emu = State::new(vec![0xFF]);

    match emu.step() {
        Err(EmuError::Decode { addr, opcode, text }) => {
            assert_eq!(addr, 0);
            assert_eq!(opcode, 0xFF);
            assert_eq!(text, "0000   RST     7\n");
        },
        other => panic!("expected a decode error, got {:?}", other),
    }
    assert_eq!(emu.a, 0);
    assert_eq!(emu.b, 0);
    assert_eq!(emu.pc, 0);
    assert_eq!(emu.sp, 0xF000);
}

// A memory operand outside the buffer fails with a bounds error naming the
// address, and nothing changes.
#[test]
fn bounds_error_reports_address() {
    let mut emu = State::new(vec![0x7E, 0x76]);
    emu.h = 0xFF;
    emu.l = 0x00;

    match emu.step() {
        Err(EmuError::Bounds { addr }) => assert_eq!(addr, 0xFF00),
        other => panic!("expected a bounds error, got {:?}", other),
    }
    assert_eq!(emu.a, 0);
    assert_eq!(emu.pc, 0);
}

// A program counter outside the buffer is itself a bounds error.
#[test]
fn bounds_error_at_program_counter() {
    let mut emu = State::new(Vec::new());

    match emu.step() {
        Err(EmuError::Bounds { addr }) => assert_eq!(addr, 0),
        other => panic!("expected a bounds error, got {:?}", other),
    }
}

// A fault during a run stops it with the error of the faulting step.
#[test]
fn start_stops_on_fault() {
    let mut emu = State::new(vec![0x3E, 0x05, 0xFF]);

    match emu.start() {
        Err(EmuError::Decode { addr, opcode, .. }) => {
            assert_eq!(addr, 2);
            assert_eq!(opcode, 0xFF);
        },
        other => panic!("expected a decode error, got {:?}", other),
    }
    assert_eq!(emu.a, 0x05);
    assert_eq!(emu.pc, 2);
}

// ADI adds the immediate byte and steps past both instruction bytes.
#[test]
fn adi_immediate() {
    let mut emu = State::new(vec![0xC6, 0x05, 0x76]);
    emu.a = 1;

    emu.start().unwrap();
    assert_eq!(emu.a, 6);
    assert_eq!(emu.pc, 2);
}

// STA stores the accumulator at the little-endian direct address.
#[test]
fn sta_direct() {
    let mut emu = State::new(vec![0x32, 0x04, 0x00, 0x76, 0x00]);
    emu.a = 0xAB;

    emu.start().unwrap();
    assert_eq!(emu.mem[4], 0xAB);
    assert_eq!(emu.pc, 3);
}

// SHLD stores L then H; LHLD reads them back.
#[test]
fn shld_lhld_round_trip() {
    let mut emu = State::new(vec![0x22, 0x06, 0x00, 0x76, 0x00, 0x00, 0x00, 0x00]);
    emu.h = 0x12;
    emu.l = 0x34;

    emu.start().unwrap();
    assert_eq!(emu.mem[6], 0x34);
    assert_eq!(emu.mem[7], 0x12);

    let mut emu2 = State::new(vec![0x2A, 0x06, 0x00, 0x76, 0x00, 0x00, 0x34, 0x12]);
    emu2.start().unwrap();
    assert_eq!(emu2.h, 0x12);
    assert_eq!(emu2.l, 0x34);
}

// INX wraps a full pair around to zero without touching flags.
#[test]
fn inx_wraps() {
    let mut emu = State::new(vec![0x03, 0x76]);
    emu.b = 0xFF;
    emu.c = 0xFF;
    emu.cc.cy = false;

    emu.start().unwrap();
    assert_eq!(emu.b, 0x00);
    assert_eq!(emu.c, 0x00);
    assert_eq!(emu.cc.cy, false);
}

// STAX writes the accumulator through B:C; LDAX reads it back through D:E.
#[test]
fn stax_ldax() {
    let mut emu = State::new(vec![0x02, 0x76, 0x00]);
    emu.a = 0x77;
    emu.b = 0x00;
    emu.c = 0x02;
    assert_eq!(emu.step().unwrap(), true);
    assert_eq!(emu.mem[2], 0x77);

    let mut emu2 = State::new(vec![0x1A, 0x76, 0x5C]);
    emu2.d = 0x00;
    emu2.e = 0x02;
    assert_eq!(emu2.step().unwrap(), true);
    assert_eq!(emu2.a, 0x5C);
}

// DCR reaches zero with the zero flag set and carry untouched.
#[test]
fn dcr_to_zero() {
    let mut emu = State::new(vec![0x05, 0x76]);
    emu.b = 0x01;
    emu.cc.cy = false;

    assert_eq!(emu.step().unwrap(), true);
    assert_eq!(emu.b, 0x00);
    assert_eq!(emu.cc.z, true);
    assert_eq!(emu.cc.cy, false);
}

// DCX wraps a zero pair around to 0xFFFF without touching flags.
#[test]
fn dcx_wraps() {
    let mut emu = State::new(vec![0x0B, 0x76]);
    emu.b = 0x00;
    emu.c = 0x00;
    emu.cc.z = false;

    emu.start().unwrap();
    assert_eq!(emu.b, 0xFF);
    assert_eq!(emu.c, 0xFF);
    assert_eq!(emu.cc.z, false);
}

// CMA complements the accumulator; STC sets carry; CMC flips it back.
#[test]
fn cma_stc_cmc() {
    let mut emu = State::new(vec![0x2F, 0x37, 0x3F, 0x76]);
    emu.a = 0x0F;

    emu.start().unwrap();
    assert_eq!(emu.a, 0xF0);
    assert_eq!(emu.cc.cy, false);
}

// A conditional call takes the transfer when its flag passes, and the
// matching conditional return comes back.
#[test]
fn conditional_call_and_return() {
    let mut mem = vec![0xC4, 0x05, 0x00, 0x76, 0x00, 0xC0];
    mem.resize(16, 0);
    let mut emu = State::new(mem);
    emu.sp = 16;
    emu.cc.z = false;

    assert_eq!(emu.step().unwrap(), true);
    assert_eq!(emu.pc, 5);
    assert_eq!(emu.sp, 14);

    assert_eq!(emu.step().unwrap(), true);
    assert_eq!(emu.pc, 3);
    assert_eq!(emu.sp, 16);

    assert_eq!(emu.step().unwrap(), false);
}

// A conditional call falls through past its operand bytes when the flag
// fails.
#[test]
fn conditional_call_falls_through() {
    let mut emu = State::new(vec![0xC4, 0x05, 0x00, 0x76, 0x00, 0x00]);
    emu.cc.z = true;

    assert_eq!(emu.step().unwrap(), true);
    assert_eq!(emu.pc, 3);
}

// ACI adds the immediate and the incoming carry; SUI subtracts without the
// borrow.
#[test]
fn aci_and_sui() {
    let mut emu = State::new(vec![0xCE, 0x01, 0xD6, 0x03, 0x76]);
    emu.a = 0xFF;
    emu.cc.cy = true;

    assert_eq!(emu.step().unwrap(), true);
    assert_eq!(emu.a, 0x01);
    assert_eq!(emu.cc.cy, true);

    assert_eq!(emu.step().unwrap(), true);
    assert_eq!(emu.a, 0xFE);
    assert_eq!(emu.cc.cy, true);
}

// LDA loads the accumulator from the little-endian direct address.
#[test]
fn lda_direct() {
    let mut emu = State::new(vec![0x3A, 0x04, 0x00, 0x76, 0x5A]);

    emu.start().unwrap();
    assert_eq!(emu.a, 0x5A);
    assert_eq!(emu.pc, 3);
}

// MOV M,B stores B at the address in H:L.
#[test]
fn mov_to_memory() {
    let mut emu = State::new(vec![0x70, 0x76, 0x00]);
    emu.b = 0x42;
    emu.h = 0x00;
    emu.l = 0x02;

    assert_eq!(emu.step().unwrap(), true);
    assert_eq!(emu.mem[2], 0x42);
}

// ANA then ORA: both clear carry and combine bitwise.
#[test]
fn ana_then_ora() {
    let mut emu = State::new(vec![0xA0, 0xB1, 0x76]);
    emu.a = 0b1100;
    emu.b = 0b1010;
    emu.c = 0b0011;
    emu.cc.cy = true;

    assert_eq!(emu.step().unwrap(), true);
    assert_eq!(emu.a, 0b1000);
    assert_eq!(emu.cc.cy, false);

    assert_eq!(emu.step().unwrap(), true);
    assert_eq!(emu.a, 0b1011);
    assert_eq!(emu.cc.cy, false);
}

// MVI M stores the immediate byte at the address in H:L.
#[test]
fn mvi_to_memory() {
    let mut emu = State::new(vec![0x36, 0x99, 0x76, 0x00]);
    emu.h = 0x00;
    emu.l = 0x03;

    emu.start().unwrap();
    assert_eq!(emu.mem[3], 0x99);
    assert_eq!(emu.pc, 2);
}
