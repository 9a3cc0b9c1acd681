use chip8_core::Emu;
use chip8_core::EmuError;
use chip8_core::Op;
use chip8_core::FONTSET_SIZE;
use chip8_core::RAM_SIZE;
use chip8_core::SCREEN_SIZE;
use chip8_core::STACK_SIZE;
use chip8_core::START_ADDR;

/// Write one 16-bit instruction word at a RAM address, high byte first.
fn write_op(e: &mut Emu, addr: usize, word: u16) {
    e.ram[addr] = (word >> 8) as u8;
    e.ram[addr + 1] = (word & 0xFF) as u8;
}

fn entry() -> usize {
    START_ADDR as usize
}

#[test]
fn new_starts_at_entry_with_font_installed() {
    let e = Emu::new();
    assert_eq!(e.pc, START_ADDR);
    assert_eq!(e.sp, 0);
    assert_eq!(e.i_reg, 0);
    assert_eq!(e.dt, 0);
    assert_eq!(e.st, 0);
    // First sprite (digit 0) and last sprite byte (digit F).
    assert_eq!(&e.ram[0..5], &[0xF0, 0x90, 0x90, 0x90, 0xF0]);
    assert_eq!(e.ram[FONTSET_SIZE - 1], 0x80);
    assert!(e.ram[FONTSET_SIZE..].iter().all(|&b| b == 0));
    assert!(e.v_reg.iter().all(|&v| v == 0));
    assert!(e.stack.iter().all(|&s| s == 0));
    assert!(e.keys.iter().all(|&k| !k));
    assert!(e.screen.iter().all(|&p| !p));
}

#[test]
fn reset_restores_construction_state() {
    let mut e = Emu::new();
    e.pc = 0x400;
    e.ram[0x300] = 0xAB;
    e.screen[17] = true;
    e.v_reg[3] = 99;
    e.i_reg = 0x123;
    e.sp = 4;
    e.stack[0] = 0x222;
    e.keys[7] = true;
    e.dt = 9;
    e.st = 9;
    e.reset();
    let f = Emu::new();
    assert_eq!(e.pc, f.pc);
    assert_eq!(e.ram[..], f.ram[..]);
    assert_eq!(e.screen[..], f.screen[..]);
    assert_eq!(e.v_reg, f.v_reg);
    assert_eq!(e.i_reg, f.i_reg);
    assert_eq!(e.sp, f.sp);
    assert_eq!(e.stack, f.stack);
    assert_eq!(e.keys, f.keys);
    assert_eq!(e.dt, f.dt);
    assert_eq!(e.st, f.st);
}

#[test]
fn nop_changes_nothing_but_pc() {
    let mut e = Emu::new();
    // RAM at the entry address is all zero, so the next word is 0x0000.
    e.tick();
    assert_eq!(e.pc, START_ADDR + 2);
    assert!(e.v_reg.iter().all(|&v| v == 0));
    assert_eq!(e.sp, 0);
}

#[test]
fn load_immediate_writes_register() {
    let mut e = Emu::new();
    write_op(&mut e, entry(), 0x6005);
    e.tick();
    assert_eq!(e.v_reg[0], 5);
    assert_eq!(e.pc, START_ADDR + 2);
}

#[test]
fn load_immediate_every_register() {
    let mut e = Emu::new();
    for x in 0..16u16 {
        e.pc = START_ADDR;
        let nn = 0x10 + x;
        write_op(&mut e, entry(), 0x6000 | (x << 8) | nn);
        e.tick();
        assert_eq!(e.v_reg[x as usize], nn as u8);
    }
}

#[test]
fn add_immediate_wraps_without_carry() {
    let mut e = Emu::new();
    e.v_reg[2] = 0xFF;
    e.v_reg[0xF] = 0;
    write_op(&mut e, entry(), 0x7203);
    e.tick();
    assert_eq!(e.v_reg[2], 0x02);
    // No carry flag from 7XNN.
    assert_eq!(e.v_reg[0xF], 0);
}

#[test]
fn copy_register() {
    let mut e = Emu::new();
    e.v_reg[1] = 0x42;
    write_op(&mut e, entry(), 0x8310);
    e.tick();
    assert_eq!(e.v_reg[3], 0x42);
    assert_eq!(e.v_reg[1], 0x42);
}

#[test]
fn bitwise_or() {
    let mut e = Emu::new();
    e.v_reg[0] = 0b1010_0000;
    e.v_reg[1] = 0b0000_1010;
    write_op(&mut e, entry(), 0x8011);
    e.tick();
    assert_eq!(e.v_reg[0], 0b1010_1010);
    assert_eq!(e.v_reg[1], 0b0000_1010);
}

#[test]
fn bitwise_and() {
    let mut e = Emu::new();
    e.v_reg[4] = 0b1100_1100;
    e.v_reg[5] = 0b1010_1010;
    write_op(&mut e, entry(), 0x8452);
    e.tick();
    assert_eq!(e.v_reg[4], 0b1000_1000);
}

#[test]
fn bitwise_xor() {
    let mut e = Emu::new();
    e.v_reg[6] = 0b1100_1100;
    e.v_reg[7] = 0b1010_1010;
    write_op(&mut e, entry(), 0x8673);
    e.tick();
    assert_eq!(e.v_reg[6], 0b0110_0110);
}

#[test]
fn add_with_carry_overflow_sets_flag() {
    let mut e = Emu::new();
    e.v_reg[0] = 200;
    e.v_reg[1] = 100;
    write_op(&mut e, entry(), 0x8014);
    e.tick();
    assert_eq!(e.v_reg[0], 44); // 300 mod 256
    assert_eq!(e.v_reg[0xF], 1);
}

#[test]
fn add_with_carry_no_overflow_clears_flag() {
    let mut e = Emu::new();
    e.v_reg[0] = 200;
    e.v_reg[1] = 55;
    e.v_reg[0xF] = 1;
    write_op(&mut e, entry(), 0x8014);
    e.tick();
    assert_eq!(e.v_reg[0], 255);
    assert_eq!(e.v_reg[0xF], 0);
}

#[test]
fn add_with_carry_exact_boundary() {
    let mut e = Emu::new();
    e.v_reg[2] = 255;
    e.v_reg[3] = 1;
    write_op(&mut e, entry(), 0x8234);
    e.tick();
    assert_eq!(e.v_reg[2], 0);
    assert_eq!(e.v_reg[0xF], 1);
}

#[test]
fn clear_screen_turns_every_cell_off() {
    let mut e = Emu::new();
    for cell in e.screen.iter_mut() {
        *cell = true;
    }
    write_op(&mut e, entry(), 0x00E0);
    e.tick();
    assert!(e.screen.iter().all(|&p| !p));
    assert_eq!(e.screen.len(), SCREEN_SIZE);
    assert_eq!(e.pc, START_ADDR + 2);
}

#[test]
fn jump_sets_pc() {
    let mut e = Emu::new();
    write_op(&mut e, entry(), 0x1ABC);
    e.tick();
    assert_eq!(e.pc, 0xABC);
}

#[test]
fn call_pushes_return_address_and_jumps() {
    let mut e = Emu::new();
    write_op(&mut e, entry(), 0x2300);
    e.tick();
    assert_eq!(e.pc, 0x300);
    assert_eq!(e.sp, 1);
    assert_eq!(e.stack[0], START_ADDR + 2);
}

#[test]
fn call_then_return_resumes_after_call() {
    let mut e = Emu::new();
    write_op(&mut e, entry(), 0x2300);
    write_op(&mut e, 0x300, 0x00EE);
    e.tick();
    e.tick();
    assert_eq!(e.pc, START_ADDR + 2);
    assert_eq!(e.sp, 0);
}

#[test]
fn skip_eq_imm_taken_advances_by_four() {
    let mut e = Emu::new();
    e.v_reg[1] = 0x33;
    write_op(&mut e, entry(), 0x3133);
    e.tick();
    assert_eq!(e.pc, START_ADDR + 4);
}

#[test]
fn skip_eq_imm_not_taken_advances_by_two() {
    let mut e = Emu::new();
    e.v_reg[1] = 0x34;
    write_op(&mut e, entry(), 0x3133);
    e.tick();
    assert_eq!(e.pc, START_ADDR + 2);
}

#[test]
fn skip_ne_imm_taken_advances_by_four() {
    let mut e = Emu::new();
    e.v_reg[1] = 0x34;
    write_op(&mut e, entry(), 0x4133);
    e.tick();
    assert_eq!(e.pc, START_ADDR + 4);
}

#[test]
fn skip_ne_imm_not_taken_advances_by_two() {
    let mut e = Emu::new();
    e.v_reg[1] = 0x33;
    write_op(&mut e, entry(), 0x4133);
    e.tick();
    assert_eq!(e.pc, START_ADDR + 2);
}

#[test]
fn skip_eq_reg_taken_advances_by_four() {
    let mut e = Emu::new();
    e.v_reg[1] = 7;
    e.v_reg[2] = 7;
    write_op(&mut e, entry(), 0x5120);
    e.tick();
    assert_eq!(e.pc, START_ADDR + 4);
}

#[test]
fn skip_eq_reg_not_taken_advances_by_two() {
    let mut e = Emu::new();
    e.v_reg[1] = 7;
    e.v_reg[2] = 8;
    write_op(&mut e, entry(), 0x5120);
    e.tick();
    assert_eq!(e.pc, START_ADDR + 2);
}

#[test]
fn timers_decrement_and_saturate() {
    let mut e = Emu::new();
    e.dt = 0;
    e.st = 0;
    e.tick_timers();
    assert_eq!(e.dt, 0);
    assert_eq!(e.st, 0);
    e.dt = 5;
    e.st = 2;
    e.tick_timers();
    assert_eq!(e.dt, 4);
    assert_eq!(e.st, 1);
    e.tick_timers();
    assert_eq!(e.dt, 3);
    assert_eq!(e.st, 0);
    e.tick_timers();
    assert_eq!(e.dt, 2);
    assert_eq!(e.st, 0);
}

#[test]
fn scenario_load_immediate_at_entry() {
    let mut e = Emu::new();
    e.ram[entry()] = 0x60;
    e.ram[entry() + 1] = 0x05;
    e.tick();
    assert_eq!(e.v_reg[0], 5);
    assert_eq!(e.pc, START_ADDR + 2);
}

#[test]
fn scenario_clear_screen_at_entry() {
    let mut e = Emu::new();
    for cell in e.screen.iter_mut() {
        *cell = true;
    }
    e.ram[entry()] = 0x00;
    e.ram[entry() + 1] = 0xE0;
    e.tick();
    assert!(e.screen.iter().all(|&p| !p));
}

#[test]
fn try_tick_succeeds_like_tick() {
    let mut e = Emu::new();
    write_op(&mut e, entry(), 0x6A42);
    assert_eq!(e.try_tick(), Ok(()));
    assert_eq!(e.v_reg[0xA], 0x42);
    assert_eq!(e.pc, START_ADDR + 2);
}

#[test]
fn try_tick_reports_unknown_opcode() {
    let mut e = Emu::new();
    write_op(&mut e, entry(), 0x9120);
    assert_eq!(e.try_tick(), Err(EmuError::UnknownOpcode));
    // The machine is left untouched.
    assert_eq!(e.pc, START_ADDR);
}

#[test]
fn try_tick_reports_unknown_opcode_in_zero_family() {
    let mut e = Emu::new();
    write_op(&mut e, entry(), 0x00EF);
    assert_eq!(e.try_tick(), Err(EmuError::UnknownOpcode));
}

#[test]
fn try_tick_reports_stack_underflow() {
    let mut e = Emu::new();
    write_op(&mut e, entry(), 0x00EE);
    assert_eq!(e.try_tick(), Err(EmuError::StackUnderflow));
    assert_eq!(e.pc, START_ADDR);
}

#[test]
fn try_tick_reports_stack_overflow() {
    let mut e = Emu::new();
    // Sixteen nested calls fill the stack...
    for depth in 0..STACK_SIZE {
        let here = e.pc as usize;
        write_op(&mut e, here, 0x2000 | (0x300 + 2 * depth as u16));
        assert_eq!(e.try_tick(), Ok(()));
    }
    assert_eq!(e.sp, STACK_SIZE as u16);
    // ...and the seventeenth is fatal.
    let here = e.pc as usize;
    write_op(&mut e, here, 0x2500);
    assert_eq!(e.try_tick(), Err(EmuError::StackOverflow));
    assert_eq!(e.sp, STACK_SIZE as u16);
}

#[test]
fn try_tick_reports_pc_out_of_range() {
    let mut e = Emu::new();
    e.pc = (RAM_SIZE - 1) as u16;
    assert_eq!(e.try_tick(), Err(EmuError::PcOutOfRange));
    assert_eq!(e.pc, (RAM_SIZE - 1) as u16);
}

#[test]
fn decode_word_recognises_each_pattern() {
    assert_eq!(chip8_core::decode_word(0x0000), Some(Op::Nop));
    assert_eq!(chip8_core::decode_word(0x00E0), Some(Op::ClearScreen));
    assert_eq!(chip8_core::decode_word(0x00EE), Some(Op::Return));
    assert_eq!(chip8_core::decode_word(0x1234), Some(Op::Jump(0x234)));
    assert_eq!(chip8_core::decode_word(0x2ABC), Some(Op::Call(0xABC)));
    assert_eq!(chip8_core::decode_word(0x31FF), Some(Op::SkipEqImm(1, 0xFF)));
    assert_eq!(chip8_core::decode_word(0x4207), Some(Op::SkipNeImm(2, 0x07)));
    assert_eq!(chip8_core::decode_word(0x5340), Some(Op::SkipEqReg(3, 4)));
    assert_eq!(chip8_core::decode_word(0x6512), Some(Op::LoadImm(5, 0x12)));
    assert_eq!(chip8_core::decode_word(0x7F01), Some(Op::AddImm(0xF, 0x01)));
    assert_eq!(chip8_core::decode_word(0x8120), Some(Op::Copy(1, 2)));
    assert_eq!(chip8_core::decode_word(0x8121), Some(Op::Or(1, 2)));
    assert_eq!(chip8_core::decode_word(0x8122), Some(Op::And(1, 2)));
    assert_eq!(chip8_core::decode_word(0x8123), Some(Op::Xor(1, 2)));
    assert_eq!(chip8_core::decode_word(0x8124), Some(Op::AddCarry(1, 2)));
}

#[test]
fn decode_word_rejects_unknown_patterns() {
    assert_eq!(chip8_core::decode_word(0x0001), None);
    assert_eq!(chip8_core::decode_word(0x00E1), None);
    assert_eq!(chip8_core::decode_word(0x5341), None);
    assert_eq!(chip8_core::decode_word(0x8125), None);
    assert_eq!(chip8_core::decode_word(0x9000), None);
    assert_eq!(chip8_core::decode_word(0xA000), None);
    assert_eq!(chip8_core::decode_word(0xFFFF), None);
}
