use chip8::decode::Error;
use chip8::vm::Chip8;
use chip8::vm::MEM_SIZE;
use chip8::vm::ROM_ADDR;

fn vm() -> Chip8 {
    Chip8::new(0)
}

/// Runs one instruction word and asserts it succeeded.
fn step(c: &mut Chip8, w0: u8, w1: u8) -> usize {
    c.exec(w0, w1).expect("instruction should execute")
}

#[test]
fn new_machine_state() {
    let c = vm();
    assert_eq!(c.pc, ROM_ADDR as u16);
    assert_eq!(c.i, 0);
    assert_eq!(c.sp, 0);
    assert_eq!(c.dt, 0);
    assert_eq!(c.st, 0);
    assert!(!c.tone());
    assert_eq!(c.mem.len(), MEM_SIZE);
    // Built-in glyphs: digit 0 starts with 0xF0, digit 1 with 0x20.
    assert_eq!(c.mem[0], 0xF0);
    assert_eq!(c.mem[5], 0x20);
    assert_eq!(&c.mem[75..80], &[0xF0, 0x80, 0xF0, 0x80, 0x80]);
    assert!(c.mem[80..].iter().all(|&b| b == 0));
    assert!(c.fb().iter().all(|&b| b == 0));
    assert!(c.v.0.iter().all(|&b| b == 0));
}

#[test]
fn load_rom_fits_exactly() {
    let mut c = vm();
    let rom = vec![0xAB; MEM_SIZE - ROM_ADDR];
    assert!(c.load_rom(&rom).is_ok());
    assert_eq!(c.mem[ROM_ADDR], 0xAB);
    assert_eq!(c.mem[MEM_SIZE - 1], 0xAB);
    assert_eq!(c.mem[ROM_ADDR - 1], 0);
}

#[test]
fn load_rom_too_big_is_rejected_unchanged() {
    let mut c = vm();
    let rom = vec![0xAB; MEM_SIZE - ROM_ADDR + 1];
    let r = c.load_rom(&rom);
    assert_eq!(r, Err(Error::RomTooBig(MEM_SIZE - ROM_ADDR + 1)));
    assert!(c.mem[ROM_ADDR..].iter().all(|&b| b == 0));
    assert_eq!(c.pc, ROM_ADDR as u16);
}

#[test]
fn load_imm_and_assign() {
    let mut c = vm();
    step(&mut c, 0x61, 0x2A); // V1 = 0x2A
    assert_eq!(c.v.0[1], 0x2A);
    assert_eq!(c.pc, 0x202);
    step(&mut c, 0x82, 0x10); // V2 = V1
    assert_eq!(c.v.0[2], 0x2A);
}

#[test]
fn add_imm_wraps_without_flag() {
    let mut c = vm();
    step(&mut c, 0x60, 0xFF); // V0 = 255
    step(&mut c, 0x6F, 0x07); // VF = 7 (to see it stays)
    step(&mut c, 0x70, 0x03); // V0 += 3, no flag update
    assert_eq!(c.v.0[0], 2); // (255 + 3) mod 256
    assert_eq!(c.v.0[15], 7); // VF untouched by 7xkk
}

#[test]
fn add_reg_sets_carry() {
    let mut c = vm();
    step(&mut c, 0x60, 0xC8); // V0 = 200
    step(&mut c, 0x61, 0x64); // V1 = 100
    step(&mut c, 0x80, 0x14); // V0 += V1 with carry
    assert_eq!(c.v.0[0], 44); // (200 + 100) mod 256
    assert_eq!(c.v.0[15], 1); // sum exceeded 255
}

#[test]
fn add_reg_clears_carry_when_no_overflow() {
    let mut c = vm();
    step(&mut c, 0x6F, 0x01); // VF = 1 beforehand
    step(&mut c, 0x60, 0x05);
    step(&mut c, 0x61, 0x06);
    step(&mut c, 0x80, 0x14);
    assert_eq!(c.v.0[0], 11);
    assert_eq!(c.v.0[15], 0);
}

#[test]
fn sub_sets_not_borrow() {
    let mut c = vm();
    step(&mut c, 0x60, 0x0A); // V0 = 10
    step(&mut c, 0x61, 0x03); // V1 = 3
    step(&mut c, 0x80, 0x15); // V0 -= V1
    assert_eq!(c.v.0[0], 7);
    assert_eq!(c.v.0[15], 1); // V0 >= V1: no borrow
}

#[test]
fn sub_with_borrow() {
    let mut c = vm();
    step(&mut c, 0x60, 0x03);
    step(&mut c, 0x61, 0x0A);
    step(&mut c, 0x80, 0x15);
    assert_eq!(c.v.0[0], 249); // (3 - 10) mod 256
    assert_eq!(c.v.0[15], 0); // borrow occurred
}

#[test]
fn sub_equal_values_no_borrow() {
    let mut c = vm();
    step(&mut c, 0x60, 0x55);
    step(&mut c, 0x61, 0x55);
    step(&mut c, 0x80, 0x15);
    assert_eq!(c.v.0[0], 0);
    assert_eq!(c.v.0[15], 1); // Vx >= subtrahend
}

#[test]
fn subn_reversed_operands() {
    let mut c = vm();
    step(&mut c, 0x60, 0x03); // V0 = 3
    step(&mut c, 0x61, 0x0A); // V1 = 10
    step(&mut c, 0x80, 0x17); // V0 = V1 - V0
    assert_eq!(c.v.0[0], 7);
    assert_eq!(c.v.0[15], 1);
}

#[test]
fn shift_right_keeps_low_bit_in_vf() {
    let mut c = vm();
    step(&mut c, 0x60, 0x0B); // V0 = 0b1011
    step(&mut c, 0x80, 0x06); // V0 >>= 1
    assert_eq!(c.v.0[0], 0x05);
    assert_eq!(c.v.0[15], 1);
    step(&mut c, 0x80, 0x06);
    assert_eq!(c.v.0[0], 0x02);
    assert_eq!(c.v.0[15], 1);
    step(&mut c, 0x80, 0x06);
    assert_eq!(c.v.0[0], 0x01);
    assert_eq!(c.v.0[15], 0);
}

#[test]
fn shift_left_keeps_high_bit_in_vf() {
    let mut c = vm();
    step(&mut c, 0x60, 0x81); // V0 = 0b1000_0001
    step(&mut c, 0x80, 0x0E); // V0 <<= 1
    assert_eq!(c.v.0[0], 0x02);
    assert_eq!(c.v.0[15], 1);
    step(&mut c, 0x80, 0x0E);
    assert_eq!(c.v.0[0], 0x04);
    assert_eq!(c.v.0[15], 0);
}

#[test]
fn bitwise_or_and_xor() {
    let mut c = vm();
    step(&mut c, 0x60, 0b1100);
    step(&mut c, 0x61, 0b1010);
    step(&mut c, 0x80, 0x11); // OR
    assert_eq!(c.v.0[0], 0b1110);
    step(&mut c, 0x80, 0x12); // AND
    assert_eq!(c.v.0[0], 0b1010);
    step(&mut c, 0x80, 0x13); // XOR
    assert_eq!(c.v.0[0], 0);
}

#[test]
fn skips_take_four_else_two() {
    let mut c = vm();
    step(&mut c, 0x60, 0x42);
    let pc = c.pc;
    step(&mut c, 0x30, 0x42); // equal: skip
    assert_eq!(c.pc, pc + 4);
    let pc = c.pc;
    step(&mut c, 0x30, 0x41); // not equal: no skip
    assert_eq!(c.pc, pc + 2);
    let pc = c.pc;
    step(&mut c, 0x40, 0x41); // not equal: skip
    assert_eq!(c.pc, pc + 4);
    step(&mut c, 0x61, 0x42);
    let pc = c.pc;
    step(&mut c, 0x50, 0x10); // V0 == V1: skip
    assert_eq!(c.pc, pc + 4);
    let pc = c.pc;
    step(&mut c, 0x90, 0x10); // V0 == V1: no skip
    assert_eq!(c.pc, pc + 2);
}

#[test]
fn jump_call_and_return() {
    let mut c = vm();
    step(&mut c, 0x1A, 0xBC);
    assert_eq!(c.pc, 0xABC);
    step(&mut c, 0x23, 0x00); // call 0x300
    assert_eq!(c.pc, 0x300);
    assert_eq!(c.sp, 1);
    assert_eq!(c.stack[0], 0xABE); // return address is 0xABC + 2
    step(&mut c, 0x00, 0xEE); // return
    assert_eq!(c.pc, 0xABE);
    assert_eq!(c.sp, 0);
}

#[test]
fn jump_plus_v0() {
    let mut c = vm();
    step(&mut c, 0x60, 0x10); // V0 = 0x10
    step(&mut c, 0xB2, 0x00); // jump to V0 + 0x200
    assert_eq!(c.pc, 0x210);
}

#[test]
fn return_with_empty_stack_is_fatal() {
    let mut c = vm();
    let r = c.exec(0x00, 0xEE);
    assert_eq!(r, Err(Error::StackUnderflow(0x200)));
    assert_eq!(c.pc, 0x200); // unchanged
}

#[test]
fn seventeenth_nested_call_is_fatal() {
    let mut c = vm();
    for _ in 0..16 {
        step(&mut c, 0x23, 0x00);
    }
    assert_eq!(c.sp, 16);
    let r = c.exec(0x23, 0x00);
    assert_eq!(r, Err(Error::StackOverflow(0x300)));
    assert_eq!(c.sp, 16);
}

#[test]
fn invalid_opcode_is_fatal_and_carries_bytes() {
    let mut c = vm();
    let r = c.exec(0x81, 0x29);
    assert_eq!(r, Err(Error::InvalidOp(0x81, 0x29)));
    assert_eq!(c.pc, 0x200);
}

#[test]
fn sys_word_is_a_no_op() {
    let mut c = vm();
    let adv = step(&mut c, 0x02, 0x34);
    assert_eq!(adv, 100);
    assert_eq!(c.pc, 0x200); // the legacy call does not even advance
}

#[test]
fn index_register_ops() {
    let mut c = vm();
    step(&mut c, 0xA1, 0x23); // I = 0x123
    assert_eq!(c.i, 0x123);
    step(&mut c, 0x60, 0x05);
    step(&mut c, 0xF0, 0x1E); // I += V0
    assert_eq!(c.i, 0x128);
    step(&mut c, 0x60, 0x07);
    step(&mut c, 0xF0, 0x29); // I = glyph address of digit 7
    assert_eq!(c.i, 35);
    assert_eq!(&c.mem[35..40], &[0xF0, 0x10, 0x20, 0x40, 0x40]);
}

#[test]
fn timers_read_and_write() {
    let mut c = vm();
    step(&mut c, 0x60, 0x33);
    step(&mut c, 0xF0, 0x15); // DT = V0
    assert_eq!(c.dt, 0x33);
    step(&mut c, 0xF0, 0x18); // ST = V0
    assert_eq!(c.st, 0x33);
    step(&mut c, 0xF1, 0x07); // V1 = DT
    assert_eq!(c.v.0[1], 0x33);
}

#[test]
fn bcd_of_255() {
    let mut c = vm();
    step(&mut c, 0x60, 0xFF); // V0 = 255
    step(&mut c, 0xA3, 0x00); // I = 0x300
    step(&mut c, 0xF0, 0x33); // BCD
    assert_eq!(&c.mem[0x300..0x303], &[2, 5, 5]);
}

#[test]
fn bcd_of_small_values() {
    let mut c = vm();
    step(&mut c, 0x60, 0x07); // V0 = 7
    step(&mut c, 0xA3, 0x00);
    step(&mut c, 0xF0, 0x33);
    assert_eq!(&c.mem[0x300..0x303], &[0, 0, 7]);
    step(&mut c, 0x60, 0x2A); // V0 = 42
    step(&mut c, 0xF0, 0x33);
    assert_eq!(&c.mem[0x300..0x303], &[0, 4, 2]);
}

#[test]
fn bcd_past_end_of_memory_is_fatal() {
    let mut c = vm();
    step(&mut c, 0xAF, 0xFE); // I = 0xFFE: only two bytes remain
    let r = c.exec(0xF0, 0x33);
    assert_eq!(r, Err(Error::MemOutOfBounds(0xFFE)));
}

#[test]
fn store_then_load_registers_round_trips() {
    let mut c = vm();
    for x in 0..=7u8 {
        step(&mut c, 0x60 | x, 0x11 * (x + 1)); // Vx = x'th pattern
    }
    step(&mut c, 0xA3, 0x00); // I = 0x300
    step(&mut c, 0xF7, 0x55); // store V0..=V7
    assert_eq!(
        &c.mem[0x300..0x308],
        &[0x11, 0x22, 0x33, 0x44, 0x55, 0x66, 0x77, 0x88]
    );
    for x in 0..=7u8 {
        step(&mut c, 0x60 | x, 0x00); // clobber Vx
    }
    step(&mut c, 0xF7, 0x65); // load V0..=V7 back
    for x in 0..=7usize {
        assert_eq!(c.v.0[x], 0x11 * (x as u8 + 1));
    }
    assert_eq!(c.v.0[8], 0); // registers above Vx untouched
}

#[test]
fn store_registers_past_end_of_memory_is_fatal() {
    let mut c = vm();
    step(&mut c, 0xAF, 0xFF); // I = 0xFFF
    let r = c.exec(0xF1, 0x55); // would write 0xFFF and 0x1000
    assert_eq!(r, Err(Error::MemOutOfBounds(0xFFF)));
    let r = c.exec(0xF0, 0x55); // writes only 0xFFF: fine
    assert!(r.is_ok());
    assert_eq!(c.mem[0xFFF], 0);
}

#[test]
fn random_is_masked() {
    let mut c = vm();
    step(&mut c, 0xC0, 0x00); // V0 = random & 0x00
    assert_eq!(c.v.0[0], 0);
    step(&mut c, 0xC1, 0x0F); // V1 = random & 0x0F
    assert!(c.v.0[1] <= 0x0F);
    assert_eq!(c.pc, 0x204);
}

#[test]
fn random_is_reproducible_for_a_seed() {
    let mut a = Chip8::new(42);
    let mut b = Chip8::new(42);
    for _ in 0..8 {
        a.exec(0xC0, 0xFF).unwrap();
        b.exec(0xC0, 0xFF).unwrap();
        assert_eq!(a.v.0[0], b.v.0[0]);
    }
}

#[test]
fn key_skips_consult_keypad() {
    let mut c = vm();
    c.keypad = 1 << 0x5;
    step(&mut c, 0x60, 0x05); // V0 = 5
    let pc = c.pc;
    step(&mut c, 0xE0, 0x9E); // key 5 pressed: skip
    assert_eq!(c.pc, pc + 4);
    let pc = c.pc;
    step(&mut c, 0xE0, 0xA1); // not-pressed test fails: no skip
    assert_eq!(c.pc, pc + 2);
    c.keypad = 0;
    let pc = c.pc;
    step(&mut c, 0xE0, 0x9E);
    assert_eq!(c.pc, pc + 2);
}

#[test]
fn wait_key_blocks_until_pressed() {
    let mut c = vm();
    let pc = c.pc;
    step(&mut c, 0xF0, 0x0A); // no key: pc must not advance
    assert_eq!(c.pc, pc);
    c.keypad = (1 << 0xA) | (1 << 0xC);
    step(&mut c, 0xF0, 0x0A); // lowest pressed key is stored
    assert_eq!(c.v.0[0], 0xA);
    assert_eq!(c.pc, pc + 2);
}

#[test]
fn clear_display_zeroes_framebuffer() {
    let mut c = vm();
    step(&mut c, 0x60, 0x00);
    step(&mut c, 0xD0, 0x05); // draw glyph 0 at (0, 0); I is 0 already
    assert!(c.fb().iter().any(|&b| b != 0));
    step(&mut c, 0x00, 0xE0);
    assert!(c.fb().iter().all(|&b| b == 0));
}

#[test]
fn draw_aligned_glyph_byte() {
    let mut c = vm();
    // I = 0 points at glyph 0, whose first byte is 0xF0.
    step(&mut c, 0x60, 0x00); // V0 = 0
    step(&mut c, 0xD0, 0x01); // draw 1 row at (0, 0)
    assert_eq!(c.fb()[0], 0xF0);
    assert_eq!(c.v.0[15], 0); // nothing was lit before
    step(&mut c, 0xD0, 0x01); // draw again: XOR toggles off
    assert_eq!(c.fb()[0], 0x00);
    assert_eq!(c.v.0[15], 1); // the top four bits overlapped
}

#[test]
fn draw_near_right_edge_splits_and_wraps() {
    let mut c = vm();
    step(&mut c, 0x60, 0x3C); // V0 = 60
    step(&mut c, 0x61, 0x00); // V1 = 0
    step(&mut c, 0xD0, 0x11); // draw 1 row of glyph 0 (0xF0) at (60, 0)
    // x = 60: shift 4, byte column 7 takes 0xF0 >> 4, column 0 takes the rest.
    assert_eq!(c.fb()[7], 0x0F);
    assert_eq!(c.fb()[0], 0x00); // 0xF0 << 4 is zero: nothing wraps visibly
    step(&mut c, 0xA0, 0x05); // I = 5: glyph 1, first byte 0x20
    step(&mut c, 0xD0, 0x11);
    assert_eq!(c.fb()[7], 0x0F ^ 0x02); // 0x20 >> 4
    assert_eq!(c.fb()[0], 0x00);
    assert_eq!(c.v.0[15], 1); // the incoming bit overlapped a lit pixel
}

#[test]
fn draw_wraps_bits_into_column_zero() {
    let mut c = vm();
    // Build a 0xFF sprite row in memory via BCD-free writes: store V0 = 0xFF
    // at 0x300 with Fx55.
    step(&mut c, 0x60, 0xFF);
    step(&mut c, 0xA3, 0x00);
    step(&mut c, 0xF0, 0x55); // mem[0x300] = 0xFF
    step(&mut c, 0x60, 0x3C); // V0 = 60
    step(&mut c, 0x61, 0x00);
    step(&mut c, 0xD0, 0x11); // draw it at (60, 0)
    assert_eq!(c.fb()[7], 0x0F); // right half of the byte
    assert_eq!(c.fb()[0], 0xF0); // wrapped into column 0
    assert_eq!(c.v.0[15], 0);
}

#[test]
fn draw_wraps_rows_vertically() {
    let mut c = vm();
    // Glyph 0 is 5 rows; drawing at y = 30 puts rows at 30, 31, 0, 1, 2.
    step(&mut c, 0x60, 0x00); // V0 = 0 (x)
    step(&mut c, 0x61, 0x1E); // V1 = 30 (y)
    step(&mut c, 0xD0, 0x15); // draw glyph 0 (I = 0), 5 rows
    assert_eq!(c.fb()[30 * 8], 0xF0);
    assert_eq!(c.fb()[31 * 8], 0x90);
    assert_eq!(c.fb()[0], 0x90);
    assert_eq!(c.fb()[8], 0x90);
    assert_eq!(c.fb()[16], 0xF0);
}

#[test]
fn draw_collision_flag_reports_any_overlap() {
    let mut c = vm();
    step(&mut c, 0x60, 0x00);
    step(&mut c, 0xD0, 0x05); // glyph 0 at (0,0)
    step(&mut c, 0x62, 0x02); // V2 = 2
    step(&mut c, 0xD2, 0x01); // glyph 0 row again at (2,0): overlaps
    assert_eq!(c.v.0[15], 1);
}

#[test]
fn draw_past_end_of_memory_is_fatal() {
    let mut c = vm();
    step(&mut c, 0xAF, 0xFF); // I = 0xFFF
    let r = c.exec(0xD0, 0x02); // two rows would read 0xFFF and 0x1000
    assert_eq!(r, Err(Error::MemOutOfBounds(0xFFF)));
}

#[test]
fn add_imm_into_vf_keeps_the_sum() {
    let mut c = vm();
    step(&mut c, 0x6F, 0xFE); // VF = 254
    step(&mut c, 0x7F, 0x05); // VF += 5 without flag update
    assert_eq!(c.v.0[15], 3); // (254 + 5) mod 256
}

#[test]
fn add_reg_into_vf_leaves_the_carry() {
    let mut c = vm();
    step(&mut c, 0x60, 0xC8); // V0 = 200
    step(&mut c, 0x6F, 0x64); // VF = 100
    step(&mut c, 0x8F, 0x04); // VF += V0 with carry: the flag wins
    assert_eq!(c.v.0[15], 1);
}

#[test]
fn shift_right_of_vf_shifts_the_flag_write() {
    let mut c = vm();
    step(&mut c, 0x6F, 0x03); // VF = 3
    step(&mut c, 0x8F, 0x06); // VF = (VF & 1) >> 1, per the flag-first order
    assert_eq!(c.v.0[15], 0);
}
