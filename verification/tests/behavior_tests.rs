use chip8::cpu::{Cpu, Fault};
use chip8::keyboard::Key;

fn fresh_cpu() -> Cpu {
    let mut cpu = Cpu::default();
    cpu.load_fonts();
    cpu
}

/// Add with carry: 200 + 100 overflows, so the flag is 1 and the stored
/// sum is 300 mod 256 = 44.
#[test]
fn add_with_carry_sets_flag() {
    let mut cpu = fresh_cpu();
    cpu.v[4] = 200;
    cpu.v[5] = 100;
    cpu.load_rom(&[0x84, 0x54]);

    cpu.tick(vec![]).unwrap();

    assert_eq!(cpu.v[4], 44);
    assert_eq!(cpu.v[15], 1);
    assert_eq!(cpu.pc, 0x202);
}

/// Add without carry: 20 + 30 = 50 and the flag is 0.
#[test]
fn add_without_carry_clears_flag() {
    let mut cpu = fresh_cpu();
    cpu.v[4] = 20;
    cpu.v[5] = 30;
    cpu.load_rom(&[0x84, 0x54]);

    cpu.tick(vec![]).unwrap();

    assert_eq!(cpu.v[4], 50);
    assert_eq!(cpu.v[15], 0);
}

/// Subtract with no borrow: 7 - 5 = 2 and the flag is 1 (7 > 5).
#[test]
fn subtract_no_borrow_sets_flag() {
    let mut cpu = fresh_cpu();
    cpu.v[4] = 7;
    cpu.v[5] = 5;
    cpu.load_rom(&[0x84, 0x55]);

    cpu.tick(vec![]).unwrap();

    assert_eq!(cpu.v[4], 2);
    assert_eq!(cpu.v[15], 1);
}

/// Subtract with borrow: 5 - 7 wraps to 254 and the flag is 0.
#[test]
fn subtract_with_borrow_clears_flag() {
    let mut cpu = fresh_cpu();
    cpu.v[4] = 5;
    cpu.v[5] = 7;
    cpu.load_rom(&[0x84, 0x55]);

    cpu.tick(vec![]).unwrap();

    assert_eq!(cpu.v[4], 254);
    assert_eq!(cpu.v[15], 0);
}

/// Subtract of equal values: flag is 0 (strict comparison), result 0.
#[test]
fn subtract_equal_clears_flag() {
    let mut cpu = fresh_cpu();
    cpu.v[4] = 9;
    cpu.v[5] = 9;
    cpu.load_rom(&[0x84, 0x55]);

    cpu.tick(vec![]).unwrap();

    assert_eq!(cpu.v[4], 0);
    assert_eq!(cpu.v[15], 0);
}

/// Shift right shifts the source register `y` into `x`; the flag takes
/// the bit shifted out.
#[test]
fn shift_right_uses_source_register() {
    let mut cpu = fresh_cpu();
    cpu.v[4] = 0xFF;
    cpu.v[5] = 0b0000_0101;
    cpu.load_rom(&[0x84, 0x56]);

    cpu.tick(vec![]).unwrap();

    assert_eq!(cpu.v[4], 0b0000_0010);
    assert_eq!(cpu.v[15], 1);
}

/// Shift left shifts the source register `y` into `x`; the flag takes the
/// bit shifted out.
#[test]
fn shift_left_uses_source_register() {
    let mut cpu = fresh_cpu();
    cpu.v[4] = 0xFF;
    cpu.v[5] = 0b1100_0000;
    cpu.load_rom(&[0x84, 0x5E]);

    cpu.tick(vec![]).unwrap();

    assert_eq!(cpu.v[4], 0b1000_0000);
    assert_eq!(cpu.v[15], 1);
}

/// Drawing the same sprite twice at the same position restores the blank
/// screen, and the second draw's collision flag reports the pixels the
/// first draw lit.
#[test]
fn draw_twice_restores_screen() {
    let mut cpu = fresh_cpu();
    cpu.v[0] = 10;
    cpu.v[1] = 5;
    cpu.i = 0; // glyph 0 of the font table, 5 rows

    let _ = cpu.i_dxyn(0, 1, 5);
    assert!(cpu.vram[10][5], "glyph 0 starts with a lit top-left pixel");
    assert_eq!(cpu.v[15], 0, "nothing was lit before the first draw");

    let _ = cpu.i_dxyn(0, 1, 5);
    for pixel in cpu.vram.iter().flatten() {
        assert_eq!(*pixel, false, "second draw must erase the first");
    }
    assert_eq!(cpu.v[15], 1, "the second draw collides with the first");
}

/// A sprite drawn with origin (63, 31) wraps its columns and rows back to
/// (0, 0) instead of writing out of bounds.
#[test]
fn draw_wraps_around_edges() {
    let mut cpu = fresh_cpu();
    cpu.v[0] = 63;
    cpu.v[1] = 31;
    cpu.i = 0; // ram[0] == 0xF0: the top row of glyph 0, 4 lit pixels

    let _ = cpu.i_dxyn(0, 1, 2); // two rows: 0xF0, then 0x90

    // row 31: bits of 0xF0 land at columns 63, 0, 1, 2
    assert!(cpu.vram[63][31]);
    assert!(cpu.vram[0][31]);
    assert!(cpu.vram[1][31]);
    assert!(cpu.vram[2][31]);
    assert!(!cpu.vram[3][31]);
    // row wraps to 0: bits of 0x90 land at columns 63 and 2
    assert!(cpu.vram[63][0]);
    assert!(!cpu.vram[0][0]);
    assert!(!cpu.vram[1][0]);
    assert!(cpu.vram[2][0]);
}

/// Binary-coded decimal of 247 stores 2, 4, 7 at i, i+1, i+2.
#[test]
fn bcd_of_247() {
    let mut cpu = fresh_cpu();
    cpu.v[3] = 247;
    cpu.i = 0x300;

    let _ = cpu.i_fx33(3);

    assert_eq!(cpu.ram[0x300], 2);
    assert_eq!(cpu.ram[0x301], 4);
    assert_eq!(cpu.ram[0x302], 7);
}

/// Font address: for register value 0xA the index register becomes 50.
#[test]
fn font_address_of_digit_a() {
    let mut cpu = fresh_cpu();
    cpu.v[2] = 0xA;

    let _ = cpu.i_fx29(2);

    assert_eq!(cpu.i, 50);
}

/// Blocking key-wait: key-less ticks leave the program counter in place;
/// the exit signal alone does not satisfy the wait; the first keypad key
/// is stored and the counter advances by 2.
#[test]
fn key_wait_blocks_until_keypad_key() {
    let mut cpu = fresh_cpu();
    cpu.load_rom(&[0xF5, 0x0A]);

    cpu.tick(vec![]).unwrap();
    assert_eq!(cpu.pc, 0x200);
    cpu.tick(vec![]).unwrap();
    assert_eq!(cpu.pc, 0x200);
    cpu.tick(vec![Key::Exit]).unwrap();
    assert_eq!(cpu.pc, 0x200, "the exit signal is not a keypad key");

    cpu.tick(vec![Key::Exit, Key::Num7]).unwrap();
    assert_eq!(cpu.v[5], 7);
    assert_eq!(cpu.pc, 0x202);
}

/// Skip-if-key-not-pressed advances by 4 when the key is up and by 2 when
/// it is down.
#[test]
fn skip_if_key_not_pressed() {
    let mut cpu = fresh_cpu();
    cpu.v[1] = 2;
    cpu.load_rom(&[0xE1, 0xA1]);

    cpu.tick(vec![Key::Num0, Key::Num2]).unwrap();
    assert_eq!(cpu.pc, 0x202);

    let mut cpu = fresh_cpu();
    cpu.v[1] = 2;
    cpu.load_rom(&[0xE1, 0xA1]);

    cpu.tick(vec![Key::Num0]).unwrap();
    assert_eq!(cpu.pc, 0x204);
}

/// The exit signal never satisfies a key comparison, even against a
/// register holding its numeric encoding.
#[test]
fn exit_signal_never_matches_a_key() {
    let mut cpu = fresh_cpu();
    cpu.v[1] = 16;
    cpu.load_rom(&[0xE1, 0x9E]);

    cpu.tick(vec![Key::Exit]).unwrap();
    assert_eq!(cpu.pc, 0x202, "exit is not a keypad key");
}

/// A random byte masked with 0 is 0, and one masked with 0x0F fits in a
/// nibble: the mask reaches the stored value.
#[test]
fn random_byte_is_masked() {
    let mut cpu = fresh_cpu();
    cpu.v[3] = 0xFF;
    cpu.load_rom(&[0xC3, 0x00]);
    cpu.tick(vec![]).unwrap();
    assert_eq!(cpu.v[3], 0);

    let mut cpu = fresh_cpu();
    cpu.v[3] = 0xFF;
    cpu.load_rom(&[0xC3, 0x0F]);
    cpu.tick(vec![]).unwrap();
    assert!(cpu.v[3] <= 0x0F);
}

/// Call pushes the return address and jumps; return pops it and steps
/// past the call.
#[test]
fn call_and_return() {
    let mut cpu = fresh_cpu();
    // 0x200: call 0x204; 0x202: unreachable; 0x204: return
    cpu.load_rom(&[0x22, 0x04, 0x00, 0x00, 0x00, 0xEE]);

    cpu.tick(vec![]).unwrap();
    assert_eq!(cpu.pc, 0x204);
    assert_eq!(cpu.sp, 1);
    assert_eq!(cpu.stack[0], 0x200);

    cpu.tick(vec![]).unwrap();
    assert_eq!(cpu.pc, 0x202);
    assert_eq!(cpu.sp, 0);
}

/// Jump, jump-with-offset and load-index take effect directly.
#[test]
fn jumps_and_index_loads() {
    let mut cpu = fresh_cpu();
    cpu.load_rom(&[0x13, 0x21]);
    cpu.tick(vec![]).unwrap();
    assert_eq!(cpu.pc, 0x321);

    let mut cpu = fresh_cpu();
    cpu.v[0] = 4;
    cpu.load_rom(&[0xB3, 0x00]);
    cpu.tick(vec![]).unwrap();
    assert_eq!(cpu.pc, 0x304);

    let mut cpu = fresh_cpu();
    cpu.load_rom(&[0xA1, 0x23]);
    cpu.tick(vec![]).unwrap();
    assert_eq!(cpu.i, 0x123);
    assert_eq!(cpu.pc, 0x202);
}

/// Store and load registers roundtrip through memory, advancing the index
/// register past the block each time.
#[test]
fn store_and_load_registers() {
    let mut cpu = fresh_cpu();
    for k in 0..4 {
        cpu.v[k] = (10 + k) as u8;
    }
    cpu.i = 0x400;
    let _ = cpu.i_fx55(3);
    assert_eq!(cpu.i, 0x404);
    assert_eq!(cpu.ram[0x400], 10);
    assert_eq!(cpu.ram[0x403], 13);

    let mut other = fresh_cpu();
    other.ram = cpu.ram;
    other.i = 0x400;
    let _ = other.i_fx65(3);
    assert_eq!(other.i, 0x404);
    assert_eq!(other.v[0], 10);
    assert_eq!(other.v[3], 13);
    assert_eq!(other.v[4], 0, "registers past x are untouched");
}

/// Timers decrement once per call and saturate at zero.
#[test]
fn timers_saturate_at_zero() {
    let mut cpu = fresh_cpu();
    cpu.delay_timer = 2;
    cpu.sound_timer = 0;

    cpu.decrease_timers();
    assert_eq!(cpu.delay_timer, 1);
    assert_eq!(cpu.sound_timer, 0);

    cpu.decrease_timers();
    cpu.decrease_timers();
    assert_eq!(cpu.delay_timer, 0);
    assert_eq!(cpu.sound_timer, 0);
}

/// The delay timer is read and written through registers.
#[test]
fn delay_timer_roundtrip() {
    let mut cpu = fresh_cpu();
    cpu.v[6] = 42;
    cpu.load_rom(&[0xF6, 0x15, 0xF7, 0x07]);

    cpu.tick(vec![]).unwrap();
    assert_eq!(cpu.delay_timer, 42);

    cpu.tick(vec![]).unwrap();
    assert_eq!(cpu.v[7], 42);
}

/// Add-to-index wraps modulo 2^16.
#[test]
fn add_to_index_wraps() {
    let mut cpu = fresh_cpu();
    cpu.i = 0xFFFF;
    cpu.v[2] = 3;
    let _ = cpu.i_fx1e(2);
    assert_eq!(cpu.i, 2);
}

/// An unrecognized nibble pattern is a fatal decode fault naming the
/// address and the raw bytes.
#[test]
fn unknown_opcode_faults() {
    let mut cpu = fresh_cpu();
    cpu.load_rom(&[0x84, 0x57]);

    let r = cpu.tick(vec![]);
    assert_eq!(
        r,
        Err(Fault::UnknownOpcode { pc: 0x200, b0: 0x84, b1: 0x57 })
    );
    assert_eq!(cpu.pc, 0x200, "a fault leaves the machine in place");
}

/// Returning with an empty stack is a fatal fault.
#[test]
fn stack_underflow_faults() {
    let mut cpu = fresh_cpu();
    cpu.load_rom(&[0x00, 0xEE]);

    assert_eq!(cpu.tick(vec![]), Err(Fault::StackUnderflow));
}

/// Calling with the 16-entry stack full is a fatal fault.
#[test]
fn stack_overflow_faults() {
    let mut cpu = fresh_cpu();
    cpu.load_rom(&[0x23, 0x00]);
    cpu.sp = 16;

    assert_eq!(cpu.tick(vec![]), Err(Fault::StackOverflow));
}

/// A program counter outside memory is a fatal fetch fault.
#[test]
fn fetch_out_of_bounds_faults() {
    let mut cpu = fresh_cpu();
    cpu.pc = 4095;

    assert_eq!(
        cpu.tick(vec![]),
        Err(Fault::FetchOutOfBounds { pc: 4095 })
    );
}

/// A draw whose sprite bytes would be read past memory is a fatal fault.
#[test]
fn draw_past_memory_faults() {
    let mut cpu = fresh_cpu();
    cpu.load_rom(&[0xD0, 0x15]);
    cpu.i = 4093;

    assert_eq!(cpu.tick(vec![]), Err(Fault::MemoryOutOfBounds));
}

/// A draw of zero rows reads no memory, so it never faults, whatever the
/// index register holds.
#[test]
fn zero_row_draw_does_not_fault() {
    let mut cpu = fresh_cpu();
    cpu.load_rom(&[0xD0, 0x10]);
    cpu.i = 5000;

    cpu.tick(vec![]).unwrap();
    assert_eq!(cpu.pc, 0x202);
    assert!(cpu.refresh_screen(), "even an empty draw marks the display");
    assert_eq!(cpu.v[15], 0, "an empty draw cannot collide");
}

/// A binary-coded-decimal store reaching past memory is a fatal fault.
#[test]
fn bcd_past_memory_faults() {
    let mut cpu = fresh_cpu();
    cpu.load_rom(&[0xF3, 0x33]);
    cpu.i = 4094;

    assert_eq!(cpu.tick(vec![]), Err(Fault::MemoryOutOfBounds));
}

/// The end-to-end scenario: the 2-byte ROM [0x45, 0x2A] with register 5
/// holding 2 skips (pc 0x200 -> 0x204); with register 5 holding 0x2A it
/// advances normally (pc -> 0x202).
#[test]
fn skip_if_not_equal_scenario() {
    let mut cpu = fresh_cpu();
    cpu.v[5] = 2;
    cpu.load_rom(&[0x45, 0x2A]);
    cpu.tick(vec![]).unwrap();
    assert_eq!(cpu.pc, 0x204);

    let mut cpu = fresh_cpu();
    cpu.v[5] = 0x2A;
    cpu.load_rom(&[0x45, 0x2A]);
    cpu.tick(vec![]).unwrap();
    assert_eq!(cpu.pc, 0x202);
}

/// Bitwise algebra of the OR/AND/XOR instructions on sample operands:
/// AND commutes over the OR/XOR combinations.
#[test]
fn bitwise_algebra_on_samples() {
    for a in [0u8, 0b1001, 0xFF, 0x5A] {
        for b in [0u8, 0b1010, 0x0F, 0xA5] {
            assert_eq!((a | b) & (a ^ b), (a ^ b) & (a | b));
        }
    }
}

/// Fonts land at the bottom of memory and the ROM at 0x200.
#[test]
fn load_rom_places_fonts_and_program() {
    let mut cpu = Cpu::default();
    cpu.load_rom(&[0xAB, 0xCD]);

    assert_eq!(cpu.ram[0], 0xF0, "first byte of glyph 0");
    assert_eq!(cpu.ram[79], 0x80, "last byte of glyph F");
    assert_eq!(cpu.ram[0x200], 0xAB);
    assert_eq!(cpu.ram[0x201], 0xCD);
    assert_eq!(cpu.ram[0x1FF], 0, "the gap below the ROM stays zero");
}

/// The changed flag is lowered at every tick start and raised only by the
/// draw and clear-screen instructions.
#[test]
fn changed_flag_follows_draw_instructions() {
    let mut cpu = fresh_cpu();
    // 0x200: draw a 1-row sprite; 0x202: load a register
    cpu.load_rom(&[0xD0, 0x11, 0x63, 0x05]);

    cpu.tick(vec![]).unwrap();
    assert!(cpu.refresh_screen(), "a draw marks the display changed");

    cpu.tick(vec![]).unwrap();
    assert!(!cpu.refresh_screen(), "a plain load does not");
    assert_eq!(cpu.v[3], 5);
}

/// The display getters expose the changed flag and the grid.
#[test]
fn refresh_and_vram_getters() {
    let mut cpu = fresh_cpu();
    assert!(!cpu.refresh_screen());
    cpu.v[0] = 1;
    cpu.v[1] = 1;
    cpu.i = 0;
    let _ = cpu.i_dxyn(0, 1, 1);
    assert!(cpu.refresh_screen());
    assert!(cpu.vram()[1][1]);
}
