use chip8::cpu::Cpu;
use chip8::keyboard::Key;

fn create_cpu() -> Cpu {
    let mut cpu = Cpu::default();
    cpu.load_fonts();
    assert_eq!(cpu.pc, 0x200);

    cpu
}

#[test]
fn clear_screen_00e0() {
    let mut cpu = create_cpu();
    cpu.vram[2][4] |= true;

    let _ = cpu.i_00e0();

    for pixel in cpu.vram.iter().flatten() {
        assert_eq!(*pixel, false, "All pixels should have been cleared");
        assert!(cpu.vram_changed, "Screen must be updated");
    }
}

/// if v[x] != nn => skip following instruction
#[test]
fn test_4xnn_skip_instruction() {
    let mut cpu = create_cpu();

    // fifth register is not 0x2A
    cpu.v[5] = 2;
    let rom: &[u8] = &[0x45, 0x2A];
    cpu.load_rom(rom);

    cpu.tick(vec![]).unwrap();

    assert_eq!(cpu.pc, 0x204);
}

/// if v[x] == nn => don't skip following instruction
#[test]
fn test_4xnn_do_not_skip_instruction() {
    let mut cpu = create_cpu();

    cpu.v[5] = 0x2A;
    let rom: &[u8] = &[0x45, 0x2A];
    cpu.load_rom(rom);

    cpu.tick(vec![]).unwrap();

    assert_eq!(cpu.pc, 0x202);
}

/// if v[x] == v[y] => skip following instruction
#[test]
fn test_5xy0_skip_instruction() {
    let mut cpu = create_cpu();

    cpu.v[5] = 2;
    cpu.v[4] = 2;
    let rom: &[u8] = &[0x54, 0x50];
    cpu.load_rom(rom);

    cpu.tick(vec![]).unwrap();

    assert_eq!(cpu.pc, 0x204);
}

/// if v[x] != v[y] => do not skip following instruction
#[test]
fn test_5xy0_do_skip_instruction() {
    let mut cpu = create_cpu();

    cpu.v[5] = 2;
    cpu.v[4] = 5;
    let rom: &[u8] = &[0x54, 0x50];
    cpu.load_rom(rom);

    cpu.tick(vec![]).unwrap();

    assert_eq!(cpu.pc, 0x202);
}

// Store the value of register VY in register VX
#[test]
fn test_8xy0() {
    let mut cpu = create_cpu();

    cpu.v[5] = 2;
    let rom: &[u8] = &[0x84, 0x50];
    cpu.load_rom(rom);
    cpu.tick(vec![]).unwrap();
    assert_eq!(cpu.v[4], 2);
    assert_eq!(cpu.v[5], 2);
    assert_eq!(cpu.pc, 0x202);
}

/// Set VX to VX OR VY
#[test]
fn test_8xy1() {
    let mut cpu = create_cpu();

    cpu.v[4] = 0b1001;
    cpu.v[5] = 0b1010;
    let rom: &[u8] = &[0x84, 0x51];
    cpu.load_rom(rom);

    cpu.tick(vec![]).unwrap();

    assert_eq!(cpu.v[4], 0b1011);
    assert_eq!(cpu.v[5], 0b1010);
    assert_eq!(cpu.pc, 0x202);
}

/// Set VX to VX AND VY
#[test]
fn test_8xy2() {
    let mut cpu = create_cpu();
    cpu.v[4] = 0b1001;
    cpu.v[5] = 0b1010;
    let rom: &[u8] = &[0x84, 0x52];
    cpu.load_rom(rom);

    cpu.tick(vec![]).unwrap();

    assert_eq!(cpu.v[4], 0b1000);
    assert_eq!(cpu.v[5], 0b1010);
    assert_eq!(cpu.pc, 0x202);
}

/// Set VX to VX XOR VY
#[test]
fn test_8xy3() {
    let mut cpu = create_cpu();
    cpu.v[4] = 0b1001;
    cpu.v[5] = 0b1010;
    let rom: &[u8] = &[0x84, 0x53];
    cpu.load_rom(rom);

    cpu.tick(vec![]).unwrap();

    assert_eq!(cpu.v[4], 0b0011);
    assert_eq!(cpu.v[5], 0b1010);
    assert_eq!(cpu.pc, 0x202);
}

/// if v[x] != v[y] => skip following instruction
#[test]
fn test_9xy0_skip_instruction() {
    let mut cpu = create_cpu();

    cpu.v[5] = 2;
    cpu.v[4] = 5;
    let rom: &[u8] = &[0x94, 0x50];
    cpu.load_rom(rom);

    cpu.tick(vec![]).unwrap();

    assert_eq!(cpu.pc, 0x204);
}

/// if v[x] == v[y] => do not skip following instruction
#[test]
fn test_9xy0_do_skip_instruction() {
    let mut cpu = create_cpu();

    cpu.v[5] = 2;
    cpu.v[4] = 2;
    let rom: &[u8] = &[0x94, 0x50];
    cpu.load_rom(rom);

    cpu.tick(vec![]).unwrap();

    assert_eq!(cpu.pc, 0x202);
}

#[test]
fn test_ex9e_skips() {
    let mut cpu = create_cpu();

    cpu.v[1] = 2;
    let rom: &[u8] = &[0xe1, 0x9e];
    cpu.load_rom(rom);

    let keys = vec![Key::Num0, Key::Num2];
    cpu.tick(keys).unwrap();

    assert_eq!(cpu.pc, 0x204);
}

#[test]
fn test_ex9e_does_not_skip() {
    let mut cpu = create_cpu();

    cpu.v[1] = 3;
    let rom: &[u8] = &[0xe1, 0x9e];
    cpu.load_rom(rom);

    let keys = vec![Key::Num0, Key::Num2];
    cpu.tick(keys).unwrap();

    assert_eq!(cpu.pc, 0x202);
}
