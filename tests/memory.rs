use chip8::memory::{Memory, FONT_10_10, FONT_5_5};

#[test]
fn memory_contains_5x5_font_at_0x00() {
    let m = Memory::new();

    assert_eq!(m.memory[0..0x050], FONT_5_5);
}

#[test]
fn memory_contains_10x10_font_at_0x50() {
    let m = Memory::new();

    assert_eq!(m.memory[0x050..0x0F0], FONT_10_10);
}

#[test]
fn memory_writes_work() {
    let mut m = Memory::new();

    m.write(0x200, 0xff);
    assert_eq!(m.memory[0x200], 0xff);

    m.write(0x1200, 0xcc);
    assert_eq!(m.memory[0x200], 0xcc);
}

#[test]
fn memory_reads_work() {
    let mut m = Memory::new();

    m.memory[0x200] = 0xff;

    assert_eq!(
        m.read(0x200),
        0xff,
        "Testing that memory reads the right address"
    );
    assert_eq!(
        m.read(0x1200),
        0xff,
        "Testing that memory reads wrap the address"
    );
}

#[test]
fn memory_loads_programs() {
    let mut m = Memory::new();
    m.load_program(&[0x01, 0x23, 0x45, 0x67, 0x89, 0xab, 0xcd, 0xef]);

    assert_eq!(
        m.memory[0x200..0x209],
        [0x01, 0x23, 0x45, 0x67, 0x89, 0xab, 0xcd, 0xef, 0x00]
    );
}

#[test]
fn memory_rest_is_zero_after_reset() {
    let mut m = Memory::new();
    m.write(0x300, 7);
    m.write(0x010, 7);
    m.reset();
    assert_eq!(m.memory[0x300], 0);
    assert_eq!(m.memory[0x010], FONT_5_5[0x10]);
    assert!(m.memory[0x0F0..].iter().all(|b| *b == 0));
}

#[test]
fn memory_default_matches_new() {
    let m = Memory::default();
    assert_eq!(m.memory[0..0x050], FONT_5_5);
    assert_eq!(m.memory[0x050..0x0F0], FONT_10_10);
}

#[test]
fn memory_load_program_keeps_the_rest() {
    let mut m = Memory::new();
    m.write(0x1ff, 9);
    m.write(0x203, 9);
    m.load_program(&[1, 2]);
    assert_eq!(m.memory[0x1ff..0x204], [9, 1, 2, 0, 9]);
}
