use chip8::Chip8;
use chip8::cpu::InvalidOpcode;

#[test]
fn tick_runs_one_budget_of_steps_then_the_timers() {
    let mut c = Chip8::new();
    c.cpu.dt = 3;
    // zeroed memory decodes as SYS 0, which does nothing
    assert_eq!(c.tick(), Ok(()));
    // 166 cycles per tick at 8 cycles a step: the 21st step reaches the budget
    assert_eq!(c.cpu.pc, 0x200 + 2 * 21);
    assert_eq!(c.cpu.dt, 2);
}

#[test]
fn tick_does_nothing_when_stopped_or_halted() {
    let mut c = Chip8::new();
    c.cpu.dt = 3;
    c.cpu.stop();
    c.tick().unwrap();
    assert_eq!(c.cpu.pc, 0x200);
    assert_eq!(c.cpu.dt, 3);

    c.cpu.start();
    c.halted = true;
    c.tick().unwrap();
    assert_eq!(c.cpu.pc, 0x200);
    assert_eq!(c.cpu.dt, 3);
}

#[test]
fn breakpoint_halts_and_resume_continues() {
    let mut c = Chip8::new();
    c.cpu.dt = 5;
    c.load_program(&[0x60, 0x01, 0x61, 0x02, 0x12, 0x04]);
    c.set_breakpoint(0x202);
    c.tick().unwrap();
    assert!(c.halted);
    assert_eq!(c.cpu.pc, 0x202);
    assert_eq!(c.cpu.vx[0], 1);
    assert_eq!(c.cpu.vx[1], 0);
    // the frame was abandoned before the timers ticked
    assert_eq!(c.cpu.dt, 5);

    c.tick().unwrap();
    assert_eq!(c.cpu.pc, 0x202);

    c.resume();
    assert!(!c.halted);
    c.remove_breakpoint(0x202);
    c.tick().unwrap();
    assert_eq!(c.cpu.vx[1], 2);
    // the jump to itself at 0x204 ends the program
    assert!(!c.cpu.running);
    assert_eq!(c.cpu.dt, 4);
}

#[test]
fn program_that_ends_stops_the_tick_early() {
    let mut c = Chip8::new();
    c.load_program(&[0x00, 0xFD]);
    c.tick().unwrap();
    assert!(!c.cpu.running);
    assert_eq!(c.cpu.pc, 0x202);
}

#[test]
fn tick_reports_an_invalid_opcode() {
    let mut c = Chip8::new();
    c.load_program(&[0x60, 0x07, 0xF0, 0xFF]);
    assert_eq!(c.tick(), Err(InvalidOpcode { opcode: 0xF0FF, addr: 0x202 }));
    assert_eq!(c.cpu.vx[0], 7);
    // the program is malformed: the run is over
    assert!(!c.cpu.running);
    assert_eq!(c.tick(), Ok(()));
    assert_eq!(c.cpu.pc, 0x202);
}

#[test]
fn keys_reach_the_processor() {
    let mut c = Chip8::new();
    c.keydown(0xA);
    assert!(c.cpu.keys[0xA]);
    c.keyup(0x1A);
    assert!(!c.cpu.keys[0xA]);
}

#[test]
fn loaded_cls_program_clears_the_screen() {
    let mut c = Chip8::new();
    c.load_program(&[0x00, 0xE0]);
    c.cpu.vram.fill(true);
    c.cpu.step().unwrap();
    assert!(c.cpu.vram.iter().all(|p| !*p));
}
