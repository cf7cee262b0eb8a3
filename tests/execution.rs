use chip8::cpu::{InvalidOpcode, CPU};
use chip8::instruction::Instruction;
use chip8::quirks::Quirks;

#[test]
fn add_wraps_and_sets_carry() {
    let mut cpu = CPU::new();
    cpu.vx[1] = 200;
    cpu.vx[2] = 100;
    cpu.execute(Instruction::ADD_Vx_Vy(1, 2));
    assert_eq!(cpu.vx[1], 44);
    assert_eq!(cpu.vx[0xF], 1);

    cpu.vx[3] = 1;
    cpu.vx[4] = 2;
    cpu.execute(Instruction::ADD_Vx_Vy(3, 4));
    assert_eq!(cpu.vx[3], 3);
    assert_eq!(cpu.vx[0xF], 0);

    cpu.vx[5] = 255;
    cpu.vx[6] = 0;
    cpu.execute(Instruction::ADD_Vx_Vy(5, 6));
    assert_eq!(cpu.vx[5], 255);
    assert_eq!(cpu.vx[0xF], 0);
}

#[test]
fn add_immediate_wraps_without_flag() {
    let mut cpu = CPU::new();
    cpu.vx[0xF] = 7;
    cpu.vx[2] = 250;
    cpu.execute(Instruction::ADD_Vx_kk(2, 10));
    assert_eq!(cpu.vx[2], 4);
    assert_eq!(cpu.vx[0xF], 7);
}

#[test]
fn sub_of_equal_values_sets_no_borrow() {
    let mut cpu = CPU::new();
    cpu.vx[1] = 5;
    cpu.vx[2] = 5;
    cpu.execute(Instruction::SUB_Vx_Vy(1, 2));
    assert_eq!(cpu.vx[1], 0);
    assert_eq!(cpu.vx[0xF], 1);
}

#[test]
fn bitwise_ops_reset_vf_only_under_the_quirk() {
    let mut cpu = CPU::new();
    cpu.quirks = Quirks::chip8();
    cpu.vx[0xF] = 9;
    cpu.vx[1] = 0b1100;
    cpu.vx[2] = 0b1010;
    cpu.execute(Instruction::AND_Vx_Vy(1, 2));
    assert_eq!(cpu.vx[1], 0b1000);
    assert_eq!(cpu.vx[0xF], 0);

    cpu.quirks = Quirks::superchip();
    cpu.vx[0xF] = 9;
    cpu.vx[1] = 0b1100;
    cpu.execute(Instruction::OR_Vx_Vy(1, 2));
    assert_eq!(cpu.vx[1], 0b1110);
    assert_eq!(cpu.vx[0xF], 9);
    cpu.execute(Instruction::XOR_Vx_Vy(1, 2));
    assert_eq!(cpu.vx[1], 0b0100);
    assert_eq!(cpu.vx[0xF], 9);
}

#[test]
fn jump_presets_pick_their_register() {
    let mut a = CPU::new();
    a.quirks = Quirks::chip8();
    a.vx[0] = 2;
    a.vx[2] = 4;
    a.execute(Instruction::JP_Vx_addr(2, 0x444));
    assert_eq!(a.pc, 0x446);

    let mut b = CPU::new();
    b.quirks = Quirks::superchip();
    b.vx[0] = 2;
    b.vx[2] = 4;
    b.execute(Instruction::JP_Vx_addr(2, 0x444));
    assert_eq!(b.pc, 0x448);
}

#[test]
fn jump_to_itself_stops_the_program() {
    let mut cpu = CPU::new();
    cpu.pc = 0x302;
    cpu.execute(Instruction::JP_addr(0x300));
    assert_eq!(cpu.pc, 0x300);
    assert!(!cpu.running);

    let mut other = CPU::new();
    other.pc = 0x302;
    other.execute(Instruction::JP_addr(0x400));
    assert!(other.running);
}

#[test]
fn return_on_empty_stack_goes_to_zero() {
    let mut cpu = CPU::new();
    cpu.execute(Instruction::RET);
    assert_eq!(cpu.pc, 0);
    assert!(cpu.stack.is_empty());
}

#[test]
fn call_then_return_comes_back() {
    let mut cpu = CPU::new();
    cpu.pc = 0x234;
    cpu.execute(Instruction::CALL_addr(0x500));
    cpu.execute(Instruction::RET);
    assert_eq!(cpu.pc, 0x234);
    assert!(cpu.stack.is_empty());
}

#[test]
fn skips_compare_registers_and_immediates() {
    let mut cpu = CPU::new();
    cpu.vx[1] = 7;
    cpu.vx[2] = 7;
    cpu.execute(Instruction::SE_Vx_kk(1, 7));
    assert_eq!(cpu.pc, 0x202);
    cpu.execute(Instruction::SNE_Vx_kk(1, 7));
    assert_eq!(cpu.pc, 0x202);
    cpu.execute(Instruction::SE_Vx_Vy(1, 2));
    assert_eq!(cpu.pc, 0x204);
    cpu.execute(Instruction::SNE_Vx_Vy(1, 2));
    assert_eq!(cpu.pc, 0x204);
    cpu.execute(Instruction::SNE_Vx_kk(1, 8));
    assert_eq!(cpu.pc, 0x206);
}

#[test]
fn key_skips_use_the_low_digit_of_the_register() {
    let mut cpu = CPU::new();
    cpu.keydown(0x15);
    assert!(cpu.keys[5]);
    cpu.vx[3] = 0x25;
    cpu.execute(Instruction::SKP_Vx(3));
    assert_eq!(cpu.pc, 0x202);
    cpu.execute(Instruction::SKNP_Vx(3));
    assert_eq!(cpu.pc, 0x202);
    cpu.keyup(5);
    cpu.execute(Instruction::SKNP_Vx(3));
    assert_eq!(cpu.pc, 0x204);
}

#[test]
fn key_wait_rewinds_until_a_key_is_held() {
    let mut cpu = CPU::new();
    cpu.pc = 0x202;
    cpu.execute(Instruction::LD_Vx_K(4));
    assert_eq!(cpu.pc, 0x200);
    cpu.keydown(9);
    cpu.keydown(3);
    cpu.pc = 0x202;
    cpu.execute(Instruction::LD_Vx_K(4));
    assert_eq!(cpu.pc, 0x202);
    assert_eq!(cpu.vx[4], 3);
}

#[test]
fn random_values_stay_in_range() {
    let mut cpu = CPU::new();
    cpu.execute(Instruction::RND_Vx_kk(1, 0));
    assert_eq!(cpu.vx[1], 0);
    let mut all_top = true;
    for _ in 0..200 {
        cpu.execute(Instruction::RND_Vx_kk(2, 3));
        assert!(cpu.vx[2] <= 3);
        cpu.execute(Instruction::RND_Vx_kk(3, 255));
        if cpu.vx[3] != 255 {
            all_top = false;
        }
    }
    assert!(!all_top);
}

#[test]
fn given_random_byte_is_reduced_into_range() {
    let mut cpu = CPU::new();
    cpu.execute_with(Instruction::RND_Vx_kk(1, 3), 10);
    assert_eq!(cpu.vx[1], 2);
    cpu.execute_with(Instruction::RND_Vx_kk(1, 255), 200);
    assert_eq!(cpu.vx[1], 200);
}

#[test]
fn index_arithmetic() {
    let mut cpu = CPU::new();
    cpu.execute(Instruction::LD_I_addr(0xFFF));
    cpu.vx[1] = 1;
    cpu.execute(Instruction::ADD_I_Vx(1));
    assert_eq!(cpu.i, 0);
    assert_eq!(cpu.vx[0xF], 1);
    cpu.vx[1] = 0x10;
    cpu.execute(Instruction::ADD_I_Vx(1));
    assert_eq!(cpu.i, 0x10);
    assert_eq!(cpu.vx[0xF], 0);

    cpu.vx[2] = 0xA;
    cpu.execute(Instruction::LD_F_Vx(2));
    assert_eq!(cpu.i, 50);
    cpu.execute(Instruction::LD_HF_Vx(2));
    assert_eq!(cpu.i, 0x050 + 100);
}

#[test]
fn bcd_writes_three_digits() {
    let mut cpu = CPU::new();
    cpu.i = 0x300;
    cpu.vx[7] = 234;
    cpu.execute(Instruction::LD_B_Vx(7));
    assert_eq!(cpu.memory.memory[0x300..0x303], [2, 3, 4]);
    cpu.vx[7] = 7;
    cpu.execute(Instruction::LD_B_Vx(7));
    assert_eq!(cpu.memory.memory[0x300..0x303], [0, 0, 7]);
}

#[test]
fn block_transfers_follow_the_memory_quirk() {
    let mut cpu = CPU::new();
    cpu.quirks = Quirks::chip8();
    cpu.i = 0x300;
    cpu.vx = [1, 2, 3, 4, 5, 6, 7, 8, 9, 10, 11, 12, 13, 14, 15, 16];
    cpu.execute(Instruction::LD_iI_Vx(2));
    assert_eq!(cpu.memory.memory[0x300..0x304], [1, 2, 3, 0]);
    assert_eq!(cpu.i, 0x303);

    cpu.quirks = Quirks::superchip();
    cpu.i = 0x300;
    cpu.vx = [0; 16];
    cpu.execute(Instruction::LD_Vx_iI(2));
    assert_eq!(cpu.vx[0..4], [1, 2, 3, 0]);
    assert_eq!(cpu.i, 0x300);
}

#[test]
fn block_transfer_masks_the_index_to_twelve_bits() {
    let mut cpu = CPU::new();
    cpu.quirks = Quirks::chip8();
    cpu.i = 0xFFF;
    cpu.vx[0] = 0x5A;
    cpu.memory.load_program(&[0xF0, 0x55]);
    assert_eq!(cpu.step(), Ok(8));
    assert_eq!(cpu.memory.memory[0xFFF], 0x5A);
    assert_eq!(cpu.i, 0);
    // adding zero afterwards leaves the index in range, so no overflow flag
    cpu.execute(Instruction::ADD_I_Vx(1));
    assert_eq!(cpu.i, 0);
    assert_eq!(cpu.vx[0xF], 0);

    cpu.i = 0xFFE;
    cpu.execute(Instruction::LD_Vx_iI(3));
    assert_eq!(cpu.i, 0x002);
}

#[test]
fn block_store_wraps_at_the_top_of_memory() {
    let mut cpu = CPU::new();
    cpu.quirks = Quirks::superchip();
    cpu.i = 0xFFF;
    cpu.vx[0] = 0xAA;
    cpu.vx[1] = 0xBB;
    cpu.execute(Instruction::LD_iI_Vx(1));
    assert_eq!(cpu.memory.memory[0xFFF], 0xAA);
    assert_eq!(cpu.memory.memory[0x000], 0xBB);
}

#[test]
fn save_then_load_restores_registers() {
    let mut cpu = CPU::new();
    cpu.vx = [10, 11, 12, 13, 14, 15, 16, 17, 18, 19, 20, 21, 22, 23, 24, 25];
    cpu.execute(Instruction::SAVE_Vx(15));
    cpu.vx = [0; 16];
    cpu.vx[9] = 99;
    cpu.execute(Instruction::LOAD_Vx(15));
    assert_eq!(cpu.vx, [10, 11, 12, 13, 14, 15, 16, 17, 0, 99, 0, 0, 0, 0, 0, 0]);
}

#[test]
fn timers_load_and_count_down() {
    let mut cpu = CPU::new();
    cpu.vx[1] = 2;
    cpu.execute(Instruction::LD_DT_Vx(1));
    cpu.execute(Instruction::LD_ST_Vx(1));
    cpu.tick_timers();
    cpu.execute(Instruction::LD_Vx_DT(3));
    assert_eq!(cpu.vx[3], 1);
    cpu.tick_timers();
    cpu.tick_timers();
    assert_eq!(cpu.dt, 0);
    assert_eq!(cpu.st, 0);
}

#[test]
fn resolution_changes_resize_and_clear() {
    let mut cpu = CPU::new();
    cpu.vram.fill(true);
    cpu.execute(Instruction::HIRES);
    assert!(cpu.hires);
    assert_eq!((cpu.width, cpu.height), (128, 64));
    assert_eq!(cpu.vram.len(), 128 * 64);
    assert!(cpu.vram.iter().all(|p| !*p));
    cpu.execute(Instruction::LORES);
    assert!(!cpu.hires);
    assert_eq!((cpu.width, cpu.height), (64, 32));
    assert_eq!(cpu.vram.len(), 64 * 32);
}

#[test]
fn clear_after_drawing_darkens_everything() {
    let mut cpu = CPU::new();
    cpu.execute(Instruction::DRW_Vx_Vy_n(0, 0, 5));
    assert!(cpu.vram.iter().any(|p| *p));
    cpu.execute(Instruction::CLS);
    assert_eq!(cpu.vram.len(), 64 * 32);
    assert!(cpu.vram.iter().all(|p| !*p));
}

#[test]
fn drawing_a_glyph_twice_erases_it_and_flags_collision() {
    let mut cpu = CPU::new();
    cpu.i = 0;
    cpu.vx[1] = 3;
    cpu.vx[2] = 1;
    cpu.execute(Instruction::DRW_Vx_Vy_n(1, 2, 5));
    assert_eq!(cpu.vx[0xF], 0);
    // glyph "0": f0 90 90 90 f0
    let row = |cpu: &CPU, y: usize| -> Vec<bool> { cpu.vram[y * 64 + 3..y * 64 + 7].to_vec() };
    assert_eq!(row(&cpu, 1), vec![true, true, true, true]);
    assert_eq!(row(&cpu, 2), vec![true, false, false, true]);
    assert_eq!(row(&cpu, 5), vec![true, true, true, true]);
    assert!(!cpu.vram[0]);
    cpu.execute(Instruction::DRW_Vx_Vy_n(1, 2, 5));
    assert_eq!(cpu.vx[0xF], 1);
    assert!(cpu.vram.iter().all(|p| !*p));
}

#[test]
fn sprite_origin_is_reduced_onto_the_screen() {
    let mut cpu = CPU::new();
    cpu.i = 0;
    cpu.vx[1] = 64 + 3;
    cpu.vx[2] = 32 + 1;
    cpu.execute(Instruction::DRW_Vx_Vy_n(1, 2, 1));
    assert_eq!(cpu.vram[64 + 3..64 + 7].to_vec(), vec![true, true, true, true]);
}

#[test]
fn sprites_clip_or_wrap_at_the_edges() {
    let mut clip = CPU::new();
    clip.quirks = Quirks::chip8();
    clip.i = 0;
    clip.vx[1] = 62;
    clip.vx[2] = 30;
    clip.execute(Instruction::DRW_Vx_Vy_n(1, 2, 5));
    // rows f0 and 90 of the glyph, cut after two columns
    assert_eq!(clip.vram.iter().filter(|p| **p).count(), 2 + 1);
    assert!(clip.vram[30 * 64 + 62] && clip.vram[30 * 64 + 63]);
    assert!(!clip.vram[30 * 64]);

    let mut wrap = CPU::new();
    wrap.quirks = Quirks::xochip();
    wrap.i = 0;
    wrap.vx[1] = 62;
    wrap.vx[2] = 30;
    wrap.execute(Instruction::DRW_Vx_Vy_n(1, 2, 5));
    // the whole "0" glyph: 4 + 2 + 2 + 2 + 4 lit pixels
    assert_eq!(wrap.vram.iter().filter(|p| **p).count(), 14);
    assert!(wrap.vram[30 * 64] && wrap.vram[30 * 64 + 1]);
    // glyph row 90 lands on screen row 0: columns 62 and 65 mod 64
    assert!(wrap.vram[62] && wrap.vram[1] && !wrap.vram[0]);
}

#[test]
fn big_sprite_counts_rows_past_the_bottom() {
    let mut cpu = CPU::new();
    cpu.quirks = Quirks::superchip();
    cpu.execute(Instruction::HIRES);
    cpu.i = 0x300;
    for a in 0x300..0x320u16 {
        cpu.memory.write(a, 0xFF);
    }
    cpu.vx[1] = 0;
    cpu.vx[2] = 60;
    cpu.execute(Instruction::DRW_Vx_Vy_n(1, 2, 0));
    // four rows drawn, then the first row past the edge counts and ends the sprite
    assert_eq!(cpu.vram.iter().filter(|p| **p).count(), 4 * 16);
    assert_eq!(cpu.vx[0xF], 1);
}

#[test]
fn step_clears_a_lit_screen() {
    let mut cpu = CPU::new();
    cpu.memory.load_program(&[0x00, 0xE0]);
    cpu.vram.fill(true);
    assert_eq!(cpu.step(), Ok(8));
    assert!(cpu.vram.iter().all(|p| !*p));
    assert_eq!(cpu.pc, 0x202);
}

#[test]
fn step_of_a_draw_under_display_wait_costs_a_tick() {
    let mut cpu = CPU::new();
    cpu.quirks = Quirks::chip8();
    cpu.memory.load_program(&[0xD0, 0x15]);
    assert_eq!(cpu.step(), Ok(1_000_000 / 6000));

    let mut fast = CPU::new();
    fast.quirks = Quirks::xochip();
    fast.memory.load_program(&[0xD0, 0x15]);
    assert_eq!(fast.step(), Ok(8));
}

#[test]
fn step_reports_an_invalid_opcode() {
    let mut cpu = CPU::new();
    cpu.memory.load_program(&[0xFF, 0xFF]);
    assert_eq!(cpu.step(), Err(InvalidOpcode { opcode: 0xFFFF, addr: 0x200 }));
    assert_eq!(cpu.pc, 0x200);
    assert!(!cpu.running);
}

#[test]
fn start_and_stop() {
    let mut cpu = CPU::new();
    cpu.stop();
    assert!(!cpu.running);
    cpu.start();
    assert!(cpu.running);
    cpu.execute(Instruction::EXIT);
    assert!(!cpu.running);
}

#[test]
fn push_and_pop() {
    let mut cpu = CPU::new();
    assert_eq!(cpu.pop(), 0);
    cpu.push(5);
    cpu.push(6);
    assert_eq!(cpu.pop(), 6);
    assert_eq!(cpu.pop(), 5);
}

#[test]
fn quirk_presets() {
    let d = Quirks::default();
    assert!(d.vf_reset && d.memory && d.display_wait && !d.sprite_wrapping && !d.shifting && !d.jumping);
    let s = Quirks::superchip();
    assert!(s.shifting && s.jumping && s.hires_draw_flag && !s.memory);
    let x = Quirks::xochip();
    assert!(x.sprite_wrapping && x.memory && !x.display_wait);
    let q = Quirks::new(false, false, false, true, false, false, true);
    assert!(q.sprite_wrapping && q.jumping && !q.vf_reset);
}
