use chip8::instruction::Instruction;

#[test]
fn decodes_each_family() {
    assert_eq!(Instruction::parse(0x00E0), Instruction::CLS);
    assert_eq!(Instruction::parse(0x00EE), Instruction::RET);
    assert_eq!(Instruction::parse(0x00FB), Instruction::SCR);
    assert_eq!(Instruction::parse(0x00FC), Instruction::SCL);
    assert_eq!(Instruction::parse(0x00FD), Instruction::EXIT);
    assert_eq!(Instruction::parse(0x00FE), Instruction::LORES);
    assert_eq!(Instruction::parse(0x00FF), Instruction::HIRES);
    assert_eq!(Instruction::parse(0x00C7), Instruction::SCD_n(7));
    assert_eq!(Instruction::parse(0x0123), Instruction::SYS_addr(0x123));
    assert_eq!(Instruction::parse(0x1ABC), Instruction::JP_addr(0xABC));
    assert_eq!(Instruction::parse(0x2ABC), Instruction::CALL_addr(0xABC));
    assert_eq!(Instruction::parse(0x3A42), Instruction::SE_Vx_kk(0xA, 0x42));
    assert_eq!(Instruction::parse(0x4A42), Instruction::SNE_Vx_kk(0xA, 0x42));
    assert_eq!(Instruction::parse(0x5AB0), Instruction::SE_Vx_Vy(0xA, 0xB));
    assert_eq!(Instruction::parse(0x6A42), Instruction::LD_Vx_kk(0xA, 0x42));
    assert_eq!(Instruction::parse(0x7A42), Instruction::ADD_Vx_kk(0xA, 0x42));
    assert_eq!(Instruction::parse(0x8AB0), Instruction::LD_Vx_Vy(0xA, 0xB));
    assert_eq!(Instruction::parse(0x8AB1), Instruction::OR_Vx_Vy(0xA, 0xB));
    assert_eq!(Instruction::parse(0x8AB2), Instruction::AND_Vx_Vy(0xA, 0xB));
    assert_eq!(Instruction::parse(0x8AB3), Instruction::XOR_Vx_Vy(0xA, 0xB));
    assert_eq!(Instruction::parse(0x8AB4), Instruction::ADD_Vx_Vy(0xA, 0xB));
    assert_eq!(Instruction::parse(0x8AB5), Instruction::SUB_Vx_Vy(0xA, 0xB));
    assert_eq!(Instruction::parse(0x8AB6), Instruction::SHR_Vx_Vy(0xA, 0xB));
    assert_eq!(Instruction::parse(0x8AB7), Instruction::SUBN_Vx_Vy(0xA, 0xB));
    assert_eq!(Instruction::parse(0x8ABE), Instruction::SHL_Vx_Vy(0xA, 0xB));
    assert_eq!(Instruction::parse(0x9AB0), Instruction::SNE_Vx_Vy(0xA, 0xB));
    assert_eq!(Instruction::parse(0xA123), Instruction::LD_I_addr(0x123));
    assert_eq!(Instruction::parse(0xB123), Instruction::JP_Vx_addr(0x1, 0x123));
    assert_eq!(Instruction::parse(0xCA42), Instruction::RND_Vx_kk(0xA, 0x42));
    assert_eq!(Instruction::parse(0xDAB5), Instruction::DRW_Vx_Vy_n(0xA, 0xB, 5));
    assert_eq!(Instruction::parse(0xEA9E), Instruction::SKP_Vx(0xA));
    assert_eq!(Instruction::parse(0xEAA1), Instruction::SKNP_Vx(0xA));
    assert_eq!(Instruction::parse(0xFA07), Instruction::LD_Vx_DT(0xA));
    assert_eq!(Instruction::parse(0xFA0A), Instruction::LD_Vx_K(0xA));
    assert_eq!(Instruction::parse(0xFA15), Instruction::LD_DT_Vx(0xA));
    assert_eq!(Instruction::parse(0xFA18), Instruction::LD_ST_Vx(0xA));
    assert_eq!(Instruction::parse(0xFA1E), Instruction::ADD_I_Vx(0xA));
    assert_eq!(Instruction::parse(0xFA29), Instruction::LD_F_Vx(0xA));
    assert_eq!(Instruction::parse(0xFA30), Instruction::LD_HF_Vx(0xA));
    assert_eq!(Instruction::parse(0xFA33), Instruction::LD_B_Vx(0xA));
    assert_eq!(Instruction::parse(0xFA55), Instruction::LD_iI_Vx(0xA));
    assert_eq!(Instruction::parse(0xFA65), Instruction::LD_Vx_iI(0xA));
    assert_eq!(Instruction::parse(0xFA75), Instruction::SAVE_Vx(0xA));
    assert_eq!(Instruction::parse(0xFA85), Instruction::LOAD_Vx(0xA));
}

#[test]
fn opcode_0230_is_an_alias_of_cls() {
    assert_eq!(Instruction::parse(0x0230), Instruction::CLS);
    assert_eq!(Instruction::parse(0x0231), Instruction::SYS_addr(0x231));
}

#[test]
fn unmatched_opcodes_decode_to_nothing() {
    for op in [0x5AB1u16, 0x800F, 0x8AB8, 0x9AB1, 0xE000, 0xEA9F, 0xF0FF, 0xFA00] {
        assert_eq!(Instruction::decode(op), None, "opcode {:04x}", op);
    }
}

#[test]
fn every_opcode_decodes_to_a_well_formed_instruction_or_nothing() {
    let mut decoded = 0u32;
    for op in 0..=u16::MAX {
        if let Some(i) = Instruction::decode(op) {
            assert_eq!(Instruction::parse(op), i);
            decoded += 1;
        }
    }
    // eleven leading digits decode whatever follows; 5, 8, 9, E and F only some forms
    assert_eq!(decoded, 11 * 4096 + 256 + 9 * 256 + 256 + 2 * 16 + 12 * 16);
}
