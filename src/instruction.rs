use vstd::prelude::*;
use vstd::arithmetic::div_mod::lemma_fundamental_div_mod_converse;

verus! {

/// One decoded CHIP-8 / SUPER-CHIP / XO-CHIP instruction, carrying only its operands:
/// register indices, 8-bit immediates, 12-bit addresses and 4-bit heights.
#[allow(non_camel_case_types)]
#[derive(Debug, Clone, Copy, PartialEq, Eq, Structural)]
pub enum Instruction {
    SYS_addr(u16),
    CLS,
    RET,
    JP_addr(u16),
    CALL_addr(u16),
    SE_Vx_kk(u8, u8),
    SNE_Vx_kk(u8, u8),
    SE_Vx_Vy(u8, u8),
    LD_Vx_kk(u8, u8),
    ADD_Vx_kk(u8, u8),
    LD_Vx_Vy(u8, u8),
    OR_Vx_Vy(u8, u8),
    AND_Vx_Vy(u8, u8),
    XOR_Vx_Vy(u8, u8),
    ADD_Vx_Vy(u8, u8),
    SUB_Vx_Vy(u8, u8),
    SHR_Vx_Vy(u8, u8),
    SUBN_Vx_Vy(u8, u8),
    SHL_Vx_Vy(u8, u8),
    SNE_Vx_Vy(u8, u8),
    LD_I_addr(u16),
    JP_Vx_addr(u8, u16),
    RND_Vx_kk(u8, u8),
    SKP_Vx(u8),
    SKNP_Vx(u8),
    LD_Vx_DT(u8),
    LD_Vx_K(u8),
    LD_DT_Vx(u8),
    LD_ST_Vx(u8),
    ADD_I_Vx(u8),
    LD_F_Vx(u8),
    LD_B_Vx(u8),
    LD_iI_Vx(u8),
    LD_Vx_iI(u8),
    DRW_Vx_Vy_n(u8, u8, u8),
    SCD_n(u8),
    SCR,
    SCL,
    EXIT,
    LORES,
    HIRES,
    LD_HF_Vx(u8),
    SAVE_Vx(u8),
    LOAD_Vx(u8),
}

/// The four 4-bit digits of an opcode, most significant first.
pub open spec fn nibbles(op: u16) -> (u8, u8, u8, u8) {
    ((op / 4096) as u8, (op / 256 % 16) as u8, (op / 16 % 16) as u8, (op % 16) as u8)
}

/// The decoding table: the instruction an opcode stands for, or `None` when it matches
/// no pattern. Patterns are tried top to bottom, so the display extensions under the
/// `00` prefix and the `0230` alias of `CLS` win over the generic `SYS addr`.
pub open spec fn decoded(op: u16) -> Option<Instruction> {
    let nnn = op % 4096;
    let kk = (op % 256) as u8;
    match nibbles(op) {
        (0x0, 0x0, 0xE, 0x0) => Some(Instruction::CLS),
        (0x0, 0x0, 0xE, 0xE) => Some(Instruction::RET),
        (0x0, 0x0, 0xF, 0xB) => Some(Instruction::SCR),
        (0x0, 0x0, 0xF, 0xC) => Some(Instruction::SCL),
        (0x0, 0x0, 0xF, 0xD) => Some(Instruction::EXIT),
        (0x0, 0x0, 0xF, 0xE) => Some(Instruction::LORES),
        (0x0, 0x0, 0xF, 0xF) => Some(Instruction::HIRES),
        (0x0, 0x0, 0xC, n) => Some(Instruction::SCD_n(n)),
        (0x0, 0x2, 0x3, 0x0) => Some(Instruction::CLS),
        (0x0, _, _, _) => Some(Instruction::SYS_addr(nnn)),
        (0x1, _, _, _) => Some(Instruction::JP_addr(nnn)),
        (0x2, _, _, _) => Some(Instruction::CALL_addr(nnn)),
        (0x3, x, _, _) => Some(Instruction::SE_Vx_kk(x, kk)),
        (0x4, x, _, _) => Some(Instruction::SNE_Vx_kk(x, kk)),
        (0x5, x, y, 0x0) => Some(Instruction::SE_Vx_Vy(x, y)),
        (0x6, x, _, _) => Some(Instruction::LD_Vx_kk(x, kk)),
        (0x7, x, _, _) => Some(Instruction::ADD_Vx_kk(x, kk)),
        (0x8, x, y, 0x0) => Some(Instruction::LD_Vx_Vy(x, y)),
        (0x8, x, y, 0x1) => Some(Instruction::OR_Vx_Vy(x, y)),
        (0x8, x, y, 0x2) => Some(Instruction::AND_Vx_Vy(x, y)),
        (0x8, x, y, 0x3) => Some(Instruction::XOR_Vx_Vy(x, y)),
        (0x8, x, y, 0x4) => Some(Instruction::ADD_Vx_Vy(x, y)),
        (0x8, x, y, 0x5) => Some(Instruction::SUB_Vx_Vy(x, y)),
        (0x8, x, y, 0x6) => Some(Instruction::SHR_Vx_Vy(x, y)),
        (0x8, x, y, 0x7) => Some(Instruction::SUBN_Vx_Vy(x, y)),
        (0x8, x, y, 0xE) => Some(Instruction::SHL_Vx_Vy(x, y)),
        (0x9, x, y, 0x0) => Some(Instruction::SNE_Vx_Vy(x, y)),
        (0xA, _, _, _) => Some(Instruction::LD_I_addr(nnn)),
        (0xB, x, _, _) => Some(Instruction::JP_Vx_addr(x, nnn)),
        (0xC, x, _, _) => Some(Instruction::RND_Vx_kk(x, kk)),
        (0xD, x, y, n) => Some(Instruction::DRW_Vx_Vy_n(x, y, n)),
        (0xE, x, 0x9, 0xE) => Some(Instruction::SKP_Vx(x)),
        (0xE, x, 0xA, 0x1) => Some(Instruction::SKNP_Vx(x)),
        (0xF, x, 0x0, 0x7) => Some(Instruction::LD_Vx_DT(x)),
        (0xF, x, 0x0, 0xA) => Some(Instruction::LD_Vx_K(x)),
        (0xF, x, 0x1, 0x5) => Some(Instruction::LD_DT_Vx(x)),
        (0xF, x, 0x1, 0x8) => Some(Instruction::LD_ST_Vx(x)),
        (0xF, x, 0x1, 0xE) => Some(Instruction::ADD_I_Vx(x)),
        (0xF, x, 0x3, 0x3) => Some(Instruction::LD_B_Vx(x)),
        (0xF, x, 0x5, 0x5) => Some(Instruction::LD_iI_Vx(x)),
        (0xF, x, 0x6, 0x5) => Some(Instruction::LD_Vx_iI(x)),
        (0xF, x, 0x2, 0x9) => Some(Instruction::LD_F_Vx(x)),
        (0xF, x, 0x3, 0x0) => Some(Instruction::LD_HF_Vx(x)),
        (0xF, x, 0x7, 0x5) => Some(Instruction::SAVE_Vx(x)),
        (0xF, x, 0x8, 0x5) => Some(Instruction::LOAD_Vx(x)),
        _ => None,
    }
}

/// Builds an opcode from a leading digit, two register digits and a low digit.
pub open spec fn op_digits(a: int, x: int, y: int, n: int) -> u16 {
    (a * 4096 + x * 256 + y * 16 + n) as u16
}

/// Builds an opcode from a leading digit, a register digit and a byte.
pub open spec fn op_byte(a: int, x: int, kk: int) -> u16 {
    (a * 4096 + x * 256 + kk) as u16
}


/// The digits of an opcode built from four digits are those digits.
pub proof fn lemma_digits_op(a: int, x: int, y: int, n: int)
    requires
        0 <= a < 16,
        0 <= x < 16,
        0 <= y < 16,
        0 <= n < 16,
    ensures
        nibbles(op_digits(a, x, y, n)) == (a as u8, x as u8, y as u8, n as u8),
        op_digits(a, x, y, n) as int == a * 4096 + x * 256 + y * 16 + n,
{
    let op = a * 4096 + x * 256 + y * 16 + n;
    assert(op_digits(a, x, y, n) as int == op);
    lemma_fundamental_div_mod_converse(op, 4096, a, x * 256 + y * 16 + n);
    lemma_fundamental_div_mod_converse(op, 256, a * 16 + x, y * 16 + n);
    lemma_fundamental_div_mod_converse(a * 16 + x, 16, a, x);
    lemma_fundamental_div_mod_converse(op, 16, a * 256 + x * 16 + y, n);
    lemma_fundamental_div_mod_converse(a * 256 + x * 16 + y, 16, a * 16 + x, y);
}

/// An opcode built from a digit, a register and a byte splits into the byte's two digits.
pub proof fn lemma_op_byte(a: int, x: int, kk: int)
    requires
        0 <= a < 16,
        0 <= x < 16,
        0 <= kk < 256,
    ensures
        op_byte(a, x, kk) == op_digits(a, x, kk / 16, kk % 16),
        op_byte(a, x, kk) % 256 == kk,
{
}

/// An opcode built from a digit and a 12-bit address splits into the address's digits.
pub proof fn lemma_op_addr(p: int, a: int)
    requires
        0 <= p < 16,
        0 <= a < 4096,
    ensures
        (p * 4096 + a) as u16 == op_digits(p, a / 256, a / 16 % 16, a % 16),
        (p * 4096 + a) as u16 % 4096 == a,
        nibbles((p * 4096 + a) as u16) == (p as u8, (a / 256) as u8, (a / 16 % 16) as u8, (a % 16) as u8),
{
    lemma_fundamental_div_mod_converse(a, 256, a / 256, a % 256);
    lemma_fundamental_div_mod_converse(a % 256, 16, a / 16 % 16, a % 16);
    lemma_digits_op(p, a / 256, a / 16 % 16, a % 16);
    lemma_fundamental_div_mod_converse(p * 4096 + a, 4096, p, a);
}

/// Decoding the canonical opcode of any well-formed, representable instruction gives
/// that instruction back: the decoder misses no opcode of the instruction set.
pub proof fn lemma_decode_encode(i: Instruction)
    requires
        i.wf(),
        i.representable(),
    ensures
        decoded(i.encode()) == Some(i),
{
    match i {
        Instruction::SE_Vx_kk(x, kk) => {
            lemma_op_byte(0x3, x as int, kk as int);
            lemma_digits_op(0x3, x as int, kk as int / 16, kk as int % 16);
        },
        Instruction::SNE_Vx_kk(x, kk) => {
            lemma_op_byte(0x4, x as int, kk as int);
            lemma_digits_op(0x4, x as int, kk as int / 16, kk as int % 16);
        },
        Instruction::LD_Vx_kk(x, kk) => {
            lemma_op_byte(0x6, x as int, kk as int);
            lemma_digits_op(0x6, x as int, kk as int / 16, kk as int % 16);
        },
        Instruction::ADD_Vx_kk(x, kk) => {
            lemma_op_byte(0x7, x as int, kk as int);
            lemma_digits_op(0x7, x as int, kk as int / 16, kk as int % 16);
        },
        Instruction::RND_Vx_kk(x, kk) => {
            lemma_op_byte(0xC, x as int, kk as int);
            lemma_digits_op(0xC, x as int, kk as int / 16, kk as int % 16);
        },
        Instruction::SYS_addr(a) => {
            lemma_op_addr(0x0, a as int);
        },
        Instruction::JP_addr(a) => {
            lemma_op_addr(0x1, a as int);
        },
        Instruction::CALL_addr(a) => {
            lemma_op_addr(0x2, a as int);
        },
        Instruction::LD_I_addr(a) => {
            lemma_op_addr(0xA, a as int);
        },
        Instruction::JP_Vx_addr(_, a) => {
            lemma_op_addr(0xB, a as int);
        },
        Instruction::SE_Vx_Vy(x, y) => {
            lemma_digits_op(0x5, x as int, y as int, 0x0);
        },
        Instruction::LD_Vx_Vy(x, y) => {
            lemma_digits_op(0x8, x as int, y as int, 0x0);
        },
        Instruction::OR_Vx_Vy(x, y) => {
            lemma_digits_op(0x8, x as int, y as int, 0x1);
        },
        Instruction::AND_Vx_Vy(x, y) => {
            lemma_digits_op(0x8, x as int, y as int, 0x2);
        },
        Instruction::XOR_Vx_Vy(x, y) => {
            lemma_digits_op(0x8, x as int, y as int, 0x3);
        },
        Instruction::ADD_Vx_Vy(x, y) => {
            lemma_digits_op(0x8, x as int, y as int, 0x4);
        },
        Instruction::SUB_Vx_Vy(x, y) => {
            lemma_digits_op(0x8, x as int, y as int, 0x5);
        },
        Instruction::SHR_Vx_Vy(x, y) => {
            lemma_digits_op(0x8, x as int, y as int, 0x6);
        },
        Instruction::SUBN_Vx_Vy(x, y) => {
            lemma_digits_op(0x8, x as int, y as int, 0x7);
        },
        Instruction::SHL_Vx_Vy(x, y) => {
            lemma_digits_op(0x8, x as int, y as int, 0xE);
        },
        Instruction::SNE_Vx_Vy(x, y) => {
            lemma_digits_op(0x9, x as int, y as int, 0x0);
        },
        Instruction::SKP_Vx(x) => {
            lemma_digits_op(0xE, x as int, 0x9, 0xE);
        },
        Instruction::SKNP_Vx(x) => {
            lemma_digits_op(0xE, x as int, 0xA, 0x1);
        },
        Instruction::LD_Vx_DT(x) => {
            lemma_digits_op(0xF, x as int, 0x0, 0x7);
        },
        Instruction::LD_Vx_K(x) => {
            lemma_digits_op(0xF, x as int, 0x0, 0xA);
        },
        Instruction::LD_DT_Vx(x) => {
            lemma_digits_op(0xF, x as int, 0x1, 0x5);
        },
        Instruction::LD_ST_Vx(x) => {
            lemma_digits_op(0xF, x as int, 0x1, 0x8);
        },
        Instruction::ADD_I_Vx(x) => {
            lemma_digits_op(0xF, x as int, 0x1, 0xE);
        },
        Instruction::LD_F_Vx(x) => {
            lemma_digits_op(0xF, x as int, 0x2, 0x9);
        },
        Instruction::LD_B_Vx(x) => {
            lemma_digits_op(0xF, x as int, 0x3, 0x3);
        },
        Instruction::LD_iI_Vx(x) => {
            lemma_digits_op(0xF, x as int, 0x5, 0x5);
        },
        Instruction::LD_Vx_iI(x) => {
            lemma_digits_op(0xF, x as int, 0x6, 0x5);
        },
        Instruction::LD_HF_Vx(x) => {
            lemma_digits_op(0xF, x as int, 0x3, 0x0);
        },
        Instruction::SAVE_Vx(x) => {
            lemma_digits_op(0xF, x as int, 0x7, 0x5);
        },
        Instruction::LOAD_Vx(x) => {
            lemma_digits_op(0xF, x as int, 0x8, 0x5);
        },
        Instruction::DRW_Vx_Vy_n(x, y, n) => {
            lemma_digits_op(0xD, x as int, y as int, n as int);
        },
        Instruction::SCD_n(n) => {
            lemma_digits_op(0x0, 0x0, 0xC, n as int);
        },
        Instruction::CLS => {
            lemma_digits_op(0x0, 0x0, 0xE, 0x0);
        },
        Instruction::RET => {
            lemma_digits_op(0x0, 0x0, 0xE, 0xE);
        },
        Instruction::SCR => {
            lemma_digits_op(0x0, 0x0, 0xF, 0xB);
        },
        Instruction::SCL => {
            lemma_digits_op(0x0, 0x0, 0xF, 0xC);
        },
        Instruction::EXIT => {
            lemma_digits_op(0x0, 0x0, 0xF, 0xD);
        },
        Instruction::LORES => {
            lemma_digits_op(0x0, 0x0, 0xF, 0xE);
        },
        Instruction::HIRES => {
            lemma_digits_op(0x0, 0x0, 0xF, 0xF);
        },
    }
}

impl Instruction {
    /// Every operand is in the range its opcode field can hold.
    pub open spec fn wf(self) -> bool {
        match self {
            Instruction::SYS_addr(a) | Instruction::JP_addr(a) | Instruction::CALL_addr(a)
            | Instruction::LD_I_addr(a) => a < 4096,
            Instruction::SE_Vx_kk(x, _) | Instruction::SNE_Vx_kk(x, _)
            | Instruction::LD_Vx_kk(x, _) | Instruction::ADD_Vx_kk(x, _)
            | Instruction::RND_Vx_kk(x, _) => x < 16,
            Instruction::SE_Vx_Vy(x, y) | Instruction::LD_Vx_Vy(x, y)
            | Instruction::OR_Vx_Vy(x, y) | Instruction::AND_Vx_Vy(x, y)
            | Instruction::XOR_Vx_Vy(x, y) | Instruction::ADD_Vx_Vy(x, y)
            | Instruction::SUB_Vx_Vy(x, y) | Instruction::SHR_Vx_Vy(x, y)
            | Instruction::SUBN_Vx_Vy(x, y) | Instruction::SHL_Vx_Vy(x, y)
            | Instruction::SNE_Vx_Vy(x, y) => x < 16 && y < 16,
            Instruction::JP_Vx_addr(x, a) => x < 16 && a < 4096,
            Instruction::SKP_Vx(x) | Instruction::SKNP_Vx(x) | Instruction::LD_Vx_DT(x)
            | Instruction::LD_Vx_K(x) | Instruction::LD_DT_Vx(x) | Instruction::LD_ST_Vx(x)
            | Instruction::ADD_I_Vx(x) | Instruction::LD_F_Vx(x) | Instruction::LD_B_Vx(x)
            | Instruction::LD_iI_Vx(x) | Instruction::LD_Vx_iI(x) | Instruction::LD_HF_Vx(x)
            | Instruction::SAVE_Vx(x) | Instruction::LOAD_Vx(x) => x < 16,
            Instruction::DRW_Vx_Vy_n(x, y, n) => x < 16 && y < 16 && n < 16,
            Instruction::SCD_n(n) => n < 16,
            Instruction::CLS | Instruction::RET | Instruction::SCR | Instruction::SCL
            | Instruction::EXIT | Instruction::LORES | Instruction::HIRES => true,
        }
    }

    /// The canonical opcode of a well-formed instruction.
    pub open spec fn encode(self) -> u16 {
        match self {
            Instruction::SYS_addr(a) => a,
            Instruction::CLS => 0x00E0,
            Instruction::RET => 0x00EE,
            Instruction::JP_addr(a) => (0x1000 + a) as u16,
            Instruction::CALL_addr(a) => (0x2000 + a) as u16,
            Instruction::SE_Vx_kk(x, kk) => op_byte(0x3, x as int, kk as int),
            Instruction::SNE_Vx_kk(x, kk) => op_byte(0x4, x as int, kk as int),
            Instruction::SE_Vx_Vy(x, y) => op_digits(0x5, x as int, y as int, 0x0),
            Instruction::LD_Vx_kk(x, kk) => op_byte(0x6, x as int, kk as int),
            Instruction::ADD_Vx_kk(x, kk) => op_byte(0x7, x as int, kk as int),
            Instruction::LD_Vx_Vy(x, y) => op_digits(0x8, x as int, y as int, 0x0),
            Instruction::OR_Vx_Vy(x, y) => op_digits(0x8, x as int, y as int, 0x1),
            Instruction::AND_Vx_Vy(x, y) => op_digits(0x8, x as int, y as int, 0x2),
            Instruction::XOR_Vx_Vy(x, y) => op_digits(0x8, x as int, y as int, 0x3),
            Instruction::ADD_Vx_Vy(x, y) => op_digits(0x8, x as int, y as int, 0x4),
            Instruction::SUB_Vx_Vy(x, y) => op_digits(0x8, x as int, y as int, 0x5),
            Instruction::SHR_Vx_Vy(x, y) => op_digits(0x8, x as int, y as int, 0x6),
            Instruction::SUBN_Vx_Vy(x, y) => op_digits(0x8, x as int, y as int, 0x7),
            Instruction::SHL_Vx_Vy(x, y) => op_digits(0x8, x as int, y as int, 0xE),
            Instruction::SNE_Vx_Vy(x, y) => op_digits(0x9, x as int, y as int, 0x0),
            Instruction::LD_I_addr(a) => (0xA000 + a) as u16,
            Instruction::JP_Vx_addr(_, a) => (0xB000 + a) as u16,
            Instruction::RND_Vx_kk(x, kk) => op_byte(0xC, x as int, kk as int),
            Instruction::DRW_Vx_Vy_n(x, y, n) => op_digits(0xD, x as int, y as int, n as int),
            Instruction::SKP_Vx(x) => op_digits(0xE, x as int, 0x9, 0xE),
            Instruction::SKNP_Vx(x) => op_digits(0xE, x as int, 0xA, 0x1),
            Instruction::LD_Vx_DT(x) => op_digits(0xF, x as int, 0x0, 0x7),
            Instruction::LD_Vx_K(x) => op_digits(0xF, x as int, 0x0, 0xA),
            Instruction::LD_DT_Vx(x) => op_digits(0xF, x as int, 0x1, 0x5),
            Instruction::LD_ST_Vx(x) => op_digits(0xF, x as int, 0x1, 0x8),
            Instruction::ADD_I_Vx(x) => op_digits(0xF, x as int, 0x1, 0xE),
            Instruction::LD_F_Vx(x) => op_digits(0xF, x as int, 0x2, 0x9),
            Instruction::LD_B_Vx(x) => op_digits(0xF, x as int, 0x3, 0x3),
            Instruction::LD_iI_Vx(x) => op_digits(0xF, x as int, 0x5, 0x5),
            Instruction::LD_Vx_iI(x) => op_digits(0xF, x as int, 0x6, 0x5),
            Instruction::SCD_n(n) => op_digits(0x0, 0x0, 0xC, n as int),
            Instruction::SCR => 0x00FB,
            Instruction::SCL => 0x00FC,
            Instruction::EXIT => 0x00FD,
            Instruction::LORES => 0x00FE,
            Instruction::HIRES => 0x00FF,
            Instruction::LD_HF_Vx(x) => op_digits(0xF, x as int, 0x3, 0x0),
            Instruction::SAVE_Vx(x) => op_digits(0xF, x as int, 0x7, 0x5),
            Instruction::LOAD_Vx(x) => op_digits(0xF, x as int, 0x8, 0x5),
        }
    }

    /// The operand combinations that an opcode can represent: `JP Vx, addr` names in
    /// its register field the top digit of its address, and a `SYS addr` must not fall
    /// on an opcode that a more specific pattern claims.
    pub open spec fn representable(self) -> bool {
        match self {
            Instruction::SYS_addr(a) => !(a == 0x0E0 || a == 0x0EE || (0x0FB <= a <= 0x0FF)
                || (0x0C0 <= a <= 0x0CF) || a == 0x230),
            Instruction::JP_Vx_addr(x, a) => x as int == a / 256,
            _ => true,
        }
    }

    /// Decodes an opcode; `None` when it matches no pattern.
    pub fn decode(op: u16) -> (r: Option<Instruction>)
        ensures
            r == decoded(op),
            r matches Some(i) ==> i.wf(),
    {
        let nibbles = (
            (op / 4096) as u8,
            (op / 256 % 16) as u8,
            (op / 16 % 16) as u8,
            (op % 16) as u8,
        );
        let nnn: u16 = op % 4096;
        let kk: u8 = (op % 256) as u8;
        match nibbles {
            (0x0, 0x0, 0xE, 0x0) => Some(Instruction::CLS),
            (0x0, 0x0, 0xE, 0xE) => Some(Instruction::RET),
            (0x0, 0x0, 0xF, 0xB) => Some(Instruction::SCR),
            (0x0, 0x0, 0xF, 0xC) => Some(Instruction::SCL),
            (0x0, 0x0, 0xF, 0xD) => Some(Instruction::EXIT),
            (0x0, 0x0, 0xF, 0xE) => Some(Instruction::LORES),
            (0x0, 0x0, 0xF, 0xF) => Some(Instruction::HIRES),
            (0x0, 0x0, 0xC, n) => Some(Instruction::SCD_n(n)),
            (0x0, 0x2, 0x3, 0x0) => Some(Instruction::CLS),
            (0x0, _, _, _) => Some(Instruction::SYS_addr(nnn)),
            (0x1, _, _, _) => Some(Instruction::JP_addr(nnn)),
            (0x2, _, _, _) => Some(Instruction::CALL_addr(nnn)),
            (0x3, x, _, _) => Some(Instruction::SE_Vx_kk(x, kk)),
            (0x4, x, _, _) => Some(Instruction::SNE_Vx_kk(x, kk)),
            (0x5, x, y, 0x0) => Some(Instruction::SE_Vx_Vy(x, y)),
            (0x6, x, _, _) => Some(Instruction::LD_Vx_kk(x, kk)),
            (0x7, x, _, _) => Some(Instruction::ADD_Vx_kk(x, kk)),
            (0x8, x, y, 0x0) => Some(Instruction::LD_Vx_Vy(x, y)),
            (0x8, x, y, 0x1) => Some(Instruction::OR_Vx_Vy(x, y)),
            (0x8, x, y, 0x2) => Some(Instruction::AND_Vx_Vy(x, y)),
            (0x8, x, y, 0x3) => Some(Instruction::XOR_Vx_Vy(x, y)),
            (0x8, x, y, 0x4) => Some(Instruction::ADD_Vx_Vy(x, y)),
            (0x8, x, y, 0x5) => Some(Instruction::SUB_Vx_Vy(x, y)),
            (0x8, x, y, 0x6) => Some(Instruction::SHR_Vx_Vy(x, y)),
            (0x8, x, y, 0x7) => Some(Instruction::SUBN_Vx_Vy(x, y)),
            (0x8, x, y, 0xE) => Some(Instruction::SHL_Vx_Vy(x, y)),
            (0x9, x, y, 0x0) => Some(Instruction::SNE_Vx_Vy(x, y)),
            (0xA, _, _, _) => Some(Instruction::LD_I_addr(nnn)),
            (0xB, x, _, _) => Some(Instruction::JP_Vx_addr(x, nnn)),
            (0xC, x, _, _) => Some(Instruction::RND_Vx_kk(x, kk)),
            (0xD, x, y, n) => Some(Instruction::DRW_Vx_Vy_n(x, y, n)),
            (0xE, x, 0x9, 0xE) => Some(Instruction::SKP_Vx(x)),
            (0xE, x, 0xA, 0x1) => Some(Instruction::SKNP_Vx(x)),
            (0xF, x, 0x0, 0x7) => Some(Instruction::LD_Vx_DT(x)),
            (0xF, x, 0x0, 0xA) => Some(Instruction::LD_Vx_K(x)),
            (0xF, x, 0x1, 0x5) => Some(Instruction::LD_DT_Vx(x)),
            (0xF, x, 0x1, 0x8) => Some(Instruction::LD_ST_Vx(x)),
            (0xF, x, 0x1, 0xE) => Some(Instruction::ADD_I_Vx(x)),
            (0xF, x, 0x3, 0x3) => Some(Instruction::LD_B_Vx(x)),
            (0xF, x, 0x5, 0x5) => Some(Instruction::LD_iI_Vx(x)),
            (0xF, x, 0x6, 0x5) => Some(Instruction::LD_Vx_iI(x)),
            (0xF, x, 0x2, 0x9) => Some(Instruction::LD_F_Vx(x)),
            (0xF, x, 0x3, 0x0) => Some(Instruction::LD_HF_Vx(x)),
            (0xF, x, 0x7, 0x5) => Some(Instruction::SAVE_Vx(x)),
            (0xF, x, 0x8, 0x5) => Some(Instruction::LOAD_Vx(x)),
            _ => None,
        }
    }

    /// Decodes an opcode that matches a pattern of the table.
    pub fn parse(op: u16) -> (r: Instruction)
        requires
            decoded(op) is Some,
        ensures
            decoded(op) == Some(r),
            r.wf(),
    {
        match Instruction::decode(op) {
            Some(i) => i,
            None => Instruction::CLS,
        }
    }
}

} // verus!
