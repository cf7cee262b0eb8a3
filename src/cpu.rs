use vstd::prelude::*;
use vstd::arithmetic::div_mod::lemma_fundamental_div_mod;
use vstd::arithmetic::mul::{lemma_mul_inequality, lemma_mul_is_commutative};
use crate::instruction::{decoded, Instruction};
use crate::memory::{Memory, initial_memory};
use crate::quirks::Quirks;
use rand::Rng;

verus! {

/// Cycles that every instruction costs, unless a draw waits for the display.
pub const INSTRUCTION_CYCLES: u32 = 8;

/// Divides the clock speed into the cycle budget of one 60 Hz timer tick.
pub const CYCLES_DIVISOR: u32 = 6000;

/// Low-resolution screen size.
pub const LORES_WIDTH: usize = 64;
pub const LORES_HEIGHT: usize = 32;

/// High-resolution screen size.
pub const HIRES_WIDTH: usize = 128;
pub const HIRES_HEIGHT: usize = 64;

/// Number of the flag register `VF`.
pub const VF: usize = 0xF;

/// The whole machine state as mathematical values.
pub struct CpuView {
    pub quirks: Quirks,
    pub clock_speed: u32,
    pub running: bool,
    pub hires: bool,
    pub mem: Seq<u8>,
    pub keys: Seq<bool>,
    pub pc: u16,
    pub stack: Seq<u16>,
    pub vx: Seq<u8>,
    pub dt: u8,
    pub st: u8,
    pub i: u16,
    pub save: Seq<u8>,
    pub width: usize,
    pub height: usize,
    pub vram: Seq<bool>,
}

/// Adds modulo 2^16, as the 16-bit program counter and index register do.
pub open spec fn wrap16(v: int) -> u16 {
    (v % 0x10000) as u16
}

/// An all-dark screen of `n` pixels.
pub open spec fn blank(n: nat) -> Seq<bool> {
    Seq::new(n, |p: int| false)
}

/// The lowest-numbered key that is held, if any.
pub open spec fn first_held(keys: Seq<bool>) -> Option<int> {
    if exists|k: int| 0 <= k < keys.len() && keys[k] {
        Some(choose|k: int| 0 <= k < keys.len() && keys[k] && forall|j: int| 0 <= j < k ==> !keys[j])
    } else {
        None
    }
}

/// Memory after `V0..=Vx` are stored from address `i` on, wrapping at the top.
pub open spec fn stored_registers(mem: Seq<u8>, i: u16, vx: Seq<u8>, x: int) -> Seq<u8> {
    Seq::new(mem.len(), |a: int| {
        let k = (a - i) % 0x1000;
        if k <= x { vx[k] } else { mem[a] }
    })
}

/// Registers after `V0..=Vx` are loaded from address `i` on, wrapping at the top.
pub open spec fn loaded_registers(mem: Seq<u8>, i: u16, vx: Seq<u8>, x: int) -> Seq<u8> {
    Seq::new(vx.len(), |k: int| if k <= x { mem[(i + k) % 0x1000] } else { vx[k] })
}

/// `dst` with its first `count` entries taken from `src`.
pub open spec fn copy_prefix(dst: Seq<u8>, src: Seq<u8>, count: int) -> Seq<u8> {
    Seq::new(dst.len(), |k: int| if k < count { src[k] } else { dst[k] })
}

/// The screen scrolled down by `n` rows of width `w`; exposed rows are dark.
pub open spec fn scrolled_down(vram: Seq<bool>, w: int, n: int) -> Seq<bool> {
    Seq::new(vram.len(), |p: int| if p / w < n { false } else { vram[p - n * w] })
}

/// Every row of width `w` shifted right by four pixels; exposed columns are dark.
pub open spec fn scrolled_right(vram: Seq<bool>, w: int) -> Seq<bool> {
    Seq::new(vram.len(), |p: int| if p % w < 4 { false } else { vram[p - 4] })
}

/// Every row of width `w` shifted left by four pixels; exposed columns are dark.
pub open spec fn scrolled_left(vram: Seq<bool>, w: int) -> Seq<bool> {
    Seq::new(vram.len(), |p: int| if p % w + 4 >= w { false } else { vram[p + 4] })
}

/// The value held by register `x`.
pub open spec fn reg(s: CpuView, x: u8) -> int {
    s.vx[x as int] as int
}

/// The program counter after a conditional skip.
pub open spec fn skip_if(s: CpuView, cond: bool) -> u16 {
    if cond { wrap16(s.pc + 2) } else { s.pc }
}

/// Flow-control instructions.
pub open spec fn next_flow(s: CpuView, inst: Instruction) -> CpuView {
    match inst {
        Instruction::EXIT => CpuView { running: false, ..s },
        Instruction::RET => if s.stack.len() > 0 {
            CpuView { pc: s.stack.last(), stack: s.stack.drop_last(), ..s }
        } else {
            CpuView { pc: 0, ..s }
        },
        Instruction::JP_addr(a) => CpuView {
            running: if s.pc == a + 2 { false } else { s.running },
            pc: a,
            ..s
        },
        Instruction::JP_Vx_addr(x, a) => CpuView {
            pc: wrap16(a + reg(s, if s.quirks.jumping { x } else { 0 })),
            ..s
        },
        Instruction::CALL_addr(a) => CpuView { stack: s.stack.push(s.pc), pc: a, ..s },
        Instruction::SE_Vx_kk(x, kk) => CpuView { pc: skip_if(s, reg(s, x) == kk), ..s },
        Instruction::SNE_Vx_kk(x, kk) => CpuView { pc: skip_if(s, reg(s, x) != kk), ..s },
        Instruction::SE_Vx_Vy(x, y) => CpuView { pc: skip_if(s, reg(s, x) == reg(s, y)), ..s },
        Instruction::SNE_Vx_Vy(x, y) => CpuView { pc: skip_if(s, reg(s, x) != reg(s, y)), ..s },
        Instruction::SKP_Vx(x) => CpuView { pc: skip_if(s, s.keys[reg(s, x) % 16]), ..s },
        Instruction::SKNP_Vx(x) => CpuView { pc: skip_if(s, !s.keys[reg(s, x) % 16]), ..s },
        Instruction::LD_Vx_K(x) => match first_held(s.keys) {
            Some(k) => CpuView { vx: s.vx.update(x as int, k as u8), ..s },
            None => CpuView { pc: wrap16(s.pc - 2), ..s },
        },
        _ => s,
    }
}

/// `VF` after a bitwise operation: cleared under the `vf_reset` quirk.
pub open spec fn bitwise_result(s: CpuView, x: u8, v: u8) -> Seq<u8> {
    let r = s.vx.update(x as int, v);
    if s.quirks.vf_reset { r.update(VF as int, 0) } else { r }
}

/// The operand that a shift reads: `Vy`, or `Vx` itself under the `shifting` quirk.
pub open spec fn shift_source(s: CpuView, x: u8, y: u8) -> int {
    if s.quirks.shifting { reg(s, x) } else { reg(s, y) }
}

/// Register arithmetic and loads.
pub open spec fn next_alu(s: CpuView, inst: Instruction, rnd: u8) -> CpuView {
    match inst {
        Instruction::LD_Vx_kk(x, kk) => CpuView { vx: s.vx.update(x as int, kk), ..s },
        Instruction::LD_Vx_Vy(x, y) => CpuView { vx: s.vx.update(x as int, s.vx[y as int]), ..s },
        Instruction::ADD_Vx_kk(x, kk) => CpuView {
            vx: s.vx.update(x as int, ((reg(s, x) + kk) % 256) as u8),
            ..s
        },
        Instruction::OR_Vx_Vy(x, y) => CpuView {
            vx: bitwise_result(s, x, s.vx[x as int] | s.vx[y as int]),
            ..s
        },
        Instruction::AND_Vx_Vy(x, y) => CpuView {
            vx: bitwise_result(s, x, s.vx[x as int] & s.vx[y as int]),
            ..s
        },
        Instruction::XOR_Vx_Vy(x, y) => CpuView {
            vx: bitwise_result(s, x, s.vx[x as int] ^ s.vx[y as int]),
            ..s
        },
        Instruction::ADD_Vx_Vy(x, y) => {
            let sum = reg(s, x) + reg(s, y);
            CpuView {
                vx: s.vx.update(x as int, (sum % 256) as u8).update(
                    VF as int,
                    if sum > 255 { 1u8 } else { 0u8 },
                ),
                ..s
            }
        },
        Instruction::SUB_Vx_Vy(x, y) => CpuView {
            vx: s.vx.update(x as int, ((reg(s, x) - reg(s, y)) % 256) as u8).update(
                VF as int,
                if reg(s, x) >= reg(s, y) { 1u8 } else { 0u8 },
            ),
            ..s
        },
        Instruction::SUBN_Vx_Vy(x, y) => CpuView {
            vx: s.vx.update(x as int, ((reg(s, y) - reg(s, x)) % 256) as u8).update(
                VF as int,
                if reg(s, y) >= reg(s, x) { 1u8 } else { 0u8 },
            ),
            ..s
        },
        Instruction::SHR_Vx_Vy(x, y) => {
            let v = shift_source(s, x, y);
            CpuView { vx: s.vx.update(x as int, (v / 2) as u8).update(VF as int, (v % 2) as u8), ..s }
        },
        Instruction::SHL_Vx_Vy(x, y) => {
            let v = shift_source(s, x, y);
            CpuView {
                vx: s.vx.update(x as int, ((v * 2) % 256) as u8).update(VF as int, (v / 128) as u8),
                ..s
            }
        },
        Instruction::RND_Vx_kk(x, kk) => CpuView {
            vx: s.vx.update(x as int, (rnd as int % (kk + 1)) as u8),
            ..s
        },
        Instruction::LD_Vx_DT(x) => CpuView { vx: s.vx.update(x as int, s.dt), ..s },
        Instruction::LD_DT_Vx(x) => CpuView { dt: s.vx[x as int], ..s },
        Instruction::LD_ST_Vx(x) => CpuView { st: s.vx[x as int], ..s },
        _ => s,
    }
}

/// The index register after a block transfer of `V0..=Vx`: under the `memory` quirk it
/// advances past the registers, masked to 12 bits.
pub open spec fn index_after_block(s: CpuView, x: u8) -> u16 {
    if s.quirks.memory { ((s.i + x + 1) % 0x1000) as u16 } else { s.i }
}

/// Instructions on the index register and memory.
pub open spec fn next_memory(s: CpuView, inst: Instruction) -> CpuView {
    match inst {
        Instruction::LD_I_addr(a) => CpuView { i: a, ..s },
        Instruction::ADD_I_Vx(x) => {
            let sum = wrap16(s.i + reg(s, x));
            CpuView {
                vx: s.vx.update(VF as int, if sum > 0x0FFF { 1u8 } else { 0u8 }),
                i: (sum % 0x1000) as u16,
                ..s
            }
        },
        Instruction::LD_F_Vx(x) => CpuView { i: (5 * reg(s, x)) as u16, ..s },
        Instruction::LD_HF_Vx(x) => CpuView { i: (0x050 + 10 * reg(s, x)) as u16, ..s },
        Instruction::LD_B_Vx(x) => {
            let v = reg(s, x);
            CpuView {
                mem: s.mem.update(s.i as int % 0x1000, (v / 100 % 10) as u8).update(
                    (s.i + 1) % 0x1000,
                    (v / 10 % 10) as u8,
                ).update((s.i + 2) % 0x1000, (v % 10) as u8),
                ..s
            }
        },
        Instruction::LD_iI_Vx(x) => CpuView {
            mem: stored_registers(s.mem, s.i, s.vx, x as int),
            i: index_after_block(s, x),
            ..s
        },
        Instruction::LD_Vx_iI(x) => CpuView {
            vx: loaded_registers(s.mem, s.i, s.vx, x as int),
            i: index_after_block(s, x),
            ..s
        },
        Instruction::SAVE_Vx(x) => CpuView {
            save: copy_prefix(s.save, s.vx, if x < 7 { x + 1 } else { 8 }),
            ..s
        },
        Instruction::LOAD_Vx(x) => CpuView {
            vx: copy_prefix(s.vx, s.save, if x < 7 { x + 1 } else { 8 }),
            ..s
        },
        _ => s,
    }
}

/// Display-mode and scrolling instructions.
pub open spec fn next_display(s: CpuView, inst: Instruction) -> CpuView {
    match inst {
        Instruction::CLS => CpuView { vram: blank(s.vram.len()), ..s },
        Instruction::LORES => CpuView {
            hires: false,
            width: LORES_WIDTH,
            height: LORES_HEIGHT,
            vram: blank((LORES_WIDTH * LORES_HEIGHT) as nat),
            ..s
        },
        Instruction::HIRES => CpuView {
            hires: true,
            width: HIRES_WIDTH,
            height: HIRES_HEIGHT,
            vram: blank((HIRES_WIDTH * HIRES_HEIGHT) as nat),
            ..s
        },
        Instruction::SCD_n(n) => CpuView { vram: scrolled_down(s.vram, s.width as int, n as int), ..s },
        Instruction::SCR => CpuView { vram: scrolled_right(s.vram, s.width as int), ..s },
        Instruction::SCL => CpuView { vram: scrolled_left(s.vram, s.width as int), ..s },
        _ => s,
    }
}

/// Draws the pixels of one sprite row into the row of the screen starting at `base`,
/// from column `x0 + col` on. `rest` holds the row's remaining pattern with its next
/// pixel at value `top`; each lit pixel flips the screen pixel under it, and `hit`
/// records whether one of them was lit before. Past the right edge, columns wrap
/// under `wrap` and are cut off otherwise.
pub open spec fn draw_row(
    vram: Seq<bool>,
    w: int,
    base: int,
    x0: int,
    rest: int,
    top: int,
    col: int,
    ncols: int,
    wrap: bool,
    hit: bool,
) -> (Seq<bool>, bool)
    decreases ncols - col,
{
    if col >= ncols || (!wrap && x0 + col >= w) {
        (vram, hit)
    } else {
        let next = (rest % top) * 2;
        if rest >= top {
            let p = base + (x0 + col) % w;
            draw_row(vram.update(p, !vram[p]), w, base, x0, next, top, col + 1, ncols, wrap, hit || vram[p])
        } else {
            draw_row(vram, w, base, x0, next, top, col + 1, ncols, wrap, hit)
        }
    }
}

/// Draws rows `row..n` of an 8-pixel-wide sprite read from `i + row` on; `VF` becomes 1
/// once a row flips a lit pixel off. Past the bottom edge, rows wrap under `wrap` and
/// end the sprite otherwise.
pub open spec fn draw_small(
    vram: Seq<bool>,
    mem: Seq<u8>,
    i: int,
    w: int,
    h: int,
    x0: int,
    y0: int,
    n: int,
    wrap: bool,
    row: int,
    vf: u8,
) -> (Seq<bool>, u8)
    decreases n - row,
{
    if row >= n || (!wrap && y0 + row >= h) {
        (vram, vf)
    } else {
        let base = ((y0 + row) % h) * w;
        let bits = mem[(i + row) % 0x1000] as int;
        let drawn = draw_row(vram, w, base, x0, bits, 0x80, 0, 8, wrap, false);
        draw_small(drawn.0, mem, i, w, h, x0, y0, n, wrap, row + 1, if drawn.1 { 1 } else { vf })
    }
}

/// Draws rows `row..16` of a 16 by 16 sprite, two bytes a row from `i + 2 * row` on.
/// `VF` counts the rows that flip a lit pixel off and the rows past the bottom edge;
/// past it, rows wrap under `wrap`, and otherwise the first such row ends the sprite.
pub open spec fn draw_big(
    vram: Seq<bool>,
    mem: Seq<u8>,
    i: int,
    w: int,
    h: int,
    x0: int,
    y0: int,
    wrap: bool,
    row: int,
    vf: int,
) -> (Seq<bool>, int)
    decreases 16 - row,
{
    if row >= 16 {
        (vram, vf)
    } else if !wrap && y0 + row >= h {
        (vram, vf + 1)
    } else {
        let vf1 = if y0 + row >= h { vf + 1 } else { vf };
        let base = ((y0 + row) % h) * w;
        let bits = mem[(i + 2 * row) % 0x1000] * 256 + mem[(i + 2 * row + 1) % 0x1000];
        let drawn = draw_row(vram, w, base, x0, bits, 0x8000, 0, 16, wrap, false);
        draw_big(drawn.0, mem, i, w, h, x0, y0, wrap, row + 1, if drawn.1 { vf1 + 1 } else { vf1 })
    }
}

/// `DRW Vx, Vy, n`: the sprite at `I` drawn at (`Vx`, `Vy`) reduced onto the screen.
pub open spec fn next_draw(s: CpuView, x: u8, y: u8, n: u8) -> CpuView {
    let w = s.width as int;
    let h = s.height as int;
    let x0 = reg(s, x) % w;
    let y0 = reg(s, y) % h;
    let wrap = s.quirks.sprite_wrapping;
    if n == 0 {
        let drawn = draw_big(s.vram, s.mem, s.i as int, w, h, x0, y0, wrap, 0, 0);
        CpuView { vram: drawn.0, vx: s.vx.update(VF as int, drawn.1 as u8), ..s }
    } else {
        let drawn = draw_small(s.vram, s.mem, s.i as int, w, h, x0, y0, n as int, wrap, 0, 0);
        CpuView { vram: drawn.0, vx: s.vx.update(VF as int, drawn.1), ..s }
    }
}

/// What executing `inst` does to the state, where `rnd` is the random byte that
/// `RND` reduces into its range.
pub open spec fn next(s: CpuView, inst: Instruction, rnd: u8) -> CpuView {
    match inst {
        Instruction::SYS_addr(_) => s,
        Instruction::EXIT | Instruction::RET | Instruction::JP_addr(_) | Instruction::JP_Vx_addr(_, _)
        | Instruction::CALL_addr(_) | Instruction::SE_Vx_kk(_, _) | Instruction::SNE_Vx_kk(_, _)
        | Instruction::SE_Vx_Vy(_, _) | Instruction::SNE_Vx_Vy(_, _) | Instruction::SKP_Vx(_)
        | Instruction::SKNP_Vx(_) | Instruction::LD_Vx_K(_) => next_flow(s, inst),
        Instruction::LD_I_addr(_) | Instruction::ADD_I_Vx(_) | Instruction::LD_F_Vx(_)
        | Instruction::LD_HF_Vx(_) | Instruction::LD_B_Vx(_) | Instruction::LD_iI_Vx(_)
        | Instruction::LD_Vx_iI(_) | Instruction::SAVE_Vx(_) | Instruction::LOAD_Vx(_) => next_memory(s, inst),
        Instruction::CLS | Instruction::LORES | Instruction::HIRES | Instruction::SCD_n(_)
        | Instruction::SCR | Instruction::SCL => next_display(s, inst),
        Instruction::DRW_Vx_Vy_n(x, y, n) => next_draw(s, x, y, n),
        _ => next_alu(s, inst, rnd),
    }
}

/// `ADD Vx, Vy` leaves `(Vx + Vy) mod 256` in `Vx` and sets `VF` exactly when the sum
/// exceeds 255 (for any `Vx` but `VF` itself, which the flag overwrites).
pub proof fn lemma_add_carry(s: CpuView, x: u8, y: u8, rnd: u8)
    requires
        s.wf(),
        x < 15,
        y < 16,
    ensures
        ({
            let t = next(s, Instruction::ADD_Vx_Vy(x, y), rnd);
            &&& t.vx[x as int] == (s.vx[x as int] + s.vx[y as int]) % 256
            &&& (t.vx[VF as int] == 1 <==> s.vx[x as int] + s.vx[y as int] > 255)
            &&& (t.vx[VF as int] == 0 <==> s.vx[x as int] + s.vx[y as int] <= 255)
        }),
{
}

/// `SUB Vx, Vy` leaves `(Vx - Vy) mod 256` in `Vx` and sets `VF` exactly when
/// `Vx >= Vy`, that is when no borrow occurs (for any `Vx` but `VF` itself).
pub proof fn lemma_sub_borrow(s: CpuView, x: u8, y: u8, rnd: u8)
    requires
        s.wf(),
        x < 15,
        y < 16,
    ensures
        ({
            let t = next(s, Instruction::SUB_Vx_Vy(x, y), rnd);
            &&& t.vx[x as int] == (s.vx[x as int] - s.vx[y as int]) % 256
            &&& (t.vx[VF as int] == 1 <==> s.vx[x as int] >= s.vx[y as int])
            &&& (t.vx[VF as int] == 0 <==> s.vx[x as int] < s.vx[y as int])
        }),
{
}

/// Shifts read `Vy` when the `shifting` quirk is off and `Vx` itself when it is on;
/// `VF` receives the bit shifted out (for any `Vx` but `VF` itself).
pub proof fn lemma_shift_source(s: CpuView, x: u8, y: u8, rnd: u8)
    requires
        s.wf(),
        x < 15,
        y < 16,
    ensures
        ({
            let v = if s.quirks.shifting { s.vx[x as int] } else { s.vx[y as int] };
            let r = next(s, Instruction::SHR_Vx_Vy(x, y), rnd);
            let l = next(s, Instruction::SHL_Vx_Vy(x, y), rnd);
            &&& r.vx[x as int] == v / 2
            &&& r.vx[VF as int] == v % 2
            &&& l.vx[x as int] == (v * 2) % 256
            &&& l.vx[VF as int] == v / 128
        }),
{
}

/// After `CLS` every pixel of the screen is dark, whatever it showed before, and the
/// screen keeps its size.
pub proof fn lemma_clear_screen(s: CpuView, rnd: u8)
    requires
        s.wf(),
    ensures
        ({
            let t = next(s, Instruction::CLS, rnd);
            &&& t.vram.len() == s.vram.len()
            &&& forall|p: int| 0 <= p < t.vram.len() ==> !#[trigger] t.vram[p]
        }),
{
}

/// `SAVE Vx` followed by `LOAD Vx` gives back every register, and `LOAD Vx` alone leaves
/// the registers past `V(min(x, 7))` as they were.
pub proof fn lemma_save_load(s: CpuView, x: u8, rnd: u8)
    requires
        s.wf(),
        x < 16,
    ensures
        next(next(s, Instruction::SAVE_Vx(x), rnd), Instruction::LOAD_Vx(x), rnd).vx == s.vx,
        forall|k: int|
            (if x < 7 { x as int } else { 7 }) < k < 16 ==> #[trigger] next(s, Instruction::LOAD_Vx(x), rnd).vx[k]
                == s.vx[k],
{
    let t = next(next(s, Instruction::SAVE_Vx(x), rnd), Instruction::LOAD_Vx(x), rnd);
    assert(t.vx =~= s.vx);
}

/// The big-endian instruction word at the program counter.
pub open spec fn opcode_at(s: CpuView) -> u16 {
    (s.mem[s.pc as int % 0x1000] * 256 + s.mem[(s.pc + 1) % 0x1000]) as u16
}

/// Cycles an instruction costs: a full timer tick for a draw under `display_wait`,
/// the fixed instruction cost otherwise.
pub open spec fn step_cycles(s: CpuView, inst: Instruction) -> u32 {
    if inst is DRW_Vx_Vy_n && s.quirks.display_wait {
        (s.clock_speed / CYCLES_DIVISOR) as u32
    } else {
        INSTRUCTION_CYCLES
    }
}

/// One fetch-decode-execute step with `rnd` as the random byte: the program counter
/// advances past the word before the instruction runs. A word that decodes to nothing
/// is fatal: the program stops running, nothing else changes, and the word is reported
/// with its address.
#[verifier::opaque]
pub open spec fn stepped(s: CpuView, rnd: u8) -> (CpuView, Result<u32, InvalidOpcode>) {
    let op = opcode_at(s);
    match decoded(op) {
        None => (CpuView { running: false, ..s }, Err(InvalidOpcode { opcode: op, addr: s.pc })),
        Some(inst) => (
            next(CpuView { pc: wrap16(s.pc + 2), ..s }, inst, rnd),
            Ok(step_cycles(s, inst)),
        ),
    }
}

/// No instruction changes the clock speed, and a step costs either the fixed
/// instruction cost or a whole tick's budget.
pub proof fn lemma_step_keeps_clock(s: CpuView, rnd: u8)
    ensures
        stepped(s, rnd).0.clock_speed == s.clock_speed,
        stepped(s, rnd).1 matches Ok(c) ==> c == INSTRUCTION_CYCLES || c == s.clock_speed / CYCLES_DIVISOR,
{
    reveal(stepped);
    let t = CpuView { pc: wrap16(s.pc + 2), ..s };
    match decoded(opcode_at(s)) {
        Some(inst) => {
            assert(next_flow(t, inst).clock_speed == t.clock_speed);
            assert(next_alu(t, inst, rnd).clock_speed == t.clock_speed);
            assert(next_memory(t, inst).clock_speed == t.clock_speed);
            assert(next_display(t, inst).clock_speed == t.clock_speed);
            match inst {
                Instruction::DRW_Vx_Vy_n(x, y, n) => {
                    assert(next_draw(t, x, y, n).clock_speed == t.clock_speed);
                },
                _ => {},
            }
        },
        None => {},
    }
}

/// A word at the program counter that is no instruction; the program is malformed.
#[derive(Debug, Clone, Copy, PartialEq, Eq, Structural)]
pub struct InvalidOpcode {
    pub opcode: u16,
    pub addr: u16,
}

/// Relies on rand's `thread_rng().gen_range(0..=kk)`, which returns a value of the
/// inclusive range and panics only on an empty one, which `0..=kk` never is.
#[verifier::external_body]
fn random_up_to(kk: u8) -> (r: u8)
    ensures
        r <= kk,
{
    rand::thread_rng().gen_range(0..=kk)
}

/// The interpreter's processor: registers, timers, stack, memory, keys and screen.
pub struct CPU {
    pub quirks: Quirks,
    pub clock_speed: u32,
    pub running: bool,
    pub hires: bool,
    pub memory: Memory,
    pub keys: [bool; 16],
    pub pc: u16,
    pub stack: Vec<u16>,
    pub vx: [u8; 16],
    pub dt: u8,
    pub st: u8,
    pub i: u16,
    pub save: [u8; 8],
    pub width: usize,
    pub height: usize,
    pub vram: Vec<bool>,
}

/// A pixel's row starts a whole row below the end of the screen or earlier.
proof fn lemma_row_fits(p: int, w: int, h: int)
    requires
        0 <= p < w * h,
        w > 0,
    ensures
        p / w < h,
        p - p % w + w <= w * h,
        0 <= p % w <= p,
{
    lemma_fundamental_div_mod(p, w);
    let q = p / w;
    let r = p % w;
    assert(0 <= r < w);
    assert(q < h) by (nonlinear_arith)
        requires
            p == w * q + r,
            0 <= r,
            p < w * h,
            w > 0,
    ;
    assert(w * q + w <= w * h) by (nonlinear_arith)
        requires
            q < h,
            w > 0,
    ;
}

/// A pixel whose row is at least `n` lies at least `n` rows into the screen.
proof fn lemma_rows_below(p: int, w: int, n: int)
    requires
        0 <= p,
        w > 0,
        0 <= n <= p / w,
    ensures
        n * w <= p,
{
    lemma_fundamental_div_mod(p, w);
    lemma_mul_inequality(n, p / w, w);
    lemma_mul_is_commutative(w, p / w);
}

/// The address `k` bytes past `i`, wrapped, is the only one that lies `k` past `i`.
proof fn lemma_block_address(i: u16, k: int, a: int)
    requires
        0 <= k < 0x1000,
        0 <= a < 0x1000,
    ensures
        ((a - i) % 0x1000 == k) <==> (a == (i + k) % 0x1000),
{
}

/// A row above the bottom edge starts at least a whole row before the end of the screen.
proof fn lemma_row_base(r: int, w: int, h: int)
    requires
        0 <= r < h <= HIRES_HEIGHT,
        0 < w <= HIRES_WIDTH,
    ensures
        0 <= r * w,
        r * w + w <= w * h <= HIRES_WIDTH * HIRES_HEIGHT,
{
    assert(r * w + w <= w * h) by (nonlinear_arith)
        requires
            0 <= r < h,
            w > 0,
    ;
    assert(0 <= r * w) by (nonlinear_arith)
        requires
            0 <= r,
            w > 0,
    ;
    assert(w * h <= HIRES_WIDTH * HIRES_HEIGHT) by (nonlinear_arith)
        requires
            0 < h <= HIRES_HEIGHT,
            0 < w <= HIRES_WIDTH,
    ;
}

impl View for CPU {
    type V = CpuView;

    open spec fn view(&self) -> CpuView {
        CpuView {
            quirks: self.quirks,
            clock_speed: self.clock_speed,
            running: self.running,
            hires: self.hires,
            mem: self.memory@,
            keys: self.keys@,
            pc: self.pc,
            stack: self.stack@,
            vx: self.vx@,
            dt: self.dt,
            st: self.st,
            i: self.i,
            save: self.save@,
            width: self.width,
            height: self.height,
            vram: self.vram@,
        }
    }
}

impl CpuView {
    /// The screen has a size the interpreter supports and a pixel for each position,
    /// and the index register holds a 12-bit address.
    pub open spec fn wf(self) -> bool {
        &&& self.i < 0x1000
        &&& 1 <= self.width <= HIRES_WIDTH
        &&& 1 <= self.height <= HIRES_HEIGHT
        &&& self.vram.len() == self.width * self.height
        &&& self.mem.len() == 0x1000
        &&& self.vx.len() == 16
        &&& self.keys.len() == 16
        &&& self.save.len() == 8
    }
}

/// `n` dark pixels.
fn blank_screen(n: usize) -> (v: Vec<bool>)
    ensures
        v@ == blank(n as nat),
{
    let mut v: Vec<bool> = Vec::new();
    let mut k: usize = 0;
    while k < n
        invariant
            k <= n,
            v@ == blank(k as nat),
        decreases n - k,
    {
        v.push(false);
        k = k + 1;
        assert(v@ =~= blank(k as nat));
    }
    v
}

/// The screen scrolled down by `n` rows.
fn scroll_down(vram: &Vec<bool>, w: usize, h: usize, n: u8) -> (r: Vec<bool>)
    requires
        1 <= w <= HIRES_WIDTH,
        1 <= h <= HIRES_HEIGHT,
        vram@.len() == w * h,
    ensures
        r@ == scrolled_down(vram@, w as int, n as int),
{
    let mut r: Vec<bool> = Vec::new();
    let len = vram.len();
    let mut p: usize = 0;
    while p < len
        invariant
            p <= len == vram@.len() == w * h,
            1 <= w <= HIRES_WIDTH,
            1 <= h <= HIRES_HEIGHT,
            r@.len() == p,
            forall|q: int| 0 <= q < p ==> #[trigger] r@[q] == scrolled_down(vram@, w as int, n as int)[q],
        decreases len - p,
    {
        let v = if p / w < n as usize {
            false
        } else {
            proof {
                lemma_rows_below(p as int, w as int, n as int);
            }
            vram[p - n as usize * w]
        };
        r.push(v);
        p = p + 1;
    }
    assert(r@ =~= scrolled_down(vram@, w as int, n as int));
    r
}

/// Every row shifted right (`right`) or left by four pixels.
fn scroll_sideways(vram: &Vec<bool>, w: usize, h: usize, right: bool) -> (r: Vec<bool>)
    requires
        1 <= w <= HIRES_WIDTH,
        1 <= h <= HIRES_HEIGHT,
        vram@.len() == w * h,
    ensures
        r@ == if right { scrolled_right(vram@, w as int) } else { scrolled_left(vram@, w as int) },
{
    let ghost target = if right { scrolled_right(vram@, w as int) } else { scrolled_left(vram@, w as int) };
    let mut r: Vec<bool> = Vec::new();
    let len = vram.len();
    let mut p: usize = 0;
    while p < len
        invariant
            p <= len == vram@.len() == w * h,
            1 <= w <= HIRES_WIDTH,
            1 <= h <= HIRES_HEIGHT,
            r@.len() == p,
            target == if right { scrolled_right(vram@, w as int) } else { scrolled_left(vram@, w as int) },
            forall|q: int| 0 <= q < p ==> #[trigger] r@[q] == target[q],
        decreases len - p,
    {
        proof {
            lemma_row_fits(p as int, w as int, h as int);
        }
        let c = p % w;
        let v = if right {
            if c < 4 { false } else { vram[p - 4] }
        } else {
            if c + 4 >= w { false } else { vram[p + 4] }
        };
        r.push(v);
        p = p + 1;
    }
    assert(r@ =~= target);
    r
}

/// Draws one sprite row; see `draw_row`.
fn draw_row_pixels(
    vram: &mut Vec<bool>,
    w: usize,
    base: usize,
    x0: usize,
    bits: u32,
    top: u32,
    ncols: usize,
    wrap: bool,
) -> (hit: bool)
    requires
        1 <= w <= HIRES_WIDTH,
        x0 < w,
        base + w <= old(vram)@.len() <= HIRES_WIDTH * HIRES_HEIGHT,
        1 <= top <= 0x8000,
        bits < 2 * top,
        ncols <= 16,
    ensures
        (final(vram)@, hit) == draw_row(old(vram)@, w as int, base as int, x0 as int, bits as int, top as int, 0, ncols as int, wrap, false),
        final(vram)@.len() == old(vram)@.len(),
{
    let ghost target = draw_row(vram@, w as int, base as int, x0 as int, bits as int, top as int, 0, ncols as int, wrap, false);
    let mut hit = false;
    let mut rest: u32 = bits;
    let mut col: usize = 0;
    while col < ncols && (wrap || x0 + col < w)
        invariant
            col <= ncols <= 16,
            1 <= w <= HIRES_WIDTH,
            x0 < w,
            base + w <= vram@.len() == old(vram)@.len() <= HIRES_WIDTH * HIRES_HEIGHT,
            1 <= top <= 0x8000,
            rest < 2 * top,
            draw_row(vram@, w as int, base as int, x0 as int, rest as int, top as int, col as int, ncols as int, wrap, hit) == target,
        decreases ncols - col,
    {
        if rest >= top {
            let p = base + (x0 + col) % w;
            let was = vram[p];
            if was {
                hit = true;
            }
            vram[p] = !was;
        }
        rest = (rest % top) * 2;
        col = col + 1;
    }
    (hit)
}

impl CPU {
    /// The power-on state.
    pub open spec fn new_state() -> CpuView {
        CpuView {
            quirks: Quirks::spec_chip8(),
            clock_speed: 1_000_000,
            running: true,
            hires: false,
            mem: initial_memory(),
            keys: Seq::new(16, |k: int| false),
            pc: 0x200,
            stack: Seq::empty(),
            vx: Seq::new(16, |k: int| 0u8),
            dt: 0,
            st: 0,
            i: 0,
            save: Seq::new(8, |k: int| 0u8),
            width: LORES_WIDTH,
            height: LORES_HEIGHT,
            vram: blank((LORES_WIDTH * LORES_HEIGHT) as nat),
        }
    }

    /// A machine in its power-on state: program counter at 0x200, low resolution,
    /// running, fonts in memory, everything else zero, and the CHIP-8 quirk preset.
    pub fn new() -> (c: CPU)
        ensures
            c@ == CPU::new_state(),
            c@.wf(),
    {
        let c = CPU {
            quirks: Quirks::chip8(),
            clock_speed: 1_000_000,
            running: true,
            hires: false,
            memory: Memory::new(),
            keys: [false; 16],
            pc: 0x200,
            stack: Vec::new(),
            vx: [0; 16],
            dt: 0,
            st: 0,
            i: 0,
            save: [0; 8],
            width: LORES_WIDTH,
            height: LORES_HEIGHT,
            vram: blank_screen(LORES_WIDTH * LORES_HEIGHT),
        };
        assert(c.keys@ =~= Seq::new(16, |k: int| false));
        assert(c.vx@ =~= Seq::new(16, |k: int| 0u8));
        assert(c.save@ =~= Seq::new(8, |k: int| 0u8));
        c
    }

    /// Marks the program as running.
    pub fn start(&mut self)
        ensures
            final(self)@ == (CpuView { running: true, ..old(self)@ }),
    {
        self.running = true;
    }

    /// Marks the program as terminated.
    pub fn stop(&mut self)
        ensures
            final(self)@ == (CpuView { running: false, ..old(self)@ }),
    {
        self.running = false;
    }

    /// Marks key `key % 16` as held.
    pub fn keydown(&mut self, key: u8)
        ensures
            final(self)@ == (CpuView { keys: old(self)@.keys.update(key as int % 16, true), ..old(self)@ }),
    {
        self.keys[(key % 16) as usize] = true;
    }

    /// Marks key `key % 16` as released.
    pub fn keyup(&mut self, key: u8)
        ensures
            final(self)@ == (CpuView { keys: old(self)@.keys.update(key as int % 16, false), ..old(self)@ }),
    {
        self.keys[(key % 16) as usize] = false;
    }

    /// Pushes a return address.
    pub fn push(&mut self, v: u16)
        ensures
            final(self)@ == (CpuView { stack: old(self)@.stack.push(v), ..old(self)@ }),
    {
        self.stack.push(v);
    }

    /// Pops a return address; an empty stack gives 0.
    pub fn pop(&mut self) -> (r: u16)
        ensures
            old(self)@.stack.len() > 0 ==> r == old(self)@.stack.last() && final(self)@ == (CpuView {
                stack: old(self)@.stack.drop_last(),
                ..old(self)@
            }),
            old(self)@.stack.len() == 0 ==> r == 0 && final(self)@ == old(self)@,
    {
        match self.stack.pop() {
            Some(v) => v,
            None => 0,
        }
    }

    /// The lowest-numbered held key.
    fn held_key(&self) -> (r: Option<u8>)
        requires
            self.keys@.len() == 16,
        ensures
            match first_held(self.keys@) {
                Some(k) => r == Some(k as u8),
                None => r is None,
            },
    {
        let mut k: usize = 0;
        while k < 16
            invariant
                k <= 16,
                forall|j: int| 0 <= j < k ==> !self.keys@[j],
            decreases 16 - k,
        {
            if self.keys[k] {
                let ghost keys = self.keys@;
                assert(exists|j: int| 0 <= j < keys.len() && keys[j]);
                let ghost c = choose|j: int|
                    0 <= j < keys.len() && keys[j] && forall|i: int| 0 <= i < j ==> !keys[i];
                assert(0 <= k < keys.len() && keys[k as int] && forall|i: int| 0 <= i < k ==> !keys[i]);
                assert(c == k);
                return Some(k as u8);
            }
            k = k + 1;
        }
        None
    }

    /// Control flow, conditional skips and the key wait.
    #[verifier::rlimit(100)]
    fn exec_flow(&mut self, inst: Instruction)
        requires
            old(self)@.wf(),
            inst.wf(),
        ensures
            final(self)@ == next_flow(old(self)@, inst),
    {
        match inst {
            Instruction::EXIT => {
                self.running = false;
            },
            Instruction::RET => {
                self.pc = self.pop();
            },
            Instruction::JP_addr(a) => {
                if self.pc as u32 == a as u32 + 2 {
                    self.running = false;
                }
                self.pc = a;
            },
            Instruction::JP_Vx_addr(x, a) => {
                let r: usize = if self.quirks.jumping { x as usize } else { 0 };
                self.pc = ((a as u32 + self.vx[r] as u32) % 0x10000) as u16;
            },
            Instruction::CALL_addr(a) => {
                let ret = self.pc;
                self.push(ret);
                self.pc = a;
            },
            Instruction::SE_Vx_kk(x, kk) => {
                if self.vx[x as usize] == kk {
                    self.pc = ((self.pc as u32 + 2) % 0x10000) as u16;
                }
            },
            Instruction::SNE_Vx_kk(x, kk) => {
                if self.vx[x as usize] != kk {
                    self.pc = ((self.pc as u32 + 2) % 0x10000) as u16;
                }
            },
            Instruction::SE_Vx_Vy(x, y) => {
                if self.vx[x as usize] == self.vx[y as usize] {
                    self.pc = ((self.pc as u32 + 2) % 0x10000) as u16;
                }
            },
            Instruction::SNE_Vx_Vy(x, y) => {
                if self.vx[x as usize] != self.vx[y as usize] {
                    self.pc = ((self.pc as u32 + 2) % 0x10000) as u16;
                }
            },
            Instruction::SKP_Vx(x) => {
                if self.keys[(self.vx[x as usize] % 16) as usize] {
                    self.pc = ((self.pc as u32 + 2) % 0x10000) as u16;
                }
            },
            Instruction::SKNP_Vx(x) => {
                if !self.keys[(self.vx[x as usize] % 16) as usize] {
                    self.pc = ((self.pc as u32 + 2) % 0x10000) as u16;
                }
            },
            Instruction::LD_Vx_K(x) => {
                match self.held_key() {
                    Some(k) => {
                        self.vx[x as usize] = k;
                    },
                    None => {
                        self.pc = ((self.pc as u32 + 0xFFFE) % 0x10000) as u16;
                    },
                }
            },
            _ => {},
        }
    }

    /// `Vx += kk`, wrapping, with no flag.
    fn exec_add_kk(&mut self, x: u8, kk: u8)
        requires
            old(self)@.wf(),
            x < 16,
        ensures
            final(self)@ == next_alu(old(self)@, Instruction::ADD_Vx_kk(x, kk), 0),
    {
        self.vx[x as usize] = ((self.vx[x as usize] as u16 + kk as u16) % 256) as u8;
    }

    /// `Vx += Vy`, wrapping, with the carry in `VF`.
    fn exec_add(&mut self, x: u8, y: u8)
        requires
            old(self)@.wf(),
            x < 16,
            y < 16,
        ensures
            final(self)@ == next_alu(old(self)@, Instruction::ADD_Vx_Vy(x, y), 0),
    {
        let sum: u16 = self.vx[x as usize] as u16 + self.vx[y as usize] as u16;
        self.vx[x as usize] = (sum % 256) as u8;
        self.vx[VF] = if sum > 255 { 1 } else { 0 };
    }

    /// `Vx = a - b`, wrapping, with `VF` set when no borrow occurred.
    fn exec_sub(&mut self, x: u8, a: u8, b: u8)
        requires
            old(self)@.wf(),
            x < 16,
        ensures
            final(self)@ == (CpuView {
                vx: old(self)@.vx.update(x as int, ((a - b) % 256) as u8).update(
                    VF as int,
                    if a >= b { 1u8 } else { 0u8 },
                ),
                ..old(self)@
            }),
    {
        let d: u8 = if a >= b { a - b } else { (256 - (b - a) as u16) as u8 };
        assert(d == ((a - b) % 256) as u8);
        self.vx[x as usize] = d;
        self.vx[VF] = if a >= b { 1 } else { 0 };
    }

    /// `Vx = v >> 1` or `Vx = v << 1`, with the bit shifted out in `VF`.
    fn exec_shift(&mut self, x: u8, v: u8, left: bool)
        requires
            old(self)@.wf(),
            x < 16,
        ensures
            final(self)@ == (CpuView {
                vx: if left {
                    old(self)@.vx.update(x as int, ((v * 2) % 256) as u8).update(VF as int, (v / 128) as u8)
                } else {
                    old(self)@.vx.update(x as int, (v / 2) as u8).update(VF as int, (v % 2) as u8)
                },
                ..old(self)@
            }),
    {
        if left {
            self.vx[x as usize] = ((v as u16 * 2) % 256) as u8;
            self.vx[VF] = v / 128;
        } else {
            self.vx[x as usize] = v / 2;
            self.vx[VF] = v % 2;
        }
    }

    /// Additions, subtractions and shifts, with their flag in `VF`.
    fn exec_arith(&mut self, inst: Instruction)
        requires
            old(self)@.wf(),
            inst.wf(),
            inst is ADD_Vx_kk || inst is ADD_Vx_Vy || inst is SUB_Vx_Vy || inst is SUBN_Vx_Vy
                || inst is SHR_Vx_Vy || inst is SHL_Vx_Vy,
        ensures
            final(self)@ == next_alu(old(self)@, inst, 0),
    {
        match inst {
            Instruction::ADD_Vx_kk(x, kk) => self.exec_add_kk(x, kk),
            Instruction::ADD_Vx_Vy(x, y) => self.exec_add(x, y),
            Instruction::SUB_Vx_Vy(x, y) => {
                let a = self.vx[x as usize];
                let b = self.vx[y as usize];
                self.exec_sub(x, a, b);
            },
            Instruction::SUBN_Vx_Vy(x, y) => {
                let a = self.vx[y as usize];
                let b = self.vx[x as usize];
                self.exec_sub(x, a, b);
            },
            Instruction::SHR_Vx_Vy(x, y) => {
                let v = if self.quirks.shifting { self.vx[x as usize] } else { self.vx[y as usize] };
                self.exec_shift(x, v, false);
            },
            Instruction::SHL_Vx_Vy(x, y) => {
                let v = if self.quirks.shifting { self.vx[x as usize] } else { self.vx[y as usize] };
                self.exec_shift(x, v, true);
            },
            _ => {},
        }
    }

    /// `OR`, `AND` and `XOR`.
    fn exec_bitwise(&mut self, inst: Instruction)
        requires
            old(self)@.wf(),
            inst.wf(),
            inst is OR_Vx_Vy || inst is AND_Vx_Vy || inst is XOR_Vx_Vy,
        ensures
            final(self)@ == next_alu(old(self)@, inst, 0),
    {
        match inst {
            Instruction::OR_Vx_Vy(x, y) => {
                self.vx[x as usize] = self.vx[x as usize] | self.vx[y as usize];
                if self.quirks.vf_reset {
                    self.vx[VF] = 0;
                }
            },
            Instruction::AND_Vx_Vy(x, y) => {
                self.vx[x as usize] = self.vx[x as usize] & self.vx[y as usize];
                if self.quirks.vf_reset {
                    self.vx[VF] = 0;
                }
            },
            Instruction::XOR_Vx_Vy(x, y) => {
                self.vx[x as usize] = self.vx[x as usize] ^ self.vx[y as usize];
                if self.quirks.vf_reset {
                    self.vx[VF] = 0;
                }
            },
            _ => {},
        }
    }

    /// Register loads, the timers and `RND`.
    fn exec_load(&mut self, inst: Instruction, rnd: u8)
        requires
            old(self)@.wf(),
            inst.wf(),
            inst is LD_Vx_kk || inst is LD_Vx_Vy || inst is RND_Vx_kk || inst is LD_Vx_DT
                || inst is LD_DT_Vx || inst is LD_ST_Vx,
        ensures
            final(self)@ == next_alu(old(self)@, inst, rnd),
    {
        match inst {
            Instruction::LD_Vx_kk(x, kk) => {
                self.vx[x as usize] = kk;
            },
            Instruction::LD_Vx_Vy(x, y) => {
                self.vx[x as usize] = self.vx[y as usize];
            },
            Instruction::RND_Vx_kk(x, kk) => {
                self.vx[x as usize] = (rnd as u16 % (kk as u16 + 1)) as u8;
            },
            Instruction::LD_Vx_DT(x) => {
                self.vx[x as usize] = self.dt;
            },
            Instruction::LD_DT_Vx(x) => {
                self.dt = self.vx[x as usize];
            },
            Instruction::LD_ST_Vx(x) => {
                self.st = self.vx[x as usize];
            },
            _ => {},
        }
    }

    /// Register loads and arithmetic; `rnd` is the random byte that `RND` reduces.
    fn exec_alu(&mut self, inst: Instruction, rnd: u8)
        requires
            old(self)@.wf(),
            inst.wf(),
        ensures
            final(self)@ == next_alu(old(self)@, inst, rnd),
    {
        match inst {
            Instruction::ADD_Vx_kk(..) | Instruction::ADD_Vx_Vy(..) | Instruction::SUB_Vx_Vy(..)
            | Instruction::SUBN_Vx_Vy(..) | Instruction::SHR_Vx_Vy(..) | Instruction::SHL_Vx_Vy(..) => {
                self.exec_arith(inst);
            },
            Instruction::OR_Vx_Vy(..) | Instruction::AND_Vx_Vy(..) | Instruction::XOR_Vx_Vy(..) => {
                self.exec_bitwise(inst);
            },
            Instruction::LD_Vx_kk(..) | Instruction::LD_Vx_Vy(..) | Instruction::RND_Vx_kk(..)
            | Instruction::LD_Vx_DT(..) | Instruction::LD_DT_Vx(..) | Instruction::LD_ST_Vx(..) => {
                self.exec_load(inst, rnd);
            },
            _ => {},
        }
    }


    /// Writes the three decimal digits of `Vx` at `I`, `I + 1` and `I + 2`.
    fn store_bcd(&mut self, x: u8)
        requires
            old(self)@.wf(),
            x < 16,
        ensures
            final(self)@ == next_memory(old(self)@, Instruction::LD_B_Vx(x)),
    {
        let v = self.vx[x as usize];
        let a0 = (self.i as u32 % 0x1000) as u16;
        let a1 = ((self.i as u32 + 1) % 0x1000) as u16;
        let a2 = ((self.i as u32 + 2) % 0x1000) as u16;
        self.memory.write(a0, v / 100 % 10);
        self.memory.write(a1, v / 10 % 10);
        self.memory.write(a2, v % 10);
    }

    /// Stores `V0..=Vx` from `I` on.
    fn store_registers(&mut self, x: u8)
        requires
            old(self)@.wf(),
            x < 16,
        ensures
            final(self)@ == (CpuView { mem: stored_registers(old(self)@.mem, old(self)@.i, old(self)@.vx, x as int), ..old(self)@ }),
    {
        let ghost s0 = self@;
        assert(s0.mem =~= stored_registers(s0.mem, s0.i, s0.vx, -1));
        let mut k: u8 = 0;
        while k <= x
            invariant
                k <= x + 1,
                x < 16,
                s0.wf(),
                self@ == (CpuView { mem: stored_registers(s0.mem, s0.i, s0.vx, k - 1), ..s0 }),
            decreases x + 1 - k,
        {
            let a = ((self.i as u32 + k as u32) % 0x1000) as u16;
            let v = self.vx[k as usize];
            self.memory.write(a, v);
            proof {
                assert forall|b: int| 0 <= b < 0x1000 implies #[trigger] self@.mem[b] == stored_registers(
                    s0.mem,
                    s0.i,
                    s0.vx,
                    k as int,
                )[b] by {
                    lemma_block_address(s0.i, k as int, b);
                }
                assert(self@.mem =~= stored_registers(s0.mem, s0.i, s0.vx, k as int));
            }
            k = k + 1;
        }
    }

    /// Loads `V0..=Vx` from `I` on.
    fn load_registers(&mut self, x: u8)
        requires
            old(self)@.wf(),
            x < 16,
        ensures
            final(self)@ == (CpuView { vx: loaded_registers(old(self)@.mem, old(self)@.i, old(self)@.vx, x as int), ..old(self)@ }),
    {
        let ghost s0 = self@;
        assert(s0.vx =~= loaded_registers(s0.mem, s0.i, s0.vx, -1));
        let mut k: u8 = 0;
        while k <= x
            invariant
                k <= x + 1,
                x < 16,
                s0.wf(),
                self@ == (CpuView { vx: loaded_registers(s0.mem, s0.i, s0.vx, k - 1), ..s0 }),
            decreases x + 1 - k,
        {
            let a = ((self.i as u32 + k as u32) % 0x1000) as u16;
            let v = self.memory.read(a);
            self.vx[k as usize] = v;
            assert(self@.vx =~= loaded_registers(s0.mem, s0.i, s0.vx, k as int));
            k = k + 1;
        }
    }

    /// The index register and memory transfers.
    fn exec_memory(&mut self, inst: Instruction)
        requires
            old(self)@.wf(),
            inst.wf(),
        ensures
            final(self)@ == next_memory(old(self)@, inst),
    {
        match inst {
            Instruction::LD_I_addr(a) => {
                self.i = a;
            },
            Instruction::ADD_I_Vx(x) => {
                let sum = ((self.i as u32 + self.vx[x as usize] as u32) % 0x10000) as u16;
                self.vx[VF] = if sum > 0x0FFF { 1 } else { 0 };
                self.i = sum % 0x1000;
            },
            Instruction::LD_F_Vx(x) => {
                self.i = 5 * (self.vx[x as usize] as u16);
            },
            Instruction::LD_HF_Vx(x) => {
                self.i = 0x050 + 10 * (self.vx[x as usize] as u16);
            },
            Instruction::LD_B_Vx(x) => {
                self.store_bcd(x);
            },
            Instruction::LD_iI_Vx(x) => {
                self.store_registers(x);
                if self.quirks.memory {
                    self.i = ((self.i as u32 + x as u32 + 1) % 0x1000) as u16;
                }
            },
            Instruction::LD_Vx_iI(x) => {
                self.load_registers(x);
                if self.quirks.memory {
                    self.i = ((self.i as u32 + x as u32 + 1) % 0x1000) as u16;
                }
            },
            Instruction::SAVE_Vx(x) => {
                let count: usize = if x < 7 { x as usize + 1 } else { 8 };
                let ghost s0 = self@;
                assert(s0.save =~= copy_prefix(s0.save, s0.vx, 0));
                let mut k: usize = 0;
                while k < count
                    invariant
                        k <= count <= 8,
                        s0.wf(),
                        self@ == (CpuView { save: copy_prefix(s0.save, s0.vx, k as int), ..s0 }),
                    decreases count - k,
                {
                    self.save[k] = self.vx[k];
                    k = k + 1;
                    assert(self@.save =~= copy_prefix(s0.save, s0.vx, k as int));
                }
            },
            Instruction::LOAD_Vx(x) => {
                let count: usize = if x < 7 { x as usize + 1 } else { 8 };
                let ghost s0 = self@;
                assert(s0.vx =~= copy_prefix(s0.vx, s0.save, 0));
                let mut k: usize = 0;
                while k < count
                    invariant
                        k <= count <= 8,
                        s0.wf(),
                        self@ == (CpuView { vx: copy_prefix(s0.vx, s0.save, k as int), ..s0 }),
                    decreases count - k,
                {
                    self.vx[k] = self.save[k];
                    k = k + 1;
                    assert(self@.vx =~= copy_prefix(s0.vx, s0.save, k as int));
                }
            },
            _ => {},
        }
    }

    /// Clearing, resolution changes and scrolling.
    fn exec_display(&mut self, inst: Instruction)
        requires
            old(self)@.wf(),
            inst.wf(),
        ensures
            final(self)@ == next_display(old(self)@, inst),
    {
        match inst {
            Instruction::CLS => {
                self.vram = blank_screen(self.vram.len());
            },
            Instruction::LORES => {
                self.hires = false;
                self.width = LORES_WIDTH;
                self.height = LORES_HEIGHT;
                self.vram = blank_screen(LORES_WIDTH * LORES_HEIGHT);
            },
            Instruction::HIRES => {
                self.hires = true;
                self.width = HIRES_WIDTH;
                self.height = HIRES_HEIGHT;
                self.vram = blank_screen(HIRES_WIDTH * HIRES_HEIGHT);
            },
            Instruction::SCD_n(n) => {
                self.vram = scroll_down(&self.vram, self.width, self.height, n);
            },
            Instruction::SCR => {
                self.vram = scroll_sideways(&self.vram, self.width, self.height, true);
            },
            Instruction::SCL => {
                self.vram = scroll_sideways(&self.vram, self.width, self.height, false);
            },
            _ => {},
        }
    }

    /// `DRW Vx, Vy, n`; see `next_draw`.
    fn exec_draw(&mut self, xr: u8, yr: u8, n: u8)
        requires
            old(self)@.wf(),
            xr < 16,
            yr < 16,
        ensures
            final(self)@ == next_draw(old(self)@, xr, yr, n),
            final(self)@.wf(),
    {
        let ghost s0 = self@;
        let w = self.width;
        let h = self.height;
        let x0 = self.vx[xr as usize] as usize % w;
        let y0 = self.vx[yr as usize] as usize % h;
        let wrap = self.quirks.sprite_wrapping;
        self.vx[VF] = 0;
        let mut vf: u8 = 0;
        let mut row: usize = 0;
        if n == 0 {
            let ghost target = draw_big(s0.vram, s0.mem, s0.i as int, w as int, h as int, x0 as int, y0 as int, wrap, 0, 0);
            while row < 16 && (wrap || y0 + row < h)
                invariant
                    s0.wf(),
                    w == s0.width,
                    h == s0.height,
                    x0 < w,
                    y0 < h,
                    wrap == s0.quirks.sprite_wrapping,
                    row <= 16,
                    vf <= 2 * row,
                    self@ == (CpuView { vram: self@.vram, vx: s0.vx.update(VF as int, 0), ..s0 }),
                    self@.vram.len() == w * h,
                    draw_big(self@.vram, s0.mem, s0.i as int, w as int, h as int, x0 as int, y0 as int, wrap, row as int, vf as int) == target,
                decreases 16 - row,
            {
                if y0 + row >= h {
                    vf = vf + 1;
                }
                let ry = (y0 + row) % h;
                proof {
                    lemma_row_base(ry as int, w as int, h as int);
                }
                let base = ry * w;
                let a0 = ((self.i as u32 + 2 * row as u32) % 0x1000) as u16;
                let a1 = ((self.i as u32 + 2 * row as u32 + 1) % 0x1000) as u16;
                let bits = self.memory.read(a0) as u32 * 256 + self.memory.read(a1) as u32;
                let hit = draw_row_pixels(&mut self.vram, w, base, x0, bits, 0x8000, 16, wrap);
                if hit {
                    vf = vf + 1;
                }
                row = row + 1;
            }
            if row < 16 {
                vf = vf + 1;
            }
            assert((self@.vram, vf as int) == target);
        } else {
            let ghost target = draw_small(s0.vram, s0.mem, s0.i as int, w as int, h as int, x0 as int, y0 as int, n as int, wrap, 0, 0);
            while row < n as usize && (wrap || y0 + row < h)
                invariant
                    s0.wf(),
                    w == s0.width,
                    h == s0.height,
                    x0 < w,
                    y0 < h,
                    wrap == s0.quirks.sprite_wrapping,
                    row <= n,
                    self@ == (CpuView { vram: self@.vram, vx: s0.vx.update(VF as int, 0), ..s0 }),
                    self@.vram.len() == w * h,
                    draw_small(self@.vram, s0.mem, s0.i as int, w as int, h as int, x0 as int, y0 as int, n as int, wrap, row as int, vf) == target,
                decreases n - row,
            {
                let ry = (y0 + row) % h;
                proof {
                    lemma_row_base(ry as int, w as int, h as int);
                }
                let base = ry * w;
                let a = ((self.i as u32 + row as u32) % 0x1000) as u16;
                let bits = self.memory.read(a) as u32;
                let hit = draw_row_pixels(&mut self.vram, w, base, x0, bits, 0x80, 8, wrap);
                if hit {
                    vf = 1;
                }
                row = row + 1;
            }
            assert((self@.vram, vf) == target);
        }
        self.vx[VF] = vf;
        assert(self@.vx =~= s0.vx.update(VF as int, vf));
    }

    /// Executes a decoded instruction, with `rnd` as the random byte that `RND` reduces
    /// into `0..=kk`. Returns the fixed instruction cost.
    pub fn execute_with(&mut self, inst: Instruction, rnd: u8) -> (cycles: u32)
        requires
            old(self)@.wf(),
            inst.wf(),
        ensures
            final(self)@ == next(old(self)@, inst, rnd),
            final(self)@.wf(),
            cycles == INSTRUCTION_CYCLES,
    {
        match inst {
            Instruction::SYS_addr(_) => {},
            Instruction::EXIT | Instruction::RET | Instruction::JP_addr(_) | Instruction::JP_Vx_addr(_, _)
            | Instruction::CALL_addr(_) | Instruction::SE_Vx_kk(_, _) | Instruction::SNE_Vx_kk(_, _)
            | Instruction::SE_Vx_Vy(_, _) | Instruction::SNE_Vx_Vy(_, _) | Instruction::SKP_Vx(_)
            | Instruction::SKNP_Vx(_) | Instruction::LD_Vx_K(_) => self.exec_flow(inst),
            Instruction::LD_I_addr(_) | Instruction::ADD_I_Vx(_) | Instruction::LD_F_Vx(_)
            | Instruction::LD_HF_Vx(_) | Instruction::LD_B_Vx(_) | Instruction::LD_iI_Vx(_)
            | Instruction::LD_Vx_iI(_) | Instruction::SAVE_Vx(_) | Instruction::LOAD_Vx(_) => self.exec_memory(inst),
            Instruction::CLS | Instruction::LORES | Instruction::HIRES | Instruction::SCD_n(_)
            | Instruction::SCR | Instruction::SCL => self.exec_display(inst),
            Instruction::DRW_Vx_Vy_n(x, y, n) => self.exec_draw(x, y, n),
            _ => self.exec_alu(inst, rnd),
        }
        INSTRUCTION_CYCLES
    }

    /// Executes a decoded instruction; `RND` draws its byte uniformly from `0..=kk`.
    /// Returns the fixed instruction cost.
    pub fn execute(&mut self, inst: Instruction) -> (cycles: u32)
        requires
            old(self)@.wf(),
            inst.wf(),
        ensures
            exists|rnd: u8| final(self)@ == next(old(self)@, inst, rnd),
            final(self)@.wf(),
            cycles == INSTRUCTION_CYCLES,
    {
        let rnd = match inst {
            Instruction::RND_Vx_kk(_, kk) => random_up_to(kk),
            _ => 0,
        };
        self.execute_with(inst, rnd)
    }

    /// Fetches the word at the program counter, advances the counter by two, and
    /// executes the instruction with `rnd` as its random byte.
    #[verifier::rlimit(30)]
    pub fn step_with(&mut self, rnd: u8) -> (r: Result<u32, InvalidOpcode>)
        requires
            old(self)@.wf(),
        ensures
            (final(self)@, r) == stepped(old(self)@, rnd),
            final(self)@.wf(),
    {
        reveal(stepped);
        let pc = self.pc;
        let hi = self.memory.read(pc);
        let lo = self.memory.read(((pc as u32 + 1) % 0x10000) as u16);
        let op: u16 = hi as u16 * 256 + lo as u16;
        match Instruction::decode(op) {
            None => {
                self.running = false;
                Err(InvalidOpcode { opcode: op, addr: pc })
            },
            Some(inst) => {
                self.pc = ((pc as u32 + 2) % 0x10000) as u16;
                let cycles = self.execute_with(inst, rnd);
                match inst {
                    Instruction::DRW_Vx_Vy_n(_, _, _) => if self.quirks.display_wait {
                        Ok(self.clock_speed / CYCLES_DIVISOR)
                    } else {
                        Ok(cycles)
                    },
                    _ => Ok(cycles),
                }
            },
        }
    }

    /// Fetches the word at the program counter, advances the counter by two, and
    /// executes it; `RND` draws its byte uniformly from `0..=kk`. Returns the cycles
    /// consumed, or the offending word when it is no instruction, which also stops the
    /// program.
    pub fn step(&mut self) -> (r: Result<u32, InvalidOpcode>)
        requires
            old(self)@.wf(),
        ensures
            exists|rnd: u8| (final(self)@, r) == stepped(old(self)@, rnd),
            final(self)@.wf(),
    {
        let pc = self.pc;
        let hi = self.memory.read(pc);
        let lo = self.memory.read(((pc as u32 + 1) % 0x10000) as u16);
        let op: u16 = hi as u16 * 256 + lo as u16;
        let rnd = match Instruction::decode(op) {
            Some(Instruction::RND_Vx_kk(_, kk)) => random_up_to(kk),
            _ => 0,
        };
        self.step_with(rnd)
    }

    /// Counts both timers down by one, stopping at zero.
    pub fn tick_timers(&mut self)
        ensures
            final(self)@ == (CpuView {
                dt: if old(self)@.dt > 0 { (old(self)@.dt - 1) as u8 } else { 0 },
                st: if old(self)@.st > 0 { (old(self)@.st - 1) as u8 } else { 0 },
                ..old(self)@
            }),
    {
        if self.st > 0 {
            self.st = self.st - 1;
        }
        if self.dt > 0 {
            self.dt = self.dt - 1;
        }
    }
}

} // verus!
