//! The CHIP-8 machine: memory, registers, call stack, timers, display,
//! and the fetch/decode/execute cycle.

use vstd::prelude::*;
use vstd::arithmetic::div_mod::{
    lemma_fundamental_div_mod, lemma_fundamental_div_mod_converse_mod, lemma_mod_bound,
};

use crate::instructions::{inst_wf, spec_decode, Instruction, Opcode};
use crate::keyboard::{first_non_exit, key_match, Key};

verus! {

broadcast use vstd::array::group_array_axioms;

/// Width of the display grid in pixels.
pub const WIDTH: usize = 64;

/// Height of the display grid in pixels.
pub const HEIGHT: usize = 32;

/// The font table: 16 hexadecimal-digit glyphs of 5 bytes each, loaded at
/// memory addresses 0x000..0x050 before any program runs.
pub const FONTS: [u8; 80] = [
    0xF0, 0x90, 0x90, 0x90, 0xF0, // 0
    0x20, 0x60, 0x20, 0x20, 0x70, // 1
    0xF0, 0x10, 0xF0, 0x80, 0xF0, // 2
    0xF0, 0x10, 0xF0, 0x10, 0xF0, // 3
    0x90, 0x90, 0xF0, 0x10, 0x10, // 4
    0xF0, 0x80, 0xF0, 0x10, 0xF0, // 5
    0xF0, 0x80, 0xF0, 0x90, 0xF0, // 6
    0xF0, 0x10, 0x20, 0x40, 0x40, // 7
    0xF0, 0x90, 0xF0, 0x90, 0xF0, // 8
    0xF0, 0x90, 0xF0, 0x10, 0xF0, // 9
    0xF0, 0x90, 0xF0, 0x90, 0x90, // A
    0xE0, 0x90, 0xE0, 0x90, 0xE0, // B
    0xF0, 0x80, 0x80, 0x80, 0xF0, // C
    0xE0, 0x90, 0x90, 0x90, 0xE0, // D
    0xF0, 0x80, 0xF0, 0x80, 0xF0, // E
    0xF0, 0x80, 0xF0, 0x80, 0x80, // F
];

/// A fatal condition met while fetching, decoding or executing one
/// instruction. None of these is recoverable: the run loop stops on them.
#[derive(Clone, Copy, Debug, PartialEq, Eq, Structural)]
pub enum Fault {
    /// The program counter does not address two bytes of memory.
    FetchOutOfBounds { pc: u16 },
    /// The fetched nibble pattern is not in the recognized instruction set.
    UnknownOpcode { pc: u16, b0: u8, b1: u8 },
    /// A call was executed with the 16-entry stack already full.
    StackOverflow,
    /// A return was executed with the stack empty.
    StackUnderflow,
    /// A memory-indexed instruction would touch an address past 4095.
    MemoryOutOfBounds,
}

/// What an executed instruction asks the cycle to do with the program
/// counter: hold it (a blocking key wait), advance it by a number of
/// 2-byte instruction slots, or jump to an address.
#[derive(Clone, Copy, Debug, PartialEq, Eq, Structural)]
pub enum Pc {
    Wait,
    Advance(u16),
    Jump(u16),
}

/// The CHIP-8 machine state: 4096 bytes of memory, 16 general registers,
/// the index register `i`, the program counter, a 16-deep call stack, two
/// timers and the 64x32 boolean display grid (indexed `vram[x][y]`).
#[verifier::ext_equal]
pub struct Cpu {
    pub ram: [u8; 4096],
    pub stack: [u16; 16],

    pub vram: [[bool; HEIGHT]; WIDTH],
    pub vram_changed: bool,

    // Registers
    pub v: [u8; 16],
    pub i: u16,

    pub pc: u16,
    pub sp: usize,

    pub delay_timer: u8,
    pub sound_timer: u8,
}

// What a state transition leaves untouched, component by component.

/// Memory is unchanged.
pub open spec fn keeps_mem(a: Cpu, b: Cpu) -> bool {
    b.ram == a.ram
}

/// The call stack and its pointer are unchanged.
pub open spec fn keeps_stack(a: Cpu, b: Cpu) -> bool {
    b.stack == a.stack && b.sp == a.sp
}

/// The display grid and its changed flag are unchanged.
pub open spec fn keeps_display(a: Cpu, b: Cpu) -> bool {
    b.vram == a.vram && b.vram_changed == a.vram_changed
}

/// The sixteen general registers are unchanged.
pub open spec fn keeps_regs(a: Cpu, b: Cpu) -> bool {
    b.v == a.v
}

/// The index register is unchanged.
pub open spec fn keeps_i(a: Cpu, b: Cpu) -> bool {
    b.i == a.i
}

/// The program counter is unchanged.
pub open spec fn keeps_pc(a: Cpu, b: Cpu) -> bool {
    b.pc == a.pc
}

/// Both timers are unchanged.
pub open spec fn keeps_timers(a: Cpu, b: Cpu) -> bool {
    b.delay_timer == a.delay_timer && b.sound_timer == a.sound_timer
}

/// Nothing changed at all.
pub open spec fn unchanged_all(a: Cpu, b: Cpu) -> bool {
    keeps_mem(a, b) && keeps_stack(a, b) && keeps_display(a, b) && keeps_regs(a, b)
        && keeps_i(a, b) && keeps_pc(a, b) && keeps_timers(a, b)
}

/// The program counter aside, only the general registers may have changed.
pub open spec fn only_regs_change(a: Cpu, b: Cpu) -> bool {
    keeps_mem(a, b) && keeps_stack(a, b) && keeps_display(a, b) && keeps_i(a, b)
        && keeps_timers(a, b)
}

/// The program counter aside, only the index register may have changed.
pub open spec fn only_index_changes(a: Cpu, b: Cpu) -> bool {
    keeps_mem(a, b) && keeps_stack(a, b) && keeps_display(a, b) && keeps_regs(a, b)
        && keeps_timers(a, b)
}

/// The program counter aside, only memory may have changed.
pub open spec fn only_mem_changes(a: Cpu, b: Cpu) -> bool {
    keeps_stack(a, b) && keeps_display(a, b) && keeps_regs(a, b) && keeps_i(a, b)
        && keeps_timers(a, b)
}

/// The program counter aside, only memory and the index register may have changed.
pub open spec fn only_mem_and_index_change(a: Cpu, b: Cpu) -> bool {
    keeps_stack(a, b) && keeps_display(a, b) && keeps_regs(a, b)
        && keeps_timers(a, b)
}

/// The program counter aside, only the registers and the index register may have changed.
pub open spec fn only_regs_and_index_change(a: Cpu, b: Cpu) -> bool {
    keeps_mem(a, b) && keeps_stack(a, b) && keeps_display(a, b)
        && keeps_timers(a, b)
}

/// The program counter aside, only the display may have changed.
pub open spec fn only_display_changes(a: Cpu, b: Cpu) -> bool {
    keeps_mem(a, b) && keeps_stack(a, b) && keeps_regs(a, b) && keeps_i(a, b)
        && keeps_timers(a, b)
}

/// The program counter aside, only the display and the registers (the
/// collision flag) may have changed.
pub open spec fn only_display_and_regs_change(a: Cpu, b: Cpu) -> bool {
    keeps_mem(a, b) && keeps_stack(a, b) && keeps_i(a, b)
        && keeps_timers(a, b)
}

/// The program counter aside, only the timers may have changed.
pub open spec fn only_timers_change(a: Cpu, b: Cpu) -> bool {
    keeps_mem(a, b) && keeps_stack(a, b) && keeps_display(a, b) && keeps_regs(a, b)
        && keeps_i(a, b)
}

/// Everything except the program counter is unchanged.
pub open spec fn only_pc_changes(a: Cpu, b: Cpu) -> bool {
    keeps_mem(a, b) && keeps_stack(a, b) && keeps_display(a, b) && keeps_regs(a, b)
        && keeps_i(a, b) && keeps_timers(a, b)
}

/// Only the program counter and the stack pointer may have changed
/// (a return: the stack entries themselves stay).
pub open spec fn only_flow_changes(a: Cpu, b: Cpu) -> bool {
    keeps_mem(a, b) && b.stack == a.stack && keeps_display(a, b) && keeps_regs(a, b)
        && keeps_i(a, b) && keeps_timers(a, b)
}

/// Only the stack, its pointer and the program counter may have changed
/// (a call).
pub open spec fn only_call_changes(a: Cpu, b: Cpu) -> bool {
    keeps_mem(a, b) && keeps_display(a, b) && keeps_regs(a, b) && keeps_i(a, b)
        && keeps_timers(a, b)
}

// Register-file transformations of the arithmetic instruction group.
// Each mirrors the instruction's exact write order: the flag register 15
// is written first, and the destination register is computed from the
// register file as it stands after that write.

/// Register file after add-with-carry into `x`.
pub open spec fn add_regs_result(v: Seq<u8>, x: int, y: int) -> Seq<u8> {
    let flag: u8 = if v[x] + v[y] > 255 { 1u8 } else { 0u8 };
    let s1 = v.update(15, flag);
    s1.update(x, ((s1[x] + s1[y]) % 256) as u8)
}

/// Register file after subtract-with-borrow-flag into `x`.
pub open spec fn sub_regs_result(v: Seq<u8>, x: int, y: int) -> Seq<u8> {
    let flag: u8 = if v[x] > v[y] { 1u8 } else { 0u8 };
    let s1 = v.update(15, flag);
    s1.update(x, ((s1[x] - s1[y]) % 256) as u8)
}

/// Register file after shift-right of `y` into `x`.
pub open spec fn shr_regs_result(v: Seq<u8>, x: int, y: int) -> Seq<u8> {
    let flag: u8 = if v[y] & 0x01 == 0 { 0u8 } else { 1u8 };
    let s1 = v.update(15, flag);
    s1.update(x, s1[y] >> 1)
}

/// Register file after shift-left of `y` into `x`.
pub open spec fn shl_regs_result(v: Seq<u8>, x: int, y: int) -> Seq<u8> {
    let flag: u8 = if v[y] & 0x80 == 0 { 0u8 } else { 1u8 };
    let s1 = v.update(15, flag);
    s1.update(x, s1[y] << 1)
}

// The draw instruction, specified pixel by pixel. A sprite of `n` rows is
// read from memory at the index register and XOR-ed onto the grid with
// toroidal wraparound, its origin at the wrapped coordinates (vx, vy).
// Each grid pixel is hit at most once, since a sprite is at most 8 wide
// and 15 tall; the spec names, for every pixel, the sprite bit that lands
// there. `rows` counts fully drawn rows and `cols` the pixels drawn of
// row `rows`, so the same spec describes the finished draw (`rows == n`,
// `cols == 0`) and every intermediate state of the drawing loops.

/// Bit `di` of a sprite row byte, bit 0 being the leftmost (most
/// significant) pixel.
pub open spec fn sprite_row_bit(byte: u8, di: int) -> bool {
    (byte >> ((7 - di) as u8)) & 1 == 1
}

/// Whether pixel (px, py) lies in the drawn region: its column offset
/// from the origin is under 8 and its row offset is within the drawn
/// rows (or within the drawn prefix of the row being drawn).
pub open spec fn sprite_covers(vx: int, vy: int, rows: int, cols: int, px: int, py: int) -> bool {
    let di = (px - vx) % 64;
    let dj = (py - vy) % 32;
    di < 8 && (dj < rows || (dj == rows && di < cols))
}

/// The sprite bit XOR-ed onto pixel (px, py): set exactly when the pixel
/// is covered and the corresponding bit of its sprite row byte is set.
pub open spec fn sprite_pixel(
    ram: [u8; 4096],
    i0: int,
    vx: int,
    vy: int,
    rows: int,
    cols: int,
    px: int,
    py: int,
) -> bool {
    let di = (px - vx) % 64;
    let dj = (py - vy) % 32;
    sprite_covers(vx, vy, rows, cols, px, py) && sprite_row_bit(ram[i0 + dj], di)
}

/// Pixel (px, py) collides: it is lit on the grid and the sprite lands a
/// set bit on it.
pub open spec fn colliding_pixel(
    o: Cpu,
    vx: int,
    vy: int,
    rows: int,
    cols: int,
    px: int,
    py: int,
) -> bool {
    0 <= px < 64 && 0 <= py < 32 && o.vram[px][py] && sprite_pixel(
        o.ram,
        o.i as int,
        vx,
        vy,
        rows,
        cols,
        px,
        py,
    )
}

/// Some pixel of the drawn region collides.
pub open spec fn sprite_collides(o: Cpu, vx: int, vy: int, rows: int, cols: int) -> bool {
    exists|px: int, py: int| colliding_pixel(o, vx, vy, rows, cols, px, py)
}

/// The complete effect of the draw instruction on state `pre`: every
/// pixel is XOR-ed with its sprite bit, the changed flag is raised, and
/// register 15 becomes 1 exactly when some lit pixel was erased.
pub open spec fn draw_post(pre: Cpu, post: Cpu, x: int, y: int, n: int) -> bool {
    let vx = pre.v[x] as int % 64;
    let vy = pre.v[y] as int % 32;
    &&& forall|px: int, py: int| #![trigger post.vram[px][py]]
        0 <= px < 64 && 0 <= py < 32 ==> post.vram[px][py] == (pre.vram[px][py] != sprite_pixel(
            pre.ram,
            pre.i as int,
            vx,
            vy,
            n,
            0,
            px,
            py,
        ))
    &&& post.vram_changed
    &&& post.v@ == pre.v@.update(
        15,
        if sprite_collides(pre, vx, vy, n, 0) {
            1u8
        } else {
            0u8
        },
    )
    &&& only_display_and_regs_change(pre, post)
}

/// Wrapping an offset below the modulus keeps it recoverable: the wrapped
/// coordinate, taken relative to the origin, gives the offset back.
proof fn lemma_wrap_offset(v: int, d: int, m: int)
    requires
        0 < m,
        0 <= v < m,
        0 <= d < m,
    ensures
        0 <= (v + d) % m < m,
        ((v + d) % m - v) % m == d,
{
    if v + d < m {
        lemma_fundamental_div_mod_converse_mod(v + d, m, 0, v + d);
        lemma_fundamental_div_mod_converse_mod(d, m, 0, d);
    } else {
        lemma_fundamental_div_mod_converse_mod(v + d, m, 1, v + d - m);
        lemma_fundamental_div_mod_converse_mod(d - m, m, -1, d);
    }
}

/// A coordinate below the modulus is recovered from its offset to the
/// origin: `px == (v + (px - v) % m) % m`.
proof fn lemma_wrap_roundtrip(v: int, px: int, m: int)
    requires
        0 < m,
        0 <= v < m,
        0 <= px < m,
    ensures
        0 <= (px - v) % m < m,
        (v + (px - v) % m) % m == px,
{
    lemma_mod_bound(px - v, m);
    lemma_fundamental_div_mod(px - v, m);
    let q = (px - v) / m;
    let r = (px - v) % m;
    assert(v + r == (-q) * m + px) by (nonlinear_arith)
        requires px - v == m * q + r,
    ;
    lemma_fundamental_div_mod_converse_mod(v + r, m, -q, px);
}

/// The pixel written when drawing bit `ii` of row `jj` is exactly the one
/// whose offsets from the origin are `(ii, jj)`, and no other.
proof fn lemma_pixel_identity(
    vx: int,
    vy: int,
    jj: int,
    ii: int,
    xx: int,
    yy: int,
    px: int,
    py: int,
)
    requires
        0 <= vx < 64,
        0 <= vy < 32,
        0 <= ii < 8,
        0 <= jj < 32,
        xx == (vx + ii) % 64,
        yy == (vy + jj) % 32,
        0 <= px < 64,
        0 <= py < 32,
    ensures
        (px == xx && py == yy) <==> ((px - vx) % 64 == ii && (py - vy) % 32 == jj),
{
    lemma_wrap_offset(vx, ii, 64);
    lemma_wrap_offset(vy, jj, 32);
    lemma_wrap_roundtrip(vx, px, 64);
    lemma_wrap_roundtrip(vy, py, 32);
}

/// Nothing is covered before any row is drawn.
proof fn lemma_collides_none(o: Cpu, vx: int, vy: int)
    ensures
        !sprite_collides(o, vx, vy, 0, 0),
{
    assert forall|px: int, py: int| !colliding_pixel(o, vx, vy, 0, 0, px, py) by {
        lemma_mod_bound(py - vy, 32);
        lemma_mod_bound(px - vx, 64);
    }
}

/// Drawing one more pixel extends the colliding region by that pixel
/// alone.
proof fn lemma_collides_step(o: Cpu, vx: int, vy: int, jj: int, ii: int, xx: int, yy: int)
    requires
        0 <= vx < 64,
        0 <= vy < 32,
        0 <= ii < 8,
        0 <= jj < 32,
        xx == (vx + ii) % 64,
        yy == (vy + jj) % 32,
    ensures
        sprite_collides(o, vx, vy, jj, ii + 1) == (sprite_collides(o, vx, vy, jj, ii)
            || colliding_pixel(o, vx, vy, jj, ii + 1, xx, yy)),
{
    let ii1 = ii + 1;
    lemma_wrap_offset(vx, ii, 64);
    lemma_wrap_offset(vy, jj, 32);
    if sprite_collides(o, vx, vy, jj, ii) {
        let (px, py) = choose|px: int, py: int| colliding_pixel(o, vx, vy, jj, ii, px, py);
        assert(colliding_pixel(o, vx, vy, jj, ii1, px, py));
    }
    if colliding_pixel(o, vx, vy, jj, ii1, xx, yy) {
        assert(sprite_collides(o, vx, vy, jj, ii1));
    }
    if sprite_collides(o, vx, vy, jj, ii1) {
        let (px, py) = choose|px: int, py: int| colliding_pixel(o, vx, vy, jj, ii1, px, py);
        if px == xx && py == yy {
        } else {
            lemma_pixel_identity(vx, vy, jj, ii, xx, yy, px, py);
            assert(colliding_pixel(o, vx, vy, jj, ii, px, py));
        }
    }
}

/// A fully drawn row covers the same region as the next row started.
proof fn lemma_collides_row_wrap(o: Cpu, vx: int, vy: int, jj: int)
    ensures
        sprite_collides(o, vx, vy, jj, 8) == sprite_collides(o, vx, vy, jj + 1, 0),
{
    let jj1 = jj + 1;
    if sprite_collides(o, vx, vy, jj, 8) {
        let (px, py) = choose|px: int, py: int| colliding_pixel(o, vx, vy, jj, 8, px, py);
        assert(colliding_pixel(o, vx, vy, jj1, 0, px, py));
    }
    if sprite_collides(o, vx, vy, jj1, 0) {
        let (px, py) = choose|px: int, py: int| colliding_pixel(o, vx, vy, jj1, 0, px, py);
        lemma_mod_bound(px - vx, 64);
        assert(colliding_pixel(o, vx, vy, jj, 8, px, py));
    }
}

/// The full effect of executing one decoded instruction from state `pre`
/// with the given pressed keys, program-counter movement included: `pre`
/// is the state right after the fetch (its program counter still at the
/// instruction), `post` the state the cycle leaves behind, and `r` says
/// whether execution hit a fatal fault (in which case nothing changes).
pub open spec fn inst_rel(
    pre: Cpu,
    inst: Instruction,
    keys: Seq<Key>,
    post: Cpu,
    r: Result<(), Fault>,
) -> bool {
    match inst {
        Instruction::Nop => r is Ok && only_pc_changes(pre, post) && post.pc == pre.pc + 2,
        Instruction::Cls => r is Ok && (forall|px: int, py: int|
            0 <= px < 64 && 0 <= py < 32 ==> !(#[trigger] post.vram[px][py])) && post.vram_changed
            && only_display_changes(pre, post) && post.pc == pre.pc + 2,
        Instruction::Rts => if pre.sp == 0 {
            r == Err::<(), Fault>(Fault::StackUnderflow) && unchanged_all(pre, post)
        } else {
            r is Ok && post.pc == pre.stack[pre.sp - 1] + 2 && post.sp == pre.sp - 1
                && only_flow_changes(pre, post)
        },
        Instruction::Jmp { nnn } => r is Ok && only_pc_changes(pre, post) && post.pc == nnn,
        Instruction::Call { nnn } => if pre.sp >= 16 {
            r == Err::<(), Fault>(Fault::StackOverflow) && unchanged_all(pre, post)
        } else {
            r is Ok && post.stack@ == pre.stack@.update(pre.sp as int, pre.pc) && post.sp == pre.sp
                + 1 && post.pc == nnn && only_call_changes(pre, post)
        },
        Instruction::Ske { x, kk } => r is Ok && only_pc_changes(pre, post) && post.pc == pre.pc + (
        if pre.v[x as int] == kk {
            4int
        } else {
            2int
        }),
        Instruction::Skne { x, kk } => r is Ok && only_pc_changes(pre, post) && post.pc == pre.pc
            + (if pre.v[x as int] == kk {
            2int
        } else {
            4int
        }),
        Instruction::Skre { x, y } => r is Ok && only_pc_changes(pre, post) && post.pc == pre.pc + (
        if pre.v[x as int] == pre.v[y as int] {
            4int
        } else {
            2int
        }),
        Instruction::Load { x, kk } => r is Ok && regs_become(pre, post, x as int, kk)
            && post.pc == pre.pc + 2,
        Instruction::Add { x, kk } => r is Ok && regs_become(
            pre,
            post,
            x as int,
            ((pre.v[x as int] + kk) % 256) as u8,
        ) && post.pc == pre.pc + 2,
        Instruction::Move { x, y } => r is Ok && regs_become(pre, post, x as int, pre.v[y as int])
            && post.pc == pre.pc + 2,
        Instruction::Or { x, y } => r is Ok && regs_become(
            pre,
            post,
            x as int,
            pre.v[x as int] | pre.v[y as int],
        ) && post.pc == pre.pc + 2,
        Instruction::And { x, y } => r is Ok && regs_become(
            pre,
            post,
            x as int,
            pre.v[x as int] & pre.v[y as int],
        ) && post.pc == pre.pc + 2,
        Instruction::Xor { x, y } => r is Ok && regs_become(
            pre,
            post,
            x as int,
            pre.v[x as int] ^ pre.v[y as int],
        ) && post.pc == pre.pc + 2,
        Instruction::Addr { x, y } => r is Ok && post.v@ == add_regs_result(
            pre.v@,
            x as int,
            y as int,
        ) && only_regs_change(pre, post) && post.pc == pre.pc + 2,
        Instruction::Sub { x, y } => r is Ok && post.v@ == sub_regs_result(
            pre.v@,
            x as int,
            y as int,
        ) && only_regs_change(pre, post) && post.pc == pre.pc + 2,
        Instruction::Shr { x, y } => r is Ok && post.v@ == shr_regs_result(
            pre.v@,
            x as int,
            y as int,
        ) && only_regs_change(pre, post) && post.pc == pre.pc + 2,
        Instruction::Shl { x, y } => r is Ok && post.v@ == shl_regs_result(
            pre.v@,
            x as int,
            y as int,
        ) && only_regs_change(pre, post) && post.pc == pre.pc + 2,
        Instruction::Skrne { x, y } => r is Ok && only_pc_changes(pre, post) && post.pc == pre.pc
            + (if pre.v[x as int] == pre.v[y as int] {
            2int
        } else {
            4int
        }),
        Instruction::Loadi { nnn } => r is Ok && post.i == nnn && only_index_changes(pre, post)
            && post.pc == pre.pc + 2,
        Instruction::Jumpi { nnn } => r is Ok && only_pc_changes(pre, post) && post.pc == nnn
            + pre.v[0],
        Instruction::Rand { x, kk } => r is Ok && (exists|rb: u8|
            post.v@ == pre.v@.update(x as int, rb & kk)) && only_regs_change(pre, post) && post.pc
            == pre.pc + 2,
        Instruction::Draw { x, y, n } => if n > 0 && pre.i + n > 4096 {
            r == Err::<(), Fault>(Fault::MemoryOutOfBounds) && unchanged_all(pre, post)
        } else {
            r is Ok && draw_post(pre, post, x as int, y as int, n as int) && post.pc == pre.pc + 2
        },
        Instruction::Skpr { x } => r is Ok && only_pc_changes(pre, post) && post.pc == pre.pc + (
        if key_match(keys, pre.v[x as int]) {
            4int
        } else {
            2int
        }),
        Instruction::Skup { x } => r is Ok && only_pc_changes(pre, post) && post.pc == pre.pc + (
        if key_match(keys, pre.v[x as int]) {
            2int
        } else {
            4int
        }),
        Instruction::Moved { x } => r is Ok && regs_become(pre, post, x as int, pre.delay_timer)
            && post.pc == pre.pc + 2,
        Instruction::Keyd { x } => match first_non_exit(keys) {
            None => r is Ok && unchanged_all(pre, post),
            Some(k) => r is Ok && regs_become(pre, post, x as int, k.spec_code()) && post.pc
                == pre.pc + 2,
        },
        Instruction::Loadd { x } => r is Ok && post.delay_timer == pre.v[x as int]
            && post.sound_timer == pre.sound_timer && only_timers_change(pre, post) && post.pc
            == pre.pc + 2,
        Instruction::Loads { x } => r is Ok && post.sound_timer == pre.v[x as int]
            && post.delay_timer == pre.delay_timer && only_timers_change(pre, post) && post.pc
            == pre.pc + 2,
        Instruction::Addi { x } => r is Ok && post.i == (pre.i + pre.v[x as int]) % 0x10000
            && only_index_changes(pre, post) && post.pc == pre.pc + 2,
        Instruction::Ldspr { x } => r is Ok && post.i == pre.v[x as int] * 5 && only_index_changes(
            pre,
            post,
        ) && post.pc == pre.pc + 2,
        Instruction::Bcd { x } => if pre.i + 2 >= 4096 {
            r == Err::<(), Fault>(Fault::MemoryOutOfBounds) && unchanged_all(pre, post)
        } else {
            r is Ok && post.ram@ == pre.ram@.update(pre.i + 2, pre.v[x as int] % 10).update(
                pre.i + 1,
                ((pre.v[x as int] / 10) % 10) as u8,
            ).update(pre.i as int, ((pre.v[x as int] / 100) % 10) as u8) && only_mem_changes(
                pre,
                post,
            ) && post.pc == pre.pc + 2
        },
        Instruction::Stor { x } => if pre.i + x >= 4096 {
            r == Err::<(), Fault>(Fault::MemoryOutOfBounds) && unchanged_all(pre, post)
        } else {
            r is Ok && (forall|a: int|
                0 <= a < 4096 ==> #[trigger] post.ram[a] == (if pre.i <= a <= pre.i + x {
                    pre.v[a - pre.i]
                } else {
                    pre.ram[a]
                })) && post.i == pre.i + x + 1 && only_mem_and_index_change(pre, post) && post.pc
                == pre.pc + 2
        },
        Instruction::Read { x } => if pre.i + x >= 4096 {
            r == Err::<(), Fault>(Fault::MemoryOutOfBounds) && unchanged_all(pre, post)
        } else {
            r is Ok && (forall|k: int|
                0 <= k < 16 ==> #[trigger] post.v[k] == (if k <= x {
                    pre.ram[pre.i + k]
                } else {
                    pre.v[k]
                })) && post.i == pre.i + x + 1 && only_regs_and_index_change(pre, post) && post.pc
                == pre.pc + 2
        },
    }
}

/// `post`'s register file is `pre`'s with register `x` set to `val`, and
/// besides the registers and the program counter nothing changed.
pub open spec fn regs_become(pre: Cpu, post: Cpu, x: int, val: u8) -> bool {
    post.v@ == pre.v@.update(x, val) && only_regs_change(pre, post)
}

/// `c` with the display-changed flag lowered, as each tick starts.
pub open spec fn with_flag_cleared(c: Cpu) -> Cpu {
    Cpu { vram_changed: false, ..c }
}

/// The full effect of one tick from state `pre` with the given pressed
/// keys: the changed flag is lowered, the opcode at the program counter is
/// fetched and decoded, and the instruction executes as [`inst_rel`] says.
/// A fetch outside memory or an unrecognized pattern is a fatal fault that
/// changes nothing else.
pub open spec fn step_rel(pre: Cpu, keys: Seq<Key>, post: Cpu, r: Result<(), Fault>) -> bool {
    let p1 = with_flag_cleared(pre);
    if pre.pc > 4094 {
        r == Err::<(), Fault>(Fault::FetchOutOfBounds { pc: pre.pc }) && unchanged_all(p1, post)
    } else {
        let b0 = pre.ram[pre.pc as int];
        let b1 = pre.ram[pre.pc as int + 1];
        match spec_decode(b0, b1) {
            None => r == Err::<(), Fault>(Fault::UnknownOpcode { pc: pre.pc, b0, b1 })
                && unchanged_all(p1, post),
            Some(inst) => inst_rel(p1, inst, keys, post, r),
        }
    }
}

impl Cpu {
    /// The machine invariant: the stack pointer stays within the 16-entry
    /// stack, and every stacked return address is a fetchable program
    /// counter, so that returning to it (and stepping past the call) stays
    /// inside memory.
    pub open spec fn wf(self) -> bool {
        &&& self.sp <= 16
        &&& forall|k: int| 0 <= k < 16 ==> self.stack[k] <= 4094
    }
}

impl Default for Cpu {
    /// A freshly powered machine: everything zeroed, program counter at
    /// the conventional load address 0x200.
    fn default() -> (c: Cpu)
        ensures
            c.wf(),
            c.ram@ == Seq::new(4096, |k: int| 0u8),
            c.stack@ == Seq::new(16, |k: int| 0u16),
            forall|x: int, y: int|
                0 <= x < 64 && 0 <= y < 32 ==> !(#[trigger] c.vram[x][y]),
            !c.vram_changed,
            c.v@ == Seq::new(16, |k: int| 0u8),
            c.i == 0,
            c.pc == 0x200,
            c.sp == 0,
            c.delay_timer == 0,
            c.sound_timer == 0,
    {
        let c = Cpu {
            ram: [0; 4096],
            stack: [0; 16],
            vram: [[false; HEIGHT]; WIDTH],
            vram_changed: false,
            v: [0; 16],
            i: 0,
            delay_timer: 0,
            sound_timer: 0,
            pc: 0x200,
            sp: 0,
        };
        assert(c.ram@ =~= Seq::new(4096, |k: int| 0u8));
        assert(c.stack@ =~= Seq::new(16, |k: int| 0u16));
        assert(c.v@ =~= Seq::new(16, |k: int| 0u8));
        c
    }
}

impl Cpu {
    /// Copy the font table to the bottom of memory (addresses 0x000..0x050).
    pub fn load_fonts(&mut self)
        ensures
            forall|a: int| 0 <= a < 80 ==> #[trigger] final(self).ram[a] == FONTS[a],
            forall|a: int| 80 <= a < 4096 ==> #[trigger] final(self).ram[a] == old(self).ram[a],
            only_mem_changes(*old(self), *final(self)),
            keeps_pc(*old(self), *final(self)),
    {
        let mut k: usize = 0;
        while k < 80
            invariant
                k <= 80,
                forall|a: int| 0 <= a < k ==> #[trigger] self.ram[a] == FONTS[a],
                forall|a: int| k <= a < 4096 ==> #[trigger] self.ram[a] == old(self).ram[a],
                only_mem_changes(*old(self), *self),
                keeps_pc(*old(self), *self),
            decreases 80 - k,
        {
            self.ram[k] = FONTS[k];
            k += 1;
        }
    }

    /// Load the font table, then the program image starting at the
    /// conventional address 0x200. The image must fit in the 4096-byte
    /// memory; the caller checks that before handing it over.
    pub fn load_rom(&mut self, bytecode: &[u8])
        requires
            bytecode@.len() <= 4096 - 0x200,
        ensures
            forall|a: int|
                0 <= a < 4096 ==> #[trigger] final(self).ram[a] == (if a < 80 {
                    FONTS[a]
                } else if 0x200 <= a < 0x200 + bytecode@.len() {
                    bytecode@[a - 0x200]
                } else {
                    old(self).ram[a]
                }),
            only_mem_changes(*old(self), *final(self)),
            keeps_pc(*old(self), *final(self)),
    {
        self.load_fonts();
        let ghost after_fonts = *self;
        let mut index: usize = 0;
        while index < bytecode.len()
            invariant
                bytecode@.len() <= 4096 - 0x200,
                index <= bytecode@.len(),
                forall|a: int|
                    0x200 <= a < 0x200 + index ==> #[trigger] self.ram[a] == bytecode@[a - 0x200],
                forall|a: int|
                    (0 <= a < 0x200 || 0x200 + index <= a < 4096) ==> #[trigger] self.ram[a]
                        == after_fonts.ram[a],
                only_mem_changes(after_fonts, *self),
                keeps_pc(after_fonts, *self),
            decreases bytecode@.len() - index,
        {
            let val = bytecode[index];
            self.ram[0x200 + index] = val;
            index += 1;
        }
    }

    /// Whether the display buffer changed during the latest tick, so the
    /// presenter redraws only then.
    pub fn refresh_screen(&self) -> (r: bool)
        ensures
            r == self.vram_changed,
    {
        self.vram_changed
    }

    /// Read-only snapshot of the display grid, indexed `vram[x][y]` with
    /// `x` in 0..64 and `y` in 0..32.
    pub fn vram(&self) -> (r: &[[bool; HEIGHT]; WIDTH])
        ensures
            *r == self.vram,
    {
        &self.vram
    }

    /// One 60 Hz timer step: each nonzero timer goes down by one; both
    /// saturate at zero.
    pub fn decrease_timers(&mut self)
        ensures
            final(self).delay_timer == (if old(self).delay_timer > 0 {
                old(self).delay_timer - 1
            } else {
                0
            }),
            final(self).sound_timer == (if old(self).sound_timer > 0 {
                old(self).sound_timer - 1
            } else {
                0
            }),
            only_timers_change(*old(self), *final(self)),
            keeps_pc(*old(self), *final(self)),
    {
        if self.delay_timer > 0 {
            self.delay_timer = self.delay_timer - 1;
        }
        if self.sound_timer > 0 {
            self.sound_timer = self.sound_timer - 1;
        }
    }
}

// The instruction handlers. Each one performs the state change of its
// instruction; what happens to the program counter afterwards is returned
// as a `Pc` request and applied by the cycle (`None` is the normal 2-byte
// advance).
impl Cpu {
    /// Clear the display and mark it changed.
    pub fn i_00e0(&mut self) -> (r: Option<Pc>)
        ensures
            r is None,
            forall|px: int, py: int|
                0 <= px < 64 && 0 <= py < 32 ==> !(#[trigger] final(self).vram[px][py]),
            final(self).vram_changed,
            only_display_changes(*old(self), *final(self)),
            keeps_pc(*old(self), *final(self)),
    {
        self.vram = [[false; HEIGHT]; WIDTH];
        self.vram_changed = true;
        None
    }

    /// Return from a subroutine: the program counter becomes the address
    /// on top of the stack and the stack pointer goes down by one. (The
    /// cycle then advances past the call instruction that pushed it.)
    pub fn i_00ee(&mut self) -> (r: Option<Pc>)
        requires
            old(self).wf(),
            old(self).sp >= 1,
        ensures
            r is None,
            final(self).pc == old(self).stack[old(self).sp - 1],
            final(self).sp == old(self).sp - 1,
            only_flow_changes(*old(self), *final(self)),
            final(self).wf(),
    {
        self.pc = self.stack[self.sp - 1];
        self.sp = self.sp - 1;
        None
    }

    /// Jump to `nnn` unconditionally.
    pub fn i_1nnn(&mut self, nnn: u16) -> (r: Option<Pc>)
        ensures
            r == Some(Pc::Jump(nnn)),
            unchanged_all(*old(self), *final(self)),
    {
        Some(Pc::Jump(nnn))
    }

    /// Call the subroutine at `nnn`: push the current program counter,
    /// then jump.
    pub fn i_2nnn(&mut self, nnn: u16) -> (r: Option<Pc>)
        requires
            old(self).wf(),
            old(self).sp < 16,
            old(self).pc <= 4094,
        ensures
            r == Some(Pc::Jump(nnn)),
            final(self).stack@ == old(self).stack@.update(old(self).sp as int, old(self).pc),
            final(self).sp == old(self).sp + 1,
            only_call_changes(*old(self), *final(self)),
            keeps_pc(*old(self), *final(self)),
            final(self).wf(),
    {
        // push PC to the stack to return later
        self.stack[self.sp] = self.pc;
        self.sp = self.sp + 1;

        // call the subroutine
        Some(Pc::Jump(nnn))
    }

    /// Skip the following instruction if register `x` equals `kk`.
    pub fn i_3xkk(&mut self, x: u8, kk: u8) -> (r: Option<Pc>)
        requires
            x < 16,
        ensures
            unchanged_all(*old(self), *final(self)),
            r == (if old(self).v[x as int] == kk {
                Some(Pc::Advance(2))
            } else {
                None::<Pc>
            }),
    {
        if self.v[x as usize] == kk {
            return Some(Pc::Advance(2));
        }
        None
    }

    /// Skip the following instruction if register `x` differs from `kk`.
    pub fn i_4xkk(&mut self, x: u8, kk: u8) -> (r: Option<Pc>)
        requires
            x < 16,
        ensures
            unchanged_all(*old(self), *final(self)),
            r == (if old(self).v[x as int] == kk {
                None::<Pc>
            } else {
                Some(Pc::Advance(2))
            }),
    {
        if self.v[x as usize] == kk {
            return None;
        }
        Some(Pc::Advance(2))
    }

    /// Skip the following instruction if registers `x` and `y` are equal.
    pub fn i_5xy0(&mut self, x: u8, y: u8) -> (r: Option<Pc>)
        requires
            x < 16,
            y < 16,
        ensures
            unchanged_all(*old(self), *final(self)),
            r == (if old(self).v[x as int] == old(self).v[y as int] {
                Some(Pc::Advance(2))
            } else {
                None::<Pc>
            }),
    {
        if self.v[x as usize] != self.v[y as usize] {
            return None;
        }
        Some(Pc::Advance(2))
    }

    /// Load the immediate `kk` into register `x`.
    pub fn i_6xkk(&mut self, x: u8, kk: u8) -> (r: Option<Pc>)
        requires
            x < 16,
        ensures
            r is None,
            final(self).v@ == old(self).v@.update(x as int, kk),
            only_regs_change(*old(self), *final(self)),
            keeps_pc(*old(self), *final(self)),
    {
        self.v[x as usize] = kk;
        None
    }

    /// Add the immediate `kk` to register `x`, wrapping modulo 256; the
    /// flag register is not touched.
    pub fn i_7xkk(&mut self, x: u8, kk: u8) -> (r: Option<Pc>)
        requires
            x < 16,
        ensures
            r is None,
            final(self).v@ == old(self).v@.update(
                x as int,
                ((old(self).v[x as int] + kk) % 256) as u8,
            ),
            only_regs_change(*old(self), *final(self)),
            keeps_pc(*old(self), *final(self)),
    {
        self.v[x as usize] = self.v[x as usize].wrapping_add(kk);
        None
    }

    /// Copy register `y` into register `x`.
    pub fn i_8xy0(&mut self, x: u8, y: u8) -> (r: Option<Pc>)
        requires
            x < 16,
            y < 16,
        ensures
            r is None,
            final(self).v@ == old(self).v@.update(x as int, old(self).v[y as int]),
            only_regs_change(*old(self), *final(self)),
            keeps_pc(*old(self), *final(self)),
    {
        self.v[x as usize] = self.v[y as usize];
        None
    }

    /// Bitwise OR of register `y` into register `x`.
    pub fn i_8xy1(&mut self, x: u8, y: u8) -> (r: Option<Pc>)
        requires
            x < 16,
            y < 16,
        ensures
            r is None,
            final(self).v@ == old(self).v@.update(
                x as int,
                old(self).v[x as int] | old(self).v[y as int],
            ),
            only_regs_change(*old(self), *final(self)),
            keeps_pc(*old(self), *final(self)),
    {
        self.v[x as usize] = self.v[x as usize] | self.v[y as usize];
        None
    }

    /// Bitwise AND of register `y` into register `x`.
    pub fn i_8xy2(&mut self, x: u8, y: u8) -> (r: Option<Pc>)
        requires
            x < 16,
            y < 16,
        ensures
            r is None,
            final(self).v@ == old(self).v@.update(
                x as int,
                old(self).v[x as int] & old(self).v[y as int],
            ),
            only_regs_change(*old(self), *final(self)),
            keeps_pc(*old(self), *final(self)),
    {
        self.v[x as usize] = self.v[x as usize] & self.v[y as usize];
        None
    }

    /// Bitwise XOR of register `y` into register `x`.
    pub fn i_8xy3(&mut self, x: u8, y: u8) -> (r: Option<Pc>)
        requires
            x < 16,
            y < 16,
        ensures
            r is None,
            final(self).v@ == old(self).v@.update(
                x as int,
                old(self).v[x as int] ^ old(self).v[y as int],
            ),
            only_regs_change(*old(self), *final(self)),
            keeps_pc(*old(self), *final(self)),
    {
        self.v[x as usize] = self.v[x as usize] ^ self.v[y as usize];
        None
    }

    /// Add register `y` into register `x` with carry: the flag register is
    /// set first (1 on unsigned overflow, else 0), then the wrapping sum
    /// is stored.
    pub fn i_8xy4(&mut self, x: u8, y: u8) -> (r: Option<Pc>)
        requires
            x < 16,
            y < 16,
        ensures
            r is None,
            final(self).v@ == add_regs_result(old(self).v@, x as int, y as int),
            only_regs_change(*old(self), *final(self)),
            keeps_pc(*old(self), *final(self)),
    {
        match self.v[x as usize].checked_add(self.v[y as usize]) {
            None => self.v[15] = 1,
            Some(_) => self.v[15] = 0,
        }

        self.v[x as usize] = self.v[x as usize].wrapping_add(self.v[y as usize]);

        None
    }

    /// Subtract register `y` from register `x`: the flag register is set
    /// first (1 when `x`'s value strictly exceeds `y`'s, the no-borrow
    /// convention), then the wrapping difference is stored.
    pub fn i_8xy5(&mut self, x: u8, y: u8) -> (r: Option<Pc>)
        requires
            x < 16,
            y < 16,
        ensures
            r is None,
            final(self).v@ == sub_regs_result(old(self).v@, x as int, y as int),
            only_regs_change(*old(self), *final(self)),
            keeps_pc(*old(self), *final(self)),
    {
        if self.v[x as usize] > self.v[y as usize] {
            self.v[15] = 1;
        } else {
            self.v[15] = 0;
        }

        self.v[x as usize] = self.v[x as usize].wrapping_sub(self.v[y as usize]);

        None
    }

    /// Store register `y` shifted right one bit into register `x`; the
    /// flag register first receives the bit shifted out. This is the
    /// shift-`y`-into-`x` convention; programs written for interpreters
    /// that shift `x` in place must set `y == x`.
    pub fn i_8xy6(&mut self, x: u8, y: u8) -> (r: Option<Pc>)
        requires
            x < 16,
            y < 16,
        ensures
            r is None,
            final(self).v@ == shr_regs_result(old(self).v@, x as int, y as int),
            only_regs_change(*old(self), *final(self)),
            keeps_pc(*old(self), *final(self)),
    {
        if (self.v[y as usize] & 0x01) == 0 {
            self.v[15] = 0;
        } else {
            self.v[15] = 1;
        }

        self.v[x as usize] = self.v[y as usize] >> 1u8;

        None
    }

    /// Store register `y` shifted left one bit into register `x`; the
    /// flag register first receives the bit shifted out. This is the
    /// shift-`y`-into-`x` convention; programs written for interpreters
    /// that shift `x` in place must set `y == x`.
    pub fn i_8xye(&mut self, x: u8, y: u8) -> (r: Option<Pc>)
        requires
            x < 16,
            y < 16,
        ensures
            r is None,
            final(self).v@ == shl_regs_result(old(self).v@, x as int, y as int),
            only_regs_change(*old(self), *final(self)),
            keeps_pc(*old(self), *final(self)),
    {
        if (self.v[y as usize] & 0x80) == 0 {
            self.v[15] = 0;
        } else {
            self.v[15] = 1;
        }

        self.v[x as usize] = self.v[y as usize] << 1u8;

        None
    }

    /// Skip the following instruction if registers `x` and `y` differ.
    pub fn i_9xy0(&mut self, x: u8, y: u8) -> (r: Option<Pc>)
        requires
            x < 16,
            y < 16,
        ensures
            unchanged_all(*old(self), *final(self)),
            r == (if old(self).v[x as int] == old(self).v[y as int] {
                None::<Pc>
            } else {
                Some(Pc::Advance(2))
            }),
    {
        if self.v[x as usize] == self.v[y as usize] {
            return None;
        }
        Some(Pc::Advance(2))
    }

    /// Set the index register to `nnn`.
    pub fn i_annn(&mut self, nnn: u16) -> (r: Option<Pc>)
        ensures
            r is None,
            final(self).i == nnn,
            only_index_changes(*old(self), *final(self)),
            keeps_pc(*old(self), *final(self)),
    {
        self.i = nnn;
        None
    }

    /// Jump to `nnn` plus register 0.
    pub fn i_bnnn(&mut self, nnn: u16) -> (r: Option<Pc>)
        requires
            nnn < 4096,
        ensures
            r == Some(Pc::Jump((nnn + old(self).v[0]) as u16)),
            unchanged_all(*old(self), *final(self)),
    {
        Some(Pc::Jump(nnn + self.v[0] as u16))
    }

    /// Load a fresh uniform random byte, masked with `kk`, into register
    /// `x`. Nothing is promised of the byte itself, so the contract only
    /// says the stored value is some byte under the mask.
    pub fn i_cxkk(&mut self, x: u8, kk: u8) -> (r: Option<Pc>)
        requires
            x < 16,
        ensures
            r is None,
            exists|rb: u8| final(self).v@ == old(self).v@.update(x as int, rb & kk),
            only_regs_change(*old(self), *final(self)),
            keeps_pc(*old(self), *final(self)),
    {
        let rb = random_byte();
        self.v[x as usize] = rb & kk;
        proof {
            assert(self.v@ == old(self).v@.update(x as int, rb & kk));
        }
        None
    }

    /// Draw the `n`-row sprite at memory index `i` with origin at the
    /// wrapped coordinates of registers `x` and `y`. Every sprite bit is
    /// XOR-ed onto its pixel with toroidal wraparound; the flag register
    /// reports whether any lit pixel was erased; the display is marked
    /// changed unconditionally.
    pub fn i_dxyn(&mut self, x: u8, y: u8, n: u8) -> (r: Option<Pc>)
        requires
            x < 16,
            y < 16,
            n < 16,
            n > 0 ==> old(self).i + n <= 4096,
        ensures
            r is None,
            draw_post(*old(self), *final(self), x as int, y as int, n as int),
            keeps_pc(*old(self), *final(self)),
    {
        self.vram_changed = true;

        let vx = (self.v[x as usize] as usize) % WIDTH;
        let vy = (self.v[y as usize] as usize) % HEIGHT;
        let mut collision = false;

        proof {
            lemma_collides_none(*old(self), vx as int, vy as int);
        }

        let mut jj: u8 = 0;
        while jj < n
            invariant
                x < 16,
                y < 16,
                n < 16,
                jj <= n,
                n > 0 ==> old(self).i + n <= 4096,
                vx == old(self).v[x as int] as int % 64,
                vy == old(self).v[y as int] as int % 32,
                vx < 64,
                vy < 32,
                self.i == old(self).i,
                self.ram == old(self).ram,
                self.v == old(self).v,
                self.stack == old(self).stack,
                self.sp == old(self).sp,
                self.pc == old(self).pc,
                self.delay_timer == old(self).delay_timer,
                self.sound_timer == old(self).sound_timer,
                self.vram_changed,
                forall|px: int, py: int| #![trigger self.vram[px][py]]
                    0 <= px < 64 && 0 <= py < 32 ==> self.vram[px][py] == (old(self).vram[px][py]
                        != sprite_pixel(
                        old(self).ram,
                        old(self).i as int,
                        vx as int,
                        vy as int,
                        jj as int,
                        0,
                        px,
                        py,
                    )),
                collision == sprite_collides(*old(self), vx as int, vy as int, jj as int, 0),
            decreases n - jj,
        {
            let yy = (vy + jj as usize) % HEIGHT;
            let byte = self.ram[self.i as usize + jj as usize];
            proof {
                lemma_wrap_offset(vy as int, jj as int, 32);
            }

            let mut ii: u8 = 0;
            while ii < 8
                invariant
                    x < 16,
                    y < 16,
                    n < 16,
                    jj < n,
                    ii <= 8,
                    old(self).i + n <= 4096,
                    vx == old(self).v[x as int] as int % 64,
                    vy == old(self).v[y as int] as int % 32,
                    vx < 64,
                    vy < 32,
                    yy < 32,
                    yy == (vy + jj) % 32,
                    byte == old(self).ram[old(self).i + jj],
                    self.i == old(self).i,
                    self.ram == old(self).ram,
                    self.v == old(self).v,
                    self.stack == old(self).stack,
                    self.sp == old(self).sp,
                    self.pc == old(self).pc,
                    self.delay_timer == old(self).delay_timer,
                    self.sound_timer == old(self).sound_timer,
                    self.vram_changed,
                    forall|px: int, py: int| #![trigger self.vram[px][py]]
                        0 <= px < 64 && 0 <= py < 32 ==> self.vram[px][py] == (old(
                            self,
                        ).vram[px][py] != sprite_pixel(
                            old(self).ram,
                            old(self).i as int,
                            vx as int,
                            vy as int,
                            jj as int,
                            ii as int,
                            px,
                            py,
                        )),
                    collision == sprite_collides(
                        *old(self),
                        vx as int,
                        vy as int,
                        jj as int,
                        ii as int,
                    ),
                decreases 8 - ii,
            {
                let xx = (vx + ii as usize) % WIDTH;
                proof {
                    lemma_wrap_offset(vx as int, ii as int, 64);
                }
                let sh: u8 = 7 - ii;
                let pixel_new = ((byte >> sh) & 0x01) != 0;
                proof {
                    assert((byte >> sh) & 0x01 == 0 || (byte >> sh) & 0x01 == 1) by (bit_vector);
                }
                let pixel = self.vram[xx][yy];
                if pixel_new && pixel {
                    collision = true;
                }
                let ghost before = *self;
                self.vram[xx][yy] = pixel != pixel_new;
                proof {
                    let o = *old(self);
                    let vxi = vx as int;
                    let vyi = vy as int;
                    let jji = jj as int;
                    let iii = ii as int;
                    // the written pixel carries exactly offset (ii, jj), so it
                    // was untouched until now and now carries its sprite bit
                    assert(pixel_new == sprite_row_bit(o.ram[o.i + jji], iii));
                    assert forall|px: int, py: int| #![trigger self.vram[px][py]]
                        0 <= px < 64 && 0 <= py < 32 implies self.vram[px][py] == (o.vram[px][py]
                        != sprite_pixel(
                        o.ram,
                        o.i as int,
                        vxi,
                        vyi,
                        jji,
                        iii + 1,
                        px,
                        py,
                    )) by {
                        lemma_pixel_identity(vxi, vyi, jji, iii, xx as int, yy as int, px, py);
                        if px == xx && py == yy {
                            assert(self.vram[px][py] == (pixel != pixel_new));
                            assert(!sprite_covers(vxi, vyi, jji, iii, px, py));
                            assert(sprite_covers(vxi, vyi, jji, iii + 1, px, py));
                        } else {
                            assert(self.vram[px][py] == before.vram[px][py]);
                            assert(sprite_covers(vxi, vyi, jji, iii + 1, px, py)
                                == sprite_covers(vxi, vyi, jji, iii, px, py));
                        }
                    }
                    lemma_collides_step(o, vxi, vyi, jji, iii, xx as int, yy as int);
                    assert(colliding_pixel(o, vxi, vyi, jji, iii + 1, xx as int, yy as int)
                        == (pixel && pixel_new)) by {
                        lemma_pixel_identity(
                            vxi,
                            vyi,
                            jji,
                            iii,
                            xx as int,
                            yy as int,
                            xx as int,
                            yy as int,
                        );
                        assert(before.vram[xx as int][yy as int] == o.vram[xx as int][yy as int]);
                    }
                }
                ii = ii + 1;
            }
            proof {
                lemma_collides_row_wrap(*old(self), vx as int, vy as int, jj as int);
                assert forall|px: int, py: int| #![trigger self.vram[px][py]]
                    0 <= px < 64 && 0 <= py < 32 implies sprite_pixel(
                    old(self).ram,
                    old(self).i as int,
                    vx as int,
                    vy as int,
                    jj as int,
                    8,
                    px,
                    py,
                ) == sprite_pixel(
                    old(self).ram,
                    old(self).i as int,
                    vx as int,
                    vy as int,
                    jj as int + 1,
                    0,
                    px,
                    py,
                ) by {
                    lemma_mod_bound(px - vx as int, 64);
                }
            }
            jj = jj + 1;
        }

        if collision {
            self.v[15] = 1;
        } else {
            self.v[15] = 0;
        }

        None
    }

    /// Skip the following instruction if the key whose code is in register
    /// `x` is among the pressed keypad keys; the exit signal is not a
    /// keypad key and never matches.
    pub fn i_ex9e(&mut self, x: u8, pressed_keys: Vec<Key>) -> (r: Option<Pc>)
        requires
            x < 16,
        ensures
            unchanged_all(*old(self), *final(self)),
            r == Some(
                Pc::Advance(
                    if key_match(pressed_keys@, old(self).v[x as int]) {
                        2u16
                    } else {
                        1u16
                    },
                ),
            ),
    {
        let expected_key = self.v[x as usize];

        let mut idx: usize = 0;
        while idx < pressed_keys.len()
            invariant
                x < 16,
                idx <= pressed_keys@.len(),
                expected_key == self.v[x as int],
                *self == *old(self),
                forall|m: int| #![trigger pressed_keys@[m]]
                    0 <= m < idx ==> pressed_keys@[m] == Key::Exit || pressed_keys@[m].spec_code()
                        != expected_key,
            decreases pressed_keys@.len() - idx,
        {
            let k = pressed_keys[idx];
            if !matches!(k, Key::Exit) && k.code() == expected_key {
                assert(key_match(pressed_keys@, expected_key));
                return Some(Pc::Advance(2));
            }
            idx += 1;
        }
        assert(!key_match(pressed_keys@, expected_key));
        Some(Pc::Advance(1))
    }

    /// Skip the following instruction if the key whose code is in register
    /// `x` is not among the pressed keypad keys; the exit signal is not a
    /// keypad key and never matches.
    pub fn i_exa1(&mut self, x: u8, pressed_keys: Vec<Key>) -> (r: Option<Pc>)
        requires
            x < 16,
        ensures
            unchanged_all(*old(self), *final(self)),
            r == Some(
                Pc::Advance(
                    if key_match(pressed_keys@, old(self).v[x as int]) {
                        1u16
                    } else {
                        2u16
                    },
                ),
            ),
    {
        let expected_key = self.v[x as usize];

        let mut idx: usize = 0;
        while idx < pressed_keys.len()
            invariant
                x < 16,
                idx <= pressed_keys@.len(),
                expected_key == self.v[x as int],
                *self == *old(self),
                forall|m: int| #![trigger pressed_keys@[m]]
                    0 <= m < idx ==> pressed_keys@[m] == Key::Exit || pressed_keys@[m].spec_code()
                        != expected_key,
            decreases pressed_keys@.len() - idx,
        {
            let k = pressed_keys[idx];
            if !matches!(k, Key::Exit) && k.code() == expected_key {
                assert(key_match(pressed_keys@, expected_key));
                return Some(Pc::Advance(1));
            }
            idx += 1;
        }
        assert(!key_match(pressed_keys@, expected_key));
        Some(Pc::Advance(2))
    }

    /// Copy the delay timer into register `x`.
    pub fn i_fx07(&mut self, x: u8) -> (r: Option<Pc>)
        requires
            x < 16,
        ensures
            r is None,
            final(self).v@ == old(self).v@.update(x as int, old(self).delay_timer),
            only_regs_change(*old(self), *final(self)),
            keeps_pc(*old(self), *final(self)),
    {
        self.v[x as usize] = self.delay_timer;
        None
    }

    /// Block for a key press: while no keypad key is down the program
    /// counter is held (the instruction re-executes next tick); the first
    /// pressed keypad key is stored in register `x` and execution resumes.
    /// The exit signal is not a keypad key and keeps the wait in place.
    pub fn i_fx0a(&mut self, x: u8, pressed_keys: Vec<Key>) -> (r: Option<Pc>)
        requires
            x < 16,
        ensures
            match first_non_exit(pressed_keys@) {
                None => r == Some(Pc::Wait) && unchanged_all(*old(self), *final(self)),
                Some(k) => r is None && final(self).v@ == old(self).v@.update(
                    x as int,
                    k.spec_code(),
                ) && only_regs_change(*old(self), *final(self)) && keeps_pc(
                    *old(self),
                    *final(self),
                ),
            },
    {
        proof {
            assert(pressed_keys@.skip(0) =~= pressed_keys@);
        }
        let mut idx: usize = 0;
        while idx < pressed_keys.len()
            invariant
                x < 16,
                idx <= pressed_keys@.len(),
                *self == *old(self),
                first_non_exit(pressed_keys@) == first_non_exit(pressed_keys@.skip(idx as int)),
            decreases pressed_keys@.len() - idx,
        {
            let k = pressed_keys[idx];
            if !matches!(k, Key::Exit) {
                assert(pressed_keys@.skip(idx as int)[0] == k);
                assert(first_non_exit(pressed_keys@) == Some(k));
                self.v[x as usize] = k.code();
                return None;
            }
            proof {
                assert(pressed_keys@.skip(idx as int).skip(1) =~= pressed_keys@.skip(
                    idx as int + 1,
                ));
            }
            idx += 1;
        }
        assert(pressed_keys@.skip(idx as int).len() == 0);
        Some(Pc::Wait)
    }

    /// Set the delay timer from register `x`.
    pub fn i_fx15(&mut self, x: u8) -> (r: Option<Pc>)
        requires
            x < 16,
        ensures
            r is None,
            final(self).delay_timer == old(self).v[x as int],
            final(self).sound_timer == old(self).sound_timer,
            only_timers_change(*old(self), *final(self)),
            keeps_pc(*old(self), *final(self)),
    {
        self.delay_timer = self.v[x as usize];
        None
    }

    /// Set the sound timer from register `x`.
    pub fn i_fx18(&mut self, x: u8) -> (r: Option<Pc>)
        requires
            x < 16,
        ensures
            r is None,
            final(self).sound_timer == old(self).v[x as int],
            final(self).delay_timer == old(self).delay_timer,
            only_timers_change(*old(self), *final(self)),
            keeps_pc(*old(self), *final(self)),
    {
        self.sound_timer = self.v[x as usize];
        None
    }

    /// Add register `x` to the index register, wrapping.
    pub fn i_fx1e(&mut self, x: u8) -> (r: Option<Pc>)
        requires
            x < 16,
        ensures
            r is None,
            final(self).i == (old(self).i + old(self).v[x as int]) % 0x10000,
            only_index_changes(*old(self), *final(self)),
            keeps_pc(*old(self), *final(self)),
    {
        self.i = self.i.wrapping_add(self.v[x as usize] as u16);
        None
    }

    /// Point the index register at the font glyph for the digit in
    /// register `x`: each glyph occupies exactly 5 bytes from address 0.
    pub fn i_fx29(&mut self, x: u8) -> (r: Option<Pc>)
        requires
            x < 16,
        ensures
            r is None,
            final(self).i == old(self).v[x as int] * 5,
            only_index_changes(*old(self), *final(self)),
            keeps_pc(*old(self), *final(self)),
    {
        self.i = (self.v[x as usize] as u16) * 5;
        None
    }

    /// Store the binary-coded decimal digits of register `x` at addresses
    /// `i`, `i+1`, `i+2`: hundreds, tens, units.
    pub fn i_fx33(&mut self, x: u8) -> (r: Option<Pc>)
        requires
            x < 16,
            old(self).i + 2 < 4096,
        ensures
            r is None,
            final(self).ram@ == old(self).ram@.update(
                old(self).i + 2,
                old(self).v[x as int] % 10,
            ).update(old(self).i + 1, ((old(self).v[x as int] / 10) % 10) as u8).update(
                old(self).i as int,
                ((old(self).v[x as int] / 100) % 10) as u8,
            ),
            only_mem_changes(*old(self), *final(self)),
            keeps_pc(*old(self), *final(self)),
    {
        let mut byte = self.v[x as usize];

        // units digit
        self.ram[self.i as usize + 2] = byte % 10;

        // tens digit
        byte = byte / 10;
        self.ram[self.i as usize + 1] = byte % 10;

        // hundreds digit
        byte = byte / 10;
        self.ram[self.i as usize] = byte % 10;

        None
    }

    /// Store registers 0 through `x` inclusive to memory starting at the
    /// index register, then advance the index register past them.
    pub fn i_fx55(&mut self, x: u8) -> (r: Option<Pc>)
        requires
            x < 16,
            old(self).i + x < 4096,
        ensures
            r is None,
            forall|a: int|
                0 <= a < 4096 ==> #[trigger] final(self).ram[a] == (if old(self).i <= a
                    <= old(self).i + x {
                    old(self).v[a - old(self).i]
                } else {
                    old(self).ram[a]
                }),
            final(self).i == old(self).i + x + 1,
            only_mem_and_index_change(*old(self), *final(self)),
            keeps_pc(*old(self), *final(self)),
    {
        let mut k: u8 = 0;
        while k <= x
            invariant
                x < 16,
                self.i + x < 4096,
                k <= x + 1,
                self.i == old(self).i,
                self.v == old(self).v,
                forall|a: int|
                    0 <= a < 4096 ==> #[trigger] self.ram[a] == (if self.i <= a < self.i + k {
                        old(self).v[a - self.i]
                    } else {
                        old(self).ram[a]
                    }),
                only_mem_and_index_change(*old(self), *self),
                keeps_pc(*old(self), *self),
            decreases x + 1 - k,
        {
            self.ram[self.i as usize + k as usize] = self.v[k as usize];
            k = k + 1;
        }
        self.i = self.i + x as u16 + 1;

        None
    }

    /// Fill registers 0 through `x` inclusive from memory starting at the
    /// index register, then advance the index register past them.
    pub fn i_fx65(&mut self, x: u8) -> (r: Option<Pc>)
        requires
            x < 16,
            old(self).i + x < 4096,
        ensures
            r is None,
            forall|k: int|
                0 <= k < 16 ==> #[trigger] final(self).v[k] == (if k <= x {
                    old(self).ram[old(self).i + k]
                } else {
                    old(self).v[k]
                }),
            final(self).i == old(self).i + x + 1,
            only_regs_and_index_change(*old(self), *final(self)),
            keeps_pc(*old(self), *final(self)),
    {
        let mut k: u8 = 0;
        while k <= x
            invariant
                x < 16,
                self.i + x < 4096,
                k <= x + 1,
                self.i == old(self).i,
                self.ram == old(self).ram,
                forall|a: int|
                    0 <= a < 16 ==> #[trigger] self.v[a] == (if a < k {
                        old(self).ram[self.i + a]
                    } else {
                        old(self).v[a]
                    }),
                only_regs_and_index_change(*old(self), *self),
                keeps_pc(*old(self), *self),
            decreases x + 1 - k,
        {
            self.v[k as usize] = self.ram[self.i as usize + k as usize];
            k = k + 1;
        }

        self.i = self.i + x as u16 + 1;

        None
    }
}

// The fetch/decode/execute cycle.
impl Cpu {
    /// Execute one already-decoded instruction, program-counter movement
    /// included, exactly as [`inst_rel`] states.
    pub fn run_instruction(&mut self, instruction: &Instruction, pressed_keys: Vec<Key>) -> (r:
        Result<(), Fault>)
        requires
            old(self).wf(),
            inst_wf(*instruction),
            old(self).pc <= 4094,
        ensures
            final(self).wf(),
            inst_rel(*old(self), *instruction, pressed_keys@, *final(self), r),
    {
        let jump: Option<Pc> = match *instruction {
            Instruction::Nop => None,
            Instruction::Cls => self.i_00e0(),
            Instruction::Rts => {
                if self.sp == 0 {
                    return Err(Fault::StackUnderflow);
                }
                self.i_00ee()
            },
            Instruction::Jmp { nnn } => self.i_1nnn(nnn),
            Instruction::Call { nnn } => {
                if self.sp >= 16 {
                    return Err(Fault::StackOverflow);
                }
                self.i_2nnn(nnn)
            },
            Instruction::Ske { x, kk } => self.i_3xkk(x, kk),
            Instruction::Skne { x, kk } => self.i_4xkk(x, kk),
            Instruction::Skre { x, y } => self.i_5xy0(x, y),
            Instruction::Load { x, kk } => self.i_6xkk(x, kk),
            Instruction::Add { x, kk } => self.i_7xkk(x, kk),
            Instruction::Move { x, y } => self.i_8xy0(x, y),
            Instruction::Or { x, y } => self.i_8xy1(x, y),
            Instruction::And { x, y } => self.i_8xy2(x, y),
            Instruction::Xor { x, y } => self.i_8xy3(x, y),
            Instruction::Addr { x, y } => self.i_8xy4(x, y),
            Instruction::Sub { x, y } => self.i_8xy5(x, y),
            Instruction::Shr { x, y } => self.i_8xy6(x, y),
            Instruction::Shl { x, y } => self.i_8xye(x, y),
            Instruction::Skrne { x, y } => self.i_9xy0(x, y),
            Instruction::Loadi { nnn } => self.i_annn(nnn),
            Instruction::Jumpi { nnn } => self.i_bnnn(nnn),
            Instruction::Rand { x, kk } => self.i_cxkk(x, kk),
            Instruction::Draw { x, y, n } => {
                if n > 0 && self.i as usize + n as usize > 4096 {
                    return Err(Fault::MemoryOutOfBounds);
                }
                self.i_dxyn(x, y, n)
            },
            Instruction::Skpr { x } => self.i_ex9e(x, pressed_keys),
            Instruction::Skup { x } => self.i_exa1(x, pressed_keys),
            Instruction::Moved { x } => self.i_fx07(x),
            Instruction::Keyd { x } => self.i_fx0a(x, pressed_keys),
            Instruction::Loadd { x } => self.i_fx15(x),
            Instruction::Loads { x } => self.i_fx18(x),
            Instruction::Addi { x } => self.i_fx1e(x),
            Instruction::Ldspr { x } => self.i_fx29(x),
            Instruction::Bcd { x } => {
                if self.i as usize + 2 >= 4096 {
                    return Err(Fault::MemoryOutOfBounds);
                }
                self.i_fx33(x)
            },
            Instruction::Stor { x } => {
                if self.i as usize + x as usize >= 4096 {
                    return Err(Fault::MemoryOutOfBounds);
                }
                self.i_fx55(x)
            },
            Instruction::Read { x } => {
                if self.i as usize + x as usize >= 4096 {
                    return Err(Fault::MemoryOutOfBounds);
                }
                self.i_fx65(x)
            },
        };

        match jump {
            None => self.pc = self.pc + 2,
            Some(Pc::Wait) => (),
            Some(Pc::Advance(k)) => self.pc = self.pc + 2 * k,
            Some(Pc::Jump(nnn)) => self.pc = nnn,
        }
        Ok(())
    }

    /// One cycle: lower the display-changed flag, fetch the opcode at the
    /// program counter, decode it and execute it, exactly as [`step_rel`]
    /// states. An out-of-memory fetch, an unrecognized opcode, a stack
    /// overflow or underflow, or an out-of-memory indexed access is
    /// returned as the fatal fault it is, with the machine left otherwise
    /// unchanged.
    pub fn tick(&mut self, pressed_keys: Vec<Key>) -> (r: Result<(), Fault>)
        requires
            old(self).wf(),
        ensures
            final(self).wf(),
            step_rel(*old(self), pressed_keys@, *final(self), r),
    {
        self.vram_changed = false;
        assert(*self =~= with_flag_cleared(*old(self)));
        if self.pc > 4094 {
            return Err(Fault::FetchOutOfBounds { pc: self.pc });
        }
        let b0 = self.ram[self.pc as usize];
        let b1 = self.ram[self.pc as usize + 1];
        let opcode = Opcode::new(b0, b1);
        match Instruction::decode(opcode) {
            None => Err(Fault::UnknownOpcode { pc: self.pc, b0, b1 }),
            Some(instruction) => self.run_instruction(&instruction, pressed_keys),
        }
    }
}

/// Relies on `rand::random::<u8>()` for a fresh uniform random byte; no
/// property of the value is assumed.
#[verifier::external_body]
fn random_byte() -> u8 {
    rand::random()
}

} // verus!
