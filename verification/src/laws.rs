//! Laws of the instruction set, stated and proved over the machine model.

use vstd::prelude::*;

use crate::cpu::{
    add_regs_result, colliding_pixel, draw_post, keeps_i, keeps_mem, keeps_stack, keeps_timers,
    sprite_collides, sprite_pixel, step_rel, sub_regs_result, unchanged_all, with_flag_cleared,
    Cpu, Fault,
};
use crate::instructions::{spec_decode, Instruction};
use crate::keyboard::{first_non_exit, Key};

verus! {

/// The register-to-register OR, AND and XOR instructions are plain bitwise
/// operators (their contracts store exactly `v[x] | v[y]`, `v[x] & v[y]`
/// and `v[x] ^ v[y]`), so the bitwise algebra holds of them; in particular
/// AND commutes over the OR/XOR combinations of two operands.
pub proof fn lemma_bitwise_algebra(a: u8, b: u8)
    ensures
        (a | b) & (a ^ b) == (a ^ b) & (a | b),
{
    assert((a | b) & (a ^ b) == (a ^ b) & (a | b)) by (bit_vector);
}

/// Add-with-carry: for every pair of operand registers other than the
/// flag register itself (which the instruction overwrites), the flag
/// becomes 1 exactly when the unsigned sum exceeds 255, and the stored
/// result is the sum modulo 256.
pub proof fn lemma_add_with_carry(pre: Cpu, post: Cpu, x: u8, y: u8)
    requires
        x < 15,
        y < 15,
        post.v@ == add_regs_result(pre.v@, x as int, y as int),
    ensures
        post.v[x as int] == (pre.v[x as int] + pre.v[y as int]) % 256,
        post.v[15] == (if pre.v[x as int] + pre.v[y as int] > 255 {
            1u8
        } else {
            0u8
        }),
{
}

/// Subtract: for every pair of operand registers other than the flag
/// register itself, the flag becomes 1 exactly when the minuend strictly
/// exceeds the subtrahend (the no-borrow convention), and the stored
/// result is the difference modulo 256.
pub proof fn lemma_subtract_flag(pre: Cpu, post: Cpu, x: u8, y: u8)
    requires
        x < 15,
        y < 15,
        post.v@ == sub_regs_result(pre.v@, x as int, y as int),
    ensures
        post.v[x as int] == (pre.v[x as int] - pre.v[y as int]) % 256,
        post.v[15] == 1u8 <==> pre.v[x as int] > pre.v[y as int],
        post.v[15] == 1u8 || post.v[15] == 0u8,
{
}

/// Pixel (px, py) is freshly lit by drawing the sprite on `pre`: it is
/// dark and the sprite lands a set bit on it.
pub open spec fn freshly_lit(pre: Cpu, vx: int, vy: int, n: int, px: int, py: int) -> bool {
    0 <= px < 64 && 0 <= py < 32 && !pre.vram[px][py] && sprite_pixel(
        pre.ram,
        pre.i as int,
        vx,
        vy,
        n,
        0,
        px,
        py,
    )
}

/// The first draw lights some dark pixel.
pub open spec fn draw_lights_any(pre: Cpu, vx: int, vy: int, n: int) -> bool {
    exists|px: int, py: int| freshly_lit(pre, vx, vy, n, px, py)
}

/// Drawing the identical sprite at the identical position twice restores
/// the pre-draw pixel state exactly (XOR is self-inverse), and the
/// collision flag of the second draw reports exactly whether the first
/// draw lit any pixel that was dark. The coordinate registers must not be
/// the flag register, which the first draw overwrites.
pub proof fn lemma_draw_twice(pre: Cpu, mid: Cpu, post: Cpu, x: u8, y: u8, n: u8)
    requires
        x < 15,
        y < 15,
        n < 16,
        draw_post(pre, mid, x as int, y as int, n as int),
        draw_post(mid, post, x as int, y as int, n as int),
    ensures
        forall|px: int, py: int|
            0 <= px < 64 && 0 <= py < 32 ==> #[trigger] post.vram[px][py] == pre.vram[px][py],
        post.vram == pre.vram,
        post.v@ == pre.v@.update(
            15,
            if draw_lights_any(
                pre,
                pre.v[x as int] as int % 64,
                pre.v[y as int] as int % 32,
                n as int,
            ) {
                1u8
            } else {
                0u8
            },
        ),
{
    let vx = pre.v[x as int] as int % 64;
    let vy = pre.v[y as int] as int % 32;
    let ni = n as int;

    // the second draw sees the same sprite from the same origin: memory,
    // the index register and the coordinate registers are untouched
    assert(mid.v[x as int] == pre.v[x as int] && mid.v[y as int] == pre.v[y as int]);
    assert(mid.ram == pre.ram && mid.i == pre.i);

    // every pixel is XOR-ed twice with the same bit
    assert forall|px: int, py: int|
        0 <= px < 64 && 0 <= py < 32 implies #[trigger] post.vram[px][py]
        == pre.vram[px][py] by {
        assert(mid.vram[px][py] == (pre.vram[px][py] != sprite_pixel(
            pre.ram,
            pre.i as int,
            vx,
            vy,
            ni,
            0,
            px,
            py,
        )));
    }
    assert forall|c: int| 0 <= c < 64 implies #[trigger] post.vram[c] == pre.vram[c] by {
        assert forall|py: int| 0 <= py < 32 implies post.vram[c][py] == pre.vram[c][py] by {}
        assert(post.vram[c] =~= pre.vram[c]);
    }
    assert(post.vram =~= pre.vram);

    // the second draw's colliding pixels are exactly those the first draw
    // freshly lit
    assert forall|px: int, py: int|
        colliding_pixel(mid, vx, vy, ni, 0, px, py) == freshly_lit(
            pre,
            vx,
            vy,
            ni,
            px,
            py,
        ) by {
        if 0 <= px < 64 && 0 <= py < 32 {
            assert(mid.vram[px][py] == (pre.vram[px][py] != sprite_pixel(
                pre.ram,
                pre.i as int,
                vx,
                vy,
                ni,
                0,
                px,
                py,
            )));
        }
    }
    assert(sprite_collides(mid, vx, vy, ni, 0) == draw_lights_any(pre, vx, vy, ni)) by {
        if sprite_collides(mid, vx, vy, ni, 0) {
            let (px, py) = choose|px: int, py: int| colliding_pixel(mid, vx, vy, ni, 0, px, py);
            assert(freshly_lit(pre, vx, vy, ni, px, py));
            assert(draw_lights_any(pre, vx, vy, ni));
        }
        if draw_lights_any(pre, vx, vy, ni) {
            let (px, py) = choose|px: int, py: int| freshly_lit(pre, vx, vy, ni, px, py);
            assert(colliding_pixel(mid, vx, vy, ni, 0, px, py));
            assert(sprite_collides(mid, vx, vy, ni, 0));
        }
    }

    // the two flag writes collapse into the second one
    assert(post.v@ =~= pre.v@.update(
        15,
        if draw_lights_any(pre, vx, vy, ni) {
            1u8
        } else {
            0u8
        },
    ));
}

/// Blocking key-wait: when the fetched instruction is the key wait and no
/// keypad key is pressed (the exit signal does not count), a tick leaves
/// the machine unchanged but for the lowered display flag — the program
/// counter in particular — so key-less ticks repeat in place forever. The
/// first tick that sees a keypad key stores that key's code in the target
/// register and advances the program counter by 2.
pub proof fn lemma_key_wait(pre: Cpu, keys: Seq<Key>, post: Cpu, r: Result<(), Fault>, x: u8)
    requires
        step_rel(pre, keys, post, r),
        pre.pc <= 4094,
        spec_decode(pre.ram[pre.pc as int], pre.ram[pre.pc as int + 1]) == Some(
            Instruction::Keyd { x },
        ),
    ensures
        r is Ok,
        first_non_exit(keys) is None ==> unchanged_all(with_flag_cleared(pre), post),
        first_non_exit(keys) is None ==> post.pc == pre.pc,
        first_non_exit(keys) matches Some(k) ==> post.pc == pre.pc + 2 && post.v@
            == pre.v@.update(x as int, k.spec_code()) && keeps_mem(pre, post) && keeps_stack(
            pre,
            post,
        ) && keeps_i(pre, post) && keeps_timers(pre, post),
{
}

} // verus!
