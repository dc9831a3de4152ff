use vstd::prelude::*;
use crate::instruction::{decode_spec, Instruction};
use crate::machine::{
    first_held, flag_of, sprite_col, sprite_collides, sprite_pixel, step, tick, wrap_addr,
    CpuState, FLAG, KEY_COUNT, REGISTER_COUNT, SCREEN_SIZE, SCREEN_WIDTH, STACK_DEPTH,
};
use crate::system::cycle_outcome;

verus! {

/// After `6XNN`, register X reads back NN, and only register X and the
/// program counter changed.
pub proof fn law_load_immediate_reads_back(
    s: CpuState,
    x: usize,
    nn: u8,
    keys: Seq<bool>,
    key_down: bool,
    rnd: u8,
)
    requires
        s.wf(),
        s.can_fetch(),
        x < REGISTER_COUNT,
    ensures
        step(s, Instruction::LoadImm { x, nn }, keys, key_down, rnd) matches Ok(t) && t.v[x as int]
            == nn && t.pc == s.pc + 2 && forall|j: int|
            0 <= j < REGISTER_COUNT && j != x ==> #[trigger] t.v[j] == s.v[j],
{
    let t = step(s, Instruction::LoadImm { x, nn }, keys, key_down, rnd)->Ok_0;
    assert(t.v == s.v.update(x as int, nn));
}

/// `7XNN` adds modulo 256 and never touches VF (for X other than F).
pub proof fn law_add_immediate_wraps(
    s: CpuState,
    x: usize,
    nn: u8,
    keys: Seq<bool>,
    key_down: bool,
    rnd: u8,
)
    requires
        s.wf(),
        x < REGISTER_COUNT,
        x != FLAG,
    ensures
        step(s, Instruction::AddImm { x, nn }, keys, key_down, rnd) matches Ok(t) && t.v[x as int]
            == (s.v[x as int] + nn) % 256 && t.v[FLAG as int] == s.v[FLAG as int],
{
}

/// `8XY4`: VF is the carry out of the 8-bit sum and X holds the sum modulo 256
/// (for X other than F).
pub proof fn law_add_carry(
    s: CpuState,
    x: usize,
    y: usize,
    keys: Seq<bool>,
    key_down: bool,
    rnd: u8,
)
    requires
        s.wf(),
        x < REGISTER_COUNT,
        y < REGISTER_COUNT,
        x != FLAG,
    ensures
        step(s, Instruction::AddReg { x, y }, keys, key_down, rnd) matches Ok(t) && t.v[FLAG as int]
            == flag_of(s.v[x as int] + s.v[y as int] > 255) && t.v[x as int] == (s.v[x as int]
            + s.v[y as int]) % 256,
{
}

/// `8XY5`: VF is 1 when X is strictly greater than Y (no borrow) and X holds
/// the difference modulo 256 (for X and Y other than F).
pub proof fn law_sub_borrow(
    s: CpuState,
    x: usize,
    y: usize,
    keys: Seq<bool>,
    key_down: bool,
    rnd: u8,
)
    requires
        s.wf(),
        x < REGISTER_COUNT,
        y < REGISTER_COUNT,
        x != FLAG,
        y != FLAG,
    ensures
        step(s, Instruction::SubReg { x, y }, keys, key_down, rnd) matches Ok(t) && t.v[FLAG as int]
            == flag_of(s.v[x as int] > s.v[y as int]) && t.v[x as int] == (s.v[x as int]
            - s.v[y as int]) % 256,
{
}

proof fn lemma_xor_twice(a: u8, b: u8)
    ensures
        (a ^ b) ^ b == a,
        b == 1 ==> ((a ^ b) == 1 <==> a == 0),
{
    assert((a ^ b) ^ b == a) by (bit_vector);
    assert(b == 1 ==> ((a ^ b) == 1 <==> a == 0)) by (bit_vector);
}

/// Drawing the same sprite twice at the same place restores the framebuffer,
/// and the second draw reports a collision exactly when the first left one of
/// the sprite's pixels lit (for X and Y other than F, which the first draw
/// would change).
pub proof fn law_draw_twice_restores(
    s: CpuState,
    x: usize,
    y: usize,
    n: usize,
    keys: Seq<bool>,
    key_down: bool,
    rnd: u8,
)
    requires
        s.wf(),
        x < REGISTER_COUNT,
        y < REGISTER_COUNT,
        n < 16,
        x != FLAG,
        y != FLAG,
    ensures
        ({
            let ins = Instruction::Draw { x, y, n };
            step(s, ins, keys, key_down, rnd) matches Ok(t) && (step(t, ins, keys, key_down, rnd)
                matches Ok(u) && u.gfx == s.gfx && (u.v[FLAG as int] == 0 <==> forall|k: int|
                0 <= k < SCREEN_SIZE && #[trigger] sprite_pixel(
                    s.memory,
                    s.i,
                    s.v[x as int],
                    s.v[y as int],
                    n as int,
                    k,
                ) == 1 ==> t.gfx[k] == 0))
        }),
{
    let ins = Instruction::Draw { x, y, n };
    let vx = s.v[x as int];
    let vy = s.v[y as int];
    let t = step(s, ins, keys, key_down, rnd)->Ok_0;
    let u = step(t, ins, keys, key_down, rnd)->Ok_0;
    assert(t.v[x as int] == vx && t.v[y as int] == vy);
    assert forall|k: int| 0 <= k < SCREEN_SIZE implies #[trigger] u.gfx[k] == s.gfx[k] by {
        lemma_xor_twice(s.gfx[k], sprite_pixel(s.memory, s.i, vx, vy, n as int, k));
    }
    assert(u.gfx =~= s.gfx);
    assert forall|k: int|
        0 <= k < SCREEN_SIZE && #[trigger] sprite_pixel(s.memory, s.i, vx, vy, n as int, k)
            == 1 implies (t.gfx[k] == 1 <==> t.gfx[k] != 0) by {
        lemma_xor_twice(s.gfx[k], 1);
        assert(s.gfx[k] <= 1);
        assert(s.gfx[k] == 0 || s.gfx[k] == 1);
        assert(0u8 ^ 1u8 == 1u8 && 1u8 ^ 1u8 == 0u8) by (bit_vector);
    }
    assert(sprite_collides(t, vx, vy, n as int) <==> !(forall|k: int|
        0 <= k < SCREEN_SIZE && #[trigger] sprite_pixel(s.memory, s.i, vx, vy, n as int, k) == 1
            ==> t.gfx[k] == 0));
}

/// A sprite drawn with its left edge at column 63 covers columns 63 and 0 to 6:
/// it wraps around instead of being cut off. With a full row of sprite bits
/// each of those pixels of the top row flips and no other does.
pub proof fn law_draw_wraps_columns(
    s: CpuState,
    x: usize,
    y: usize,
    n: usize,
    keys: Seq<bool>,
    key_down: bool,
    rnd: u8,
)
    requires
        s.wf(),
        x < REGISTER_COUNT,
        y < REGISTER_COUNT,
        1 <= n < 16,
        s.v[x as int] == 63,
        s.v[y as int] == 0,
    ensures
        forall|c: int|
            0 <= c < SCREEN_WIDTH ==> (#[trigger] sprite_col(63, c) < 8 <==> (c == 63 || c <= 6)),
        s.memory[wrap_addr(s.i as int)] == 0xFF ==> (step(
            s,
            Instruction::Draw { x, y, n },
            keys,
            key_down,
            rnd,
        ) matches Ok(t) && forall|c: int|
            0 <= c < SCREEN_WIDTH ==> #[trigger] t.gfx[c] == s.gfx[c] ^ (if c == 63 || c <= 6 {
                1u8
            } else {
                0u8
            })),
{
    if s.memory[wrap_addr(s.i as int)] == 0xFF {
        let t = step(s, Instruction::Draw { x, y, n }, keys, key_down, rnd)->Ok_0;
        assert forall|c: int| 0 <= c < SCREEN_WIDTH implies #[trigger] t.gfx[c] == s.gfx[c] ^ (
        if c == 63 || c <= 6 {
            1u8
        } else {
            0u8
        }) by {
            let bit = sprite_col(63, c);
            if bit < 8 {
                let sh = (7 - bit) as u8;
                assert(sh < 8 ==> (0xFFu8 >> sh) & 1u8 == 1u8) by (bit_vector);
            }
        }
    }
}

/// `2NNN` then `00EE` comes back to the instruction after the call, with the
/// stack pointer as it was.
pub proof fn law_call_then_return(
    s: CpuState,
    addr: u16,
    keys: Seq<bool>,
    key_down: bool,
    rnd: u8,
)
    requires
        s.wf(),
        s.can_fetch(),
        s.sp < STACK_DEPTH,
    ensures
        step(s, Instruction::Call { addr }, keys, key_down, rnd) matches Ok(t) && t.pc == addr && (
        step(t, Instruction::Return, keys, key_down, rnd) matches Ok(u) && u.pc == s.pc + 2 && u.sp
            == s.sp),
{
}

/// Without a key event a cycle on `FX0A` succeeds and only ticks the timers:
/// the program counter, and so the next fetch, stay where they were, and the
/// wait goes on cycle after cycle.
pub proof fn law_wait_key_blocks(
    s: CpuState,
    keys: Seq<bool>,
    rnd: u8,
    r: Result<bool, crate::machine::EngineError>,
    after: CpuState,
)
    requires
        s.wf(),
        s.can_fetch(),
        decode_spec(s.fetch()) matches Some(Instruction::WaitKey { .. }),
        cycle_outcome(s, keys, false, rnd, r, after),
    ensures
        r is Ok,
        after == tick(s),
        after.wf(),
        after.pc == s.pc,
        after.memory == s.memory,
        after.fetch() == s.fetch(),
{
}

proof fn lemma_first_held(keys: Seq<bool>, j: nat, k: nat)
    requires
        j <= k < keys.len(),
        keys[k as int],
        forall|m: int| 0 <= m < k ==> !#[trigger] keys[m],
    ensures
        first_held(keys, j) == Some(k),
    decreases k - j,
{
    if j < k {
        lemma_first_held(keys, j + 1, k);
    }
}

/// Once a key event came and key `k` is the lowest one held, `FX0A` puts `k`
/// in register X and moves on.
pub proof fn law_wait_key_resumes(
    s: CpuState,
    x: usize,
    keys: Seq<bool>,
    k: nat,
    rnd: u8,
)
    requires
        s.wf(),
        s.can_fetch(),
        x < REGISTER_COUNT,
        keys.len() == KEY_COUNT,
        k < KEY_COUNT,
        keys[k as int],
        forall|m: int| 0 <= m < k ==> !#[trigger] keys[m],
    ensures
        step(s, Instruction::WaitKey { x }, keys, true, rnd) matches Ok(t) && t.v[x as int] == k
            && t.pc == s.pc + 2,
{
    lemma_first_held(keys, 0, k);
}

/// The state after `n` timer ticks.
pub open spec fn ticks(s: CpuState, n: nat) -> CpuState
    decreases n,
{
    if n == 0 {
        s
    } else {
        tick(ticks(s, (n - 1) as nat))
    }
}

/// After any number of ticks each timer stands at its start value less the
/// ticks, but never below zero.
pub proof fn law_timers_stop_at_zero(s: CpuState, n: nat)
    ensures
        ticks(s, n).delay_timer == if s.delay_timer >= n {
            s.delay_timer - n
        } else {
            0
        },
        ticks(s, n).sound_timer == if s.sound_timer >= n {
            s.sound_timer - n
        } else {
            0
        },
    decreases n,
{
    if n > 0 {
        law_timers_stop_at_zero(s, (n - 1) as nat);
    }
}

} // verus!
