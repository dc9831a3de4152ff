use vstd::prelude::*;
use rand::Rng;
use crate::instruction::{decode, decode_spec, Instruction};
use crate::machine::{
    bcd_memory, blank_state, draw, drawn_screen, first_held, font_glyphs, loaded_memory,
    loaded_regs, sprite_col, sprite_collides, sprite_pixel, sprite_row, step, stored_regs, tick,
    wrap_addr, CpuState, EngineError, FLAG, KEY_COUNT, MAX_PROGRAM_LEN, MEMORY_SIZE,
    PROGRAM_START, REGISTER_COUNT, SCREEN_HEIGHT, SCREEN_SIZE, SCREEN_WIDTH, STACK_DEPTH,
};

verus! {

/// The machine: memory, registers, stack, timers and framebuffer, owned by the
/// cycle loop and changed one instruction at a time.
pub struct System {
    memory: Vec<u8>,
    v: Vec<u8>,
    i: u16,
    pc: u16,
    stack: Vec<u16>,
    sp: usize,
    delay_timer: u8,
    sound_timer: u8,
    gfx: Vec<u8>,
    /// Set when the framebuffer changed; the renderer clears it with `falsify_df`.
    pub draw_flag: bool,
}

impl View for System {
    type V = CpuState;

    closed spec fn view(&self) -> CpuState {
        CpuState {
            memory: self.memory@,
            v: self.v@,
            i: self.i,
            pc: self.pc,
            stack: self.stack@,
            sp: self.sp as nat,
            delay_timer: self.delay_timer,
            sound_timer: self.sound_timer,
            gfx: self.gfx@,
            draw_flag: self.draw_flag,
        }
    }
}

/// What one cycle does: fetch at the program counter, decode, execute with the
/// random byte `rnd`, then tick the timers. On success the result tells whether
/// the tone should sound, which is whether the sound timer was running when it
/// ticked. On an error the state is left as it was.
pub open spec fn cycle_outcome(
    s: CpuState,
    keys: Seq<bool>,
    key_down: bool,
    rnd: u8,
    r: Result<bool, EngineError>,
    after: CpuState,
) -> bool {
    match decode_spec(s.fetch()) {
        None => r == Err::<bool, EngineError>(EngineError::UnrecognizedOpcode(s.fetch()))
            && after == s,
        Some(ins) => match step(s, ins, keys, key_down, rnd) {
            Ok(t) => r == Ok::<bool, EngineError>(t.sound_timer > 0) && after == tick(t),
            Err(e) => r == Err::<bool, EngineError>(e) && after == s,
        },
    }
}

/// What executing one instruction word does, without fetch or timers.
pub open spec fn execute_outcome(
    s: CpuState,
    opcode: u16,
    keys: Seq<bool>,
    key_down: bool,
    rnd: u8,
    r: Result<(), EngineError>,
    after: CpuState,
) -> bool {
    match decode_spec(opcode) {
        None => r == Err::<(), EngineError>(EngineError::UnrecognizedOpcode(opcode)) && after == s,
        Some(ins) => match step(s, ins, keys, key_down, rnd) {
            Ok(t) => r == Ok::<(), EngineError>(()) && after == t,
            Err(e) => r == Err::<(), EngineError>(e) && after == s,
        },
    }
}

/// Pixel `k` has already been visited when the draw loop stands at sprite row
/// `row`, bit `bit`.
spec fn visited(vx: u8, vy: u8, row: int, bit: int, k: int) -> bool {
    let r = sprite_row(vy, k / SCREEN_WIDTH as int);
    r < row || (r == row && sprite_col(vx, k % SCREEN_WIDTH as int) < bit)
}

/// The handler that executes an instruction: 0 control flow, 1 loads and
/// bitwise logic, 2 arithmetic with a flag, 3 the rest.
spec fn instruction_group(ins: Instruction) -> int {
    match ins {
        Instruction::ClearScreen
        | Instruction::Return
        | Instruction::Jump { .. }
        | Instruction::Call { .. }
        | Instruction::SkipIfEqualImm { .. }
        | Instruction::SkipIfNotEqualImm { .. }
        | Instruction::SkipIfEqualReg { .. }
        | Instruction::SkipIfNotEqualReg { .. }
        | Instruction::JumpOffset { .. } => 0,
        Instruction::LoadImm { .. }
        | Instruction::AddImm { .. }
        | Instruction::Move { .. }
        | Instruction::Or { .. }
        | Instruction::And { .. }
        | Instruction::Xor { .. }
        | Instruction::Random { .. } => 1,
        Instruction::AddReg { .. }
        | Instruction::SubReg { .. }
        | Instruction::ShiftRight { .. }
        | Instruction::SubReverse { .. }
        | Instruction::ShiftLeft { .. } => 2,
        _ => 3,
    }
}

/// XOR keeps pixels 0 or 1.
proof fn lemma_xor_of_bits(a: u8, b: u8)
    requires
        a <= 1,
        b <= 1,
    ensures
        a ^ b <= 1,
{
    assert(a <= 1 && b <= 1 ==> a ^ b <= 1) by (bit_vector);
}

/// A sprite bit is 0 or 1.
proof fn lemma_low_bit(a: u8, sh: u8)
    ensures
        (a >> sh) & 1 <= 1,
{
    assert((a >> sh) & 1 <= 1) by (bit_vector);
}

/// XOR with zero leaves a byte as it is.
proof fn lemma_xor_zero()
    ensures
        forall|a: u8| #[trigger] (a ^ 0u8) == a,
{
    assert forall|a: u8| #[trigger] (a ^ 0u8) == a by {
        assert(a ^ 0u8 == a) by (bit_vector);
    }
}

/// Sprite row `row`, bit `bit` lands on exactly one pixel, and it is the one
/// that the draw loop computes.
proof fn lemma_sprite_target(vx: u8, vy: u8, row: int, bit: int)
    requires
        0 <= row < 16,
        0 <= bit < 8,
    ensures
        ({
            let py = (vy + row) % 32;
            let px = (vx + bit) % 64;
            let idx = py * 64 + px;
            &&& 0 <= idx < 2048
            &&& idx / 64 == py
            &&& idx % 64 == px
            &&& sprite_row(vy, idx / 64) == row
            &&& sprite_col(vx, idx % 64) == bit
            &&& forall|k: int|
                #![trigger sprite_row(vy, k / 64), sprite_col(vx, k % 64)]
                0 <= k < 2048 && sprite_row(vy, k / 64) == row && sprite_col(vx, k % 64) == bit
                    ==> k == idx
        }),
{
    let py = (vy + row) % 32;
    let px = (vx + bit) % 64;
    let idx = py * 64 + px;
    assert(idx / 64 == py && idx % 64 == px);
    assert forall|k: int|
        #![trigger sprite_row(vy, k / 64), sprite_col(vx, k % 64)]
        0 <= k < 2048 && sprite_row(vy, k / 64) == row && sprite_col(vx, k % 64) == bit implies k
            == idx by {
        assert(k / 64 == py);
        assert(k % 64 == px);
    }
}

/// Address `wrap_addr(i + k)` is the one whose offset from `i` is `k`.
proof fn lemma_wrap_offset(i: int, k: int)
    requires
        0 <= i,
        0 <= k < 4096,
    ensures
        wrap_addr(wrap_addr(i + k) - i) == k,
        forall|a: int| 0 <= a < 4096 && #[trigger] wrap_addr(a - i) == k ==> a == wrap_addr(i + k),
{
}

/// Relies on rand's `thread_rng().gen::<u8>()`: a byte from the thread-local
/// generator. Nothing is known of its value.
#[verifier::external_body]
fn random_byte() -> (r: u8) {
    rand::thread_rng().gen::<u8>()
}

fn font_table() -> (r: [u8; 80])
    ensures
        r@ == font_glyphs(),
{
    let r: [u8; 80] = [
        0xF0, 0x90, 0x90, 0x90, 0xF0, 0x20, 0x60, 0x20, 0x20, 0x70,
        0xF0, 0x10, 0xF0, 0x80, 0xF0, 0xF0, 0x10, 0xF0, 0x10, 0xF0,
        0x90, 0x90, 0xF0, 0x10, 0x10, 0xF0, 0x80, 0xF0, 0x10, 0xF0,
        0xF0, 0x80, 0xF0, 0x90, 0xF0, 0xF0, 0x10, 0x20, 0x40, 0x40,
        0xF0, 0x90, 0xF0, 0x90, 0xF0, 0xF0, 0x90, 0xF0, 0x10, 0xF0,
        0xF0, 0x90, 0xF0, 0x90, 0x90, 0xE0, 0x90, 0xE0, 0x90, 0xE0,
        0xF0, 0x80, 0x80, 0x80, 0xF0, 0xE0, 0x90, 0x90, 0x90, 0xE0,
        0xF0, 0x80, 0xF0, 0x80, 0xF0, 0xF0, 0x80, 0xF0, 0x80, 0x80,
    ];
    assert(r@ =~= font_glyphs());
    r
}

impl System {
    /// Sizes fixed, stack pointer in range, pixels 0 or 1.
    pub closed spec fn wf(&self) -> bool {
        self@.wf()
    }

    /// A blank machine: zeroed memory, registers, stack, timers and screen,
    /// with the program counter at `PROGRAM_START`.
    pub fn new() -> (r: System)
        ensures
            r.wf(),
            r@ == blank_state(),
    {
        let r = System {
            memory: vec![0u8; MEMORY_SIZE],
            v: vec![0u8; REGISTER_COUNT],
            i: 0,
            pc: PROGRAM_START,
            stack: vec![0u16; STACK_DEPTH],
            sp: 0,
            delay_timer: 0,
            sound_timer: 0,
            gfx: vec![0u8; SCREEN_SIZE],
            draw_flag: false,
        };
        assert(r@.memory =~= blank_state().memory);
        assert(r@.v =~= blank_state().v);
        assert(r@.stack =~= blank_state().stack);
        assert(r@.gfx =~= blank_state().gfx);
        r
    }

    /// Loads the font at address 0 and the program image at `PROGRAM_START`.
    /// Nothing else changes.
    pub fn init(&mut self, buffer: Vec<u8>)
        requires
            old(self).wf(),
            buffer@.len() <= MAX_PROGRAM_LEN,
        ensures
            final(self).wf(),
            final(self)@ == (CpuState {
                memory: loaded_memory(old(self)@.memory, buffer@),
                ..old(self)@
            }),
    {
        let ghost s0 = self@;
        let font = font_table();
        let mut k: usize = 0;
        while k < 80
            invariant
                self.wf(),
                k <= 80,
                font@ == font_glyphs(),
                self@ == (CpuState { memory: self@.memory, ..s0 }),
                self@.memory == Seq::new(
                    MEMORY_SIZE as nat,
                    |a: int| if a < k { font_glyphs()[a] } else { s0.memory[a] },
                ),
            decreases 80 - k,
        {
            self.memory[k] = font[k];
            k += 1;
            assert(self@.memory =~= Seq::new(
                MEMORY_SIZE as nat,
                |a: int| if a < k { font_glyphs()[a] } else { s0.memory[a] },
            ));
        }
        let mut j: usize = 0;
        while j < buffer.len()
            invariant
                self.wf(),
                j <= buffer@.len() <= MAX_PROGRAM_LEN,
                self@ == (CpuState { memory: self@.memory, ..s0 }),
                self@.memory == Seq::new(
                    MEMORY_SIZE as nat,
                    |a: int|
                        if a < 80 {
                            font_glyphs()[a]
                        } else if PROGRAM_START <= a < PROGRAM_START + j {
                            buffer@[a - PROGRAM_START]
                        } else {
                            s0.memory[a]
                        },
                ),
            decreases buffer@.len() - j,
        {
            self.memory[PROGRAM_START as usize + j] = buffer[j];
            j += 1;
            assert(self@.memory =~= Seq::new(
                MEMORY_SIZE as nat,
                |a: int|
                    if a < 80 {
                        font_glyphs()[a]
                    } else if PROGRAM_START <= a < PROGRAM_START + j {
                        buffer@[a - PROGRAM_START]
                    } else {
                        s0.memory[a]
                    },
            ));
        }
        assert(self@.memory =~= loaded_memory(s0.memory, buffer@));
    }

    /// Acknowledges a render: clears the draw flag.
    pub fn falsify_df(&mut self)
        ensures
            final(self)@ == (CpuState { draw_flag: false, ..old(self)@ }),
            old(self).wf() ==> final(self).wf(),
    {
        self.draw_flag = false;
    }

    /// `DXYN` with the coordinates already read: XOR-draws `n` sprite rows from
    /// memory at `i` and sets VF when a lit pixel is met.
    fn draw_sprite(&mut self, vx: u8, vy: u8, n: usize)
        requires
            old(self).wf(),
            n < 16,
        ensures
            final(self).wf(),
            final(self)@ == draw(old(self)@, vx, vy, n as int),
    {
        let ghost s0 = self@;
        proof {
            lemma_xor_zero();
        }
        let mut collided = false;
        let mut row: usize = 0;
        while row < n
            invariant
                self.wf(),
                n < 16,
                row <= n,
                self@ == (CpuState { gfx: self@.gfx, ..s0 }),
                forall|k: int|
                    0 <= k < SCREEN_SIZE ==> #[trigger] self@.gfx[k] == s0.gfx[k] ^ (if visited(
                        vx,
                        vy,
                        row as int,
                        0,
                        k,
                    ) {
                        sprite_pixel(s0.memory, s0.i, vx, vy, n as int, k)
                    } else {
                        0u8
                    }),
                collided == exists|k: int|
                    0 <= k < SCREEN_SIZE && visited(vx, vy, row as int, 0, k)
                        && #[trigger] sprite_pixel(s0.memory, s0.i, vx, vy, n as int, k) == 1
                        && s0.gfx[k] == 1,
            decreases n - row,
        {
            let py: usize = (vy as usize + row) % SCREEN_HEIGHT;
            let byte: u8 = self.memory[(self.i as usize + row) % MEMORY_SIZE];
            let mut bit: usize = 0;
            while bit < 8
                invariant
                    self.wf(),
                    n < 16,
                    row < n,
                    bit <= 8,
                    py == (vy + row) % 32,
                    byte == s0.memory[wrap_addr(s0.i + row)],
                    self@ == (CpuState { gfx: self@.gfx, ..s0 }),
                    forall|k: int|
                        0 <= k < SCREEN_SIZE ==> #[trigger] self@.gfx[k] == s0.gfx[k] ^ (if visited(
                            vx,
                            vy,
                            row as int,
                            bit as int,
                            k,
                        ) {
                            sprite_pixel(s0.memory, s0.i, vx, vy, n as int, k)
                        } else {
                            0u8
                        }),
                    collided == exists|k: int|
                        0 <= k < SCREEN_SIZE && visited(vx, vy, row as int, bit as int, k)
                            && #[trigger] sprite_pixel(s0.memory, s0.i, vx, vy, n as int, k) == 1
                            && s0.gfx[k] == 1,
                decreases 8 - bit,
            {
                let px: usize = (vx as usize + bit) % SCREEN_WIDTH;
                let idx: usize = py * SCREEN_WIDTH + px;
                let b: u8 = (byte >> ((7 - bit) as u8)) & 1;
                let ghost before = self@.gfx;
                let ghost was_collided = collided;
                proof {
                    lemma_sprite_target(vx, vy, row as int, bit as int);
                    lemma_low_bit(byte, (7 - bit) as u8);
                    lemma_xor_zero();
                    assert(sprite_pixel(s0.memory, s0.i, vx, vy, n as int, idx as int) == b);
                }
                let old_px = self.gfx[idx];
                if b == 1 && old_px == 1 {
                    collided = true;
                }
                proof {
                    lemma_xor_of_bits(old_px, b);
                }
                self.gfx[idx] = old_px ^ b;
                bit += 1;
                proof {
                    assert forall|k: int| 0 <= k < SCREEN_SIZE implies #[trigger] self@.gfx[k]
                        <= 1 by {
                        if k != idx {
                            assert(before[k] <= 1);
                        }
                    }
                    assert forall|k: int| 0 <= k < SCREEN_SIZE implies #[trigger] self@.gfx[k]
                        == s0.gfx[k] ^ (if visited(vx, vy, row as int, bit as int, k) {
                        sprite_pixel(s0.memory, s0.i, vx, vy, n as int, k)
                    } else {
                        0u8
                    }) by {
                        if k != idx {
                            assert(before[k] == self@.gfx[k]);
                        }
                    }
                    if collided {
                        if !was_collided {
                            assert(visited(vx, vy, row as int, bit as int, idx as int));
                            assert(sprite_pixel(s0.memory, s0.i, vx, vy, n as int, idx as int)
                                == 1);
                        }
                    } else {
                        assert forall|k: int|
                            0 <= k < SCREEN_SIZE && visited(vx, vy, row as int, bit as int, k)
                                && s0.gfx[k] == 1 implies #[trigger] sprite_pixel(
                            s0.memory,
                            s0.i,
                            vx,
                            vy,
                            n as int,
                            k,
                        ) != 1 by {
                            if k != idx {
                                assert(visited(vx, vy, row as int, (bit - 1) as int, k));
                            }
                        }
                    }
                }
            }
            row += 1;
            proof {
                lemma_xor_zero();
                assert forall|k: int| 0 <= k < SCREEN_SIZE implies #[trigger] self@.gfx[k]
                    == s0.gfx[k] ^ (if visited(vx, vy, row as int, 0, k) {
                    sprite_pixel(s0.memory, s0.i, vx, vy, n as int, k)
                } else {
                    0u8
                }) by {}
            }
        }
        self.v[FLAG] = if collided {
            1
        } else {
            0
        };
        self.draw_flag = true;
        proof {
            assert forall|k: int| 0 <= k < SCREEN_SIZE implies #[trigger] self@.gfx[k]
                == drawn_screen(s0, vx, vy, n as int)[k] by {}
            assert(self@.gfx =~= drawn_screen(s0, vx, vy, n as int));
            assert(collided == sprite_collides(s0, vx, vy, n as int));
        }
    }

    /// `FX33`: the decimal digits of `val` at `i`, `i + 1`, `i + 2`.
    fn store_bcd(&mut self, val: u8)
        requires
            old(self).wf(),
        ensures
            final(self).wf(),
            final(self)@ == (CpuState {
                memory: bcd_memory(old(self)@.memory, old(self)@.i, val),
                ..old(self)@
            }),
    {
        let base: usize = self.i as usize;
        self.memory[base % MEMORY_SIZE] = val / 100;
        self.memory[(base + 1) % MEMORY_SIZE] = (val / 10) % 10;
        self.memory[(base + 2) % MEMORY_SIZE] = val % 10;
    }

    /// `FX55`: registers `0..=x` into memory from `i` on.
    fn store_regs(&mut self, x: usize)
        requires
            old(self).wf(),
            x < REGISTER_COUNT,
        ensures
            final(self).wf(),
            final(self)@ == (CpuState {
                memory: stored_regs(old(self)@.memory, old(self)@.v, old(self)@.i, x as int),
                ..old(self)@
            }),
    {
        let ghost s0 = self@;
        let mut k: usize = 0;
        while k <= x
            invariant
                self.wf(),
                x < REGISTER_COUNT,
                k <= x + 1,
                self@ == (CpuState { memory: self@.memory, ..s0 }),
                self@.memory == stored_regs(s0.memory, s0.v, s0.i, k - 1),
            decreases x + 1 - k,
        {
            let a: usize = (self.i as usize + k) % MEMORY_SIZE;
            proof {
                lemma_wrap_offset(s0.i as int, k as int);
            }
            self.memory[a] = self.v[k];
            k += 1;
            assert(self@.memory =~= stored_regs(s0.memory, s0.v, s0.i, k - 1));
        }
    }

    /// `FX65`: registers `0..=x` from memory at `i` on.
    fn load_regs(&mut self, x: usize)
        requires
            old(self).wf(),
            x < REGISTER_COUNT,
        ensures
            final(self).wf(),
            final(self)@ == (CpuState {
                v: loaded_regs(old(self)@.memory, old(self)@.v, old(self)@.i, x as int),
                ..old(self)@
            }),
    {
        let ghost s0 = self@;
        let mut k: usize = 0;
        while k <= x
            invariant
                self.wf(),
                x < REGISTER_COUNT,
                k <= x + 1,
                self@ == (CpuState { v: self@.v, ..s0 }),
                self@.v == loaded_regs(s0.memory, s0.v, s0.i, k - 1),
            decreases x + 1 - k,
        {
            let a: usize = (self.i as usize + k) % MEMORY_SIZE;
            self.v[k] = self.memory[a];
            k += 1;
            assert(self@.v =~= loaded_regs(s0.memory, s0.v, s0.i, k - 1));
        }
    }

    /// The lowest-indexed held key, if any.
    fn lowest_held_key(keys: &[bool; KEY_COUNT]) -> (r: Option<u8>)
        ensures
            match first_held(keys@, 0) {
                Some(k) => r == Some(k as u8) && k < KEY_COUNT,
                None => r is None,
            },
    {
        let mut k: usize = 0;
        while k < KEY_COUNT
            invariant
                k <= KEY_COUNT,
                keys@.len() == KEY_COUNT,
                first_held(keys@, 0) == first_held(keys@, k as nat),
            decreases KEY_COUNT - k,
        {
            if keys[k] {
                return Some(k as u8);
            }
            k += 1;
        }
        None
    }

    /// Control flow: screen clear, calls, returns, jumps and skips.
    fn run_flow(&mut self, ins: Instruction, keys: &[bool; KEY_COUNT], key_down: bool, rnd: u8) -> (r:
        Result<(), EngineError>)
        requires
            old(self).wf(),
            old(self)@.can_fetch(),
            ins.wf(),
            instruction_group(ins) == 0,
        ensures
            final(self).wf(),
            match step(old(self)@, ins, keys@, key_down, rnd) {
                Ok(t) => r == Ok::<(), EngineError>(()) && final(self)@ == t,
                Err(e) => r == Err::<(), EngineError>(e) && final(self)@ == old(self)@,
            },
    {
        match ins {
            Instruction::ClearScreen => {
                let mut k: usize = 0;
                while k < SCREEN_SIZE
                    invariant
                        self.wf(),
                        k <= SCREEN_SIZE,
                        self@ == (CpuState { gfx: self@.gfx, ..old(self)@ }),
                        forall|j: int| 0 <= j < k ==> #[trigger] self@.gfx[j] == 0,
                    decreases SCREEN_SIZE - k,
                {
                    self.gfx[k] = 0;
                    k += 1;
                }
                assert(self@.gfx =~= crate::machine::blank_screen());
                self.draw_flag = true;
                self.pc = self.pc + 2;
            },
            Instruction::Return => {
                if self.sp == 0 {
                    return Err(EngineError::StackUnderflow);
                }
                self.sp = self.sp - 1;
                self.pc = self.stack[self.sp];
            },
            Instruction::Jump { addr } => {
                self.pc = addr;
            },
            Instruction::Call { addr } => {
                if self.sp >= STACK_DEPTH {
                    return Err(EngineError::StackOverflow);
                }
                self.stack[self.sp] = self.pc + 2;
                self.sp = self.sp + 1;
                self.pc = addr;
            },
            Instruction::SkipIfEqualImm { x, nn } => {
                self.pc = if self.v[x] == nn {
                    self.pc + 4
                } else {
                    self.pc + 2
                };
            },
            Instruction::SkipIfNotEqualImm { x, nn } => {
                self.pc = if self.v[x] != nn {
                    self.pc + 4
                } else {
                    self.pc + 2
                };
            },
            Instruction::SkipIfEqualReg { x, y } => {
                self.pc = if self.v[x] == self.v[y] {
                    self.pc + 4
                } else {
                    self.pc + 2
                };
            },
            Instruction::SkipIfNotEqualReg { x, y } => {
                self.pc = if self.v[x] != self.v[y] {
                    self.pc + 4
                } else {
                    self.pc + 2
                };
            },
            Instruction::JumpOffset { addr } => {
                self.pc = addr + self.v[0] as u16;
            },
            _ => {},
        }
        Ok(())
    }

    /// Register loads and bitwise logic.
    fn run_alu(&mut self, ins: Instruction, keys: &[bool; KEY_COUNT], key_down: bool, rnd: u8) -> (r:
        Result<(), EngineError>)
        requires
            old(self).wf(),
            old(self)@.can_fetch(),
            ins.wf(),
            instruction_group(ins) == 1,
        ensures
            final(self).wf(),
            match step(old(self)@, ins, keys@, key_down, rnd) {
                Ok(t) => r == Ok::<(), EngineError>(()) && final(self)@ == t,
                Err(e) => r == Err::<(), EngineError>(e) && final(self)@ == old(self)@,
            },
    {
        match ins {
            Instruction::LoadImm { x, nn } => {
                self.v[x] = nn;
                self.pc = self.pc + 2;
            },
            Instruction::AddImm { x, nn } => {
                self.v[x] = self.v[x].wrapping_add(nn);
                self.pc = self.pc + 2;
            },
            Instruction::Move { x, y } => {
                self.v[x] = self.v[y];
                self.pc = self.pc + 2;
            },
            Instruction::Or { x, y } => {
                self.v[x] = self.v[x] | self.v[y];
                self.pc = self.pc + 2;
            },
            Instruction::And { x, y } => {
                self.v[x] = self.v[x] & self.v[y];
                self.pc = self.pc + 2;
            },
            Instruction::Xor { x, y } => {
                self.v[x] = self.v[x] ^ self.v[y];
                self.pc = self.pc + 2;
            },
            Instruction::Random { x, nn } => {
                self.v[x] = rnd & nn;
                self.pc = self.pc + 2;
            },
            _ => {},
        }
        Ok(())
    }

    /// Arithmetic that reports through VF: add, subtract and shifts.
    fn run_flagged(&mut self, ins: Instruction, keys: &[bool; KEY_COUNT], key_down: bool, rnd: u8) -> (r:
        Result<(), EngineError>)
        requires
            old(self).wf(),
            old(self)@.can_fetch(),
            ins.wf(),
            instruction_group(ins) == 2,
        ensures
            final(self).wf(),
            match step(old(self)@, ins, keys@, key_down, rnd) {
                Ok(t) => r == Ok::<(), EngineError>(()) && final(self)@ == t,
                Err(e) => r == Err::<(), EngineError>(e) && final(self)@ == old(self)@,
            },
    {
        match ins {
            Instruction::AddReg { x, y } => {
                let vx = self.v[x];
                let vy = self.v[y];
                self.v[FLAG] = if vy > 0xFF - vx {
                    1
                } else {
                    0
                };
                self.v[x] = vx.wrapping_add(vy);
                self.pc = self.pc + 2;
            },
            Instruction::SubReg { x, y } => {
                self.v[FLAG] = if self.v[x] > self.v[y] {
                    1
                } else {
                    0
                };
                self.v[x] = self.v[x].wrapping_sub(self.v[y]);
                self.pc = self.pc + 2;
            },
            Instruction::ShiftRight { x } => {
                self.v[FLAG] = self.v[x] % 2;
                self.v[x] = self.v[x] / 2;
                self.pc = self.pc + 2;
            },
            Instruction::SubReverse { x, y } => {
                let vx = self.v[x];
                let vy = self.v[y];
                self.v[FLAG] = if vy > vx {
                    1
                } else {
                    0
                };
                self.v[x] = vy.wrapping_sub(vx);
                self.pc = self.pc + 2;
            },
            Instruction::ShiftLeft { x } => {
                self.v[FLAG] = self.v[x] / 128;
                self.v[x] = self.v[x].wrapping_mul(2);
                self.pc = self.pc + 2;
            },
            _ => {},
        }
        Ok(())
    }

    /// Index register, sprites, keys, timers and memory transfers.
    fn run_other(&mut self, ins: Instruction, keys: &[bool; KEY_COUNT], key_down: bool, rnd: u8) -> (r:
        Result<(), EngineError>)
        requires
            old(self).wf(),
            old(self)@.can_fetch(),
            ins.wf(),
            instruction_group(ins) == 3,
        ensures
            final(self).wf(),
            match step(old(self)@, ins, keys@, key_down, rnd) {
                Ok(t) => r == Ok::<(), EngineError>(()) && final(self)@ == t,
                Err(e) => r == Err::<(), EngineError>(e) && final(self)@ == old(self)@,
            },
    {
        match ins {
            Instruction::LoadIndex { addr } => {
                self.i = addr;
                self.pc = self.pc + 2;
            },
            Instruction::Draw { x, y, n } => {
                let vx = self.v[x];
                let vy = self.v[y];
                self.draw_sprite(vx, vy, n);
                self.pc = self.pc + 2;
            },
            Instruction::SkipIfKey { x } => {
                let k = self.v[x] as usize;
                let held = k < KEY_COUNT && keys[k];
                self.pc = if held {
                    self.pc + 4
                } else {
                    self.pc + 2
                };
            },
            Instruction::SkipIfNotKey { x } => {
                let k = self.v[x] as usize;
                let held = k < KEY_COUNT && keys[k];
                self.pc = if !held {
                    self.pc + 4
                } else {
                    self.pc + 2
                };
            },
            Instruction::LoadDelay { x } => {
                self.v[x] = self.delay_timer;
                self.pc = self.pc + 2;
            },
            Instruction::WaitKey { x } => {
                if key_down {
                    if let Some(k) = Self::lowest_held_key(keys) {
                        self.v[x] = k;
                    }
                    self.pc = self.pc + 2;
                }
            },
            Instruction::SetDelay { x } => {
                self.delay_timer = self.v[x];
                self.pc = self.pc + 2;
            },
            Instruction::SetSound { x } => {
                self.sound_timer = self.v[x];
                self.pc = self.pc + 2;
            },
            Instruction::AddIndex { x } => {
                self.i = self.i.wrapping_add(self.v[x] as u16);
                self.pc = self.pc + 2;
            },
            Instruction::FontChar { x } => {
                self.i = self.v[x] as u16;
                self.pc = self.pc + 2;
            },
            Instruction::StoreBcd { x } => {
                let val = self.v[x];
                self.store_bcd(val);
                self.pc = self.pc + 2;
            },
            Instruction::StoreRegs { x } => {
                self.store_regs(x);
                self.pc = self.pc + 2;
            },
            Instruction::LoadRegs { x } => {
                self.load_regs(x);
                self.pc = self.pc + 2;
            },            _ => {},
        }
        Ok(())
    }

    /// Executes one decoded instruction. `keys` is the keypad, `key_down` tells
    /// whether a key event came since the last poll, `rnd` is the byte that
    /// `CXNN` masks. On an error nothing changes.
    fn run(&mut self, ins: Instruction, keys: &[bool; KEY_COUNT], key_down: bool, rnd: u8) -> (r:
        Result<(), EngineError>)
        requires
            old(self).wf(),
            old(self)@.can_fetch(),
            ins.wf(),
        ensures
            final(self).wf(),
            match step(old(self)@, ins, keys@, key_down, rnd) {
                Ok(t) => r == Ok::<(), EngineError>(()) && final(self)@ == t,
                Err(e) => r == Err::<(), EngineError>(e) && final(self)@ == old(self)@,
            },
    {
        match ins {
            Instruction::ClearScreen
            | Instruction::Return
            | Instruction::Jump { .. }
            | Instruction::Call { .. }
            | Instruction::SkipIfEqualImm { .. }
            | Instruction::SkipIfNotEqualImm { .. }
            | Instruction::SkipIfEqualReg { .. }
            | Instruction::SkipIfNotEqualReg { .. }
            | Instruction::JumpOffset { .. } => self.run_flow(ins, keys, key_down, rnd),
            Instruction::LoadImm { .. }
            | Instruction::AddImm { .. }
            | Instruction::Move { .. }
            | Instruction::Or { .. }
            | Instruction::And { .. }
            | Instruction::Xor { .. }
            | Instruction::Random { .. } => self.run_alu(ins, keys, key_down, rnd),
            Instruction::AddReg { .. }
            | Instruction::SubReg { .. }
            | Instruction::ShiftRight { .. }
            | Instruction::SubReverse { .. }
            | Instruction::ShiftLeft { .. } => self.run_flagged(ins, keys, key_down, rnd),
            _ => self.run_other(ins, keys, key_down, rnd),
        }
    }

    /// One timer tick: the delay and sound timers each drop by one unless
    /// already zero. Returns whether the tone should sound this cycle, that is,
    /// whether the sound timer was running.
    pub fn tick_timers(&mut self) -> (audible: bool)
        requires
            old(self).wf(),
        ensures
            final(self).wf(),
            final(self)@ == tick(old(self)@),
            audible == (old(self)@.sound_timer > 0),
    {
        if self.delay_timer > 0 {
            self.delay_timer = self.delay_timer - 1;
        }
        let audible = self.sound_timer > 0;
        if audible {
            self.sound_timer = self.sound_timer - 1;
        }
        audible
    }

    /// Decodes and executes one instruction word, without fetch or timers.
    /// `keys` is the keypad, `key_down` tells whether a key event came since the
    /// last poll, `rnd` is the byte that `CXNN` masks. On an error nothing
    /// changes.
    pub fn execute(&mut self, opcode: u16, keys: &[bool; KEY_COUNT], key_down: bool, rnd: u8) -> (r:
        Result<(), EngineError>)
        requires
            old(self).wf(),
            old(self)@.can_fetch(),
        ensures
            final(self).wf(),
            execute_outcome(old(self)@, opcode, keys@, key_down, rnd, r, final(self)@),
    {
        match decode(opcode) {
            None => Err(EngineError::UnrecognizedOpcode(opcode)),
            Some(ins) => self.run(ins, keys, key_down, rnd),
        }
    }

    /// The instruction word at the program counter, high byte first.
    fn fetch(&self) -> (op: u16)
        requires
            self.wf(),
            self@.can_fetch(),
        ensures
            op == self@.fetch(),
    {
        let pc = self.pc as usize;
        (self.memory[pc] as u16) * 0x100 + self.memory[pc + 1] as u16
    }

    /// One cycle with a given random byte for `CXNN`: fetch, decode, execute,
    /// then tick the timers. Returns whether the tone should sound.
    pub fn emulate_cycle_with(&mut self, keys: &[bool; KEY_COUNT], key_down: bool, rnd: u8) -> (r:
        Result<bool, EngineError>)
        requires
            old(self).wf(),
            old(self)@.can_fetch(),
        ensures
            final(self).wf(),
            cycle_outcome(old(self)@, keys@, key_down, rnd, r, final(self)@),
    {
        let op = self.fetch();
        match self.execute(op, keys, key_down, rnd) {
            Ok(()) => Ok(self.tick_timers()),
            Err(e) => Err(e),
        }
    }

    /// One cycle: fetch, decode, execute, then tick the timers. `CXNN` draws its
    /// byte from the thread-local random generator. Returns whether the tone
    /// should sound; on an error nothing changes.
    pub fn emulate_cycle(&mut self, keys: &[bool; KEY_COUNT], key_down: bool) -> (r: Result<
        bool,
        EngineError,
    >)
        requires
            old(self).wf(),
            old(self)@.can_fetch(),
        ensures
            final(self).wf(),
            exists|rnd: u8| cycle_outcome(old(self)@, keys@, key_down, rnd, r, final(self)@),
    {
        let rnd = match decode(self.fetch()) {
            Some(Instruction::Random { .. }) => random_byte(),
            _ => 0,
        };
        self.emulate_cycle_with(keys, key_down, rnd)
    }

    /// Pixel at `row`, `col`: 1 lit, 0 dark.
    pub fn pixel(&self, row: usize, col: usize) -> (r: u8)
        requires
            self.wf(),
            row < SCREEN_HEIGHT,
            col < SCREEN_WIDTH,
        ensures
            r == self@.pixel(row as int, col as int),
            r <= 1,
    {
        self.gfx[row * SCREEN_WIDTH + col]
    }

    /// Register `x`.
    pub fn register(&self, x: usize) -> (r: u8)
        requires
            self.wf(),
            x < REGISTER_COUNT,
        ensures
            r == self@.v[x as int],
    {
        self.v[x]
    }

    /// The byte at `addr`.
    pub fn memory_at(&self, addr: usize) -> (r: u8)
        requires
            self.wf(),
            addr < MEMORY_SIZE,
        ensures
            r == self@.memory[addr as int],
    {
        self.memory[addr]
    }

    pub fn program_counter(&self) -> (r: u16)
        ensures
            r == self@.pc,
    {
        self.pc
    }

    pub fn index(&self) -> (r: u16)
        ensures
            r == self@.i,
    {
        self.i
    }

    /// Return addresses on the stack.
    pub fn stack_pointer(&self) -> (r: usize)
        ensures
            r == self@.sp,
    {
        self.sp
    }

    pub fn delay_timer(&self) -> (r: u8)
        ensures
            r == self@.delay_timer,
    {
        self.delay_timer
    }

    pub fn sound_timer(&self) -> (r: u8)
        ensures
            r == self@.sound_timer,
    {
        self.sound_timer
    }

    /// Whether the tone should sound: the sound timer is running.
    pub fn sound_active(&self) -> (r: bool)
        ensures
            r == (self@.sound_timer > 0),
    {
        self.sound_timer > 0
    }
}

} // verus!
