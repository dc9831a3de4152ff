use vstd::prelude::*;
use crate::instruction::Instruction;

verus! {

/// Bytes of addressable memory.
pub const MEMORY_SIZE: usize = 4096;

/// General-purpose registers; the last one doubles as the flag register.
pub const REGISTER_COUNT: usize = 16;

/// Index of the flag register VF.
pub const FLAG: usize = 15;

/// Depth of the return-address stack.
pub const STACK_DEPTH: usize = 16;

/// Framebuffer columns.
pub const SCREEN_WIDTH: usize = 64;

/// Framebuffer rows.
pub const SCREEN_HEIGHT: usize = 32;

/// Pixels in the framebuffer, stored row after row.
pub const SCREEN_SIZE: usize = 2048;

/// Address at which a program image is loaded and execution starts.
pub const PROGRAM_START: u16 = 0x200;

/// Largest program image that fits between `PROGRAM_START` and the end of memory.
pub const MAX_PROGRAM_LEN: usize = 3584;

/// Logical keys of the keypad.
pub const KEY_COUNT: usize = 16;

/// The fatal conditions of the engine. None of them has a recovery: they mark a
/// program that the machine cannot run.
#[derive(Clone, Copy, Debug, PartialEq, Eq, Structural)]
pub enum EngineError {
    /// The fetched word names no instruction.
    UnrecognizedOpcode(u16),
    /// A call found all stack slots in use.
    StackOverflow,
    /// A return found the stack empty.
    StackUnderflow,
}

/// The mathematical state of the machine.
pub struct CpuState {
    pub memory: Seq<u8>,
    pub v: Seq<u8>,
    pub i: u16,
    pub pc: u16,
    pub stack: Seq<u16>,
    pub sp: nat,
    pub delay_timer: u8,
    pub sound_timer: u8,
    /// Pixel `(row, col)` stands at `row * SCREEN_WIDTH + col`.
    pub gfx: Seq<u8>,
    pub draw_flag: bool,
}

impl CpuState {
    /// Sizes are fixed, the stack pointer is in range and every pixel is 0 or 1.
    pub open spec fn wf(self) -> bool {
        &&& self.memory.len() == MEMORY_SIZE
        &&& self.v.len() == REGISTER_COUNT
        &&& self.stack.len() == STACK_DEPTH
        &&& self.sp <= STACK_DEPTH
        &&& self.gfx.len() == SCREEN_SIZE
        &&& forall|k: int| 0 <= k < SCREEN_SIZE ==> #[trigger] self.gfx[k] <= 1
    }

    /// Program counter in range for a fetch of two bytes.
    pub open spec fn can_fetch(self) -> bool {
        self.pc + 1 < MEMORY_SIZE
    }

    /// The instruction word at the program counter, high byte first.
    pub open spec fn fetch(self) -> u16 {
        (self.memory[self.pc as int] as int * 0x100 + self.memory[self.pc + 1] as int) as u16
    }

    pub open spec fn pixel(self, row: int, col: int) -> u8 {
        self.gfx[row * SCREEN_WIDTH + col]
    }
}

/// The built-in glyphs for the hexadecimal digits 0 to F, five rows each.
pub open spec fn font_glyphs() -> Seq<u8> {
    seq![
        0xF0, 0x90, 0x90, 0x90, 0xF0, 0x20, 0x60, 0x20, 0x20, 0x70,
        0xF0, 0x10, 0xF0, 0x80, 0xF0, 0xF0, 0x10, 0xF0, 0x10, 0xF0,
        0x90, 0x90, 0xF0, 0x10, 0x10, 0xF0, 0x80, 0xF0, 0x10, 0xF0,
        0xF0, 0x80, 0xF0, 0x90, 0xF0, 0xF0, 0x10, 0x20, 0x40, 0x40,
        0xF0, 0x90, 0xF0, 0x90, 0xF0, 0xF0, 0x90, 0xF0, 0x10, 0xF0,
        0xF0, 0x90, 0xF0, 0x90, 0x90, 0xE0, 0x90, 0xE0, 0x90, 0xE0,
        0xF0, 0x80, 0x80, 0x80, 0xF0, 0xE0, 0x90, 0x90, 0x90, 0xE0,
        0xF0, 0x80, 0xF0, 0x80, 0xF0, 0xF0, 0x80, 0xF0, 0x80, 0x80,
    ]
}

/// The blank machine: everything zero but the program counter.
pub open spec fn blank_state() -> CpuState {
    CpuState {
        memory: Seq::new(MEMORY_SIZE as nat, |a: int| 0u8),
        v: Seq::new(REGISTER_COUNT as nat, |k: int| 0u8),
        i: 0,
        pc: PROGRAM_START,
        stack: Seq::new(STACK_DEPTH as nat, |k: int| 0u16),
        sp: 0,
        delay_timer: 0,
        sound_timer: 0,
        gfx: blank_screen(),
        draw_flag: false,
    }
}

pub open spec fn blank_screen() -> Seq<u8> {
    Seq::new(SCREEN_SIZE as nat, |k: int| 0u8)
}

/// Memory after loading the font at address 0 and `program` at `PROGRAM_START`.
pub open spec fn loaded_memory(memory: Seq<u8>, program: Seq<u8>) -> Seq<u8> {
    Seq::new(
        memory.len(),
        |a: int|
            if a < font_glyphs().len() {
                font_glyphs()[a]
            } else if PROGRAM_START <= a < PROGRAM_START + program.len() {
                program[a - PROGRAM_START]
            } else {
                memory[a]
            },
    )
}

/// Memory addresses wrap at 12 bits: only the low 12 bits of the index
/// register select a byte.
pub open spec fn wrap_addr(a: int) -> int {
    a % (MEMORY_SIZE as int)
}

pub open spec fn advance(s: CpuState, by: int) -> CpuState {
    CpuState { pc: (s.pc + by) as u16, ..s }
}

pub open spec fn next(s: CpuState) -> CpuState {
    advance(s, 2)
}

pub open spec fn skip_if(s: CpuState, cond: bool) -> CpuState {
    advance(s, if cond { 4 } else { 2 })
}

pub open spec fn set_reg(s: CpuState, x: int, val: u8) -> CpuState {
    CpuState { v: s.v.update(x, val), ..s }
}

pub open spec fn flag_of(b: bool) -> u8 {
    if b { 1 } else { 0 }
}

/// Whether logical key `k` is held. A value past the last key names no key.
pub open spec fn key_held(keys: Seq<bool>, k: int) -> bool {
    0 <= k < keys.len() && keys[k]
}

/// The lowest-indexed held key at index `k` or above.
pub open spec fn first_held(keys: Seq<bool>, k: nat) -> Option<nat>
    decreases keys.len() - k,
{
    if k >= keys.len() {
        None
    } else if keys[k as int] {
        Some(k)
    } else {
        first_held(keys, k + 1)
    }
}

/// Which sprite row lands on screen row `row` when the sprite's top is at `vy`.
pub open spec fn sprite_row(vy: u8, row: int) -> int {
    (row - vy) % (SCREEN_HEIGHT as int)
}

/// Which sprite bit lands on screen column `col` when the sprite's left edge is at `vx`.
pub open spec fn sprite_col(vx: u8, col: int) -> int {
    (col - vx) % (SCREEN_WIDTH as int)
}

/// The sprite bit that a draw of `n` rows from memory at `i`, placed at
/// `(vx, vy)` with wrap-around on both axes, puts on pixel `k`; 0 where the
/// sprite does not reach.
pub open spec fn sprite_pixel(memory: Seq<u8>, i: u16, vx: u8, vy: u8, n: int, k: int) -> u8 {
    let row = sprite_row(vy, k / SCREEN_WIDTH as int);
    let bit = sprite_col(vx, k % SCREEN_WIDTH as int);
    if row < n && bit < 8 {
        (memory[wrap_addr(i + row)] >> ((7 - bit) as u8)) & 1u8
    } else {
        0
    }
}

/// The sprite meets a pixel that is already on.
pub open spec fn sprite_collides(s: CpuState, vx: u8, vy: u8, n: int) -> bool {
    exists|k: int|
        0 <= k < SCREEN_SIZE && #[trigger] sprite_pixel(s.memory, s.i, vx, vy, n, k) == 1
            && s.gfx[k] == 1
}

/// The framebuffer XOR-ed with the sprite.
pub open spec fn drawn_screen(s: CpuState, vx: u8, vy: u8, n: int) -> Seq<u8> {
    Seq::new(SCREEN_SIZE as nat, |k: int| s.gfx[k] ^ sprite_pixel(s.memory, s.i, vx, vy, n, k))
}

/// `DXYN`: the sprite is drawn, VF tells whether it met a lit pixel.
pub open spec fn draw(s: CpuState, vx: u8, vy: u8, n: int) -> CpuState {
    CpuState {
        gfx: drawn_screen(s, vx, vy, n),
        v: s.v.update(FLAG as int, flag_of(sprite_collides(s, vx, vy, n))),
        draw_flag: true,
        ..s
    }
}

/// `FX33`: hundreds, tens and ones of `val` at `i`, `i + 1`, `i + 2`.
pub open spec fn bcd_memory(memory: Seq<u8>, i: u16, val: u8) -> Seq<u8> {
    memory.update(wrap_addr(i as int), val / 100).update(wrap_addr(i + 1), (val / 10) % 10).update(
        wrap_addr(i + 2),
        val % 10,
    )
}

/// `FX55`: registers `0..=x` written to memory from `i` on.
pub open spec fn stored_regs(memory: Seq<u8>, v: Seq<u8>, i: u16, x: int) -> Seq<u8> {
    Seq::new(
        memory.len(),
        |a: int|
            {
                let off = wrap_addr(a - i);
                if off <= x {
                    v[off]
                } else {
                    memory[a]
                }
            },
    )
}

/// `FX65`: registers `0..=x` read from memory from `i` on.
pub open spec fn loaded_regs(memory: Seq<u8>, v: Seq<u8>, i: u16, x: int) -> Seq<u8> {
    Seq::new(v.len(), |k: int| if k <= x { memory[wrap_addr(i + k)] } else { v[k] })
}

/// The effect of one instruction. `keys` is the keypad, `key_down` tells whether
/// any key event came since the last poll, and `rnd` is the byte that `CXNN`
/// masks.
pub open spec fn step(
    s: CpuState,
    ins: Instruction,
    keys: Seq<bool>,
    key_down: bool,
    rnd: u8,
) -> Result<CpuState, EngineError> {
    match ins {
        Instruction::ClearScreen => Ok(
            next(CpuState { gfx: blank_screen(), draw_flag: true, ..s }),
        ),
        Instruction::Return => if s.sp == 0 {
            Err(EngineError::StackUnderflow)
        } else {
            Ok(CpuState { sp: (s.sp - 1) as nat, pc: s.stack[s.sp - 1], ..s })
        },
        Instruction::Jump { addr } => Ok(CpuState { pc: addr, ..s }),
        Instruction::Call { addr } => if s.sp >= STACK_DEPTH {
            Err(EngineError::StackOverflow)
        } else {
            Ok(
                CpuState {
                    stack: s.stack.update(s.sp as int, (s.pc + 2) as u16),
                    sp: s.sp + 1,
                    pc: addr,
                    ..s
                },
            )
        },
        Instruction::SkipIfEqualImm { x, nn } => Ok(skip_if(s, s.v[x as int] == nn)),
        Instruction::SkipIfNotEqualImm { x, nn } => Ok(skip_if(s, s.v[x as int] != nn)),
        Instruction::SkipIfEqualReg { x, y } => Ok(skip_if(s, s.v[x as int] == s.v[y as int])),
        Instruction::SkipIfNotEqualReg { x, y } => Ok(
            skip_if(s, s.v[x as int] != s.v[y as int]),
        ),
        Instruction::LoadImm { x, nn } => Ok(next(set_reg(s, x as int, nn))),
        Instruction::AddImm { x, nn } => Ok(
            next(set_reg(s, x as int, ((s.v[x as int] + nn) % 256) as u8)),
        ),
        Instruction::Move { x, y } => Ok(next(set_reg(s, x as int, s.v[y as int]))),
        Instruction::Or { x, y } => Ok(next(set_reg(s, x as int, s.v[x as int] | s.v[y as int]))),
        Instruction::And { x, y } => Ok(
            next(set_reg(s, x as int, s.v[x as int] & s.v[y as int])),
        ),
        Instruction::Xor { x, y } => Ok(
            next(set_reg(s, x as int, s.v[x as int] ^ s.v[y as int])),
        ),
        Instruction::AddReg { x, y } => {
            let sum = s.v[x as int] + s.v[y as int];
            let f = set_reg(s, FLAG as int, flag_of(sum > 255));
            Ok(next(set_reg(f, x as int, (sum % 256) as u8)))
        },
        Instruction::SubReg { x, y } => {
            let f = set_reg(s, FLAG as int, flag_of(s.v[x as int] > s.v[y as int]));
            Ok(next(set_reg(f, x as int, ((f.v[x as int] - f.v[y as int]) % 256) as u8)))
        },
        Instruction::ShiftRight { x } => {
            let f = set_reg(s, FLAG as int, s.v[x as int] % 2);
            Ok(next(set_reg(f, x as int, f.v[x as int] / 2)))
        },
        Instruction::SubReverse { x, y } => {
            let f = set_reg(s, FLAG as int, flag_of(s.v[y as int] > s.v[x as int]));
            Ok(next(set_reg(f, x as int, ((s.v[y as int] - s.v[x as int]) % 256) as u8)))
        },
        Instruction::ShiftLeft { x } => {
            let f = set_reg(s, FLAG as int, s.v[x as int] / 128);
            Ok(next(set_reg(f, x as int, ((f.v[x as int] * 2) % 256) as u8)))
        },
        Instruction::LoadIndex { addr } => Ok(next(CpuState { i: addr, ..s })),
        Instruction::JumpOffset { addr } => Ok(CpuState { pc: (addr + s.v[0]) as u16, ..s }),
        Instruction::Random { x, nn } => Ok(next(set_reg(s, x as int, rnd & nn))),
        Instruction::Draw { x, y, n } => Ok(next(draw(s, s.v[x as int], s.v[y as int], n as int))),
        Instruction::SkipIfKey { x } => Ok(skip_if(s, key_held(keys, s.v[x as int] as int))),
        Instruction::SkipIfNotKey { x } => Ok(skip_if(s, !key_held(keys, s.v[x as int] as int))),
        Instruction::LoadDelay { x } => Ok(next(set_reg(s, x as int, s.delay_timer))),
        Instruction::WaitKey { x } => if !key_down {
            Ok(s)
        } else {
            match first_held(keys, 0) {
                Some(k) => Ok(next(set_reg(s, x as int, k as u8))),
                None => Ok(next(s)),
            }
        },
        Instruction::SetDelay { x } => Ok(next(CpuState { delay_timer: s.v[x as int], ..s })),
        Instruction::SetSound { x } => Ok(next(CpuState { sound_timer: s.v[x as int], ..s })),
        Instruction::AddIndex { x } => Ok(
            next(CpuState { i: ((s.i + s.v[x as int]) % 0x10000) as u16, ..s }),
        ),
        Instruction::FontChar { x } => Ok(next(CpuState { i: s.v[x as int] as u16, ..s })),
        Instruction::StoreBcd { x } => Ok(
            next(CpuState { memory: bcd_memory(s.memory, s.i, s.v[x as int]), ..s }),
        ),
        Instruction::StoreRegs { x } => Ok(
            next(CpuState { memory: stored_regs(s.memory, s.v, s.i, x as int), ..s }),
        ),
        Instruction::LoadRegs { x } => Ok(
            next(CpuState { v: loaded_regs(s.memory, s.v, s.i, x as int), ..s }),
        ),
    }
}

/// One timer tick: each counter drops by one unless it is already zero.
pub open spec fn tick(s: CpuState) -> CpuState {
    CpuState {
        delay_timer: if s.delay_timer > 0 { (s.delay_timer - 1) as u8 } else { 0 },
        sound_timer: if s.sound_timer > 0 { (s.sound_timer - 1) as u8 } else { 0 },
        ..s
    }
}

} // verus!
