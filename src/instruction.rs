use vstd::prelude::*;

verus! {

/// One decoded instruction word. Register operands are indices into the
/// register file (0x0..=0xF), `addr` is a 12-bit address, `nn` an immediate byte
/// and `n` the row count of a sprite.
#[derive(Clone, Copy, Debug, PartialEq, Eq, Structural)]
pub enum Instruction {
    /// `00E0`
    ClearScreen,
    /// `00EE`
    Return,
    /// `1NNN`
    Jump { addr: u16 },
    /// `2NNN`
    Call { addr: u16 },
    /// `3XNN`
    SkipIfEqualImm { x: usize, nn: u8 },
    /// `4XNN`
    SkipIfNotEqualImm { x: usize, nn: u8 },
    /// `5XY0`
    SkipIfEqualReg { x: usize, y: usize },
    /// `6XNN`
    LoadImm { x: usize, nn: u8 },
    /// `7XNN`
    AddImm { x: usize, nn: u8 },
    /// `8XY0`
    Move { x: usize, y: usize },
    /// `8XY1`
    Or { x: usize, y: usize },
    /// `8XY2`
    And { x: usize, y: usize },
    /// `8XY3`
    Xor { x: usize, y: usize },
    /// `8XY4`
    AddReg { x: usize, y: usize },
    /// `8XY5`
    SubReg { x: usize, y: usize },
    /// `8XY6`
    ShiftRight { x: usize },
    /// `8XY7`
    SubReverse { x: usize, y: usize },
    /// `8XYE`
    ShiftLeft { x: usize },
    /// `9XY0`
    SkipIfNotEqualReg { x: usize, y: usize },
    /// `ANNN`
    LoadIndex { addr: u16 },
    /// `BNNN`
    JumpOffset { addr: u16 },
    /// `CXNN`
    Random { x: usize, nn: u8 },
    /// `DXYN`
    Draw { x: usize, y: usize, n: usize },
    /// `EX9E`
    SkipIfKey { x: usize },
    /// `EXA1`
    SkipIfNotKey { x: usize },
    /// `FX07`
    LoadDelay { x: usize },
    /// `FX0A`
    WaitKey { x: usize },
    /// `FX15`
    SetDelay { x: usize },
    /// `FX18`
    SetSound { x: usize },
    /// `FX1E`
    AddIndex { x: usize },
    /// `FX29`
    FontChar { x: usize },
    /// `FX33`
    StoreBcd { x: usize },
    /// `FX55`
    StoreRegs { x: usize },
    /// `FX65`
    LoadRegs { x: usize },
}

/// Top nibble of an opcode: the instruction family.
pub open spec fn family(op: u16) -> int {
    op as int / 0x1000
}

/// Second nibble: register X.
pub open spec fn nibble_x(op: u16) -> int {
    (op as int / 0x100) % 16
}

/// Third nibble: register Y.
pub open spec fn nibble_y(op: u16) -> int {
    (op as int / 0x10) % 16
}

/// Bottom nibble: N.
pub open spec fn nibble_n(op: u16) -> int {
    op as int % 16
}

/// Bottom byte: NN.
pub open spec fn byte_nn(op: u16) -> int {
    op as int % 0x100
}

/// Bottom twelve bits: NNN.
pub open spec fn addr_nnn(op: u16) -> int {
    op as int % 0x1000
}

/// The instruction that an opcode stands for, or `None` for a word that names
/// no instruction.
pub open spec fn decode_spec(op: u16) -> Option<Instruction> {
    let x = nibble_x(op) as usize;
    let y = nibble_y(op) as usize;
    let nn = byte_nn(op) as u8;
    let addr = addr_nnn(op) as u16;
    let f = family(op);
    if f == 0x0 {
        if byte_nn(op) == 0xE0 {
            Some(Instruction::ClearScreen)
        } else if byte_nn(op) == 0xEE {
            Some(Instruction::Return)
        } else {
            None
        }
    } else if f == 0x1 {
        Some(Instruction::Jump { addr })
    } else if f == 0x2 {
        Some(Instruction::Call { addr })
    } else if f == 0x3 {
        Some(Instruction::SkipIfEqualImm { x, nn })
    } else if f == 0x4 {
        Some(Instruction::SkipIfNotEqualImm { x, nn })
    } else if f == 0x5 {
        Some(Instruction::SkipIfEqualReg { x, y })
    } else if f == 0x6 {
        Some(Instruction::LoadImm { x, nn })
    } else if f == 0x7 {
        Some(Instruction::AddImm { x, nn })
    } else if f == 0x8 {
        let n = nibble_n(op);
        if n == 0x0 {
            Some(Instruction::Move { x, y })
        } else if n == 0x1 {
            Some(Instruction::Or { x, y })
        } else if n == 0x2 {
            Some(Instruction::And { x, y })
        } else if n == 0x3 {
            Some(Instruction::Xor { x, y })
        } else if n == 0x4 {
            Some(Instruction::AddReg { x, y })
        } else if n == 0x5 {
            Some(Instruction::SubReg { x, y })
        } else if n == 0x6 {
            Some(Instruction::ShiftRight { x })
        } else if n == 0x7 {
            Some(Instruction::SubReverse { x, y })
        } else if n == 0xE {
            Some(Instruction::ShiftLeft { x })
        } else {
            None
        }
    } else if f == 0x9 {
        Some(Instruction::SkipIfNotEqualReg { x, y })
    } else if f == 0xA {
        Some(Instruction::LoadIndex { addr })
    } else if f == 0xB {
        Some(Instruction::JumpOffset { addr })
    } else if f == 0xC {
        Some(Instruction::Random { x, nn })
    } else if f == 0xD {
        Some(Instruction::Draw { x, y, n: nibble_n(op) as usize })
    } else if f == 0xE {
        if byte_nn(op) == 0x9E {
            Some(Instruction::SkipIfKey { x })
        } else if byte_nn(op) == 0xA1 {
            Some(Instruction::SkipIfNotKey { x })
        } else {
            None
        }
    } else {
        let low = byte_nn(op);
        if low == 0x07 {
            Some(Instruction::LoadDelay { x })
        } else if low == 0x0A {
            Some(Instruction::WaitKey { x })
        } else if low == 0x15 {
            Some(Instruction::SetDelay { x })
        } else if low == 0x18 {
            Some(Instruction::SetSound { x })
        } else if low == 0x1E {
            Some(Instruction::AddIndex { x })
        } else if low == 0x29 {
            Some(Instruction::FontChar { x })
        } else if low == 0x33 {
            Some(Instruction::StoreBcd { x })
        } else if low == 0x55 {
            Some(Instruction::StoreRegs { x })
        } else if low == 0x65 {
            Some(Instruction::LoadRegs { x })
        } else {
            None
        }
    }
}

impl Instruction {
    /// Operands are in range: registers below 16, sprite height below 16,
    /// addresses below 0x1000.
    pub open spec fn wf(self) -> bool {
        match self {
            Instruction::ClearScreen | Instruction::Return => true,
            Instruction::Jump { addr }
            | Instruction::Call { addr }
            | Instruction::LoadIndex { addr }
            | Instruction::JumpOffset { addr } => addr < 0x1000,
            Instruction::SkipIfEqualImm { x, .. }
            | Instruction::SkipIfNotEqualImm { x, .. }
            | Instruction::LoadImm { x, .. }
            | Instruction::AddImm { x, .. }
            | Instruction::Random { x, .. } => x < 16,
            Instruction::SkipIfEqualReg { x, y }
            | Instruction::Move { x, y }
            | Instruction::Or { x, y }
            | Instruction::And { x, y }
            | Instruction::Xor { x, y }
            | Instruction::AddReg { x, y }
            | Instruction::SubReg { x, y }
            | Instruction::SubReverse { x, y }
            | Instruction::SkipIfNotEqualReg { x, y } => x < 16 && y < 16,
            Instruction::Draw { x, y, n } => x < 16 && y < 16 && n < 16,
            Instruction::ShiftRight { x }
            | Instruction::ShiftLeft { x }
            | Instruction::SkipIfKey { x }
            | Instruction::SkipIfNotKey { x }
            | Instruction::LoadDelay { x }
            | Instruction::WaitKey { x }
            | Instruction::SetDelay { x }
            | Instruction::SetSound { x }
            | Instruction::AddIndex { x }
            | Instruction::FontChar { x }
            | Instruction::StoreBcd { x }
            | Instruction::StoreRegs { x }
            | Instruction::LoadRegs { x } => x < 16,
        }
    }
}

/// Decodes one 16-bit instruction word by its nibbles.
pub fn decode(op: u16) -> (r: Option<Instruction>)
    ensures
        r == decode_spec(op),
        r matches Some(ins) ==> ins.wf(),
{
    let x: usize = ((op / 0x100) % 16) as usize;
    let y: usize = ((op / 0x10) % 16) as usize;
    let n: usize = (op % 16) as usize;
    let nn: u8 = (op % 0x100) as u8;
    let addr: u16 = op % 0x1000;
    let low: u16 = op % 0x100;
    match op / 0x1000 {
        0x0 => {
            if low == 0xE0 {
                Some(Instruction::ClearScreen)
            } else if low == 0xEE {
                Some(Instruction::Return)
            } else {
                None
            }
        },
        0x1 => Some(Instruction::Jump { addr }),
        0x2 => Some(Instruction::Call { addr }),
        0x3 => Some(Instruction::SkipIfEqualImm { x, nn }),
        0x4 => Some(Instruction::SkipIfNotEqualImm { x, nn }),
        0x5 => Some(Instruction::SkipIfEqualReg { x, y }),
        0x6 => Some(Instruction::LoadImm { x, nn }),
        0x7 => Some(Instruction::AddImm { x, nn }),
        0x8 => match n {
            0x0 => Some(Instruction::Move { x, y }),
            0x1 => Some(Instruction::Or { x, y }),
            0x2 => Some(Instruction::And { x, y }),
            0x3 => Some(Instruction::Xor { x, y }),
            0x4 => Some(Instruction::AddReg { x, y }),
            0x5 => Some(Instruction::SubReg { x, y }),
            0x6 => Some(Instruction::ShiftRight { x }),
            0x7 => Some(Instruction::SubReverse { x, y }),
            0xE => Some(Instruction::ShiftLeft { x }),
            _ => None,
        },
        0x9 => Some(Instruction::SkipIfNotEqualReg { x, y }),
        0xA => Some(Instruction::LoadIndex { addr }),
        0xB => Some(Instruction::JumpOffset { addr }),
        0xC => Some(Instruction::Random { x, nn }),
        0xD => Some(Instruction::Draw { x, y, n }),
        0xE => {
            if low == 0x9E {
                Some(Instruction::SkipIfKey { x })
            } else if low == 0xA1 {
                Some(Instruction::SkipIfNotKey { x })
            } else {
                None
            }
        },
        _ => match low {
            0x07 => Some(Instruction::LoadDelay { x }),
            0x0A => Some(Instruction::WaitKey { x }),
            0x15 => Some(Instruction::SetDelay { x }),
            0x18 => Some(Instruction::SetSound { x }),
            0x1E => Some(Instruction::AddIndex { x }),
            0x29 => Some(Instruction::FontChar { x }),
            0x33 => Some(Instruction::StoreBcd { x }),
            0x55 => Some(Instruction::StoreRegs { x }),
            0x65 => Some(Instruction::LoadRegs { x }),
            _ => None,
        },
    }
}

} // verus!
