use vstd::prelude::*;

verus! {

/// One decoded CHIP-8 instruction. Register operands `x` and `y` are nibbles,
/// `kk` is the low byte of the word, `n` its low nibble and `addr` its low
/// twelve bits.
#[derive(Clone, Copy, Debug, PartialEq, Eq, Structural)]
pub enum Instruction {
    /// `00E0`: clear the screen.
    Cls,
    /// `00EE`: return from a subroutine.
    Ret,
    /// `0nnn`: jump to a machine routine, treated as a plain jump.
    Sys { addr: u16 },
    /// `1nnn`: jump.
    Jp { addr: u16 },
    /// `2nnn`: call a subroutine.
    Call { addr: u16 },
    /// `3xkk`: skip the next instruction if `Vx == kk`.
    SeByte { x: u8, kk: u8 },
    /// `4xkk`: skip the next instruction if `Vx != kk`.
    SneByte { x: u8, kk: u8 },
    /// `5xy0`: skip the next instruction if `Vx == Vy`.
    SeReg { x: u8, y: u8 },
    /// `6xkk`: `Vx := kk`.
    LdByte { x: u8, kk: u8 },
    /// `7xkk`: `Vx := Vx + kk`, wrapping, flag untouched.
    AddByte { x: u8, kk: u8 },
    /// `8xy0`: `Vx := Vy`.
    LdReg { x: u8, y: u8 },
    /// `8xy1`: `Vx := Vx | Vy`.
    Or { x: u8, y: u8 },
    /// `8xy2`: `Vx := Vx & Vy`.
    And { x: u8, y: u8 },
    /// `8xy3`: `Vx := Vx ^ Vy`.
    Xor { x: u8, y: u8 },
    /// `8xy4`: `Vx := Vx + Vy`, `VF := carry`.
    AddReg { x: u8, y: u8 },
    /// `8xy5`: `Vx := Vx - Vy`, `VF := (Vx > Vy)`.
    Sub { x: u8, y: u8 },
    /// `8xy6`: `Vx := Vx >> 1`, `VF := the bit shifted out`.
    Shr { x: u8, y: u8 },
    /// `8xy7`: `Vx := Vy - Vx`, `VF := (Vy > Vx)`.
    Subn { x: u8, y: u8 },
    /// `8xyE`: `Vx := Vx << 1`, `VF := the bit shifted out`.
    Shl { x: u8, y: u8 },
    /// `9xy0`: skip the next instruction if `Vx != Vy`.
    SneReg { x: u8, y: u8 },
    /// `Annn`: `I := nnn`.
    LdI { addr: u16 },
    /// `Bnnn`: jump to `nnn + V0`.
    JpV0 { addr: u16 },
    /// `Cxkk`: `Vx := random byte & kk`.
    Rnd { x: u8, kk: u8 },
    /// `Dxyn`: draw an `n`-byte sprite from memory at `I` at `(Vx, Vy)`.
    Drw { x: u8, y: u8, n: u8 },
    /// `Ex9E`: skip the next instruction if the held key is `Vx`.
    Skp { x: u8 },
    /// `ExA1`: skip the next instruction unless the held key is `Vx`.
    Sknp { x: u8 },
    /// `Fx07`: `Vx := delay timer`.
    LdVxDt { x: u8 },
    /// `Fx0A`: wait for a key press and store it in `Vx`.
    LdVxK { x: u8 },
    /// `Fx15`: `delay timer := Vx`.
    LdDtVx { x: u8 },
    /// `Fx18`: `sound timer := Vx`.
    LdStVx { x: u8 },
    /// `Fx1E`: `I := I + Vx`, wrapping.
    AddI { x: u8 },
    /// `Fx29`: `I :=` address of the font glyph for the low nibble of `Vx`.
    LdF { x: u8 },
    /// `Fx33`: store the decimal digits of `Vx` at `I`, `I + 1`, `I + 2`.
    LdB { x: u8 },
    /// `Fx55`: store `V0..=Vx` into memory from `I` on.
    LdMemVx { x: u8 },
    /// `Fx65`: load `V0..=Vx` from memory from `I` on.
    LdVxMem { x: u8 },
}

impl Instruction {
    /// Operands fit the fields of an instruction word.
    pub open spec fn wf(self) -> bool {
        match self {
            Instruction::Cls | Instruction::Ret => true,
            Instruction::Sys { addr }
            | Instruction::Jp { addr }
            | Instruction::Call { addr }
            | Instruction::LdI { addr }
            | Instruction::JpV0 { addr } => addr < 0x1000,
            Instruction::SeByte { x, kk: _ }
            | Instruction::SneByte { x, kk: _ }
            | Instruction::LdByte { x, kk: _ }
            | Instruction::AddByte { x, kk: _ }
            | Instruction::Rnd { x, kk: _ } => x < 16,
            Instruction::SeReg { x, y }
            | Instruction::LdReg { x, y }
            | Instruction::Or { x, y }
            | Instruction::And { x, y }
            | Instruction::Xor { x, y }
            | Instruction::AddReg { x, y }
            | Instruction::Sub { x, y }
            | Instruction::Shr { x, y }
            | Instruction::Subn { x, y }
            | Instruction::Shl { x, y }
            | Instruction::SneReg { x, y } => x < 16 && y < 16,
            Instruction::Drw { x, y, n } => x < 16 && y < 16 && n < 16,
            Instruction::Skp { x }
            | Instruction::Sknp { x }
            | Instruction::LdVxDt { x }
            | Instruction::LdVxK { x }
            | Instruction::LdDtVx { x }
            | Instruction::LdStVx { x }
            | Instruction::AddI { x }
            | Instruction::LdF { x }
            | Instruction::LdB { x }
            | Instruction::LdMemVx { x }
            | Instruction::LdVxMem { x } => x < 16,
        }
    }
}

/// The second nibble of an instruction word.
pub open spec fn field_x(op: u16) -> u8 {
    ((op & 0x0f00) >> 8) as u8
}

/// The third nibble of an instruction word.
pub open spec fn field_y(op: u16) -> u8 {
    ((op & 0x00f0) >> 4) as u8
}

/// The last nibble of an instruction word.
pub open spec fn field_n(op: u16) -> u8 {
    (op & 0x000f) as u8
}

/// The low byte of an instruction word.
pub open spec fn field_kk(op: u16) -> u8 {
    (op & 0x00ff) as u8
}

/// The low twelve bits of an instruction word.
pub open spec fn field_addr(op: u16) -> u16 {
    op & 0x0fff
}

/// The instruction that a word encodes, selected by its nibble pattern, or
/// `None` for a word that matches no pattern.
pub open spec fn decoded(op: u16) -> Option<Instruction> {
    let x = field_x(op);
    let y = field_y(op);
    let kk = field_kk(op);
    let addr = field_addr(op);
    if op == 0x00e0 {
        Some(Instruction::Cls)
    } else if op == 0x00ee {
        Some(Instruction::Ret)
    } else if op & 0xf000 == 0x0000 {
        Some(Instruction::Sys { addr })
    } else if op & 0xf000 == 0x1000 {
        Some(Instruction::Jp { addr })
    } else if op & 0xf000 == 0x2000 {
        Some(Instruction::Call { addr })
    } else if op & 0xf000 == 0x3000 {
        Some(Instruction::SeByte { x, kk })
    } else if op & 0xf000 == 0x4000 {
        Some(Instruction::SneByte { x, kk })
    } else if op & 0xf00f == 0x5000 {
        Some(Instruction::SeReg { x, y })
    } else if op & 0xf000 == 0x6000 {
        Some(Instruction::LdByte { x, kk })
    } else if op & 0xf000 == 0x7000 {
        Some(Instruction::AddByte { x, kk })
    } else if op & 0xf00f == 0x8000 {
        Some(Instruction::LdReg { x, y })
    } else if op & 0xf00f == 0x8001 {
        Some(Instruction::Or { x, y })
    } else if op & 0xf00f == 0x8002 {
        Some(Instruction::And { x, y })
    } else if op & 0xf00f == 0x8003 {
        Some(Instruction::Xor { x, y })
    } else if op & 0xf00f == 0x8004 {
        Some(Instruction::AddReg { x, y })
    } else if op & 0xf00f == 0x8005 {
        Some(Instruction::Sub { x, y })
    } else if op & 0xf00f == 0x8006 {
        Some(Instruction::Shr { x, y })
    } else if op & 0xf00f == 0x8007 {
        Some(Instruction::Subn { x, y })
    } else if op & 0xf00f == 0x800e {
        Some(Instruction::Shl { x, y })
    } else if op & 0xf00f == 0x9000 {
        Some(Instruction::SneReg { x, y })
    } else if op & 0xf000 == 0xa000 {
        Some(Instruction::LdI { addr })
    } else if op & 0xf000 == 0xb000 {
        Some(Instruction::JpV0 { addr })
    } else if op & 0xf000 == 0xc000 {
        Some(Instruction::Rnd { x, kk })
    } else if op & 0xf000 == 0xd000 {
        Some(Instruction::Drw { x, y, n: field_n(op) })
    } else if op & 0xf0ff == 0xe09e {
        Some(Instruction::Skp { x })
    } else if op & 0xf0ff == 0xe0a1 {
        Some(Instruction::Sknp { x })
    } else if op & 0xf0ff == 0xf007 {
        Some(Instruction::LdVxDt { x })
    } else if op & 0xf0ff == 0xf00a {
        Some(Instruction::LdVxK { x })
    } else if op & 0xf0ff == 0xf015 {
        Some(Instruction::LdDtVx { x })
    } else if op & 0xf0ff == 0xf018 {
        Some(Instruction::LdStVx { x })
    } else if op & 0xf0ff == 0xf01e {
        Some(Instruction::AddI { x })
    } else if op & 0xf0ff == 0xf029 {
        Some(Instruction::LdF { x })
    } else if op & 0xf0ff == 0xf033 {
        Some(Instruction::LdB { x })
    } else if op & 0xf0ff == 0xf055 {
        Some(Instruction::LdMemVx { x })
    } else if op & 0xf0ff == 0xf065 {
        Some(Instruction::LdVxMem { x })
    } else {
        None
    }
}

/// Every instruction that a word decodes to has operands in range.
pub proof fn lemma_decoded_wf(op: u16)
    ensures
        decoded(op) matches Some(ins) ==> ins.wf(),
{
    assert(field_x(op) < 16) by (bit_vector);
    assert(field_y(op) < 16) by (bit_vector);
    assert(field_n(op) < 16) by (bit_vector);
    assert(field_addr(op) < 0x1000) by (bit_vector);
}

/// Decodes an instruction word; `None` where it matches no known pattern.
pub fn decode(op: u16) -> (r: Option<Instruction>)
    ensures
        r == decoded(op),
        r matches Some(ins) ==> ins.wf(),
{
    proof {
        lemma_decoded_wf(op);
    }
    assert((op & 0x0f00) >> 8 < 16) by (bit_vector);
    assert((op & 0x00f0) >> 4 < 16) by (bit_vector);
    assert(op & 0x00ff < 256) by (bit_vector);
    assert(op & 0x000f < 16) by (bit_vector);
    let x = ((op & 0x0f00) >> 8) as u8;
    let y = ((op & 0x00f0) >> 4) as u8;
    let kk = (op & 0x00ff) as u8;
    let addr = op & 0x0fff;
    if op == 0x00e0 {
        Some(Instruction::Cls)
    } else if op == 0x00ee {
        Some(Instruction::Ret)
    } else if op & 0xf000 == 0x0000 {
        Some(Instruction::Sys { addr })
    } else if op & 0xf000 == 0x1000 {
        Some(Instruction::Jp { addr })
    } else if op & 0xf000 == 0x2000 {
        Some(Instruction::Call { addr })
    } else if op & 0xf000 == 0x3000 {
        Some(Instruction::SeByte { x, kk })
    } else if op & 0xf000 == 0x4000 {
        Some(Instruction::SneByte { x, kk })
    } else if op & 0xf00f == 0x5000 {
        Some(Instruction::SeReg { x, y })
    } else if op & 0xf000 == 0x6000 {
        Some(Instruction::LdByte { x, kk })
    } else if op & 0xf000 == 0x7000 {
        Some(Instruction::AddByte { x, kk })
    } else if op & 0xf00f == 0x8000 {
        Some(Instruction::LdReg { x, y })
    } else if op & 0xf00f == 0x8001 {
        Some(Instruction::Or { x, y })
    } else if op & 0xf00f == 0x8002 {
        Some(Instruction::And { x, y })
    } else if op & 0xf00f == 0x8003 {
        Some(Instruction::Xor { x, y })
    } else if op & 0xf00f == 0x8004 {
        Some(Instruction::AddReg { x, y })
    } else if op & 0xf00f == 0x8005 {
        Some(Instruction::Sub { x, y })
    } else if op & 0xf00f == 0x8006 {
        Some(Instruction::Shr { x, y })
    } else if op & 0xf00f == 0x8007 {
        Some(Instruction::Subn { x, y })
    } else if op & 0xf00f == 0x800e {
        Some(Instruction::Shl { x, y })
    } else if op & 0xf00f == 0x9000 {
        Some(Instruction::SneReg { x, y })
    } else if op & 0xf000 == 0xa000 {
        Some(Instruction::LdI { addr })
    } else if op & 0xf000 == 0xb000 {
        Some(Instruction::JpV0 { addr })
    } else if op & 0xf000 == 0xc000 {
        Some(Instruction::Rnd { x, kk })
    } else if op & 0xf000 == 0xd000 {
        Some(Instruction::Drw { x, y, n: (op & 0x000f) as u8 })
    } else if op & 0xf0ff == 0xe09e {
        Some(Instruction::Skp { x })
    } else if op & 0xf0ff == 0xe0a1 {
        Some(Instruction::Sknp { x })
    } else if op & 0xf0ff == 0xf007 {
        Some(Instruction::LdVxDt { x })
    } else if op & 0xf0ff == 0xf00a {
        Some(Instruction::LdVxK { x })
    } else if op & 0xf0ff == 0xf015 {
        Some(Instruction::LdDtVx { x })
    } else if op & 0xf0ff == 0xf018 {
        Some(Instruction::LdStVx { x })
    } else if op & 0xf0ff == 0xf01e {
        Some(Instruction::AddI { x })
    } else if op & 0xf0ff == 0xf029 {
        Some(Instruction::LdF { x })
    } else if op & 0xf0ff == 0xf033 {
        Some(Instruction::LdB { x })
    } else if op & 0xf0ff == 0xf055 {
        Some(Instruction::LdMemVx { x })
    } else if op & 0xf0ff == 0xf065 {
        Some(Instruction::LdVxMem { x })
    } else {
        None
    }
}

} // verus!
