//! Instruction decoding: maps a big-endian 2-byte instruction word to
//! exactly one operation of the CHIP-8 instruction set, or rejects it as
//! invalid. Operand fields (4-bit register indices, 8-bit immediates,
//! 4-bit counts and 12-bit addresses) are extracted here, so that the
//! execution engine can treat them as pre-validated.

use vstd::prelude::*;

verus! {

/// Fatal and load-time conditions of the virtual machine.
///
/// `InvalidOp` (decode-time) and `PcOutOfBounds`, `MemOutOfBounds`,
/// `StackOverflow` and `StackUnderflow` (execution-time) are fatal: no
/// well-defined state transition exists and the caller should halt or
/// reset the machine. `RomTooBig` is recoverable: the load is rejected
/// and the machine keeps its previous state. Exceeding 16 nested calls,
/// or returning with no call pending, is treated as fatal by this
/// implementation rather than silently wrapping the stack pointer.
#[derive(Clone, Copy, Debug, PartialEq, Eq, Structural)]
pub enum Error {
    /// No operation matches this instruction word; carries the raw bytes.
    InvalidOp(u8, u8),
    /// The program does not fit in memory above the load address.
    RomTooBig(usize),
    /// The program counter points past the last full instruction word.
    PcOutOfBounds(u16),
    /// A memory access through the index register falls outside memory.
    MemOutOfBounds(u16),
    /// A call was made with 16 return addresses already pending.
    StackOverflow(u16),
    /// A return was made with no call pending.
    StackUnderflow(u16),
    /// Reserved for debugging aids of the host.
    Debug,
}

/// One decoded operation, with its operand fields.
///
/// Register operands are 4-bit indices (always below 16), addresses are
/// 12 bits (below 0x1000) and sprite heights are 4 bits.
#[derive(Clone, Copy, Debug, PartialEq, Eq, Structural)]
pub enum Instr {
    /// 00E0: clear the display.
    ClearDisplay,
    /// 00EE: return from a subroutine.
    Return,
    /// 0nnn: legacy machine-code call; a no-op here.
    Sys(u16),
    /// 1nnn: jump to address.
    Jump(u16),
    /// 2nnn: call subroutine at address.
    Call(u16),
    /// 3xkk: skip next instruction if Vx == kk.
    SkipEqImm(u8, u8),
    /// 4xkk: skip next instruction if Vx != kk.
    SkipNeImm(u8, u8),
    /// 5xy0: skip next instruction if Vx == Vy.
    SkipEqReg(u8, u8),
    /// 9xy0: skip next instruction if Vx != Vy.
    SkipNeReg(u8, u8),
    /// 6xkk: Vx = kk.
    LoadImm(u8, u8),
    /// 7xkk: Vx = Vx + kk, without touching the flag register.
    AddImm(u8, u8),
    /// 8xy0: Vx = Vy.
    Assign(u8, u8),
    /// 8xy1: Vx = Vx | Vy.
    Or(u8, u8),
    /// 8xy2: Vx = Vx & Vy.
    And(u8, u8),
    /// 8xy3: Vx = Vx ^ Vy.
    Xor(u8, u8),
    /// 8xy4: Vx = Vx + Vy; VF = 1 on carry, else 0.
    AddReg(u8, u8),
    /// 8xy5: Vx = Vx - Vy; VF = 1 if no borrow, else 0.
    SubReg(u8, u8),
    /// 8xy6: VF = lowest bit of Vx, then Vx = Vx >> 1.
    ShiftRight(u8),
    /// 8xy7: Vx = Vy - Vx; VF = 1 if no borrow, else 0.
    SubRev(u8, u8),
    /// 8xyE: VF = highest bit of Vx, then Vx = Vx << 1.
    ShiftLeft(u8),
    /// Annn: I = nnn.
    LoadIndex(u16),
    /// Bnnn: jump to V0 + nnn.
    JumpPlusV0(u16),
    /// Cxkk: Vx = random byte & kk.
    Random(u8, u8),
    /// Dxyn: draw the n-byte sprite at memory I at position (Vx, Vy).
    Draw(u8, u8, u8),
    /// Ex9E: skip next instruction if the key with value Vx is pressed.
    SkipKey(u8),
    /// ExA1: skip next instruction if the key with value Vx is not pressed.
    SkipNoKey(u8),
    /// Fx07: Vx = delay timer.
    ReadDelay(u8),
    /// Fx0A: wait for a key press, store the key value in Vx.
    WaitKey(u8),
    /// Fx15: delay timer = Vx.
    SetDelay(u8),
    /// Fx18: sound timer = Vx.
    SetSound(u8),
    /// Fx1E: I = I + Vx.
    AddIndex(u8),
    /// Fx29: I = address of the built-in glyph for digit Vx.
    LoadGlyph(u8),
    /// Fx33: store the three decimal digits of Vx at I, I+1, I+2.
    StoreBcd(u8),
    /// Fx55: store V0..=Vx in memory starting at I.
    StoreRegs(u8),
    /// Fx65: load V0..=Vx from memory starting at I.
    LoadRegs(u8),
}

/// The low nibble of a byte.
pub open spec fn spec_lo_nib(b: u8) -> u8 {
    b & 0x0f
}

/// The high nibble of a byte, shifted down.
pub open spec fn spec_hi_nib(b: u8) -> u8 {
    (b & 0xf0) >> 4
}

/// The 12-bit address held in the low nibble of the first byte and the
/// whole second byte of an instruction word.
pub open spec fn spec_nnn(w0: u8, w1: u8) -> u16 {
    (((w0 & 0x0f) as u16) << 8) | (w1 as u16)
}

/// Returns the low nibble of a byte.
pub fn lo_nib(b: u8) -> (r: u8)
    ensures
        r == spec_lo_nib(b),
        r < 0x10,
{
    proof {
        assert(b & 0x0f < 0x10) by (bit_vector);
    }
    b & 0x0f
}

/// Returns the high nibble of a byte.
pub fn hi_nib(b: u8) -> (r: u8)
    ensures
        r == spec_hi_nib(b),
        r < 0x10,
{
    proof {
        assert((b & 0xf0) >> 4 < 0x10) by (bit_vector);
    }
    (b & 0xf0) >> 4
}

/// Returns the 12-bit address of an instruction word.
fn nnn(w0: u8, w1: u8) -> (r: u16)
    ensures
        r == spec_nnn(w0, w1),
        r < 0x1000,
{
    proof {
        assert((((w0 & 0x0f) as u16) << 8) | (w1 as u16) < 0x1000) by (bit_vector);
    }
    (((w0 & 0x0f) as u16) << 8) | (w1 as u16)
}

/// Every operand field of a decoded instruction is in range: register
/// indices are below 16, addresses below 0x1000, sprite heights below 16.
pub open spec fn instr_wf(i: Instr) -> bool {
    match i {
        Instr::ClearDisplay => true,
        Instr::Return => true,
        Instr::Sys(a) => a < 0x1000,
        Instr::Jump(a) => a < 0x1000,
        Instr::Call(a) => a < 0x1000,
        Instr::SkipEqImm(x, _kk) => x < 16,
        Instr::SkipNeImm(x, _kk) => x < 16,
        Instr::SkipEqReg(x, y) => x < 16 && y < 16,
        Instr::SkipNeReg(x, y) => x < 16 && y < 16,
        Instr::LoadImm(x, _kk) => x < 16,
        Instr::AddImm(x, _kk) => x < 16,
        Instr::Assign(x, y) => x < 16 && y < 16,
        Instr::Or(x, y) => x < 16 && y < 16,
        Instr::And(x, y) => x < 16 && y < 16,
        Instr::Xor(x, y) => x < 16 && y < 16,
        Instr::AddReg(x, y) => x < 16 && y < 16,
        Instr::SubReg(x, y) => x < 16 && y < 16,
        Instr::ShiftRight(x) => x < 16,
        Instr::SubRev(x, y) => x < 16 && y < 16,
        Instr::ShiftLeft(x) => x < 16,
        Instr::LoadIndex(a) => a < 0x1000,
        Instr::JumpPlusV0(a) => a < 0x1000,
        Instr::Random(x, _kk) => x < 16,
        Instr::Draw(x, y, n) => x < 16 && y < 16 && n < 16,
        Instr::SkipKey(x) => x < 16,
        Instr::SkipNoKey(x) => x < 16,
        Instr::ReadDelay(x) => x < 16,
        Instr::WaitKey(x) => x < 16,
        Instr::SetDelay(x) => x < 16,
        Instr::SetSound(x) => x < 16,
        Instr::AddIndex(x) => x < 16,
        Instr::LoadGlyph(x) => x < 16,
        Instr::StoreBcd(x) => x < 16,
        Instr::StoreRegs(x) => x < 16,
        Instr::LoadRegs(x) => x < 16,
    }
}

/// The opcode table: which operation a 2-byte instruction word selects.
///
/// The word is matched on its high nibble, then on the sub-opcode where
/// one exists. Exactly the words of the table decode; every other word
/// yields `InvalidOp` carrying the raw bytes.
pub open spec fn spec_decode(w0: u8, w1: u8) -> Result<Instr, Error> {
    let x = spec_lo_nib(w0);
    let y = spec_hi_nib(w1);
    let n = spec_lo_nib(w1);
    let a = spec_nnn(w0, w1);
    if w0 & 0xf0 == 0x00 {
        if w1 == 0xe0 {
            Ok(Instr::ClearDisplay)
        } else if w1 == 0xee {
            Ok(Instr::Return)
        } else {
            Ok(Instr::Sys(a))
        }
    } else if w0 & 0xf0 == 0x10 {
        Ok(Instr::Jump(a))
    } else if w0 & 0xf0 == 0x20 {
        Ok(Instr::Call(a))
    } else if w0 & 0xf0 == 0x30 {
        Ok(Instr::SkipEqImm(x, w1))
    } else if w0 & 0xf0 == 0x40 {
        Ok(Instr::SkipNeImm(x, w1))
    } else if w0 & 0xf0 == 0x50 {
        if n == 0x0 {
            Ok(Instr::SkipEqReg(x, y))
        } else {
            Err(Error::InvalidOp(w0, w1))
        }
    } else if w0 & 0xf0 == 0x60 {
        Ok(Instr::LoadImm(x, w1))
    } else if w0 & 0xf0 == 0x70 {
        Ok(Instr::AddImm(x, w1))
    } else if w0 & 0xf0 == 0x80 {
        if n == 0x0 {
            Ok(Instr::Assign(x, y))
        } else if n == 0x1 {
            Ok(Instr::Or(x, y))
        } else if n == 0x2 {
            Ok(Instr::And(x, y))
        } else if n == 0x3 {
            Ok(Instr::Xor(x, y))
        } else if n == 0x4 {
            Ok(Instr::AddReg(x, y))
        } else if n == 0x5 {
            Ok(Instr::SubReg(x, y))
        } else if n == 0x6 {
            Ok(Instr::ShiftRight(x))
        } else if n == 0x7 {
            Ok(Instr::SubRev(x, y))
        } else if n == 0xE {
            Ok(Instr::ShiftLeft(x))
        } else {
            Err(Error::InvalidOp(w0, w1))
        }
    } else if w0 & 0xf0 == 0x90 {
        if n == 0x0 {
            Ok(Instr::SkipNeReg(x, y))
        } else {
            Err(Error::InvalidOp(w0, w1))
        }
    } else if w0 & 0xf0 == 0xA0 {
        Ok(Instr::LoadIndex(a))
    } else if w0 & 0xf0 == 0xB0 {
        Ok(Instr::JumpPlusV0(a))
    } else if w0 & 0xf0 == 0xC0 {
        Ok(Instr::Random(x, w1))
    } else if w0 & 0xf0 == 0xD0 {
        Ok(Instr::Draw(x, y, n))
    } else if w0 & 0xf0 == 0xE0 {
        if w1 == 0x9E {
            Ok(Instr::SkipKey(x))
        } else if w1 == 0xA1 {
            Ok(Instr::SkipNoKey(x))
        } else {
            Err(Error::InvalidOp(w0, w1))
        }
    } else {
        if w1 == 0x07 {
            Ok(Instr::ReadDelay(x))
        } else if w1 == 0x0A {
            Ok(Instr::WaitKey(x))
        } else if w1 == 0x15 {
            Ok(Instr::SetDelay(x))
        } else if w1 == 0x18 {
            Ok(Instr::SetSound(x))
        } else if w1 == 0x1E {
            Ok(Instr::AddIndex(x))
        } else if w1 == 0x29 {
            Ok(Instr::LoadGlyph(x))
        } else if w1 == 0x33 {
            Ok(Instr::StoreBcd(x))
        } else if w1 == 0x55 {
            Ok(Instr::StoreRegs(x))
        } else if w1 == 0x65 {
            Ok(Instr::LoadRegs(x))
        } else {
            Err(Error::InvalidOp(w0, w1))
        }
    }
}

/// Decodes the big-endian instruction word `(w0, w1)`.
///
/// Selects exactly the operation of the opcode table, with its operand
/// fields extracted and in range; a word that matches no table entry is
/// rejected as `InvalidOp` carrying the raw bytes, and nothing else is
/// ever rejected.
pub fn decode(w0: u8, w1: u8) -> (r: Result<Instr, Error>)
    ensures
        r == spec_decode(w0, w1),
        r matches Ok(i) ==> instr_wf(i),
        r is Err <==> spec_decode(w0, w1) == Err::<Instr, Error>(Error::InvalidOp(w0, w1)),
{
    let x = lo_nib(w0);
    let y = hi_nib(w1);
    let n = lo_nib(w1);
    match w0 & 0xf0 {
        0x00 => match w1 {
            0xe0 => Ok(Instr::ClearDisplay),
            0xee => Ok(Instr::Return),
            _ => Ok(Instr::Sys(nnn(w0, w1))),
        },
        0x10 => Ok(Instr::Jump(nnn(w0, w1))),
        0x20 => Ok(Instr::Call(nnn(w0, w1))),
        0x30 => Ok(Instr::SkipEqImm(x, w1)),
        0x40 => Ok(Instr::SkipNeImm(x, w1)),
        0x50 => match n {
            0x0 => Ok(Instr::SkipEqReg(x, y)),
            _ => Err(Error::InvalidOp(w0, w1)),
        },
        0x60 => Ok(Instr::LoadImm(x, w1)),
        0x70 => Ok(Instr::AddImm(x, w1)),
        0x80 => match n {
            0x0 => Ok(Instr::Assign(x, y)),
            0x1 => Ok(Instr::Or(x, y)),
            0x2 => Ok(Instr::And(x, y)),
            0x3 => Ok(Instr::Xor(x, y)),
            0x4 => Ok(Instr::AddReg(x, y)),
            0x5 => Ok(Instr::SubReg(x, y)),
            0x6 => Ok(Instr::ShiftRight(x)),
            0x7 => Ok(Instr::SubRev(x, y)),
            0xE => Ok(Instr::ShiftLeft(x)),
            _ => Err(Error::InvalidOp(w0, w1)),
        },
        0x90 => match n {
            0x0 => Ok(Instr::SkipNeReg(x, y)),
            _ => Err(Error::InvalidOp(w0, w1)),
        },
        0xA0 => Ok(Instr::LoadIndex(nnn(w0, w1))),
        0xB0 => Ok(Instr::JumpPlusV0(nnn(w0, w1))),
        0xC0 => Ok(Instr::Random(x, w1)),
        0xD0 => Ok(Instr::Draw(x, y, n)),
        0xE0 => match w1 {
            0x9E => Ok(Instr::SkipKey(x)),
            0xA1 => Ok(Instr::SkipNoKey(x)),
            _ => Err(Error::InvalidOp(w0, w1)),
        },
        _ => match w1 {
            0x07 => Ok(Instr::ReadDelay(x)),
            0x0A => Ok(Instr::WaitKey(x)),
            0x15 => Ok(Instr::SetDelay(x)),
            0x18 => Ok(Instr::SetSound(x)),
            0x1E => Ok(Instr::AddIndex(x)),
            0x29 => Ok(Instr::LoadGlyph(x)),
            0x33 => Ok(Instr::StoreBcd(x)),
            0x55 => Ok(Instr::StoreRegs(x)),
            0x65 => Ok(Instr::LoadRegs(x)),
            _ => Err(Error::InvalidOp(w0, w1)),
        },
    }
}

} // verus!
