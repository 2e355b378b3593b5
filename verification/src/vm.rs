//! The machine state and its construction: memory with the built-in
//! hexadecimal glyph sprites, the register file, call stack, timers,
//! keypad mask and framebuffer.

use vstd::prelude::*;
use rand::rngs::SmallRng;
use crate::decode::Error;
use crate::rng::rng_from_seed;

verus! {

/// Width of the display in pixels; divisible by 8.
pub const SCREEN_WIDTH: usize = 64;

/// Height of the display in pixels.
pub const SCREEN_HEIGTH: usize = 32;

/// Size of the flat memory image in bytes.
pub const MEM_SIZE: usize = 0x1000;

/// Address at which a loaded program begins; memory below it holds the
/// built-in glyph sprites.
pub const ROM_ADDR: usize = 0x200;

/// Bytes in the packed framebuffer: one bit per pixel, 8 pixels per byte,
/// row-major.
pub const FB_SIZE: usize = 256;

/// Nominal frame period in microseconds (60 frames per second).
pub const FRAME_TIME: isize = 16666;

/// The largest time cost of any single operation, in microseconds: the
/// sprite draw. A frame may overshoot its budget by less than this.
pub const MAX_OP_COST: usize = 22734;

/// The smallest time cost of any single operation, in microseconds: the
/// register load.
pub const MIN_OP_COST: usize = 27;

/// The 16 general-purpose 8-bit registers V0..VF. VF doubles as the flag
/// output (carry, borrow, collision) of several operations.
pub struct Regs(pub Vec<u8>);

impl Regs {
    /// There are exactly 16 registers.
    pub open spec fn wf(&self) -> bool {
        self.0@.len() == 16
    }

    /// A fresh register file, all registers zero.
    pub fn new() -> (r: Regs)
        ensures
            r.wf(),
            r.0@ == Seq::new(16, |k: int| 0u8),
    {
        let mut v: Vec<u8> = Vec::new();
        let mut i: usize = 0;
        while i < 16
            invariant
                i <= 16,
                v@.len() == i,
                forall|k: int| 0 <= k < i ==> v@[k] == 0u8,
            decreases 16 - i,
        {
            v.push(0);
            i = i + 1;
        }
        proof {
            assert(v@ =~= Seq::new(16, |k: int| 0u8));
        }
        Regs(v)
    }

    /// Reads register `x`.
    pub fn get(&self, x: u8) -> (r: u8)
        requires
            self.wf(),
            x < 16,
        ensures
            r == self.0@[x as int],
    {
        self.0[x as usize]
    }

    /// Writes register `x`.
    pub fn set(&mut self, x: u8, val: u8)
        requires
            old(self).wf(),
            x < 16,
        ensures
            final(self).0@ == old(self).0@.update(x as int, val),
    {
        self.0.set(x as usize, val);
    }
}

/// The built-in sprites: 16 glyphs of 5 bytes each, for the hexadecimal
/// digits 0..F, stored from address 0 upward.
pub open spec fn glyph_seq() -> Seq<u8> {
    seq![
        0xF0u8, 0x90, 0x90, 0x90, 0xF0, // 0
        0x20, 0x60, 0x20, 0x20, 0x70, // 1
        0xF0, 0x10, 0xF0, 0x80, 0xF0, // 2
        0xF0, 0x10, 0xF0, 0x10, 0xF0, // 3
        0x90, 0x90, 0xF0, 0x10, 0x10, // 4
        0xF0, 0x80, 0xF0, 0x10, 0xF0, // 5
        0xF0, 0x80, 0xF0, 0x90, 0xF0, // 6
        0xF0, 0x10, 0x20, 0x40, 0x40, // 7
        0xF0, 0x90, 0xF0, 0x90, 0xF0, // 8
        0xF0, 0x90, 0xF0, 0x10, 0xF0, // 9
        0xF0, 0x90, 0xF0, 0x90, 0x90, // A
        0xE0, 0x90, 0xE0, 0x90, 0xE0, // B
        0xF0, 0x80, 0x80, 0x80, 0xF0, // C
        0xE0, 0x90, 0x90, 0x90, 0xE0, // D
        0xF0, 0x80, 0xF0, 0x80, 0xF0, // E
        0xF0, 0x80, 0xF0, 0x80, 0x80, // F
    ]
}

/// A zero-filled byte vector of length `n`.
fn zero_bytes(n: usize) -> (m: Vec<u8>)
    ensures
        m@.len() == n,
        forall|k: int| 0 <= k < n ==> m@[k] == 0u8,
{
    let mut m: Vec<u8> = Vec::new();
    let mut i: usize = 0;
    while i < n
        invariant
            i <= n,
            m@.len() == i,
            forall|k: int| 0 <= k < i ==> m@[k] == 0u8,
        decreases n - i,
    {
        m.push(0);
        i = i + 1;
    }
    m
}

/// What a frame step reports back to the host.
pub struct Output {
    /// Whether a tone should currently be audible.
    pub tone: bool,
    /// By how many microseconds the executed instructions overshot the
    /// nominal frame period; always less than one sprite-draw cost.
    pub overtime: usize,
}

/// The CHIP-8 virtual machine.
///
/// All state is created at construction, mutated exclusively by executing
/// instructions and stepping frames, and destroyed with the machine.
pub struct Chip8 {
    /// The flat memory image; addresses 0x000..0x200 hold the built-in
    /// glyph sprites, 0x200 upward holds the loaded program.
    pub mem: Vec<u8>,
    /// The register set V0..VF.
    pub v: Regs,
    /// The 16-bit index register I.
    pub i: u16,
    /// The program counter, word-aligned at 2-byte boundaries.
    pub pc: u16,
    /// Return addresses of pending calls; capacity 16.
    pub stack: Vec<u16>,
    /// The stack pointer: how many calls are pending, never above 16.
    pub sp: u8,
    /// The delay timer, decremented once per frame down to 0.
    pub dt: u8,
    /// The sound timer, decremented once per frame down to 0.
    pub st: u8,
    /// The 16-bit keypad mask, one bit per key 0x0..0xF, written by the
    /// host once per frame and read-only to the engine.
    pub keypad: u16,
    /// The packed monochrome framebuffer.
    pub fb: Vec<u8>,
    /// Whether a tone should currently be audible.
    pub tone: bool,
    /// Leftover time budget in microseconds; at most zero between frames,
    /// and strictly above the negated largest operation cost.
    pub time: isize,
    /// The seedable pseudo-random generator behind `Cxkk`.
    pub rng: SmallRng,
}

impl Chip8 {
    /// Structural well-formedness: every array has its fixed size and the
    /// stack pointer never exceeds the stack's capacity.
    pub open spec fn wf(&self) -> bool {
        &&& self.mem@.len() == MEM_SIZE
        &&& self.v.wf()
        &&& self.stack@.len() == 16
        &&& self.sp <= 16
        &&& self.fb@.len() == FB_SIZE
    }

    /// Builds a machine: memory zero-filled except for the built-in glyph
    /// region, registers, timers and stack zeroed, the program counter at
    /// the load address, and the random generator seeded with `seed`.
    pub fn new(seed: u64) -> (c: Chip8)
        ensures
            c.wf(),
            c.mem@.len() == MEM_SIZE,
            c.mem@.subrange(0, 80) == glyph_seq(),
            forall|k: int| 80 <= k < MEM_SIZE ==> c.mem@[k] == 0u8,
            c.v.0@ == Seq::new(16, |k: int| 0u8),
            c.i == 0,
            c.pc == ROM_ADDR,
            c.stack@ == Seq::new(16, |k: int| 0u16),
            c.sp == 0,
            c.dt == 0,
            c.st == 0,
            c.keypad == 0,
            c.fb@ == Seq::new(FB_SIZE as nat, |k: int| 0u8),
            c.tone == false,
            c.time == 0,
    {
        let glyphs: [u8; 80] = [
            0xF0, 0x90, 0x90, 0x90, 0xF0, // 0
            0x20, 0x60, 0x20, 0x20, 0x70, // 1
            0xF0, 0x10, 0xF0, 0x80, 0xF0, // 2
            0xF0, 0x10, 0xF0, 0x10, 0xF0, // 3
            0x90, 0x90, 0xF0, 0x10, 0x10, // 4
            0xF0, 0x80, 0xF0, 0x10, 0xF0, // 5
            0xF0, 0x80, 0xF0, 0x90, 0xF0, // 6
            0xF0, 0x10, 0x20, 0x40, 0x40, // 7
            0xF0, 0x90, 0xF0, 0x90, 0xF0, // 8
            0xF0, 0x90, 0xF0, 0x10, 0xF0, // 9
            0xF0, 0x90, 0xF0, 0x90, 0x90, // A
            0xE0, 0x90, 0xE0, 0x90, 0xE0, // B
            0xF0, 0x80, 0x80, 0x80, 0xF0, // C
            0xE0, 0x90, 0x90, 0x90, 0xE0, // D
            0xF0, 0x80, 0xF0, 0x80, 0xF0, // E
            0xF0, 0x80, 0xF0, 0x80, 0x80, // F
        ];
        let mut mem = zero_bytes(MEM_SIZE);
        let mut j: usize = 0;
        while j < 80
            invariant
                j <= 80,
                mem@.len() == MEM_SIZE,
                forall|k: int| 0 <= k < j ==> mem@[k] == glyphs@[k],
                forall|k: int| j <= k < MEM_SIZE ==> mem@[k] == 0u8,
            decreases 80 - j,
        {
            let b = glyphs[j];
            mem.set(j, b);
            j = j + 1;
        }
        proof {
            assert(glyphs@ =~= glyph_seq());
            assert(mem@.subrange(0, 80) =~= glyph_seq());
        }
        let mut stack: Vec<u16> = Vec::new();
        let mut i: usize = 0;
        while i < 16
            invariant
                i <= 16,
                stack@.len() == i,
                forall|k: int| 0 <= k < i ==> stack@[k] == 0u16,
            decreases 16 - i,
        {
            stack.push(0);
            i = i + 1;
        }
        let fb = zero_bytes(FB_SIZE);
        proof {
            assert(stack@ =~= Seq::new(16, |k: int| 0u16));
            assert(fb@ =~= Seq::new(FB_SIZE as nat, |k: int| 0u8));
        }
        Chip8 {
            mem,
            v: Regs::new(),
            i: 0,
            pc: ROM_ADDR as u16,
            stack,
            sp: 0,
            dt: 0,
            st: 0,
            keypad: 0,
            fb,
            tone: false,
            time: 0,
            rng: rng_from_seed(seed),
        }
    }

    /// Copies a program into memory starting at the load address.
    ///
    /// Succeeds exactly when the program fits between the load address and
    /// the end of memory; a program too large is rejected with `RomTooBig`
    /// and the machine is left unchanged.
    pub fn load_rom(&mut self, rom: &[u8]) -> (r: Result<(), Error>)
        requires
            old(self).wf(),
        ensures
            final(self).wf(),
            r is Ok <==> rom@.len() <= MEM_SIZE - ROM_ADDR,
            r is Ok ==> {
                &&& final(self).mem@.len() == MEM_SIZE
                &&& forall|k: int|
                    0 <= k < MEM_SIZE ==> final(self).mem@[k] == (if ROM_ADDR <= k < ROM_ADDR
                        + rom@.len() {
                        rom@[k - ROM_ADDR]
                    } else {
                        old(self).mem@[k]
                    })
                &&& *final(self) == (Chip8 { mem: final(self).mem, ..*old(self) })
            },
            r is Err ==> {
                &&& r == Err::<(), Error>(Error::RomTooBig(rom@.len() as usize))
                &&& *final(self) == *old(self)
            },
    {
        let n = rom.len();
        if n > MEM_SIZE - ROM_ADDR {
            return Err(Error::RomTooBig(n));
        }
        let mut j: usize = 0;
        while j < n
            invariant
                j <= n,
                n == rom@.len(),
                n <= MEM_SIZE - ROM_ADDR,
                self.mem@.len() == MEM_SIZE,
                forall|k: int|
                    0 <= k < MEM_SIZE ==> self.mem@[k] == (if ROM_ADDR <= k < ROM_ADDR + j {
                        rom@[k - ROM_ADDR]
                    } else {
                        old(self).mem@[k]
                    }),
                *self == (Chip8 { mem: self.mem, ..*old(self) }),
            decreases n - j,
        {
            let b = rom[j];
            self.mem.set(ROM_ADDR + j, b);
            j = j + 1;
        }
        Ok(())
    }

    /// Whether a tone must currently be played.
    pub fn tone(&self) -> (r: bool)
        ensures
            r == self.tone,
    {
        self.tone
    }

    /// The packed monochrome framebuffer, for the host to rasterize.
    pub fn fb(&self) -> (r: &Vec<u8>)
        ensures
            r@ == self.fb@,
    {
        &self.fb
    }
}

} // verus!
