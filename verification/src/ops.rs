//! The state-mutating operations of the instruction set, each a pure
//! state transition returning its fixed elapsed-time cost in
//! microseconds, and the relations that describe their exact effect.
//!
//! The program-counter advance is intrinsic to each operation: sequential
//! operations advance by 2, taken skips by 4, and jump, call and return
//! overwrite the counter entirely.

use vstd::prelude::*;
use crate::decode::lo_nib;
use crate::rng::rng_next_u32;
use crate::vm::Chip8;
use crate::vm::MEM_SIZE;
use crate::vm::FB_SIZE;

verus! {

/// Display clear: the framebuffer is zeroed.
pub open spec fn cls_rel(pre: Chip8, post: Chip8) -> bool {
    &&& post.fb@ == Seq::new(pre.fb@.len(), |k: int| 0u8)
    &&& post == (Chip8 { fb: post.fb, pc: ((pre.pc + 2) as u16), ..pre })
}

/// Return from a subroutine: the program counter is restored from the
/// topmost pending return address, which is popped.
pub open spec fn ret_rel(pre: Chip8, post: Chip8) -> bool {
    post == (Chip8 { pc: pre.stack@[pre.sp - 1], sp: ((pre.sp - 1) as u8), ..pre })
}

/// Jump: the program counter is overwritten with `addr`.
pub open spec fn jp_rel(pre: Chip8, post: Chip8, addr: u16) -> bool {
    post == (Chip8 { pc: addr, ..pre })
}

/// Call: the address of the next instruction is pushed and the program
/// counter is overwritten with `addr`.
pub open spec fn call_rel(pre: Chip8, post: Chip8, addr: u16) -> bool {
    &&& post.stack@ == pre.stack@.update(pre.sp as int, ((pre.pc + 2) as u16))
    &&& post == (Chip8 {
        stack: post.stack,
        sp: ((pre.sp + 1) as u8),
        pc: addr,
        ..pre
    })
}

/// Conditional skip: the program counter advances by 4 when `a == b`
/// matches the sense `when_eq`, else by 2.
pub open spec fn skip_rel(pre: Chip8, post: Chip8, a: u8, b: u8, when_eq: bool) -> bool {
    post == (Chip8 {
        pc: (if (a == b) == when_eq {
            ((pre.pc + 4) as u16)
        } else {
            ((pre.pc + 2) as u16)
        }),
        ..pre
    })
}

/// Register load: Vx is set to `val`.
pub open spec fn ld_rel(pre: Chip8, post: Chip8, x: u8, val: u8) -> bool {
    &&& post.v.0@ == pre.v.0@.update(x as int, val)
    &&& post == (Chip8 { v: post.v, pc: ((pre.pc + 2) as u16), ..pre })
}

/// Addition: Vx becomes (Vx + b) mod 256; when `set_vf` holds, VF is then
/// set to 1 exactly when the unsigned sum exceeds 255, else to 0.
pub open spec fn add_rel(pre: Chip8, post: Chip8, x: u8, b: u8, set_vf: bool) -> bool {
    let sum = pre.v.0@[x as int] + b;
    let res = (sum % 256) as u8;
    let carry: u8 = if sum > 255 {
        1
    } else {
        0
    };
    &&& post.v.0@ == (if set_vf {
        pre.v.0@.update(x as int, res).update(15, carry)
    } else {
        pre.v.0@.update(x as int, res)
    })
    &&& post == (Chip8 { v: post.v, pc: ((pre.pc + 2) as u16), ..pre })
}

/// Subtraction: Vx becomes (Vx - b) mod 256 and VF is then set to 1
/// exactly when Vx >= b (no borrow), else to 0.
pub open spec fn sub_rel(pre: Chip8, post: Chip8, x: u8, b: u8) -> bool {
    let vx = pre.v.0@[x as int];
    let res = ((vx - b) % 256) as u8;
    let no_borrow: u8 = if vx >= b {
        1
    } else {
        0
    };
    &&& post.v.0@ == pre.v.0@.update(x as int, res).update(15, no_borrow)
    &&& post == (Chip8 { v: post.v, pc: ((pre.pc + 2) as u16), ..pre })
}

/// Reversed subtraction: Vx becomes (b - Vx) mod 256 and VF is then set
/// to 1 exactly when b >= Vx (no borrow), else to 0.
pub open spec fn subn_rel(pre: Chip8, post: Chip8, x: u8, b: u8) -> bool {
    let vx = pre.v.0@[x as int];
    let res = ((b - vx) % 256) as u8;
    let no_borrow: u8 = if b >= vx {
        1
    } else {
        0
    };
    &&& post.v.0@ == pre.v.0@.update(x as int, res).update(15, no_borrow)
    &&& post == (Chip8 { v: post.v, pc: ((pre.pc + 2) as u16), ..pre })
}

/// Bitwise OR: Vx becomes Vx | b.
pub open spec fn or_rel(pre: Chip8, post: Chip8, x: u8, b: u8) -> bool {
    &&& post.v.0@ == pre.v.0@.update(x as int, pre.v.0@[x as int] | b)
    &&& post == (Chip8 { v: post.v, pc: ((pre.pc + 2) as u16), ..pre })
}

/// Bitwise AND: Vx becomes Vx & b.
pub open spec fn and_rel(pre: Chip8, post: Chip8, x: u8, b: u8) -> bool {
    &&& post.v.0@ == pre.v.0@.update(x as int, pre.v.0@[x as int] & b)
    &&& post == (Chip8 { v: post.v, pc: ((pre.pc + 2) as u16), ..pre })
}

/// Bitwise XOR: Vx becomes Vx ^ b.
pub open spec fn xor_rel(pre: Chip8, post: Chip8, x: u8, b: u8) -> bool {
    &&& post.v.0@ == pre.v.0@.update(x as int, pre.v.0@[x as int] ^ b)
    &&& post == (Chip8 { v: post.v, pc: ((pre.pc + 2) as u16), ..pre })
}

/// Shift right: VF is first set to the least-significant bit of Vx, then
/// Vx (read after that flag write, as on the reference machine) is
/// halved. For x = 15 the flag write is therefore what is shifted.
pub open spec fn shr_rel(pre: Chip8, post: Chip8, x: u8) -> bool {
    let mid = pre.v.0@.update(15, pre.v.0@[x as int] & 1);
    &&& post.v.0@ == mid.update(x as int, mid[x as int] >> 1u8)
    &&& post == (Chip8 { v: post.v, pc: ((pre.pc + 2) as u16), ..pre })
}

/// Shift left: VF is first set to the most-significant bit of Vx, then
/// Vx (read after that flag write, as on the reference machine) is
/// doubled modulo 256.
pub open spec fn shl_rel(pre: Chip8, post: Chip8, x: u8) -> bool {
    let mid = pre.v.0@.update(15, (pre.v.0@[x as int] & 0x80) >> 7u8);
    &&& post.v.0@ == mid.update(x as int, mid[x as int] << 1u8)
    &&& post == (Chip8 { v: post.v, pc: ((pre.pc + 2) as u16), ..pre })
}

/// Index register load: I is set to `addr`.
pub open spec fn ldi_rel(pre: Chip8, post: Chip8, addr: u16) -> bool {
    post == (Chip8 { i: addr, pc: ((pre.pc + 2) as u16), ..pre })
}

/// Index register add: I becomes (I + b) mod 2^16. The wraparound is this
/// implementation's explicit policy for the 16-bit index register.
pub open spec fn addi_rel(pre: Chip8, post: Chip8, b: u8) -> bool {
    post == (Chip8 { i: (((pre.i + b) % 0x10000) as u16), pc: ((pre.pc + 2) as u16), ..pre })
}

/// Glyph address load: I is set to the address of the built-in 5-byte
/// sprite for digit `val`.
pub open spec fn ldf_rel(pre: Chip8, post: Chip8, val: u8) -> bool {
    post == (Chip8 { i: ((val * 5) as u16), pc: ((pre.pc + 2) as u16), ..pre })
}

/// Delay timer write.
pub open spec fn lddt_rel(pre: Chip8, post: Chip8, val: u8) -> bool {
    post == (Chip8 { dt: val, pc: ((pre.pc + 2) as u16), ..pre })
}

/// Sound timer write.
pub open spec fn ldst_rel(pre: Chip8, post: Chip8, val: u8) -> bool {
    post == (Chip8 { st: val, pc: ((pre.pc + 2) as u16), ..pre })
}

/// BCD store: the three decimal digits of `val`, most significant first,
/// are stored at I, I+1 and I+2.
pub open spec fn bcd_rel(pre: Chip8, post: Chip8, val: u8) -> bool {
    &&& post.mem@ == pre.mem@.update(pre.i as int, val / 100).update(
        pre.i + 1,
        (val / 10) % 10,
    ).update(pre.i + 2, val % 10)
    &&& post == (Chip8 { mem: post.mem, pc: ((pre.pc + 2) as u16), ..pre })
}

/// Register block store: V0..=Vx are copied to memory at I onward.
pub open spec fn store_regs_rel(pre: Chip8, post: Chip8, x: u8) -> bool {
    &&& post.mem@.len() == pre.mem@.len()
    &&& forall|t: int|
        0 <= t < pre.mem@.len() ==> post.mem@[t] == (if pre.i <= t <= pre.i + x {
            pre.v.0@[t - pre.i]
        } else {
            pre.mem@[t]
        })
    &&& post == (Chip8 { mem: post.mem, pc: ((pre.pc + 2) as u16), ..pre })
}

/// Register block load: V0..=Vx are read from memory at I onward; the
/// remaining registers keep their values.
pub open spec fn load_regs_rel(pre: Chip8, post: Chip8, x: u8) -> bool {
    &&& post.v.0@.len() == 16
    &&& forall|t: int|
        0 <= t < 16 ==> post.v.0@[t] == (if t <= x {
            pre.mem@[pre.i + t]
        } else {
            pre.v.0@[t]
        })
    &&& post == (Chip8 { v: post.v, pc: ((pre.pc + 2) as u16), ..pre })
}

/// The keypad bit tested for a register value: key indices are taken
/// modulo 16, the low nibble of the value.
pub open spec fn key_mask(val: u8) -> u16 {
    1u16 << ((val & 0x0f) as u16)
}

/// Whether the key selected by `val` is pressed in keypad mask `k`.
pub open spec fn key_pressed(k: u16, val: u8) -> bool {
    key_mask(val) & k != 0
}

/// The lowest pressed key index at or above `idx`, scanning upward to 15.
pub open spec fn first_key_from(k: u16, idx: int) -> Option<u8>
    decreases 16 - idx,
{
    if idx < 0 || idx >= 16 {
        None
    } else if (1u16 << (idx as u16)) & k != 0 {
        Some(idx as u8)
    } else {
        first_key_from(k, idx + 1)
    }
}

/// Key wait: when some key is pressed, the lowest pressed key index is
/// stored in Vx and the program counter advances; with no key pressed
/// nothing changes, so the instruction re-executes on the next cycle.
pub open spec fn ldk_rel(pre: Chip8, post: Chip8, x: u8) -> bool {
    match first_key_from(pre.keypad, 0) {
        Some(idx) => {
            &&& post.v.0@ == pre.v.0@.update(x as int, idx)
            &&& post == (Chip8 { v: post.v, pc: ((pre.pc + 2) as u16), ..pre })
        },
        None => post == pre,
    }
}

/// Random byte: Vx becomes some byte masked with `kk`; every field but
/// Vx, the program counter and the generator state is unchanged.
pub open spec fn rnd_rel(pre: Chip8, post: Chip8, x: u8, kk: u8) -> bool {
    &&& exists|rb: u8| post.v.0@ == pre.v.0@.update(x as int, rb & kk)
    &&& post == (Chip8 { v: post.v, pc: ((pre.pc + 2) as u16), rng: post.rng, ..pre })
}

/// The effect of blitting one sprite row byte into the framebuffer: an
/// XOR into the byte column `col_a` of row `y`, and, when the x position
/// is not byte-aligned, a second XOR of the bits shifted out into the
/// next byte column `col_b` (which wraps to column 0 past the right
/// edge).
pub open spec fn draw_row_fb(fb: Seq<u8>, byte: u8, y: int, col_a: int, col_b: int, shift: u8) -> Seq<u8> {
    let ia = y * 8 + col_a;
    let a = byte >> shift;
    let fb1 = fb.update(ia, fb[ia] ^ a);
    if shift == 0 {
        fb1
    } else {
        let ib = y * 8 + col_b;
        let b = byte << ((8 - shift) as u8);
        fb1.update(ib, fb1[ib] ^ b)
    }
}

/// The collision accumulator after blitting one sprite row byte: the
/// previous accumulator ORed with the pre-XOR overlap of each written
/// framebuffer byte and its incoming contribution.
pub open spec fn draw_row_col(acc: u8, fb: Seq<u8>, byte: u8, y: int, col_a: int, col_b: int, shift: u8) -> u8 {
    let ia = y * 8 + col_a;
    let a = byte >> shift;
    let acc1 = acc | (fb[ia] & a);
    if shift == 0 {
        acc1
    } else {
        let ib = y * 8 + col_b;
        let b = byte << ((8 - shift) as u8);
        acc1 | (fb[ib] & b)
    }
}

/// The framebuffer after blitting the first `rows` rows of the sprite at
/// memory index `i` to position (`px`, `py`); rows wrap modulo the
/// screen height.
pub open spec fn draw_fb(fb0: Seq<u8>, mem: Seq<u8>, i: int, px: int, py: int, rows: int) -> Seq<u8>
    decreases rows,
{
    if rows <= 0 {
        fb0
    } else {
        let prev = draw_fb(fb0, mem, i, px, py, rows - 1);
        draw_row_fb(
            prev,
            mem[i + rows - 1],
            (py + rows - 1) % 32,
            px / 8,
            (px / 8 + 1) % 8,
            ((px % 8) as u8),
        )
    }
}

/// The collision accumulator after blitting the first `rows` rows.
pub open spec fn draw_col(fb0: Seq<u8>, mem: Seq<u8>, i: int, px: int, py: int, rows: int) -> u8
    decreases rows,
{
    if rows <= 0 {
        0u8
    } else {
        let prev = draw_fb(fb0, mem, i, px, py, rows - 1);
        draw_row_col(
            draw_col(fb0, mem, i, px, py, rows - 1),
            prev,
            mem[i + rows - 1],
            (py + rows - 1) % 32,
            px / 8,
            (px / 8 + 1) % 8,
            ((px % 8) as u8),
        )
    }
}

/// Sprite draw: the n-byte sprite at memory index I is blitted by XOR to
/// position (Vx mod 64, Vy mod 32), wrapping at the screen edges; VF is
/// then set to 1 exactly when some blitted bit toggled a lit pixel off.
pub open spec fn drw_rel(pre: Chip8, post: Chip8, vx: u8, vy: u8, n: u8) -> bool {
    let px = (vx % 64) as int;
    let py = (vy % 32) as int;
    let col = draw_col(pre.fb@, pre.mem@, pre.i as int, px, py, n as int);
    &&& post.fb@ == draw_fb(pre.fb@, pre.mem@, pre.i as int, px, py, n as int)
    &&& post.v.0@ == pre.v.0@.update(15, if col != 0 { 1u8 } else { 0u8 })
    &&& post == (Chip8 { fb: post.fb, v: post.v, pc: ((pre.pc + 2) as u16), ..pre })
}

impl Chip8 {
    /// Op: draw the `n`-byte sprite at memory location I at position
    /// (`pos_x`, `pos_y`), wrapping modulo the screen size, and set VF to
    /// 1 exactly when the sprite collided with a lit pixel.
    pub(crate) fn op_drw(&mut self, pos_x: u8, pos_y: u8, n: u8) -> (adv: usize)
        requires
            old(self).wf(),
            old(self).pc + 4 <= u16::MAX,
            old(self).i + n <= MEM_SIZE,
        ensures
            final(self).wf(),
            drw_rel(*old(self), *final(self), pos_x, pos_y, n),
            adv == 22734,
    {
        let pos_x = pos_x % 64;
        let pos_y = pos_y % 32;
        let shift = pos_x % 8;
        let col_a = (pos_x / 8) as usize;
        let col_b = (col_a + 1) % 8;
        let base = self.i as usize;
        let ghost px = pos_x as int;
        let ghost py = pos_y as int;
        let mut collision: u8 = 0;
        let mut row: usize = 0;
        while row < n as usize
            invariant
                old(self).wf(),
                old(self).i + n <= MEM_SIZE,
                row <= n as usize,
                base == old(self).i as usize,
                px == pos_x as int,
                py == pos_y as int,
                pos_x < 64,
                pos_y < 32,
                shift == (px % 8) as u8,
                col_a == px / 8,
                col_b == (px / 8 + 1) % 8,
                self.fb@.len() == FB_SIZE,
                self.fb@ == draw_fb(old(self).fb@, old(self).mem@, base as int, px, py, row as int),
                collision == draw_col(old(self).fb@, old(self).mem@, base as int, px, py, row as int),
                *self == (Chip8 { fb: self.fb, ..*old(self) }),
            decreases n as usize - row,
        {
            let byte = self.mem[base + row];
            let y = (pos_y as usize + row) % 32;
            let a = byte >> shift;
            let ia = y * 8 + col_a;
            let fa = self.fb[ia];
            collision = collision | (fa & a);
            self.fb.set(ia, fa ^ a);
            if shift != 0 {
                let b = byte << (8 - shift);
                let ib = y * 8 + col_b;
                let fbv = self.fb[ib];
                collision = collision | (fbv & b);
                self.fb.set(ib, fbv ^ b);
            }
            row = row + 1;
        }
        let flag: u8 = if collision != 0 {
            1
        } else {
            0
        };
        self.v.set(15, flag);
        self.pc = self.pc + 2;
        22734
    }
}

impl Chip8 {
    /// Op: clear the display.
    pub(crate) fn op_cls(&mut self) -> (adv: usize)
        requires
            old(self).wf(),
            old(self).pc + 4 <= u16::MAX,
        ensures
            final(self).wf(),
            cls_rel(*old(self), *final(self)),
            adv == 109,
    {
        let mut k: usize = 0;
        while k < FB_SIZE
            invariant
                old(self).wf(),
                k <= FB_SIZE,
                self.fb@.len() == old(self).fb@.len(),
                old(self).fb@.len() == FB_SIZE,
                forall|t: int| 0 <= t < k ==> self.fb@[t] == 0u8,
                forall|t: int| k <= t < FB_SIZE ==> self.fb@[t] == old(self).fb@[t],
                *self == (Chip8 { fb: self.fb, ..*old(self) }),
            decreases FB_SIZE - k,
        {
            self.fb.set(k, 0);
            k = k + 1;
        }
        self.pc = self.pc + 2;
        proof {
            assert(self.fb@ =~= Seq::new(old(self).fb@.len(), |t: int| 0u8));
        }
        109
    }

    /// Op: legacy machine-code call; a no-op on this machine.
    pub(crate) fn op_call_rca_1802(&mut self, _addr: u16) -> (adv: usize)
        ensures
            *final(self) == *old(self),
            adv == 100,
    {
        100
    }

    /// Op: return from a subroutine.
    pub(crate) fn op_ret(&mut self) -> (adv: usize)
        requires
            old(self).wf(),
            old(self).sp >= 1,
        ensures
            final(self).wf(),
            ret_rel(*old(self), *final(self)),
            adv == 105,
    {
        self.sp = self.sp - 1;
        self.pc = self.stack[self.sp as usize];
        105
    }

    /// Op: jump to `addr`.
    pub(crate) fn op_jp(&mut self, addr: u16) -> (adv: usize)
        requires
            old(self).wf(),
        ensures
            final(self).wf(),
            jp_rel(*old(self), *final(self), addr),
            adv == 105,
    {
        self.pc = addr;
        105
    }

    /// Op: call the subroutine at `addr`.
    pub(crate) fn op_call(&mut self, addr: u16) -> (adv: usize)
        requires
            old(self).wf(),
            old(self).sp < 16,
            old(self).pc + 4 <= u16::MAX,
        ensures
            final(self).wf(),
            call_rel(*old(self), *final(self), addr),
            adv == 105,
    {
        let ret = self.pc + 2;
        self.stack.set(self.sp as usize, ret);
        self.sp = self.sp + 1;
        self.pc = addr;
        105
    }

    /// Op: skip the next instruction if `a == b`.
    pub(crate) fn op_se(&mut self, a: u8, b: u8) -> (adv: usize)
        requires
            old(self).wf(),
            old(self).pc + 4 <= u16::MAX,
        ensures
            final(self).wf(),
            skip_rel(*old(self), *final(self), a, b, true),
            adv == 61,
    {
        if a == b {
            self.pc = self.pc + 4;
        } else {
            self.pc = self.pc + 2;
        }
        61
    }

    /// Op: skip the next instruction if `a != b`.
    pub(crate) fn op_sne(&mut self, a: u8, b: u8) -> (adv: usize)
        requires
            old(self).wf(),
            old(self).pc + 4 <= u16::MAX,
        ensures
            final(self).wf(),
            skip_rel(*old(self), *final(self), a, b, false),
            adv == 61,
    {
        if a != b {
            self.pc = self.pc + 4;
        } else {
            self.pc = self.pc + 2;
        }
        61
    }

    /// Op: set Vx to `val`.
    pub(crate) fn op_ld(&mut self, x: u8, val: u8) -> (adv: usize)
        requires
            old(self).wf(),
            x < 16,
            old(self).pc + 4 <= u16::MAX,
        ensures
            final(self).wf(),
            ld_rel(*old(self), *final(self), x, val),
            adv == 27,
    {
        self.v.set(x, val);
        self.pc = self.pc + 2;
        27
    }

    /// Op: wait for a key press, storing the lowest pressed key index in
    /// Vx; the program counter only advances once a key is pressed.
    pub(crate) fn op_ld_vx_k(&mut self, x: u8) -> (adv: usize)
        requires
            old(self).wf(),
            x < 16,
            old(self).pc + 4 <= u16::MAX,
        ensures
            final(self).wf(),
            ldk_rel(*old(self), *final(self), x),
            adv == 200,
    {
        match first_pressed(self.keypad) {
            Some(idx) => {
                self.v.set(x, idx);
                self.pc = self.pc + 2;
            },
            None => {},
        }
        200
    }

    /// Op: set the delay timer to `val`.
    pub(crate) fn op_ld_dt(&mut self, val: u8) -> (adv: usize)
        requires
            old(self).wf(),
            old(self).pc + 4 <= u16::MAX,
        ensures
            final(self).wf(),
            lddt_rel(*old(self), *final(self), val),
            adv == 45,
    {
        self.dt = val;
        self.pc = self.pc + 2;
        45
    }

    /// Op: set the sound timer to `val`.
    pub(crate) fn op_ld_st(&mut self, val: u8) -> (adv: usize)
        requires
            old(self).wf(),
            old(self).pc + 4 <= u16::MAX,
        ensures
            final(self).wf(),
            ldst_rel(*old(self), *final(self), val),
            adv == 45,
    {
        self.st = val;
        self.pc = self.pc + 2;
        45
    }

    /// Op: set I to the address of the built-in glyph sprite for `val`.
    pub(crate) fn op_ld_f(&mut self, val: u8) -> (adv: usize)
        requires
            old(self).wf(),
            old(self).pc + 4 <= u16::MAX,
        ensures
            final(self).wf(),
            ldf_rel(*old(self), *final(self), val),
            adv == 91,
    {
        self.i = (val as u16) * 5;
        self.pc = self.pc + 2;
        91
    }

    /// Op: store the BCD decomposition of `val` at I, I+1 and I+2, most
    /// significant digit first.
    pub(crate) fn op_ld_b(&mut self, val: u8) -> (adv: usize)
        requires
            old(self).wf(),
            old(self).pc + 4 <= u16::MAX,
            old(self).i + 3 <= MEM_SIZE,
        ensures
            final(self).wf(),
            bcd_rel(*old(self), *final(self), val),
            adv == 927,
    {
        let d2 = val / 100;
        let d1 = (val / 10) % 10;
        let d0 = val % 10;
        let base = self.i as usize;
        self.mem.set(base, d2);
        self.mem.set(base + 1, d1);
        self.mem.set(base + 2, d0);
        self.pc = self.pc + 2;
        927
    }

    /// Op: store registers V0..=Vx in memory starting at I.
    pub(crate) fn op_ld_i_vx(&mut self, x: u8) -> (adv: usize)
        requires
            old(self).wf(),
            x < 16,
            old(self).pc + 4 <= u16::MAX,
            old(self).i + x + 1 <= MEM_SIZE,
        ensures
            final(self).wf(),
            store_regs_rel(*old(self), *final(self), x),
            adv == 605,
    {
        let base = self.i as usize;
        let mut k: usize = 0;
        while k < x as usize + 1
            invariant
                old(self).wf(),
                x < 16,
                old(self).i + x + 1 <= MEM_SIZE,
                k <= x as usize + 1,
                base == old(self).i as usize,
                self.mem@.len() == old(self).mem@.len(),
                forall|t: int|
                    0 <= t < old(self).mem@.len() ==> self.mem@[t] == (if base <= t < base + k {
                        old(self).v.0@[t - base]
                    } else {
                        old(self).mem@[t]
                    }),
                *self == (Chip8 { mem: self.mem, ..*old(self) }),
            decreases x as usize + 1 - k,
        {
            let b = self.v.get(k as u8);
            self.mem.set(base + k, b);
            k = k + 1;
        }
        self.pc = self.pc + 2;
        605
    }

    /// Op: load registers V0..=Vx from memory starting at I.
    pub(crate) fn op_ld_vx_i(&mut self, x: u8) -> (adv: usize)
        requires
            old(self).wf(),
            x < 16,
            old(self).pc + 4 <= u16::MAX,
            old(self).i + x + 1 <= MEM_SIZE,
        ensures
            final(self).wf(),
            load_regs_rel(*old(self), *final(self), x),
            adv == 605,
    {
        let base = self.i as usize;
        let mut k: usize = 0;
        while k < x as usize + 1
            invariant
                old(self).wf(),
                x < 16,
                old(self).i + x + 1 <= MEM_SIZE,
                k <= x as usize + 1,
                base == old(self).i as usize,
                self.v.0@.len() == 16,
                forall|t: int|
                    0 <= t < 16 ==> self.v.0@[t] == (if t < k {
                        old(self).mem@[base + t]
                    } else {
                        old(self).v.0@[t]
                    }),
                *self == (Chip8 { v: self.v, ..*old(self) }),
            decreases x as usize + 1 - k,
        {
            let b = self.mem[base + k];
            self.v.set(k as u8, b);
            k = k + 1;
        }
        self.pc = self.pc + 2;
        605
    }

    /// Op: add `b` to Vx modulo 256; when `set_overflow` holds, VF is
    /// then set to 1 exactly on unsigned overflow.
    pub(crate) fn op_add(&mut self, x: u8, b: u8, set_overflow: bool) -> (adv: usize)
        requires
            old(self).wf(),
            x < 16,
            old(self).pc + 4 <= u16::MAX,
        ensures
            final(self).wf(),
            add_rel(*old(self), *final(self), x, b, set_overflow),
            adv == 45,
    {
        let vx = self.v.get(x);
        let res = vx.wrapping_add(b);
        self.v.set(x, res);
        if set_overflow {
            let carry: u8 = if (vx as u16) + (b as u16) > 255 {
                1
            } else {
                0
            };
            self.v.set(15, carry);
        }
        self.pc = self.pc + 2;
        45
    }

    /// Op: add `b` to the index register, wrapping modulo 2^16.
    pub(crate) fn op_add16(&mut self, b: u8) -> (adv: usize)
        requires
            old(self).wf(),
            old(self).pc + 4 <= u16::MAX,
        ensures
            final(self).wf(),
            addi_rel(*old(self), *final(self), b),
            adv == 86,
    {
        self.i = self.i.wrapping_add(b as u16);
        self.pc = self.pc + 2;
        86
    }

    /// Op: OR `b` into Vx.
    pub(crate) fn op_or(&mut self, x: u8, b: u8) -> (adv: usize)
        requires
            old(self).wf(),
            x < 16,
            old(self).pc + 4 <= u16::MAX,
        ensures
            final(self).wf(),
            or_rel(*old(self), *final(self), x, b),
            adv == 200,
    {
        let vx = self.v.get(x);
        self.v.set(x, vx | b);
        self.pc = self.pc + 2;
        200
    }

    /// Op: AND `b` into Vx.
    pub(crate) fn op_and(&mut self, x: u8, b: u8) -> (adv: usize)
        requires
            old(self).wf(),
            x < 16,
            old(self).pc + 4 <= u16::MAX,
        ensures
            final(self).wf(),
            and_rel(*old(self), *final(self), x, b),
            adv == 200,
    {
        let vx = self.v.get(x);
        self.v.set(x, vx & b);
        self.pc = self.pc + 2;
        200
    }

    /// Op: XOR `b` into Vx.
    pub(crate) fn op_xor(&mut self, x: u8, b: u8) -> (adv: usize)
        requires
            old(self).wf(),
            x < 16,
            old(self).pc + 4 <= u16::MAX,
        ensures
            final(self).wf(),
            xor_rel(*old(self), *final(self), x, b),
            adv == 200,
    {
        let vx = self.v.get(x);
        self.v.set(x, vx ^ b);
        self.pc = self.pc + 2;
        200
    }

    /// Op: subtract `b` from Vx modulo 256; VF is then set to 1 exactly
    /// when no borrow occurred.
    pub(crate) fn op_sub(&mut self, x: u8, b: u8) -> (adv: usize)
        requires
            old(self).wf(),
            x < 16,
            old(self).pc + 4 <= u16::MAX,
        ensures
            final(self).wf(),
            sub_rel(*old(self), *final(self), x, b),
            adv == 200,
    {
        let vx = self.v.get(x);
        let res = vx.wrapping_sub(b);
        self.v.set(x, res);
        let no_borrow: u8 = if vx >= b {
            1
        } else {
            0
        };
        self.v.set(15, no_borrow);
        self.pc = self.pc + 2;
        200
    }

    /// Op: set Vx to `b` minus Vx modulo 256; VF is then set to 1 exactly
    /// when no borrow occurred.
    pub(crate) fn op_subn(&mut self, x: u8, b: u8) -> (adv: usize)
        requires
            old(self).wf(),
            x < 16,
            old(self).pc + 4 <= u16::MAX,
        ensures
            final(self).wf(),
            subn_rel(*old(self), *final(self), x, b),
            adv == 200,
    {
        let vx = self.v.get(x);
        let res = b.wrapping_sub(vx);
        self.v.set(x, res);
        let no_borrow: u8 = if b >= vx {
            1
        } else {
            0
        };
        self.v.set(15, no_borrow);
        self.pc = self.pc + 2;
        200
    }

    /// Op: shift Vx right by one; VF is first set to the bit shifted out.
    pub(crate) fn op_shr(&mut self, x: u8) -> (adv: usize)
        requires
            old(self).wf(),
            x < 16,
            old(self).pc + 4 <= u16::MAX,
        ensures
            final(self).wf(),
            shr_rel(*old(self), *final(self), x),
            adv == 200,
    {
        let vx = self.v.get(x);
        self.v.set(15, vx & 1);
        let cur = self.v.get(x);
        self.v.set(x, cur >> 1u8);
        self.pc = self.pc + 2;
        200
    }

    /// Op: shift Vx left by one; VF is first set to the bit shifted out.
    pub(crate) fn op_shl(&mut self, x: u8) -> (adv: usize)
        requires
            old(self).wf(),
            x < 16,
            old(self).pc + 4 <= u16::MAX,
        ensures
            final(self).wf(),
            shl_rel(*old(self), *final(self), x),
            adv == 200,
    {
        let vx = self.v.get(x);
        self.v.set(15, (vx & 0x80) >> 7u8);
        let cur = self.v.get(x);
        self.v.set(x, cur << 1u8);
        self.pc = self.pc + 2;
        200
    }

    /// Op: set the index register to `addr`.
    pub(crate) fn op_ld_i(&mut self, addr: u16) -> (adv: usize)
        requires
            old(self).wf(),
            old(self).pc + 4 <= u16::MAX,
        ensures
            final(self).wf(),
            ldi_rel(*old(self), *final(self), addr),
            adv == 55,
    {
        self.i = addr;
        self.pc = self.pc + 2;
        55
    }

    /// Op: set Vx to a pseudo-random byte masked with `kk`.
    pub(crate) fn op_rnd(&mut self, x: u8, kk: u8) -> (adv: usize)
        requires
            old(self).wf(),
            x < 16,
            old(self).pc + 4 <= u16::MAX,
        ensures
            final(self).wf(),
            rnd_rel(*old(self), *final(self), x, kk),
            adv == 164,
    {
        let r32 = rng_next_u32(&mut self.rng);
        let rb = #[verifier::truncate] (r32 as u8);
        self.v.set(x, rb & kk);
        self.pc = self.pc + 2;
        164
    }

    /// Op: skip the next instruction if the key selected by `val` is
    /// pressed.
    pub(crate) fn op_skp(&mut self, val: u8) -> (adv: usize)
        requires
            old(self).wf(),
            old(self).pc + 4 <= u16::MAX,
        ensures
            final(self).wf(),
            *final(self) == (Chip8 {
                pc: (if key_pressed(old(self).keypad, val) {
                    ((old(self).pc + 4) as u16)
                } else {
                    ((old(self).pc + 2) as u16)
                }),
                ..*old(self)
            }),
            adv == 73,
    {
        let bit = lo_nib(val);
        if (1u16 << (bit as u16)) & self.keypad != 0 {
            self.pc = self.pc + 4;
        } else {
            self.pc = self.pc + 2;
        }
        73
    }

    /// Op: skip the next instruction if the key selected by `val` is not
    /// pressed.
    pub(crate) fn op_sknp(&mut self, val: u8) -> (adv: usize)
        requires
            old(self).wf(),
            old(self).pc + 4 <= u16::MAX,
        ensures
            final(self).wf(),
            *final(self) == (Chip8 {
                pc: (if !key_pressed(old(self).keypad, val) {
                    ((old(self).pc + 4) as u16)
                } else {
                    ((old(self).pc + 2) as u16)
                }),
                ..*old(self)
            }),
            adv == 73,
    {
        let bit = lo_nib(val);
        if (1u16 << (bit as u16)) & self.keypad == 0 {
            self.pc = self.pc + 4;
        } else {
            self.pc = self.pc + 2;
        }
        73
    }
}

/// Scans key indices 0..=15 ascending and returns the first whose bit is
/// set in `k`, if any.
fn first_pressed(k: u16) -> (r: Option<u8>)
    ensures
        r == first_key_from(k, 0),
{
    let mut i: u16 = 0;
    while i < 16
        invariant
            i <= 16,
            first_key_from(k, 0) == first_key_from(k, i as int),
        decreases 16 - i,
    {
        if (1u16 << i) & k != 0 {
            return Some(i as u8);
        }
        i = i + 1;
    }
    None
}

} // verus!
