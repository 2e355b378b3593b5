//! Dispatch and frame stepping: executing one decoded instruction, and
//! driving the fetch-decode-execute loop for one emulated frame period.

use vstd::prelude::*;
use crate::decode::decode;
use crate::decode::spec_decode;
use crate::decode::Error;
use crate::decode::Instr;
use crate::ops::add_rel;
use crate::ops::addi_rel;
use crate::ops::and_rel;
use crate::ops::bcd_rel;
use crate::ops::call_rel;
use crate::ops::cls_rel;
use crate::ops::drw_rel;
use crate::ops::jp_rel;
use crate::ops::key_pressed;
use crate::ops::ld_rel;
use crate::ops::lddt_rel;
use crate::ops::ldf_rel;
use crate::ops::ldi_rel;
use crate::ops::ldk_rel;
use crate::ops::ldst_rel;
use crate::ops::load_regs_rel;
use crate::ops::or_rel;
use crate::ops::ret_rel;
use crate::ops::rnd_rel;
use crate::ops::shl_rel;
use crate::ops::shr_rel;
use crate::ops::skip_rel;
use crate::ops::store_regs_rel;
use crate::ops::sub_rel;
use crate::ops::subn_rel;
use crate::ops::xor_rel;
use crate::laws::timer_dec;
use crate::vm::Chip8;
use crate::vm::Output;
use crate::vm::FRAME_TIME;
use crate::vm::MAX_OP_COST;
use crate::vm::MEM_SIZE;
use crate::vm::MIN_OP_COST;

verus! {

/// Skip taken when the selected key is pressed (`want` true) or not
/// pressed (`want` false).
pub open spec fn skip_key_rel(pre: Chip8, post: Chip8, val: u8, want: bool) -> bool {
    post == (Chip8 {
        pc: (if key_pressed(pre.keypad, val) == want {
            ((pre.pc + 4) as u16)
        } else {
            ((pre.pc + 2) as u16)
        }),
        ..pre
    })
}

/// The exact effect of executing the instruction word `(w0, w1)` from
/// state `pre`: which operation runs, what it changes, its time cost, and
/// exactly when execution fails instead. A failing execution leaves the
/// state unchanged.
pub open spec fn step_rel(pre: Chip8, post: Chip8, w0: u8, w1: u8, r: Result<usize, Error>) -> bool {
    match spec_decode(w0, w1) {
        Err(e) => post == pre && r == Err::<usize, Error>(e),
        Ok(instr) => match instr {
            Instr::ClearDisplay => cls_rel(pre, post) && r == Ok::<usize, Error>(109),
            Instr::Return => if pre.sp == 0 {
                post == pre && r == Err::<usize, Error>(Error::StackUnderflow(pre.pc))
            } else {
                ret_rel(pre, post) && r == Ok::<usize, Error>(105)
            },
            Instr::Sys(_a) => post == pre && r == Ok::<usize, Error>(100),
            Instr::Jump(a) => jp_rel(pre, post, a) && r == Ok::<usize, Error>(105),
            Instr::Call(a) => if pre.sp >= 16 {
                post == pre && r == Err::<usize, Error>(Error::StackOverflow(pre.pc))
            } else {
                call_rel(pre, post, a) && r == Ok::<usize, Error>(105)
            },
            Instr::SkipEqImm(x, kk) => skip_rel(pre, post, pre.v.0@[x as int], kk, true) && r
                == Ok::<usize, Error>(61),
            Instr::SkipNeImm(x, kk) => skip_rel(pre, post, pre.v.0@[x as int], kk, false) && r
                == Ok::<usize, Error>(61),
            Instr::SkipEqReg(x, y) => skip_rel(
                pre,
                post,
                pre.v.0@[x as int],
                pre.v.0@[y as int],
                true,
            ) && r == Ok::<usize, Error>(61),
            Instr::SkipNeReg(x, y) => skip_rel(
                pre,
                post,
                pre.v.0@[x as int],
                pre.v.0@[y as int],
                false,
            ) && r == Ok::<usize, Error>(61),
            Instr::LoadImm(x, kk) => ld_rel(pre, post, x, kk) && r == Ok::<usize, Error>(27),
            Instr::AddImm(x, kk) => add_rel(pre, post, x, kk, false) && r == Ok::<usize, Error>(45),
            Instr::Assign(x, y) => ld_rel(pre, post, x, pre.v.0@[y as int]) && r == Ok::<
                usize,
                Error,
            >(27),
            Instr::Or(x, y) => or_rel(pre, post, x, pre.v.0@[y as int]) && r == Ok::<usize, Error>(
                200,
            ),
            Instr::And(x, y) => and_rel(pre, post, x, pre.v.0@[y as int]) && r == Ok::<
                usize,
                Error,
            >(200),
            Instr::Xor(x, y) => xor_rel(pre, post, x, pre.v.0@[y as int]) && r == Ok::<
                usize,
                Error,
            >(200),
            Instr::AddReg(x, y) => add_rel(pre, post, x, pre.v.0@[y as int], true) && r == Ok::<
                usize,
                Error,
            >(45),
            Instr::SubReg(x, y) => sub_rel(pre, post, x, pre.v.0@[y as int]) && r == Ok::<
                usize,
                Error,
            >(200),
            Instr::ShiftRight(x) => shr_rel(pre, post, x) && r == Ok::<usize, Error>(200),
            Instr::SubRev(x, y) => subn_rel(pre, post, x, pre.v.0@[y as int]) && r == Ok::<
                usize,
                Error,
            >(200),
            Instr::ShiftLeft(x) => shl_rel(pre, post, x) && r == Ok::<usize, Error>(200),
            Instr::LoadIndex(a) => ldi_rel(pre, post, a) && r == Ok::<usize, Error>(55),
            Instr::JumpPlusV0(a) => jp_rel(pre, post, ((pre.v.0@[0] + a) as u16)) && r == Ok::<
                usize,
                Error,
            >(105),
            Instr::Random(x, kk) => rnd_rel(pre, post, x, kk) && r == Ok::<usize, Error>(164),
            Instr::Draw(x, y, n) => if pre.i + n > MEM_SIZE {
                post == pre && r == Err::<usize, Error>(Error::MemOutOfBounds(pre.i))
            } else {
                drw_rel(pre, post, pre.v.0@[x as int], pre.v.0@[y as int], n) && r == Ok::<
                    usize,
                    Error,
                >(22734)
            },
            Instr::SkipKey(x) => skip_key_rel(pre, post, pre.v.0@[x as int], true) && r == Ok::<
                usize,
                Error,
            >(73),
            Instr::SkipNoKey(x) => skip_key_rel(pre, post, pre.v.0@[x as int], false) && r == Ok::<
                usize,
                Error,
            >(73),
            Instr::ReadDelay(x) => ld_rel(pre, post, x, pre.dt) && r == Ok::<usize, Error>(27),
            Instr::WaitKey(x) => ldk_rel(pre, post, x) && r == Ok::<usize, Error>(200),
            Instr::SetDelay(x) => lddt_rel(pre, post, pre.v.0@[x as int]) && r == Ok::<
                usize,
                Error,
            >(45),
            Instr::SetSound(x) => ldst_rel(pre, post, pre.v.0@[x as int]) && r == Ok::<
                usize,
                Error,
            >(45),
            Instr::AddIndex(x) => addi_rel(pre, post, pre.v.0@[x as int]) && r == Ok::<
                usize,
                Error,
            >(86),
            Instr::LoadGlyph(x) => ldf_rel(pre, post, pre.v.0@[x as int]) && r == Ok::<
                usize,
                Error,
            >(91),
            Instr::StoreBcd(x) => if pre.i + 3 > MEM_SIZE {
                post == pre && r == Err::<usize, Error>(Error::MemOutOfBounds(pre.i))
            } else {
                bcd_rel(pre, post, pre.v.0@[x as int]) && r == Ok::<usize, Error>(927)
            },
            Instr::StoreRegs(x) => if pre.i + x + 1 > MEM_SIZE {
                post == pre && r == Err::<usize, Error>(Error::MemOutOfBounds(pre.i))
            } else {
                store_regs_rel(pre, post, x) && r == Ok::<usize, Error>(605)
            },
            Instr::LoadRegs(x) => if pre.i + x + 1 > MEM_SIZE {
                post == pre && r == Err::<usize, Error>(Error::MemOutOfBounds(pre.i))
            } else {
                load_regs_rel(pre, post, x) && r == Ok::<usize, Error>(605)
            },
        },
    }
}

impl Chip8 {
    /// Executes the instruction word `(w0, w1)`: decodes it, dispatches
    /// to exactly one operation, and returns the elapsed time in
    /// microseconds.
    ///
    /// Fails with `InvalidOp` exactly when the word matches no entry of
    /// the opcode table, with `StackOverflow`/`StackUnderflow` on a call
    /// past 16 pending returns or a return with none pending, and with
    /// `MemOutOfBounds` when a block operation would reach past memory;
    /// a failing execution leaves the machine unchanged.
    pub fn exec(&mut self, w0: u8, w1: u8) -> (r: Result<usize, Error>)
        requires
            old(self).wf(),
            old(self).pc + 1 < MEM_SIZE,
        ensures
            final(self).wf(),
            step_rel(*old(self), *final(self), w0, w1, r),
            r matches Ok(adv) ==> MIN_OP_COST <= adv <= MAX_OP_COST,
            r is Err ==> *final(self) == *old(self),
            r matches Err(e) ==> (e matches Error::InvalidOp(_, _) || e matches Error::MemOutOfBounds(_)
                || e matches Error::StackOverflow(_) || e matches Error::StackUnderflow(_)),
    {
        let instr = match decode(w0, w1) {
            Ok(instr) => instr,
            Err(e) => {
                return Err(e);
            },
        };
        match instr {
            Instr::ClearDisplay => Ok(self.op_cls()),
            Instr::Return => {
                if self.sp == 0 {
                    Err(Error::StackUnderflow(self.pc))
                } else {
                    Ok(self.op_ret())
                }
            },
            Instr::Sys(a) => Ok(self.op_call_rca_1802(a)),
            Instr::Jump(a) => Ok(self.op_jp(a)),
            Instr::Call(a) => {
                if self.sp >= 16 {
                    Err(Error::StackOverflow(self.pc))
                } else {
                    Ok(self.op_call(a))
                }
            },
            Instr::SkipEqImm(x, kk) => {
                let a = self.v.get(x);
                Ok(self.op_se(a, kk))
            },
            Instr::SkipNeImm(x, kk) => {
                let a = self.v.get(x);
                Ok(self.op_sne(a, kk))
            },
            Instr::SkipEqReg(x, y) => {
                let a = self.v.get(x);
                let b = self.v.get(y);
                Ok(self.op_se(a, b))
            },
            Instr::SkipNeReg(x, y) => {
                let a = self.v.get(x);
                let b = self.v.get(y);
                Ok(self.op_sne(a, b))
            },
            Instr::LoadImm(x, kk) => Ok(self.op_ld(x, kk)),
            Instr::AddImm(x, kk) => Ok(self.op_add(x, kk, false)),
            Instr::Assign(x, y) => {
                let b = self.v.get(y);
                Ok(self.op_ld(x, b))
            },
            Instr::Or(x, y) => {
                let b = self.v.get(y);
                Ok(self.op_or(x, b))
            },
            Instr::And(x, y) => {
                let b = self.v.get(y);
                Ok(self.op_and(x, b))
            },
            Instr::Xor(x, y) => {
                let b = self.v.get(y);
                Ok(self.op_xor(x, b))
            },
            Instr::AddReg(x, y) => {
                let b = self.v.get(y);
                Ok(self.op_add(x, b, true))
            },
            Instr::SubReg(x, y) => {
                let b = self.v.get(y);
                Ok(self.op_sub(x, b))
            },
            Instr::ShiftRight(x) => Ok(self.op_shr(x)),
            Instr::SubRev(x, y) => {
                let b = self.v.get(y);
                Ok(self.op_subn(x, b))
            },
            Instr::ShiftLeft(x) => Ok(self.op_shl(x)),
            Instr::LoadIndex(a) => Ok(self.op_ld_i(a)),
            Instr::JumpPlusV0(a) => {
                let v0 = self.v.get(0);
                Ok(self.op_jp(v0 as u16 + a))
            },
            Instr::Random(x, kk) => Ok(self.op_rnd(x, kk)),
            Instr::Draw(x, y, n) => {
                if self.i as usize + n as usize > MEM_SIZE {
                    Err(Error::MemOutOfBounds(self.i))
                } else {
                    let a = self.v.get(x);
                    let b = self.v.get(y);
                    Ok(self.op_drw(a, b, n))
                }
            },
            Instr::SkipKey(x) => {
                let a = self.v.get(x);
                Ok(self.op_skp(a))
            },
            Instr::SkipNoKey(x) => {
                let a = self.v.get(x);
                Ok(self.op_sknp(a))
            },
            Instr::ReadDelay(x) => {
                let d = self.dt;
                Ok(self.op_ld(x, d))
            },
            Instr::WaitKey(x) => Ok(self.op_ld_vx_k(x)),
            Instr::SetDelay(x) => {
                let a = self.v.get(x);
                Ok(self.op_ld_dt(a))
            },
            Instr::SetSound(x) => {
                let a = self.v.get(x);
                Ok(self.op_ld_st(a))
            },
            Instr::AddIndex(x) => {
                let a = self.v.get(x);
                Ok(self.op_add16(a))
            },
            Instr::LoadGlyph(x) => {
                let a = self.v.get(x);
                Ok(self.op_ld_f(a))
            },
            Instr::StoreBcd(x) => {
                if self.i as usize + 3 > MEM_SIZE {
                    Err(Error::MemOutOfBounds(self.i))
                } else {
                    let a = self.v.get(x);
                    Ok(self.op_ld_b(a))
                }
            },
            Instr::StoreRegs(x) => {
                if self.i as usize + x as usize + 1 > MEM_SIZE {
                    Err(Error::MemOutOfBounds(self.i))
                } else {
                    Ok(self.op_ld_i_vx(x))
                }
            },
            Instr::LoadRegs(x) => {
                if self.i as usize + x as usize + 1 > MEM_SIZE {
                    Err(Error::MemOutOfBounds(self.i))
                } else {
                    Ok(self.op_ld_vx_i(x))
                }
            },
        }
    }
}


/// The machine state right after a frame's preamble: the host's keypad
/// mask is stored, both timers take one clamped countdown step, the tone
/// flag latches whether the sound timer was still running, and the
/// nominal frame period is added to the time budget.
pub open spec fn tick_of(pre: Chip8, keypad: u16) -> Chip8 {
    Chip8 {
        keypad,
        dt: timer_dec(pre.dt),
        st: timer_dec(pre.st),
        tone: pre.st > 0,
        time: ((pre.time + FRAME_TIME) as isize),
        ..pre
    }
}

/// One fetch-decode-execute step inside a frame: the budget is still
/// positive, the instruction word at the program counter is fetched from
/// memory and executes successfully, and its time cost is charged.
pub open spec fn run_step(s: Chip8, s2: Chip8) -> bool {
    &&& s.time > 0
    &&& s.pc + 1 < MEM_SIZE
    &&& exists|adv: usize|
        #[trigger] step_rel(
            s,
            (Chip8 { time: s.time, ..s2 }),
            s.mem@[s.pc as int],
            s.mem@[s.pc as int + 1],
            Ok::<usize, Error>(adv),
        ) && s2.time == s.time - adv
}

/// A sequence of machine states linked by successive frame steps.
pub open spec fn run_chain(trace: Seq<Chip8>) -> bool {
    forall|k: int| 0 <= k < trace.len() - 1 ==> run_step(#[trigger] trace[k], trace[k + 1])
}

impl Chip8 {
    /// Steps one emulated frame: stores the host's keypad mask,
    /// decrements both timers (clamped at 0) while latching the tone flag
    /// from the sound timer, adds the nominal frame period to the time
    /// budget, and then fetches, decodes and executes instructions until
    /// the budget is spent.
    ///
    /// On success the executed instructions overshoot the nominal period
    /// by less than one sprite-draw cost, and the remainder carries into
    /// the next frame. On a fatal error (`PcOutOfBounds` when the counter
    /// points past the last full word, or any execution error) the frame
    /// is aborted immediately and the machine keeps its intermediate
    /// state, inspectable but not safe to resume.
    pub fn frame(&mut self, keypad: u16) -> (r: Result<Output, Error>)
        requires
            old(self).wf(),
            0 - MAX_OP_COST < old(self).time <= 0,
        ensures
            final(self).wf(),
            r matches Ok(o) ==> {
                &&& final(self).keypad == keypad
                &&& final(self).tone == (old(self).st > 0)
                &&& o.tone == (old(self).st > 0)
                &&& 0 - MAX_OP_COST < final(self).time <= 0
                &&& o.overtime == 0 - final(self).time
                &&& o.overtime < MAX_OP_COST
                &&& exists|trace: Seq<Chip8>|
                    {
                        &&& #[trigger] run_chain(trace)
                        &&& trace.len() >= 1
                        &&& trace[0] == tick_of(*old(self), keypad)
                        &&& trace.last() == *final(self)
                    }
            },
            r matches Err(e) ==> (match e {
                Error::PcOutOfBounds(p) => final(self).pc == p && p + 1 >= MEM_SIZE,
                _ => final(self).pc + 1 < MEM_SIZE && step_rel(
                    *final(self),
                    *final(self),
                    final(self).mem@[final(self).pc as int],
                    final(self).mem@[final(self).pc as int + 1],
                    Err::<usize, Error>(e),
                ),
            }),
    {
        self.keypad = keypad;
        if self.dt != 0 {
            self.dt = self.dt - 1;
        }
        self.tone = if self.st != 0 {
            self.st = self.st - 1;
            true
        } else {
            false
        };
        self.time = self.time + FRAME_TIME;
        let ghost start = *self;
        let ghost mut trace: Seq<Chip8> = seq![*self];
        while self.time > 0
            invariant
                self.wf(),
                self.keypad == keypad,
                self.tone == (old(self).st > 0),
                0 - MAX_OP_COST < self.time <= FRAME_TIME,
                start == tick_of(*old(self), keypad),
                trace.len() >= 1,
                trace[0] == start,
                trace.last() == *self,
                run_chain(trace),
            decreases self.time + MAX_OP_COST,
        {
            if self.pc as usize + 1 >= MEM_SIZE {
                return Err(Error::PcOutOfBounds(self.pc));
            }
            let ghost before = *self;
            let w0 = self.mem[self.pc as usize];
            let w1 = self.mem[self.pc as usize + 1];
            let adv = match self.exec(w0, w1) {
                Ok(a) => a,
                Err(e) => {
                    return Err(e);
                },
            };
            self.time = self.time - adv as isize;
            proof {
                assert(step_rel(before, (Chip8 { time: before.time, ..*self }), w0, w1, Ok::<
                    usize,
                    Error,
                >(adv)));
                let prev = trace;
                trace = trace.push(*self);
                assert forall|k: int| 0 <= k < trace.len() - 1 implies run_step(
                    #[trigger] trace[k],
                    trace[k + 1],
                ) by {
                    if k < prev.len() - 1 {
                        assert(run_step(prev[k], prev[k + 1]));
                    }
                }
            }
        }
        let overtime = (0 - self.time) as usize;
        Ok(Output { tone: self.tone, overtime })
    }
}

} // verus!
