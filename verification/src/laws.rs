//! Laws that relate several operations of the machine: the clamped
//! countdown of the timers across frames, and the round trip of the
//! register block store and load.

use vstd::prelude::*;
use crate::decode::spec_decode;
use crate::decode::Error;
use crate::decode::Instr;
use crate::ops::load_regs_rel;
use crate::ops::store_regs_rel;
use crate::vm::Chip8;
use crate::vm::MEM_SIZE;

verus! {

/// Decoding is total and exclusive: every 2-byte instruction word either
/// selects exactly one operation of the opcode table, or is rejected as
/// `InvalidOp` carrying exactly that word; no other error ever arises at
/// decode time.
pub proof fn lemma_decode_exhaustive(w0: u8, w1: u8)
    ensures
        spec_decode(w0, w1) is Ok <==> spec_decode(w0, w1) != Err::<Instr, Error>(
            Error::InvalidOp(w0, w1),
        ),
{
}

/// One per-frame timer step: a nonzero timer is decremented, a zero
/// timer stays at zero. Each frame applies this once to the delay and
/// sound timers before any instruction executes.
pub open spec fn timer_dec(t: u8) -> u8 {
    if t > 0 {
        (t - 1) as u8
    } else {
        0
    }
}

/// A timer's value after `n` per-frame steps with no writes in between.
pub open spec fn timer_after(t: u8, n: nat) -> u8
    decreases n,
{
    if n == 0 {
        t
    } else {
        timer_dec(timer_after(t, (n - 1) as nat))
    }
}

/// A timer initialized to `t` reads back `t - min(n, t)` after `n`
/// per-frame steps with no writes in between: it counts down by one per
/// frame and clamps at zero.
pub proof fn lemma_timer_decay(t: u8, n: nat)
    ensures
        timer_after(t, n) == (if n >= t {
            0u8
        } else {
            (t - n) as u8
        }),
    decreases n,
{
    if n > 0 {
        lemma_timer_decay(t, (n - 1) as nat);
    }
}

/// Storing V0..=Vx to memory at the index register and then loading
/// V0..=Vx back from the same index address reproduces the original
/// register values exactly, and leaves the registers above Vx untouched.
pub proof fn lemma_store_load_round_trip(s0: Chip8, s1: Chip8, s2: Chip8, x: u8)
    requires
        s0.wf(),
        x < 16,
        s0.i + x + 1 <= MEM_SIZE,
        store_regs_rel(s0, s1, x),
        load_regs_rel(s1, s2, x),
    ensures
        s2.v.0@ == s0.v.0@,
{
    assert forall|t: int| 0 <= t < 16 implies s2.v.0@[t] == s0.v.0@[t] by {
        if t <= x {
            assert(s1.mem@[s1.i + t] == s0.v.0@[t]);
        }
    }
    assert(s2.v.0@ =~= s0.v.0@);
}

} // verus!
