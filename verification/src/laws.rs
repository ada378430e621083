//! Theorems about the transition function: how the flag update treats the
//! status byte, how the counters wrap, and that the stack and the subroutine
//! call discipline round-trip.

use vstd::prelude::*;

use crate::model::flag_set;
use crate::model::word;
use crate::model::zn;
use crate::model::CpuV;
use crate::model::StepResult;
use crate::model::FLAG_NEG;
use crate::model::FLAG_ZERO;
use crate::model::OP_DEX;
use crate::model::OP_DEY;
use crate::model::OP_INX;
use crate::model::OP_INY;
use crate::model::OP_JSR_ABS;
use crate::model::OP_RTS;
use crate::model::STACK_PAGE;

verus! {

/// Law: after a flag update with result byte `v`, the Zero flag is set
/// exactly when `v` is zero, the Negative flag exactly when bit 7 of `v` is
/// set, and every other bit of the status byte is unchanged.
pub proof fn lemma_set_zn_flags(p: u8, v: u8)
    by (bit_vector)
    ensures
        flag_set(zn(p, v), FLAG_ZERO) <==> v == 0,
        flag_set(zn(p, v), FLAG_NEG) <==> v & 0x80 != 0,
        zn(p, v) & !(FLAG_ZERO | FLAG_NEG) == p & !(FLAG_ZERO | FLAG_NEG),
{
}

/// Law: incrementing or decrementing an index register wraps modulo 256
/// (`0xFF` increments to `0x00`, `0x00` decrements to `0xFF`), execution
/// continues, and the flags are recomputed from the wrapped result.
pub proof fn lemma_inc_dec_wrap(c: CpuV)
    requires
        c.wf(),
    ensures
        c.read(c.pc) == OP_INX ==> ({
            let (c2, r) = c.step();
            &&& r == StepResult::Continue
            &&& c2.x == c.x.wrapping_add(1)
            &&& (c.x == 0xFF ==> c2.x == 0x00)
            &&& (flag_set(c2.p, FLAG_ZERO) <==> c2.x == 0)
            &&& (flag_set(c2.p, FLAG_NEG) <==> c2.x & 0x80 != 0)
        }),
        c.read(c.pc) == OP_DEX ==> ({
            let (c2, r) = c.step();
            &&& r == StepResult::Continue
            &&& c2.x == c.x.wrapping_sub(1)
            &&& (c.x == 0x00 ==> c2.x == 0xFF)
            &&& (flag_set(c2.p, FLAG_ZERO) <==> c2.x == 0)
            &&& (flag_set(c2.p, FLAG_NEG) <==> c2.x & 0x80 != 0)
        }),
        c.read(c.pc) == OP_INY ==> ({
            let (c2, r) = c.step();
            &&& r == StepResult::Continue
            &&& c2.y == c.y.wrapping_add(1)
            &&& (c.y == 0xFF ==> c2.y == 0x00)
            &&& (flag_set(c2.p, FLAG_ZERO) <==> c2.y == 0)
            &&& (flag_set(c2.p, FLAG_NEG) <==> c2.y & 0x80 != 0)
        }),
        c.read(c.pc) == OP_DEY ==> ({
            let (c2, r) = c.step();
            &&& r == StepResult::Continue
            &&& c2.y == c.y.wrapping_sub(1)
            &&& (c.y == 0x00 ==> c2.y == 0xFF)
            &&& (flag_set(c2.p, FLAG_ZERO) <==> c2.y == 0)
            &&& (flag_set(c2.p, FLAG_NEG) <==> c2.y & 0x80 != 0)
        }),
{
    lemma_set_zn_flags(c.p, c.x.wrapping_add(1));
    lemma_set_zn_flags(c.p, c.x.wrapping_sub(1));
    lemma_set_zn_flags(c.p, c.y.wrapping_add(1));
    lemma_set_zn_flags(c.p, c.y.wrapping_sub(1));
}

/// Law: pushing a 16-bit value and popping immediately afterwards returns
/// the value unchanged and leaves the stack pointer, the registers and the
/// program counter exactly where they were.
pub proof fn lemma_push_pop_word_round_trip(c: CpuV, v: u16)
    requires
        c.wf(),
    ensures
        ({
            let c1 = c.push_word(v);
            let (c2, w) = c1.pop_word();
            &&& w == v
            &&& c2.sp == c.sp
            &&& c2.a == c.a
            &&& c2.x == c.x
            &&& c2.y == c.y
            &&& c2.p == c.p
            &&& c2.pc == c.pc
            &&& c2.wf()
        }),
{
    let sp0 = c.sp;
    let sp1 = c.sp.wrapping_sub(1);
    assert((0x0100u16 | (sp0 as u16)) != (0x0100u16 | (sp1 as u16))) by (bit_vector)
        requires
            sp1 != sp0,
    ;
    assert((((v & 0x00FF) as u8) as u16) | ((((v >> 8) as u8) as u16) << 8) == v)
        by (bit_vector);
}

/// Law: a subroutine call pushed onto the stack round-trips through a
/// return. Executing the call instruction at address `c.pc` jumps to the
/// little-endian operand address; if the subroutine later reaches a return
/// instruction with the stack pointer and the two pushed stack cells as the
/// call left them, the return resumes execution at `c.pc + 3` — the
/// instruction immediately after the three-byte call.
pub proof fn lemma_jsr_rts_round_trip(c: CpuV, c2: CpuV)
    requires
        c.wf(),
        c2.wf(),
        c.read(c.pc) == OP_JSR_ABS,
        c2.read(c2.pc) == OP_RTS,
        c2.sp == c.step().0.sp,
        c2.read(STACK_PAGE | (c.sp as u16)) == c.step().0.read(STACK_PAGE | (c.sp as u16)),
        c2.read(STACK_PAGE | (c.sp.wrapping_sub(1) as u16)) == c.step().0.read(
            STACK_PAGE | (c.sp.wrapping_sub(1) as u16),
        ),
    ensures
        c.step().1 == StepResult::Continue,
        c.step().0.pc == word(c.read(c.pc.wrapping_add(1)), c.read(c.pc.wrapping_add(2))),
        c2.step().1 == StepResult::Continue,
        c2.step().0.pc == c.pc.wrapping_add(3),
{
    let ret = c.pc.wrapping_add(2);
    let sp0 = c.sp;
    let sp1 = c.sp.wrapping_sub(1);
    assert((0x0100u16 | (sp0 as u16)) != (0x0100u16 | (sp1 as u16))) by (bit_vector)
        requires
            sp1 != sp0,
    ;
    assert((((ret & 0x00FF) as u8) as u16) | ((((ret >> 8) as u8) as u16) << 8) == ret)
        by (bit_vector);
}

} // verus!
