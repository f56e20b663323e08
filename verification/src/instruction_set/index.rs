//! The 0xDD-prefixed index namespace: operations on the index register pair.

use vstd::prelude::*;

use crate::instruction_set::Fault;
use crate::memory::{pair16, stack_pop, stack_push, RegisterOperations};
use crate::runtime::{outcome_post, CpuState, Outcome, RuntimeComponents};

verus! {

/// POP IX: the top stack entry is popped into the index register pair.
pub open spec fn op_dde1_outcome(s: CpuState) -> Outcome {
    if s.sp + 2 <= 0xFFFF {
        let (v, sp2) = stack_pop(s.mem, s.sp);
        Outcome::Next(CpuState { i: (v / 256) as u8, x: (v % 256) as u8, sp: sp2, ..s }, 14)
    } else {
        Outcome::Stuck(Fault::StackOutOfRange { location: s.sp })
    }
}

pub fn op_dde1(c: &mut RuntimeComponents) -> (r: Result<u16, Fault>)
    requires
        old(c).wf(),
    ensures
        final(c).wf(),
        outcome_post(op_dde1_outcome(old(c)@), old(c)@, final(c)@, r),
{
    if c.registers.sp.location > 0xFFFD {
        return Err(Fault::StackOutOfRange { location: c.registers.sp.location });
    }
    RegisterOperations::pop_register_pair(
        &mut c.registers.i,
        &mut c.registers.x,
        &mut c.registers.sp,
        &mut c.mem,
    );
    proof {
        let (v, sp2) = stack_pop(old(c)@.mem, old(c)@.sp);
        assert(c@ =~= (CpuState {
            i: (v / 256) as u8,
            x: (v % 256) as u8,
            sp: sp2,
            ..old(c)@
        }));
    }
    Ok(14)
}

/// PUSH IX: the index register pair is pushed onto the stack.
pub open spec fn op_dde5_outcome(s: CpuState) -> Outcome {
    if 2 <= s.sp <= 0xFFFF {
        let (m2, sp2) = stack_push(s.mem, s.sp, pair16(s.i, s.x));
        Outcome::Next(CpuState { mem: m2, sp: sp2, ..s }, 15)
    } else {
        Outcome::Stuck(Fault::StackOutOfRange { location: s.sp })
    }
}

pub fn op_dde5(c: &mut RuntimeComponents) -> (r: Result<u16, Fault>)
    requires
        old(c).wf(),
    ensures
        final(c).wf(),
        outcome_post(op_dde5_outcome(old(c)@), old(c)@, final(c)@, r),
{
    if c.registers.sp.location < 2 || c.registers.sp.location > 0xFFFF {
        return Err(Fault::StackOutOfRange { location: c.registers.sp.location });
    }
    RegisterOperations::push_register_pair(
        &c.registers.i,
        &c.registers.x,
        &mut c.registers.sp,
        &mut c.mem,
    );
    proof {
        let (m2, sp2) = stack_push(old(c)@.mem, old(c)@.sp, pair16(old(c)@.i, old(c)@.x));
        assert(c@ =~= (CpuState { mem: m2, sp: sp2, ..old(c)@ }));
    }
    Ok(15)
}

} // verus!
