//! The 0xCB-prefixed bit namespace: shift, rotate and bit-test operations.

use vstd::prelude::*;

use crate::instruction_set::Fault;
use crate::memory::{with_carry, RegisterOperations};
use crate::runtime::{outcome_post, CpuState, Outcome, RuntimeComponents};

verus! {

/// SRL B: B is shifted right one bit; bit 0 moves into the Carry flag and a
/// zero is put into bit 7.
pub open spec fn op_cb38_outcome(s: CpuState) -> Outcome {
    Outcome::Next(CpuState { b: (s.b / 2) as u8, f: with_carry(s.f, s.b % 2 == 1), ..s }, 8)
}

pub fn op_cb38(c: &mut RuntimeComponents) -> (r: Result<u16, Fault>)
    requires
        old(c).wf(),
    ensures
        final(c).wf(),
        outcome_post(op_cb38_outcome(old(c)@), old(c)@, final(c)@, r),
{
    let registers = &mut c.registers;
    RegisterOperations::srl(&mut registers.b, &mut registers.f);
    proof {
        assert(c@ =~= (CpuState {
            b: (old(c)@.b / 2) as u8,
            f: with_carry(old(c)@.f, old(c)@.b % 2 == 1),
            ..old(c)@
        }));
    }
    Ok(8)
}

} // verus!
