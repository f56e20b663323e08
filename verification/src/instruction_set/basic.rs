//! The basic namespace: single-byte opcodes.
//!
//! Each opcode has a spec-level outcome function over the ghost machine
//! state and an executable twin proved against it. A fault leaves the state
//! untouched.

use vstd::prelude::*;

use crate::instruction_set::Fault;
use crate::memory::{
    add_pair_flags, bit7, compare_flags, dec8, dec_flags, inc8, inc_flags, is_carry, is_sign,
    is_zero, lemma_pair16_parts, pair16, relative_jump_target, stack_pop, stack_push, sub_flags,
    wrap_add8, wrap_add16, wrap_dec16, wrap_inc16, wrap_sub8, with_add_subtract, with_carry,
    with_half_carry, with_parity_overflow, with_sign, with_zero, xor_flags, FlagValue, Register,
    RegisterOperations,
};
use crate::runtime::{outcome_post, CpuState, Outcome, RuntimeComponents};
use crate::utils::{combine_to_double_byte, pair_value, sign_extended};

verus! {

/// NOP: nothing changes.
pub open spec fn op_00_outcome(s: CpuState) -> Outcome {
    Outcome::Next(s, 4)
}

pub fn op_00(c: &mut RuntimeComponents) -> (r: Result<u16, Fault>)
    requires
        old(c).wf(),
    ensures
        final(c).wf(),
        outcome_post(op_00_outcome(old(c)@), old(c)@, final(c)@, r),
{
    Ok(4)
}

/// LD BC,nn: the second operand byte lands in B, the first in C.
pub open spec fn op_01_outcome(s: CpuState, first: u8, second: u8) -> Outcome {
    Outcome::Next(CpuState { b: second, c: first, ..s }, 10)
}

pub fn op_01(c: &mut RuntimeComponents, first: u8, second: u8) -> (r: Result<u16, Fault>)
    requires
        old(c).wf(),
    ensures
        final(c).wf(),
        outcome_post(op_01_outcome(old(c)@, first, second), old(c)@, final(c)@, r),
{
    RegisterOperations::ld_register_pair_with_value(
        &mut c.registers.b,
        &mut c.registers.c,
        combine_to_double_byte(second, first),
    );
    proof {
        lemma_pair16_parts(second, first);
        assert(c@ =~= (CpuState { b: second, c: first, ..old(c)@ }));
    }
    Ok(10)
}

/// LD (BC),A: loads the byte at the address in BC into A.
pub open spec fn op_02_outcome(s: CpuState) -> Outcome {
    let addr = pair_value(s.b, s.c);
    if addr < 0xFFFF {
        Outcome::Next(CpuState { a: s.mem[addr], ..s }, 7)
    } else {
        Outcome::Stuck(Fault::MemoryOutOfRange { addr: 0xFFFF })
    }
}

pub fn op_02(c: &mut RuntimeComponents) -> (r: Result<u16, Fault>)
    requires
        old(c).wf(),
    ensures
        final(c).wf(),
        outcome_post(op_02_outcome(old(c)@), old(c)@, final(c)@, r),
{
    let addr = combine_to_double_byte(c.registers.b.get(), c.registers.c.get());
    if addr >= 0xFFFF {
        return Err(Fault::MemoryOutOfRange { addr: 0xFFFF });
    }
    RegisterOperations::ld_register_from_addr_with_register_pair(
        &c.mem,
        &mut c.registers.a,
        &c.registers.b,
        &c.registers.c,
    );
    proof {
        assert(c@ =~= (CpuState { a: old(c)@.mem[pair_value(old(c)@.b, old(c)@.c)], ..old(c)@ }));
    }
    Ok(7)
}

/// INC BC: the pair is incremented modulo 0x10000 and Add/Subtract is
/// set; no other flag changes.
pub open spec fn op_03_outcome(s: CpuState) -> Outcome {
    let v = wrap_inc16(pair16(s.b, s.c));
    Outcome::Next(
        CpuState {
            b: (v / 256) as u8,
            c: (v % 256) as u8,
            f: with_add_subtract(s.f, true),
            ..s
        },
        6,
    )
}

pub fn op_03(c: &mut RuntimeComponents) -> (r: Result<u16, Fault>)
    requires
        old(c).wf(),
    ensures
        final(c).wf(),
        outcome_post(op_03_outcome(old(c)@), old(c)@, final(c)@, r),
{
    RegisterOperations::inc_register_pair(&mut c.registers.b, &mut c.registers.c, &mut c.registers.f);
    proof {
        let v = wrap_inc16(pair16(old(c)@.b, old(c)@.c));
        assert(c@ =~= (CpuState {
            b: (v / 256) as u8,
            c: (v % 256) as u8,
            f: with_add_subtract(old(c)@.f, true),
            ..old(c)@
        }));
    }
    Ok(6)
}

/// INC B.
pub open spec fn op_04_outcome(s: CpuState) -> Outcome {
    Outcome::Next(CpuState { b: inc8(s.b), f: inc_flags(s.f, s.b), ..s }, 4)
}

pub fn op_04(c: &mut RuntimeComponents) -> (r: Result<u16, Fault>)
    requires
        old(c).wf(),
    ensures
        final(c).wf(),
        outcome_post(op_04_outcome(old(c)@), old(c)@, final(c)@, r),
{
    RegisterOperations::inc(&mut c.registers.b, &mut c.registers.f);
    proof {
        assert(c@ =~= (CpuState { b: inc8(old(c)@.b), f: inc_flags(old(c)@.f, old(c)@.b), ..old(c)@ }));
    }
    Ok(4)
}

/// DEC B.
pub open spec fn op_05_outcome(s: CpuState) -> Outcome {
    Outcome::Next(CpuState { b: dec8(s.b), f: dec_flags(s.f, s.b), ..s }, 4)
}

pub fn op_05(c: &mut RuntimeComponents) -> (r: Result<u16, Fault>)
    requires
        old(c).wf(),
    ensures
        final(c).wf(),
        outcome_post(op_05_outcome(old(c)@), old(c)@, final(c)@, r),
{
    RegisterOperations::dec(&mut c.registers.b, &mut c.registers.f);
    proof {
        assert(c@ =~= (CpuState {
            b: dec8(old(c)@.b),
            f: dec_flags(old(c)@.f, old(c)@.b),
            ..old(c)@
        }));
    }
    Ok(4)
}

/// LD B,n.
pub open spec fn op_06_outcome(s: CpuState, value: u8) -> Outcome {
    Outcome::Next(CpuState { b: value, ..s }, 7)
}

pub fn op_06(c: &mut RuntimeComponents, value: u8) -> (r: Result<u16, Fault>)
    requires
        old(c).wf(),
    ensures
        final(c).wf(),
        outcome_post(op_06_outcome(old(c)@, value), old(c)@, final(c)@, r),
{
    RegisterOperations::ld_register_with_value(&mut c.registers.b, value);
    proof {
        assert(c@ =~= (CpuState { b: value, ..old(c)@ }));
    }
    Ok(7)
}

/// The accumulator rotated left one bit, bit 7 moving into bit 0.
pub open spec fn rlca8(v: u8) -> u8 {
    ((v % 128) * 2 + v / 128) as u8
}

/// In a left rotation, bit 7 of the old value becomes bit 0 of the result
/// and the remaining bits all move up one position.
pub proof fn lemma_rlca_copies_bit_7(v: u8)
    ensures
        rlca8(v) % 2 == v / 128,
        rlca8(v) / 2 == v % 128,
{
}

/// RLCA: the accumulator is rotated left one bit; bit 7 is copied to the
/// Carry flag and to bit 0.
pub open spec fn op_07_outcome(s: CpuState) -> Outcome {
    Outcome::Next(CpuState { a: rlca8(s.a), f: with_carry(s.f, s.a >= 128), ..s }, 4)
}

pub fn op_07(c: &mut RuntimeComponents) -> (r: Result<u16, Fault>)
    requires
        old(c).wf(),
    ensures
        final(c).wf(),
        outcome_post(op_07_outcome(old(c)@), old(c)@, final(c)@, r),
{
    let value = c.registers.a.get();
    let bit_7 = (value & 0x80) >> 7;
    proof {
        assert(((value << 1) | ((value & 0x80) >> 7)) == ((value % 128) * 2 + value / 128) as u8
            && (((value & 0x80) >> 7) == 1) == (value >= 128)
            && ((value & 0x80) >> 7) <= 1) by (bit_vector);
    }
    c.registers.a.set((value << 1) | bit_7);
    if bit_7 == 0 {
        c.registers.f.set_carry(FlagValue::Off);
    } else {
        c.registers.f.set_carry(FlagValue::On);
    }
    proof {
        assert(c@ =~= (CpuState {
            a: rlca8(old(c)@.a),
            f: with_carry(old(c)@.f, old(c)@.a >= 128),
            ..old(c)@
        }));
    }
    Ok(4)
}

/// EX AF,AF': the accumulator and the flags swap with their shadows.
pub open spec fn op_08_outcome(s: CpuState) -> Outcome {
    Outcome::Next(CpuState { a: s.a_, f: s.f_, a_: s.a, f_: s.f, ..s }, 4)
}

pub fn op_08(c: &mut RuntimeComponents) -> (r: Result<u16, Fault>)
    requires
        old(c).wf(),
    ensures
        final(c).wf(),
        outcome_post(op_08_outcome(old(c)@), old(c)@, final(c)@, r),
{
    let registers = &mut c.registers;
    let a_val = registers.a.get();
    let f_val = registers.f.get();
    let a_shadow = registers.a_.get();
    let f_shadow = registers.f_.get();
    registers.a.set(a_shadow);
    registers.f.set(f_shadow);
    registers.a_.set(a_val);
    registers.f_.set(f_val);
    proof {
        assert(c@ =~= (CpuState {
            a: old(c)@.a_,
            f: old(c)@.f_,
            a_: old(c)@.a,
            f_: old(c)@.f,
            ..old(c)@
        }));
    }
    Ok(4)
}

/// ADD HL,BC: BC is added to HL modulo 0x10000 with the pair-addition flag
/// effects.
pub open spec fn op_09_outcome(s: CpuState) -> Outcome {
    let v1 = pair16(s.h, s.l);
    let v2 = pair16(s.b, s.c);
    let total = wrap_add16(v1, v2 as int);
    Outcome::Next(
        CpuState {
            h: (total / 256) as u8,
            l: (total % 256) as u8,
            f: add_pair_flags(s.f, v1, v2),
            ..s
        },
        11,
    )
}

pub fn op_09(c: &mut RuntimeComponents) -> (r: Result<u16, Fault>)
    requires
        old(c).wf(),
    ensures
        final(c).wf(),
        outcome_post(op_09_outcome(old(c)@), old(c)@, final(c)@, r),
{
    let registers = &mut c.registers;
    RegisterOperations::add_register_pairs(
        &mut registers.h,
        &mut registers.l,
        &registers.b,
        &registers.c,
        &mut registers.f,
    );
    proof {
        let v1 = pair16(old(c)@.h, old(c)@.l);
        let v2 = pair16(old(c)@.b, old(c)@.c);
        let total = wrap_add16(v1, v2 as int);
        assert(c@ =~= (CpuState {
            h: (total / 256) as u8,
            l: (total % 256) as u8,
            f: add_pair_flags(old(c)@.f, v1, v2),
            ..old(c)@
        }));
    }
    Ok(11)
}

/// DJNZ d: B is decremented modulo 256; while the result is non-zero the
/// signed displacement is added to the program counter and the taken cost is
/// paid.
pub open spec fn op_10_outcome(s: CpuState, d: u8) -> Outcome {
    let b2 = dec8(s.b);
    if b2 != 0 {
        Outcome::Next(CpuState { b: b2, pc: wrap_add16(s.pc, sign_extended(d)), ..s }, 13)
    } else {
        Outcome::Next(CpuState { b: b2, ..s }, 8)
    }
}

pub fn op_10(c: &mut RuntimeComponents, d: u8) -> (r: Result<u16, Fault>)
    requires
        old(c).wf(),
    ensures
        final(c).wf(),
        outcome_post(op_10_outcome(old(c)@, d), old(c)@, final(c)@, r),
{
    let b = c.registers.b.get();
    let b2 = b.wrapping_sub(1);
    c.registers.b.set(b2);
    if b2 != 0 {
        let val = relative_jump_target(c.registers.pc.get(), d);
        c.registers.pc.set(val);
        proof {
            assert(c@ =~= (CpuState {
                b: dec8(old(c)@.b),
                pc: wrap_add16(old(c)@.pc, sign_extended(d)),
                ..old(c)@
            }));
        }
        return Ok(13);
    }
    proof {
        assert(c@ =~= (CpuState { b: dec8(old(c)@.b), ..old(c)@ }));
    }
    Ok(8)
}

/// DEC BC: the pair is decremented modulo 0x10000 and Add/Subtract is set.
pub open spec fn op_0b_outcome(s: CpuState) -> Outcome {
    let v = wrap_dec16(pair16(s.b, s.c));
    Outcome::Next(
        CpuState {
            b: (v / 256) as u8,
            c: (v % 256) as u8,
            f: with_add_subtract(s.f, true),
            ..s
        },
        6,
    )
}

pub fn op_0b(c: &mut RuntimeComponents) -> (r: Result<u16, Fault>)
    requires
        old(c).wf(),
    ensures
        final(c).wf(),
        outcome_post(op_0b_outcome(old(c)@), old(c)@, final(c)@, r),
{
    let registers = &mut c.registers;
    RegisterOperations::dec_register_pair(&mut registers.b, &mut registers.c, &mut registers.f);
    proof {
        let v = wrap_dec16(pair16(old(c)@.b, old(c)@.c));
        assert(c@ =~= (CpuState {
            b: (v / 256) as u8,
            c: (v % 256) as u8,
            f: with_add_subtract(old(c)@.f, true),
            ..old(c)@
        }));
    }
    Ok(6)
}

/// INC C.
pub open spec fn op_0c_outcome(s: CpuState) -> Outcome {
    Outcome::Next(CpuState { c: inc8(s.c), f: inc_flags(s.f, s.c), ..s }, 4)
}

pub fn op_0c(c: &mut RuntimeComponents) -> (r: Result<u16, Fault>)
    requires
        old(c).wf(),
    ensures
        final(c).wf(),
        outcome_post(op_0c_outcome(old(c)@), old(c)@, final(c)@, r),
{
    let registers = &mut c.registers;
    RegisterOperations::inc(&mut registers.c, &mut registers.f);
    proof {
        assert(c@ =~= (CpuState { c: inc8(old(c)@.c), f: inc_flags(old(c)@.f, old(c)@.c), ..old(c)@ }));
    }
    Ok(4)
}

/// DEC C.
pub open spec fn op_0d_outcome(s: CpuState) -> Outcome {
    Outcome::Next(CpuState { c: dec8(s.c), f: dec_flags(s.f, s.c), ..s }, 4)
}

pub fn op_0d(c: &mut RuntimeComponents) -> (r: Result<u16, Fault>)
    requires
        old(c).wf(),
    ensures
        final(c).wf(),
        outcome_post(op_0d_outcome(old(c)@), old(c)@, final(c)@, r),
{
    let registers = &mut c.registers;
    RegisterOperations::dec(&mut registers.c, &mut registers.f);
    proof {
        assert(c@ =~= (CpuState {
            c: dec8(old(c)@.c),
            f: dec_flags(old(c)@.f, old(c)@.c),
            ..old(c)@
        }));
    }
    Ok(4)
}

/// LD C,n.
pub open spec fn op_0e_outcome(s: CpuState, value: u8) -> Outcome {
    Outcome::Next(CpuState { c: value, ..s }, 7)
}

pub fn op_0e(c: &mut RuntimeComponents, value: u8) -> (r: Result<u16, Fault>)
    requires
        old(c).wf(),
    ensures
        final(c).wf(),
        outcome_post(op_0e_outcome(old(c)@, value), old(c)@, final(c)@, r),
{
    RegisterOperations::ld_register_with_value(&mut c.registers.c, value);
    proof {
        assert(c@ =~= (CpuState { c: value, ..old(c)@ }));
    }
    Ok(7)
}

/// LD DE,nn: the second operand byte lands in D, the first in E.
pub open spec fn op_11_outcome(s: CpuState, first: u8, second: u8) -> Outcome {
    Outcome::Next(CpuState { d: second, e: first, ..s }, 10)
}

pub fn op_11(c: &mut RuntimeComponents, first: u8, second: u8) -> (r: Result<u16, Fault>)
    requires
        old(c).wf(),
    ensures
        final(c).wf(),
        outcome_post(op_11_outcome(old(c)@, first, second), old(c)@, final(c)@, r),
{
    RegisterOperations::ld_register_pair_with_value(
        &mut c.registers.d,
        &mut c.registers.e,
        combine_to_double_byte(second, first),
    );
    proof {
        lemma_pair16_parts(second, first);
        assert(c@ =~= (CpuState { d: second, e: first, ..old(c)@ }));
    }
    Ok(10)
}

/// INC DE: like INC BC, Add/Subtract is set.
pub open spec fn op_13_outcome(s: CpuState) -> Outcome {
    let v = wrap_inc16(pair16(s.d, s.e));
    Outcome::Next(
        CpuState {
            d: (v / 256) as u8,
            e: (v % 256) as u8,
            f: with_add_subtract(s.f, true),
            ..s
        },
        6,
    )
}

pub fn op_13(c: &mut RuntimeComponents) -> (r: Result<u16, Fault>)
    requires
        old(c).wf(),
    ensures
        final(c).wf(),
        outcome_post(op_13_outcome(old(c)@), old(c)@, final(c)@, r),
{
    RegisterOperations::inc_register_pair(&mut c.registers.d, &mut c.registers.e, &mut c.registers.f);
    proof {
        let v = wrap_inc16(pair16(old(c)@.d, old(c)@.e));
        assert(c@ =~= (CpuState {
            d: (v / 256) as u8,
            e: (v % 256) as u8,
            f: with_add_subtract(old(c)@.f, true),
            ..old(c)@
        }));
    }
    Ok(6)
}

/// JR d: the signed displacement is added to the program counter.
pub open spec fn op_18_outcome(s: CpuState, d: u8) -> Outcome {
    Outcome::Next(CpuState { pc: wrap_add16(s.pc, sign_extended(d)), ..s }, 12)
}

pub fn op_18(c: &mut RuntimeComponents, d: u8) -> (r: Result<u16, Fault>)
    requires
        old(c).wf(),
    ensures
        final(c).wf(),
        outcome_post(op_18_outcome(old(c)@, d), old(c)@, final(c)@, r),
{
    let val = relative_jump_target(c.registers.pc.get(), d);
    c.registers.pc.set(val);
    proof {
        assert(c@ =~= (CpuState { pc: wrap_add16(old(c)@.pc, sign_extended(d)), ..old(c)@ }));
    }
    Ok(12)
}

/// ADD HL,DE.
pub open spec fn op_19_outcome(s: CpuState) -> Outcome {
    let v1 = pair16(s.h, s.l);
    let v2 = pair16(s.d, s.e);
    let total = wrap_add16(v1, v2 as int);
    Outcome::Next(
        CpuState {
            h: (total / 256) as u8,
            l: (total % 256) as u8,
            f: add_pair_flags(s.f, v1, v2),
            ..s
        },
        11,
    )
}

pub fn op_19(c: &mut RuntimeComponents) -> (r: Result<u16, Fault>)
    requires
        old(c).wf(),
    ensures
        final(c).wf(),
        outcome_post(op_19_outcome(old(c)@), old(c)@, final(c)@, r),
{
    let registers = &mut c.registers;
    RegisterOperations::add_register_pairs(
        &mut registers.h,
        &mut registers.l,
        &registers.d,
        &registers.e,
        &mut registers.f,
    );
    proof {
        let v1 = pair16(old(c)@.h, old(c)@.l);
        let v2 = pair16(old(c)@.d, old(c)@.e);
        let total = wrap_add16(v1, v2 as int);
        assert(c@ =~= (CpuState {
            h: (total / 256) as u8,
            l: (total % 256) as u8,
            f: add_pair_flags(old(c)@.f, v1, v2),
            ..old(c)@
        }));
    }
    Ok(11)
}

/// LD A,(DE): loads the byte at the address in the BC pair into A.
pub open spec fn op_1a_outcome(s: CpuState) -> Outcome {
    let addr = pair_value(s.b, s.c);
    if addr < 0xFFFF {
        Outcome::Next(CpuState { a: s.mem[addr], ..s }, 7)
    } else {
        Outcome::Stuck(Fault::MemoryOutOfRange { addr: 0xFFFF })
    }
}

pub fn op_1a(c: &mut RuntimeComponents) -> (r: Result<u16, Fault>)
    requires
        old(c).wf(),
    ensures
        final(c).wf(),
        outcome_post(op_1a_outcome(old(c)@), old(c)@, final(c)@, r),
{
    let addr = combine_to_double_byte(c.registers.b.get(), c.registers.c.get());
    if addr >= 0xFFFF {
        return Err(Fault::MemoryOutOfRange { addr: 0xFFFF });
    }
    RegisterOperations::ld_register_from_addr_with_register_pair(
        &c.mem,
        &mut c.registers.a,
        &c.registers.b,
        &c.registers.c,
    );
    proof {
        assert(c@ =~= (CpuState { a: old(c)@.mem[pair_value(old(c)@.b, old(c)@.c)], ..old(c)@ }));
    }
    Ok(7)
}

/// JR NZ,d: taken while the Zero flag is unset.
pub open spec fn op_20_outcome(s: CpuState, d: u8) -> Outcome {
    if !is_zero(s.f) {
        Outcome::Next(CpuState { pc: wrap_add16(s.pc, sign_extended(d)), ..s }, 12)
    } else {
        Outcome::Next(s, 7)
    }
}

pub fn op_20(c: &mut RuntimeComponents, d: u8) -> (r: Result<u16, Fault>)
    requires
        old(c).wf(),
    ensures
        final(c).wf(),
        outcome_post(op_20_outcome(old(c)@, d), old(c)@, final(c)@, r),
{
    if c.registers.f.get_zero() == FlagValue::Off {
        let val = relative_jump_target(c.registers.pc.get(), d);
        c.registers.pc.set(val);
        proof {
            assert(c@ =~= (CpuState { pc: wrap_add16(old(c)@.pc, sign_extended(d)), ..old(c)@ }));
        }
        return Ok(12);
    }
    proof {
        assert(c@ =~= old(c)@);
    }
    Ok(7)
}

/// LD HL,nn: the second operand byte lands in H, the first in L.
pub open spec fn op_21_outcome(s: CpuState, first: u8, second: u8) -> Outcome {
    Outcome::Next(CpuState { h: second, l: first, ..s }, 10)
}

pub fn op_21(c: &mut RuntimeComponents, first: u8, second: u8) -> (r: Result<u16, Fault>)
    requires
        old(c).wf(),
    ensures
        final(c).wf(),
        outcome_post(op_21_outcome(old(c)@, first, second), old(c)@, final(c)@, r),
{
    RegisterOperations::ld_register_pair_with_value(
        &mut c.registers.h,
        &mut c.registers.l,
        combine_to_double_byte(second, first),
    );
    proof {
        lemma_pair16_parts(second, first);
        assert(c@ =~= (CpuState { h: second, l: first, ..old(c)@ }));
    }
    Ok(10)
}

/// LD (nn),HL: stores only L, at the address spelt with the first operand
/// byte as its high byte.
pub open spec fn op_22_outcome(s: CpuState, first: u8, second: u8) -> Outcome {
    let addr = pair_value(first, second);
    if addr < 0xFFFF {
        Outcome::Next(CpuState { mem: s.mem.update(addr, s.l), ..s }, 16)
    } else {
        Outcome::Stuck(Fault::MemoryOutOfRange { addr: 0xFFFF })
    }
}

pub fn op_22(c: &mut RuntimeComponents, first: u8, second: u8) -> (r: Result<u16, Fault>)
    requires
        old(c).wf(),
    ensures
        final(c).wf(),
        outcome_post(op_22_outcome(old(c)@, first, second), old(c)@, final(c)@, r),
{
    let addr = combine_to_double_byte(first, second);
    if addr >= 0xFFFF {
        return Err(Fault::MemoryOutOfRange { addr: 0xFFFF });
    }
    RegisterOperations::ld_addr_from_value_with_register_pair(
        &mut c.mem,
        addr,
        &c.registers.h,
        &c.registers.l,
    );
    proof {
        assert(c@ =~= (CpuState {
            mem: old(c)@.mem.update(pair_value(first, second), old(c)@.l),
            ..old(c)@
        }));
    }
    Ok(16)
}

/// INC HL: like INC BC, Add/Subtract is set.
pub open spec fn op_23_outcome(s: CpuState) -> Outcome {
    let v = wrap_inc16(pair16(s.h, s.l));
    Outcome::Next(
        CpuState {
            h: (v / 256) as u8,
            l: (v % 256) as u8,
            f: with_add_subtract(s.f, true),
            ..s
        },
        6,
    )
}

pub fn op_23(c: &mut RuntimeComponents) -> (r: Result<u16, Fault>)
    requires
        old(c).wf(),
    ensures
        final(c).wf(),
        outcome_post(op_23_outcome(old(c)@), old(c)@, final(c)@, r),
{
    RegisterOperations::inc_register_pair(&mut c.registers.h, &mut c.registers.l, &mut c.registers.f);
    proof {
        let v = wrap_inc16(pair16(old(c)@.h, old(c)@.l));
        assert(c@ =~= (CpuState {
            h: (v / 256) as u8,
            l: (v % 256) as u8,
            f: with_add_subtract(old(c)@.f, true),
            ..old(c)@
        }));
    }
    Ok(6)
}

/// ADD HL,HL: the pair is doubled modulo 0x10000.
pub open spec fn op_29_outcome(s: CpuState) -> Outcome {
    let v = pair16(s.h, s.l);
    let total = wrap_add16(v, v as int);
    Outcome::Next(
        CpuState {
            h: (total / 256) as u8,
            l: (total % 256) as u8,
            f: add_pair_flags(s.f, v, v),
            ..s
        },
        11,
    )
}

pub fn op_29(c: &mut RuntimeComponents) -> (r: Result<u16, Fault>)
    requires
        old(c).wf(),
    ensures
        final(c).wf(),
        outcome_post(op_29_outcome(old(c)@), old(c)@, final(c)@, r),
{
    RegisterOperations::dbl_register_pair(&mut c.registers.h, &mut c.registers.l, &mut c.registers.f);
    proof {
        let v = pair16(old(c)@.h, old(c)@.l);
        let total = wrap_add16(v, v as int);
        assert(c@ =~= (CpuState {
            h: (total / 256) as u8,
            l: (total % 256) as u8,
            f: add_pair_flags(old(c)@.f, v, v),
            ..old(c)@
        }));
    }
    Ok(11)
}

/// DEC HL.
pub open spec fn op_2b_outcome(s: CpuState) -> Outcome {
    let v = wrap_dec16(pair16(s.h, s.l));
    Outcome::Next(
        CpuState {
            h: (v / 256) as u8,
            l: (v % 256) as u8,
            f: with_add_subtract(s.f, true),
            ..s
        },
        6,
    )
}

pub fn op_2b(c: &mut RuntimeComponents) -> (r: Result<u16, Fault>)
    requires
        old(c).wf(),
    ensures
        final(c).wf(),
        outcome_post(op_2b_outcome(old(c)@), old(c)@, final(c)@, r),
{
    RegisterOperations::dec_register_pair(&mut c.registers.h, &mut c.registers.l, &mut c.registers.f);
    proof {
        let v = wrap_dec16(pair16(old(c)@.h, old(c)@.l));
        assert(c@ =~= (CpuState {
            h: (v / 256) as u8,
            l: (v % 256) as u8,
            f: with_add_subtract(old(c)@.f, true),
            ..old(c)@
        }));
    }
    Ok(6)
}

/// DEC L.
pub open spec fn op_2d_outcome(s: CpuState) -> Outcome {
    Outcome::Next(CpuState { l: dec8(s.l), f: dec_flags(s.f, s.l), ..s }, 4)
}

pub fn op_2d(c: &mut RuntimeComponents) -> (r: Result<u16, Fault>)
    requires
        old(c).wf(),
    ensures
        final(c).wf(),
        outcome_post(op_2d_outcome(old(c)@), old(c)@, final(c)@, r),
{
    RegisterOperations::dec(&mut c.registers.l, &mut c.registers.f);
    proof {
        assert(c@ =~= (CpuState {
            l: dec8(old(c)@.l),
            f: dec_flags(old(c)@.f, old(c)@.l),
            ..old(c)@
        }));
    }
    Ok(4)
}

/// CPL: the accumulator is inverted; no flag changes.
pub open spec fn op_2f_outcome(s: CpuState) -> Outcome {
    Outcome::Next(CpuState { a: (255 - s.a) as u8, ..s }, 4)
}

pub fn op_2f(c: &mut RuntimeComponents) -> (r: Result<u16, Fault>)
    requires
        old(c).wf(),
    ensures
        final(c).wf(),
        outcome_post(op_2f_outcome(old(c)@), old(c)@, final(c)@, r),
{
    let inverted = 0xFF - c.registers.a.get();
    c.registers.a.set(inverted);
    proof {
        assert(c@ =~= (CpuState { a: (255 - old(c)@.a) as u8, ..old(c)@ }));
    }
    Ok(4)
}

/// JR NC,d: taken while the Carry flag is unset.
pub open spec fn op_30_outcome(s: CpuState, d: u8) -> Outcome {
    if !is_carry(s.f) {
        Outcome::Next(CpuState { pc: wrap_add16(s.pc, sign_extended(d)), ..s }, 12)
    } else {
        Outcome::Next(s, 7)
    }
}

pub fn op_30(c: &mut RuntimeComponents, d: u8) -> (r: Result<u16, Fault>)
    requires
        old(c).wf(),
    ensures
        final(c).wf(),
        outcome_post(op_30_outcome(old(c)@, d), old(c)@, final(c)@, r),
{
    if c.registers.f.get_carry() == FlagValue::Off {
        let val = relative_jump_target(c.registers.pc.get(), d);
        c.registers.pc.set(val);
        proof {
            assert(c@ =~= (CpuState { pc: wrap_add16(old(c)@.pc, sign_extended(d)), ..old(c)@ }));
        }
        return Ok(12);
    }
    proof {
        assert(c@ =~= old(c)@);
    }
    Ok(7)
}

/// LD SP,nn: the stack pointer is loaded with the 16-bit immediate.
pub open spec fn op_31_outcome(s: CpuState, first: u8, second: u8) -> Outcome {
    Outcome::Next(CpuState { sp: pair16(second, first) as usize, ..s }, 10)
}

pub fn op_31(c: &mut RuntimeComponents, first: u8, second: u8) -> (r: Result<u16, Fault>)
    requires
        old(c).wf(),
    ensures
        final(c).wf(),
        outcome_post(op_31_outcome(old(c)@, first, second), old(c)@, final(c)@, r),
{
    c.registers.sp.set(combine_to_double_byte(second, first) as usize);
    proof {
        assert(c@ =~= (CpuState { sp: pair16(second, first) as usize, ..old(c)@ }));
    }
    Ok(10)
}

/// LD (nn),A.
pub open spec fn op_32_outcome(s: CpuState, first: u8, second: u8) -> Outcome {
    let addr = pair_value(second, first);
    if addr < 0xFFFF {
        Outcome::Next(CpuState { mem: s.mem.update(addr, s.a), ..s }, 13)
    } else {
        Outcome::Stuck(Fault::MemoryOutOfRange { addr: 0xFFFF })
    }
}

pub fn op_32(c: &mut RuntimeComponents, first: u8, second: u8) -> (r: Result<u16, Fault>)
    requires
        old(c).wf(),
    ensures
        final(c).wf(),
        outcome_post(op_32_outcome(old(c)@, first, second), old(c)@, final(c)@, r),
{
    let addr = combine_to_double_byte(second, first);
    if addr >= 0xFFFF {
        return Err(Fault::MemoryOutOfRange { addr: 0xFFFF });
    }
    RegisterOperations::ld_addr_from_value_with_register(&mut c.mem, addr, &c.registers.a);
    proof {
        assert(c@ =~= (CpuState {
            mem: old(c)@.mem.update(pair_value(second, first), old(c)@.a),
            ..old(c)@
        }));
    }
    Ok(13)
}

/// LD (HL),n.
pub open spec fn op_36_outcome(s: CpuState, value: u8) -> Outcome {
    let addr = pair_value(s.h, s.l);
    if addr < 0xFFFF {
        Outcome::Next(CpuState { mem: s.mem.update(addr, value), ..s }, 10)
    } else {
        Outcome::Stuck(Fault::MemoryOutOfRange { addr: 0xFFFF })
    }
}

pub fn op_36(c: &mut RuntimeComponents, value: u8) -> (r: Result<u16, Fault>)
    requires
        old(c).wf(),
    ensures
        final(c).wf(),
        outcome_post(op_36_outcome(old(c)@, value), old(c)@, final(c)@, r),
{
    let addr = combine_to_double_byte(c.registers.h.get(), c.registers.l.get());
    if addr >= 0xFFFF {
        return Err(Fault::MemoryOutOfRange { addr: 0xFFFF });
    }
    RegisterOperations::ld_addr_from_reg_pair_with_value(
        &mut c.mem,
        &c.registers.h,
        &c.registers.l,
        value,
    );
    proof {
        assert(c@ =~= (CpuState {
            mem: old(c)@.mem.update(pair_value(old(c)@.h, old(c)@.l), value),
            ..old(c)@
        }));
    }
    Ok(10)
}

/// LD A,(nn).
pub open spec fn op_3a_outcome(s: CpuState, first: u8, second: u8) -> Outcome {
    let addr = pair_value(second, first);
    if addr < 0xFFFF {
        Outcome::Next(CpuState { a: s.mem[addr], ..s }, 13)
    } else {
        Outcome::Stuck(Fault::MemoryOutOfRange { addr: 0xFFFF })
    }
}

pub fn op_3a(c: &mut RuntimeComponents, first: u8, second: u8) -> (r: Result<u16, Fault>)
    requires
        old(c).wf(),
    ensures
        final(c).wf(),
        outcome_post(op_3a_outcome(old(c)@, first, second), old(c)@, final(c)@, r),
{
    let addr = combine_to_double_byte(second, first);
    if addr >= 0xFFFF {
        return Err(Fault::MemoryOutOfRange { addr: 0xFFFF });
    }
    RegisterOperations::ld_register_from_addr(&c.mem, &mut c.registers.a, addr);
    proof {
        assert(c@ =~= (CpuState { a: old(c)@.mem[pair_value(second, first)], ..old(c)@ }));
    }
    Ok(13)
}

/// INC A.
pub open spec fn op_3c_outcome(s: CpuState) -> Outcome {
    Outcome::Next(CpuState { a: inc8(s.a), f: inc_flags(s.f, s.a), ..s }, 4)
}

pub fn op_3c(c: &mut RuntimeComponents) -> (r: Result<u16, Fault>)
    requires
        old(c).wf(),
    ensures
        final(c).wf(),
        outcome_post(op_3c_outcome(old(c)@), old(c)@, final(c)@, r),
{
    RegisterOperations::inc(&mut c.registers.a, &mut c.registers.f);
    proof {
        assert(c@ =~= (CpuState { a: inc8(old(c)@.a), f: inc_flags(old(c)@.f, old(c)@.a), ..old(c)@ }));
    }
    Ok(4)
}

/// LD A,n.
pub open spec fn op_3e_outcome(s: CpuState, value: u8) -> Outcome {
    Outcome::Next(CpuState { a: value, ..s }, 7)
}

pub fn op_3e(c: &mut RuntimeComponents, value: u8) -> (r: Result<u16, Fault>)
    requires
        old(c).wf(),
    ensures
        final(c).wf(),
        outcome_post(op_3e_outcome(old(c)@, value), old(c)@, final(c)@, r),
{
    RegisterOperations::ld_register_with_value(&mut c.registers.a, value);
    proof {
        assert(c@ =~= (CpuState { a: value, ..old(c)@ }));
    }
    Ok(7)
}

/// LD B,C.
pub open spec fn op_41_outcome(s: CpuState) -> Outcome {
    Outcome::Next(CpuState { b: s.c, ..s }, 4)
}

pub fn op_41(c: &mut RuntimeComponents) -> (r: Result<u16, Fault>)
    requires
        old(c).wf(),
    ensures
        final(c).wf(),
        outcome_post(op_41_outcome(old(c)@), old(c)@, final(c)@, r),
{
    RegisterOperations::ld_register_from_register(&c.registers.c, &mut c.registers.b);
    proof {
        assert(c@ =~= (CpuState { b: old(c)@.c, ..old(c)@ }));
    }
    Ok(4)
}

/// LD B,A.
pub open spec fn op_47_outcome(s: CpuState) -> Outcome {
    Outcome::Next(CpuState { b: s.a, ..s }, 4)
}

pub fn op_47(c: &mut RuntimeComponents) -> (r: Result<u16, Fault>)
    requires
        old(c).wf(),
    ensures
        final(c).wf(),
        outcome_post(op_47_outcome(old(c)@), old(c)@, final(c)@, r),
{
    RegisterOperations::ld_register_from_register(&c.registers.a, &mut c.registers.b);
    proof {
        assert(c@ =~= (CpuState { b: old(c)@.a, ..old(c)@ }));
    }
    Ok(4)
}

/// LD C,H.
pub open spec fn op_4c_outcome(s: CpuState) -> Outcome {
    Outcome::Next(CpuState { c: s.h, ..s }, 4)
}

pub fn op_4c(c: &mut RuntimeComponents) -> (r: Result<u16, Fault>)
    requires
        old(c).wf(),
    ensures
        final(c).wf(),
        outcome_post(op_4c_outcome(old(c)@), old(c)@, final(c)@, r),
{
    RegisterOperations::ld_register_from_register(&c.registers.h, &mut c.registers.c);
    proof {
        assert(c@ =~= (CpuState { c: old(c)@.h, ..old(c)@ }));
    }
    Ok(4)
}

/// LD C,(HL).
pub open spec fn op_4e_outcome(s: CpuState) -> Outcome {
    let addr = pair_value(s.h, s.l);
    if addr < 0xFFFF {
        Outcome::Next(CpuState { c: s.mem[addr], ..s }, 7)
    } else {
        Outcome::Stuck(Fault::MemoryOutOfRange { addr: 0xFFFF })
    }
}

pub fn op_4e(c: &mut RuntimeComponents) -> (r: Result<u16, Fault>)
    requires
        old(c).wf(),
    ensures
        final(c).wf(),
        outcome_post(op_4e_outcome(old(c)@), old(c)@, final(c)@, r),
{
    let addr = combine_to_double_byte(c.registers.h.get(), c.registers.l.get());
    if addr >= 0xFFFF {
        return Err(Fault::MemoryOutOfRange { addr: 0xFFFF });
    }
    RegisterOperations::ld_register_from_addr_with_register_pair(
        &c.mem,
        &mut c.registers.c,
        &c.registers.h,
        &c.registers.l,
    );
    proof {
        assert(c@ =~= (CpuState { c: old(c)@.mem[pair_value(old(c)@.h, old(c)@.l)], ..old(c)@ }));
    }
    Ok(7)
}

/// LD D,(HL).
pub open spec fn op_56_outcome(s: CpuState) -> Outcome {
    let addr = pair_value(s.h, s.l);
    if addr < 0xFFFF {
        Outcome::Next(CpuState { d: s.mem[addr], ..s }, 7)
    } else {
        Outcome::Stuck(Fault::MemoryOutOfRange { addr: 0xFFFF })
    }
}

pub fn op_56(c: &mut RuntimeComponents) -> (r: Result<u16, Fault>)
    requires
        old(c).wf(),
    ensures
        final(c).wf(),
        outcome_post(op_56_outcome(old(c)@), old(c)@, final(c)@, r),
{
    let addr = combine_to_double_byte(c.registers.h.get(), c.registers.l.get());
    if addr >= 0xFFFF {
        return Err(Fault::MemoryOutOfRange { addr: 0xFFFF });
    }
    RegisterOperations::ld_register_from_addr_with_register_pair(
        &c.mem,
        &mut c.registers.d,
        &c.registers.h,
        &c.registers.l,
    );
    proof {
        assert(c@ =~= (CpuState { d: old(c)@.mem[pair_value(old(c)@.h, old(c)@.l)], ..old(c)@ }));
    }
    Ok(7)
}

/// LD E,(HL).
pub open spec fn op_5e_outcome(s: CpuState) -> Outcome {
    let addr = pair_value(s.h, s.l);
    if addr < 0xFFFF {
        Outcome::Next(CpuState { e: s.mem[addr], ..s }, 7)
    } else {
        Outcome::Stuck(Fault::MemoryOutOfRange { addr: 0xFFFF })
    }
}

pub fn op_5e(c: &mut RuntimeComponents) -> (r: Result<u16, Fault>)
    requires
        old(c).wf(),
    ensures
        final(c).wf(),
        outcome_post(op_5e_outcome(old(c)@), old(c)@, final(c)@, r),
{
    let addr = combine_to_double_byte(c.registers.h.get(), c.registers.l.get());
    if addr >= 0xFFFF {
        return Err(Fault::MemoryOutOfRange { addr: 0xFFFF });
    }
    RegisterOperations::ld_register_from_addr_with_register_pair(
        &c.mem,
        &mut c.registers.e,
        &c.registers.h,
        &c.registers.l,
    );
    proof {
        assert(c@ =~= (CpuState { e: old(c)@.mem[pair_value(old(c)@.h, old(c)@.l)], ..old(c)@ }));
    }
    Ok(7)
}

/// LD H,A.
pub open spec fn op_67_outcome(s: CpuState) -> Outcome {
    Outcome::Next(CpuState { h: s.a, ..s }, 4)
}

pub fn op_67(c: &mut RuntimeComponents) -> (r: Result<u16, Fault>)
    requires
        old(c).wf(),
    ensures
        final(c).wf(),
        outcome_post(op_67_outcome(old(c)@), old(c)@, final(c)@, r),
{
    RegisterOperations::ld_register_from_register(&c.registers.a, &mut c.registers.h);
    proof {
        assert(c@ =~= (CpuState { h: old(c)@.a, ..old(c)@ }));
    }
    Ok(4)
}

/// LD L,A.
pub open spec fn op_6f_outcome(s: CpuState) -> Outcome {
    Outcome::Next(CpuState { l: s.a, ..s }, 4)
}

pub fn op_6f(c: &mut RuntimeComponents) -> (r: Result<u16, Fault>)
    requires
        old(c).wf(),
    ensures
        final(c).wf(),
        outcome_post(op_6f_outcome(old(c)@), old(c)@, final(c)@, r),
{
    RegisterOperations::ld_register_from_register(&c.registers.a, &mut c.registers.l);
    proof {
        assert(c@ =~= (CpuState { l: old(c)@.a, ..old(c)@ }));
    }
    Ok(4)
}

/// The outcome of storing a byte at the address in HL.
pub open spec fn store_at_hl_outcome(s: CpuState, byte: u8, cycles: u16) -> Outcome {
    let addr = pair_value(s.h, s.l);
    if addr < 0xFFFF {
        Outcome::Next(CpuState { mem: s.mem.update(addr, byte), ..s }, cycles)
    } else {
        Outcome::Stuck(Fault::MemoryOutOfRange { addr: 0xFFFF })
    }
}

/// LD (HL),B.
pub open spec fn op_70_outcome(s: CpuState) -> Outcome {
    store_at_hl_outcome(s, s.b, 7)
}

pub fn op_70(c: &mut RuntimeComponents) -> (r: Result<u16, Fault>)
    requires
        old(c).wf(),
    ensures
        final(c).wf(),
        outcome_post(op_70_outcome(old(c)@), old(c)@, final(c)@, r),
{
    let addr = combine_to_double_byte(c.registers.h.get(), c.registers.l.get());
    if addr >= 0xFFFF {
        return Err(Fault::MemoryOutOfRange { addr: 0xFFFF });
    }
    RegisterOperations::ld_addr_from_reg_pair_with_register(
        &mut c.mem,
        &c.registers.h,
        &c.registers.l,
        &c.registers.b,
    );
    proof {
        assert(c@ =~= (CpuState {
            mem: old(c)@.mem.update(pair_value(old(c)@.h, old(c)@.l), old(c)@.b),
            ..old(c)@
        }));
    }
    Ok(7)
}

/// LD (HL),C.
pub open spec fn op_71_outcome(s: CpuState) -> Outcome {
    store_at_hl_outcome(s, s.c, 7)
}

pub fn op_71(c: &mut RuntimeComponents) -> (r: Result<u16, Fault>)
    requires
        old(c).wf(),
    ensures
        final(c).wf(),
        outcome_post(op_71_outcome(old(c)@), old(c)@, final(c)@, r),
{
    let addr = combine_to_double_byte(c.registers.h.get(), c.registers.l.get());
    if addr >= 0xFFFF {
        return Err(Fault::MemoryOutOfRange { addr: 0xFFFF });
    }
    RegisterOperations::ld_addr_from_reg_pair_with_register(
        &mut c.mem,
        &c.registers.h,
        &c.registers.l,
        &c.registers.c,
    );
    proof {
        assert(c@ =~= (CpuState {
            mem: old(c)@.mem.update(pair_value(old(c)@.h, old(c)@.l), old(c)@.c),
            ..old(c)@
        }));
    }
    Ok(7)
}

/// LD (HL),D.
pub open spec fn op_72_outcome(s: CpuState) -> Outcome {
    store_at_hl_outcome(s, s.d, 7)
}

pub fn op_72(c: &mut RuntimeComponents) -> (r: Result<u16, Fault>)
    requires
        old(c).wf(),
    ensures
        final(c).wf(),
        outcome_post(op_72_outcome(old(c)@), old(c)@, final(c)@, r),
{
    let addr = combine_to_double_byte(c.registers.h.get(), c.registers.l.get());
    if addr >= 0xFFFF {
        return Err(Fault::MemoryOutOfRange { addr: 0xFFFF });
    }
    RegisterOperations::ld_addr_from_reg_pair_with_register(
        &mut c.mem,
        &c.registers.h,
        &c.registers.l,
        &c.registers.d,
    );
    proof {
        assert(c@ =~= (CpuState {
            mem: old(c)@.mem.update(pair_value(old(c)@.h, old(c)@.l), old(c)@.d),
            ..old(c)@
        }));
    }
    Ok(7)
}

/// LD (HL),E.
pub open spec fn op_73_outcome(s: CpuState) -> Outcome {
    store_at_hl_outcome(s, s.e, 7)
}

pub fn op_73(c: &mut RuntimeComponents) -> (r: Result<u16, Fault>)
    requires
        old(c).wf(),
    ensures
        final(c).wf(),
        outcome_post(op_73_outcome(old(c)@), old(c)@, final(c)@, r),
{
    let addr = combine_to_double_byte(c.registers.h.get(), c.registers.l.get());
    if addr >= 0xFFFF {
        return Err(Fault::MemoryOutOfRange { addr: 0xFFFF });
    }
    RegisterOperations::ld_addr_from_reg_pair_with_register(
        &mut c.mem,
        &c.registers.h,
        &c.registers.l,
        &c.registers.e,
    );
    proof {
        assert(c@ =~= (CpuState {
            mem: old(c)@.mem.update(pair_value(old(c)@.h, old(c)@.l), old(c)@.e),
            ..old(c)@
        }));
    }
    Ok(7)
}

/// LD (HL),A.
pub open spec fn op_77_outcome(s: CpuState) -> Outcome {
    store_at_hl_outcome(s, s.a, 7)
}

pub fn op_77(c: &mut RuntimeComponents) -> (r: Result<u16, Fault>)
    requires
        old(c).wf(),
    ensures
        final(c).wf(),
        outcome_post(op_77_outcome(old(c)@), old(c)@, final(c)@, r),
{
    let addr = combine_to_double_byte(c.registers.h.get(), c.registers.l.get());
    if addr >= 0xFFFF {
        return Err(Fault::MemoryOutOfRange { addr: 0xFFFF });
    }
    RegisterOperations::ld_addr_from_reg_pair_with_register(
        &mut c.mem,
        &c.registers.h,
        &c.registers.l,
        &c.registers.a,
    );
    proof {
        assert(c@ =~= (CpuState {
            mem: old(c)@.mem.update(pair_value(old(c)@.h, old(c)@.l), old(c)@.a),
            ..old(c)@
        }));
    }
    Ok(7)
}

/// LD A,B.
pub open spec fn op_78_outcome(s: CpuState) -> Outcome {
    Outcome::Next(CpuState { a: s.b, ..s }, 4)
}

pub fn op_78(c: &mut RuntimeComponents) -> (r: Result<u16, Fault>)
    requires
        old(c).wf(),
    ensures
        final(c).wf(),
        outcome_post(op_78_outcome(old(c)@), old(c)@, final(c)@, r),
{
    RegisterOperations::ld_register_from_register(&c.registers.b, &mut c.registers.a);
    proof {
        assert(c@ =~= (CpuState { a: old(c)@.b, ..old(c)@ }));
    }
    Ok(4)
}

/// LD A,C.
pub open spec fn op_79_outcome(s: CpuState) -> Outcome {
    Outcome::Next(CpuState { a: s.c, ..s }, 4)
}

pub fn op_79(c: &mut RuntimeComponents) -> (r: Result<u16, Fault>)
    requires
        old(c).wf(),
    ensures
        final(c).wf(),
        outcome_post(op_79_outcome(old(c)@), old(c)@, final(c)@, r),
{
    RegisterOperations::ld_register_from_register(&c.registers.c, &mut c.registers.a);
    proof {
        assert(c@ =~= (CpuState { a: old(c)@.c, ..old(c)@ }));
    }
    Ok(4)
}

/// LD A,H.
pub open spec fn op_7c_outcome(s: CpuState) -> Outcome {
    Outcome::Next(CpuState { a: s.h, ..s }, 4)
}

pub fn op_7c(c: &mut RuntimeComponents) -> (r: Result<u16, Fault>)
    requires
        old(c).wf(),
    ensures
        final(c).wf(),
        outcome_post(op_7c_outcome(old(c)@), old(c)@, final(c)@, r),
{
    RegisterOperations::ld_register_from_register(&c.registers.h, &mut c.registers.a);
    proof {
        assert(c@ =~= (CpuState { a: old(c)@.h, ..old(c)@ }));
    }
    Ok(4)
}

/// LD A,L.
pub open spec fn op_7d_outcome(s: CpuState) -> Outcome {
    Outcome::Next(CpuState { a: s.l, ..s }, 4)
}

pub fn op_7d(c: &mut RuntimeComponents) -> (r: Result<u16, Fault>)
    requires
        old(c).wf(),
    ensures
        final(c).wf(),
        outcome_post(op_7d_outcome(old(c)@), old(c)@, final(c)@, r),
{
    RegisterOperations::ld_register_from_register(&c.registers.l, &mut c.registers.a);
    proof {
        assert(c@ =~= (CpuState { a: old(c)@.l, ..old(c)@ }));
    }
    Ok(4)
}

/// LD A,(HL).
pub open spec fn op_7e_outcome(s: CpuState) -> Outcome {
    let addr = pair_value(s.h, s.l);
    if addr < 0xFFFF {
        Outcome::Next(CpuState { a: s.mem[addr], ..s }, 7)
    } else {
        Outcome::Stuck(Fault::MemoryOutOfRange { addr: 0xFFFF })
    }
}

pub fn op_7e(c: &mut RuntimeComponents) -> (r: Result<u16, Fault>)
    requires
        old(c).wf(),
    ensures
        final(c).wf(),
        outcome_post(op_7e_outcome(old(c)@), old(c)@, final(c)@, r),
{
    let addr = combine_to_double_byte(c.registers.h.get(), c.registers.l.get());
    if addr >= 0xFFFF {
        return Err(Fault::MemoryOutOfRange { addr: 0xFFFF });
    }
    RegisterOperations::ld_register_from_addr_with_register_pair(
        &c.mem,
        &mut c.registers.a,
        &c.registers.h,
        &c.registers.l,
    );
    proof {
        assert(c@ =~= (CpuState { a: old(c)@.mem[pair_value(old(c)@.h, old(c)@.l)], ..old(c)@ }));
    }
    Ok(7)
}

/// XOR C.
pub open spec fn op_a9_outcome(s: CpuState) -> Outcome {
    Outcome::Next(CpuState { a: s.a ^ s.c, f: xor_flags(s.f, s.c, s.a ^ s.c), ..s }, 4)
}

pub fn op_a9(c: &mut RuntimeComponents) -> (r: Result<u16, Fault>)
    requires
        old(c).wf(),
    ensures
        final(c).wf(),
        outcome_post(op_a9_outcome(old(c)@), old(c)@, final(c)@, r),
{
    let registers = &mut c.registers;
    registers.a.xor(&registers.c, &mut registers.f);
    proof {
        assert(c@ =~= (CpuState {
            a: old(c)@.a ^ old(c)@.c,
            f: xor_flags(old(c)@.f, old(c)@.c, old(c)@.a ^ old(c)@.c),
            ..old(c)@
        }));
    }
    Ok(4)
}

/// XOR A: the accumulator is cleared, so Zero is set while Parity/Overflow,
/// Sign, Half-carry, Carry and Add/Subtract are all cleared.
pub open spec fn op_af_outcome(s: CpuState) -> Outcome {
    Outcome::Next(CpuState { a: 0, f: xor_flags(s.f, 0, 0), ..s }, 4)
}

pub fn op_af(c: &mut RuntimeComponents) -> (r: Result<u16, Fault>)
    requires
        old(c).wf(),
    ensures
        final(c).wf(),
        outcome_post(op_af_outcome(old(c)@), old(c)@, final(c)@, r),
{
    c.registers.a.xor_a(&mut c.registers.f);
    proof {
        assert(c@ =~= (CpuState { a: 0, f: xor_flags(old(c)@.f, 0, 0), ..old(c)@ }));
    }
    Ok(4)
}

/// The outcome of an exclusive or of the accumulator with the byte at the
/// address in HL.
pub open spec fn xor_at_hl_outcome(s: CpuState, cycles: u16) -> Outcome {
    let addr = pair_value(s.h, s.l);
    if addr < 0xFFFF {
        let m = s.mem[addr];
        Outcome::Next(CpuState { a: s.a ^ m, f: xor_flags(s.f, m, s.a ^ m), ..s }, cycles)
    } else {
        Outcome::Stuck(Fault::MemoryOutOfRange { addr: 0xFFFF })
    }
}

/// OR (HL): performs an exclusive or of the accumulator with (HL).
pub open spec fn op_b6_outcome(s: CpuState) -> Outcome {
    xor_at_hl_outcome(s, 7)
}

pub fn op_b6(c: &mut RuntimeComponents) -> (r: Result<u16, Fault>)
    requires
        old(c).wf(),
    ensures
        final(c).wf(),
        outcome_post(op_b6_outcome(old(c)@), old(c)@, final(c)@, r),
{
    let addr = combine_to_double_byte(c.registers.h.get(), c.registers.l.get());
    if addr >= 0xFFFF {
        return Err(Fault::MemoryOutOfRange { addr: 0xFFFF });
    }
    let registers = &mut c.registers;
    registers.a.xor_address_from_reg_pair(&c.mem, &registers.h, &registers.l, &mut registers.f);
    proof {
        let m = old(c)@.mem[pair_value(old(c)@.h, old(c)@.l)];
        assert(c@ =~= (CpuState {
            a: old(c)@.a ^ m,
            f: xor_flags(old(c)@.f, m, old(c)@.a ^ m),
            ..old(c)@
        }));
    }
    Ok(7)
}

/// OR A: performs an exclusive or of the accumulator with (HL).
pub open spec fn op_b7_outcome(s: CpuState) -> Outcome {
    xor_at_hl_outcome(s, 4)
}

pub fn op_b7(c: &mut RuntimeComponents) -> (r: Result<u16, Fault>)
    requires
        old(c).wf(),
    ensures
        final(c).wf(),
        outcome_post(op_b7_outcome(old(c)@), old(c)@, final(c)@, r),
{
    let addr = combine_to_double_byte(c.registers.h.get(), c.registers.l.get());
    if addr >= 0xFFFF {
        return Err(Fault::MemoryOutOfRange { addr: 0xFFFF });
    }
    let registers = &mut c.registers;
    registers.a.xor_address_from_reg_pair(&c.mem, &registers.h, &registers.l, &mut registers.f);
    proof {
        let m = old(c)@.mem[pair_value(old(c)@.h, old(c)@.l)];
        assert(c@ =~= (CpuState {
            a: old(c)@.a ^ m,
            f: xor_flags(old(c)@.f, m, old(c)@.a ^ m),
            ..old(c)@
        }));
    }
    Ok(4)
}

/// CP E: compares the accumulator with E without modifying it; Zero and
/// Sign follow the discarded subtraction result.
pub open spec fn op_bb_outcome(s: CpuState) -> Outcome {
    Outcome::Next(CpuState { f: compare_flags(s.f, s.a, s.e), ..s }, 4)
}

pub fn op_bb(c: &mut RuntimeComponents) -> (r: Result<u16, Fault>)
    requires
        old(c).wf(),
    ensures
        final(c).wf(),
        outcome_post(op_bb_outcome(old(c)@), old(c)@, final(c)@, r),
{
    let registers = &mut c.registers;
    registers.a.compare_reg(&registers.e, &mut registers.f);
    proof {
        assert(c@ =~= (CpuState { f: compare_flags(old(c)@.f, old(c)@.a, old(c)@.e), ..old(c)@ }));
    }
    Ok(4)
}

/// The outcome of a conditional return: while taken, the top stack entry is
/// popped into the program counter at the higher cycle cost; otherwise the
/// state is unchanged at the lower cost.
pub open spec fn ret_if_outcome(s: CpuState, taken: bool) -> Outcome {
    if taken {
        if s.sp + 2 <= 0xFFFF {
            let (v, sp2) = stack_pop(s.mem, s.sp);
            Outcome::Next(CpuState { pc: v, sp: sp2, ..s }, 11)
        } else {
            Outcome::Stuck(Fault::StackOutOfRange { location: s.sp })
        }
    } else {
        Outcome::Next(s, 5)
    }
}

/// RET NZ.
pub open spec fn op_c0_outcome(s: CpuState) -> Outcome {
    ret_if_outcome(s, !is_zero(s.f))
}

pub fn op_c0(c: &mut RuntimeComponents) -> (r: Result<u16, Fault>)
    requires
        old(c).wf(),
    ensures
        final(c).wf(),
        outcome_post(op_c0_outcome(old(c)@), old(c)@, final(c)@, r),
{
    if c.registers.f.get_zero() == FlagValue::Off {
        if c.registers.sp.location > 0xFFFD {
            proof {
                assert(c@ =~= old(c)@);
            }
            return Err(Fault::StackOutOfRange { location: c.registers.sp.location });
        }
        let v = c.registers.sp.pop(&c.mem);
        c.registers.pc.set(v);
        proof {
            let (v2, sp2) = stack_pop(old(c)@.mem, old(c)@.sp);
            assert(c@ =~= (CpuState { pc: v2, sp: sp2, ..old(c)@ }));
        }
        return Ok(11);
    }
    proof {
        assert(c@ =~= old(c)@);
    }
    Ok(5)
}

/// POP BC.
pub open spec fn op_c1_outcome(s: CpuState) -> Outcome {
    if s.sp + 2 <= 0xFFFF {
        let (v, sp2) = stack_pop(s.mem, s.sp);
        Outcome::Next(CpuState { b: (v / 256) as u8, c: (v % 256) as u8, sp: sp2, ..s }, 10)
    } else {
        Outcome::Stuck(Fault::StackOutOfRange { location: s.sp })
    }
}

pub fn op_c1(c: &mut RuntimeComponents) -> (r: Result<u16, Fault>)
    requires
        old(c).wf(),
    ensures
        final(c).wf(),
        outcome_post(op_c1_outcome(old(c)@), old(c)@, final(c)@, r),
{
    if c.registers.sp.location > 0xFFFD {
        return Err(Fault::StackOutOfRange { location: c.registers.sp.location });
    }
    RegisterOperations::pop_register_pair(
        &mut c.registers.b,
        &mut c.registers.c,
        &mut c.registers.sp,
        &mut c.mem,
    );
    proof {
        let (v, sp2) = stack_pop(old(c)@.mem, old(c)@.sp);
        assert(c@ =~= (CpuState {
            b: (v / 256) as u8,
            c: (v % 256) as u8,
            sp: sp2,
            ..old(c)@
        }));
    }
    Ok(10)
}

/// JP NZ,nn: while the Zero flag is unset the program counter is set to the
/// big-endian combination of the two operand bytes; the cycle cost is the
/// same either way.
pub open spec fn op_c2_outcome(s: CpuState, first: u8, second: u8) -> Outcome {
    if !is_zero(s.f) {
        Outcome::Next(CpuState { pc: pair16(second, first), ..s }, 10)
    } else {
        Outcome::Next(s, 10)
    }
}

pub fn op_c2(c: &mut RuntimeComponents, first: u8, second: u8) -> (r: Result<u16, Fault>)
    requires
        old(c).wf(),
    ensures
        final(c).wf(),
        outcome_post(op_c2_outcome(old(c)@, first, second), old(c)@, final(c)@, r),
{
    if c.registers.f.get_zero() == FlagValue::Off {
        c.registers.pc.set(combine_to_double_byte(second, first));
        proof {
            assert(c@ =~= (CpuState { pc: pair16(second, first), ..old(c)@ }));
        }
        return Ok(10);
    }
    proof {
        assert(c@ =~= old(c)@);
    }
    Ok(10)
}

/// JP nn.
pub open spec fn op_c3_outcome(s: CpuState, first: u8, second: u8) -> Outcome {
    Outcome::Next(CpuState { pc: pair16(second, first), ..s }, 10)
}

pub fn op_c3(c: &mut RuntimeComponents, first: u8, second: u8) -> (r: Result<u16, Fault>)
    requires
        old(c).wf(),
    ensures
        final(c).wf(),
        outcome_post(op_c3_outcome(old(c)@, first, second), old(c)@, final(c)@, r),
{
    c.registers.pc.set(combine_to_double_byte(second, first));
    proof {
        assert(c@ =~= (CpuState { pc: pair16(second, first), ..old(c)@ }));
    }
    Ok(10)
}

/// The outcome of pushing a 16-bit value onto the stack.
pub open spec fn push_outcome(s: CpuState, value: u16, cycles: u16) -> Outcome {
    if 2 <= s.sp <= 0xFFFF {
        let (m2, sp2) = stack_push(s.mem, s.sp, value);
        Outcome::Next(CpuState { mem: m2, sp: sp2, ..s }, cycles)
    } else {
        Outcome::Stuck(Fault::StackOutOfRange { location: s.sp })
    }
}

/// PUSH BC.
pub open spec fn op_c5_outcome(s: CpuState) -> Outcome {
    push_outcome(s, pair16(s.b, s.c), 11)
}

pub fn op_c5(c: &mut RuntimeComponents) -> (r: Result<u16, Fault>)
    requires
        old(c).wf(),
    ensures
        final(c).wf(),
        outcome_post(op_c5_outcome(old(c)@), old(c)@, final(c)@, r),
{
    if c.registers.sp.location < 2 || c.registers.sp.location > 0xFFFF {
        return Err(Fault::StackOutOfRange { location: c.registers.sp.location });
    }
    RegisterOperations::push_register_pair(
        &c.registers.b,
        &c.registers.c,
        &mut c.registers.sp,
        &mut c.mem,
    );
    proof {
        let (m2, sp2) = stack_push(old(c)@.mem, old(c)@.sp, pair16(old(c)@.b, old(c)@.c));
        assert(c@ =~= (CpuState { mem: m2, sp: sp2, ..old(c)@ }));
    }
    Ok(11)
}

/// RET Z.
pub open spec fn op_c8_outcome(s: CpuState) -> Outcome {
    ret_if_outcome(s, is_zero(s.f))
}

pub fn op_c8(c: &mut RuntimeComponents) -> (r: Result<u16, Fault>)
    requires
        old(c).wf(),
    ensures
        final(c).wf(),
        outcome_post(op_c8_outcome(old(c)@), old(c)@, final(c)@, r),
{
    if c.registers.f.get_zero() == FlagValue::On {
        if c.registers.sp.location > 0xFFFD {
            proof {
                assert(c@ =~= old(c)@);
            }
            return Err(Fault::StackOutOfRange { location: c.registers.sp.location });
        }
        let v = c.registers.sp.pop(&c.mem);
        c.registers.pc.set(v);
        proof {
            let (v2, sp2) = stack_pop(old(c)@.mem, old(c)@.sp);
            assert(c@ =~= (CpuState { pc: v2, sp: sp2, ..old(c)@ }));
        }
        return Ok(11);
    }
    proof {
        assert(c@ =~= old(c)@);
    }
    Ok(5)
}

/// RET: the top stack entry is popped into the program counter.
pub open spec fn op_c9_outcome(s: CpuState) -> Outcome {
    if s.sp + 2 <= 0xFFFF {
        let (v, sp2) = stack_pop(s.mem, s.sp);
        Outcome::Next(CpuState { pc: v, sp: sp2, ..s }, 10)
    } else {
        Outcome::Stuck(Fault::StackOutOfRange { location: s.sp })
    }
}

pub fn op_c9(c: &mut RuntimeComponents) -> (r: Result<u16, Fault>)
    requires
        old(c).wf(),
    ensures
        final(c).wf(),
        outcome_post(op_c9_outcome(old(c)@), old(c)@, final(c)@, r),
{
    if c.registers.sp.location > 0xFFFD {
        return Err(Fault::StackOutOfRange { location: c.registers.sp.location });
    }
    let addr = c.registers.sp.pop(&c.mem);
    c.registers.pc.set(addr);
    proof {
        let (v, sp2) = stack_pop(old(c)@.mem, old(c)@.sp);
        assert(c@ =~= (CpuState { pc: v, sp: sp2, ..old(c)@ }));
    }
    Ok(10)
}

/// CALL nn: the current program counter is pushed and execution continues at
/// the immediate address.
pub open spec fn op_cd_outcome(s: CpuState, first: u8, second: u8) -> Outcome {
    if 2 <= s.sp <= 0xFFFF {
        let (m2, sp2) = stack_push(s.mem, s.sp, s.pc);
        Outcome::Next(CpuState { mem: m2, sp: sp2, pc: pair16(second, first), ..s }, 17)
    } else {
        Outcome::Stuck(Fault::StackOutOfRange { location: s.sp })
    }
}

pub fn op_cd(c: &mut RuntimeComponents, first: u8, second: u8) -> (r: Result<u16, Fault>)
    requires
        old(c).wf(),
    ensures
        final(c).wf(),
        outcome_post(op_cd_outcome(old(c)@, first, second), old(c)@, final(c)@, r),
{
    if c.registers.sp.location < 2 || c.registers.sp.location > 0xFFFF {
        return Err(Fault::StackOutOfRange { location: c.registers.sp.location });
    }
    RegisterOperations::call(
        combine_to_double_byte(second, first),
        &mut c.registers.sp,
        &mut c.registers.pc,
        &mut c.mem,
    );
    proof {
        let (m2, sp2) = stack_push(old(c)@.mem, old(c)@.sp, old(c)@.pc);
        assert(c@ =~= (CpuState { mem: m2, sp: sp2, pc: pair16(second, first), ..old(c)@ }));
    }
    Ok(17)
}

/// POP DE.
pub open spec fn op_d1_outcome(s: CpuState) -> Outcome {
    if s.sp + 2 <= 0xFFFF {
        let (v, sp2) = stack_pop(s.mem, s.sp);
        Outcome::Next(CpuState { d: (v / 256) as u8, e: (v % 256) as u8, sp: sp2, ..s }, 10)
    } else {
        Outcome::Stuck(Fault::StackOutOfRange { location: s.sp })
    }
}

pub fn op_d1(c: &mut RuntimeComponents) -> (r: Result<u16, Fault>)
    requires
        old(c).wf(),
    ensures
        final(c).wf(),
        outcome_post(op_d1_outcome(old(c)@), old(c)@, final(c)@, r),
{
    if c.registers.sp.location > 0xFFFD {
        return Err(Fault::StackOutOfRange { location: c.registers.sp.location });
    }
    RegisterOperations::pop_register_pair(
        &mut c.registers.d,
        &mut c.registers.e,
        &mut c.registers.sp,
        &mut c.mem,
    );
    proof {
        let (v, sp2) = stack_pop(old(c)@.mem, old(c)@.sp);
        assert(c@ =~= (CpuState {
            d: (v / 256) as u8,
            e: (v % 256) as u8,
            sp: sp2,
            ..old(c)@
        }));
    }
    Ok(10)
}

/// PUSH DE.
pub open spec fn op_d5_outcome(s: CpuState) -> Outcome {
    push_outcome(s, pair16(s.d, s.e), 11)
}

pub fn op_d5(c: &mut RuntimeComponents) -> (r: Result<u16, Fault>)
    requires
        old(c).wf(),
    ensures
        final(c).wf(),
        outcome_post(op_d5_outcome(old(c)@), old(c)@, final(c)@, r),
{
    if c.registers.sp.location < 2 || c.registers.sp.location > 0xFFFF {
        return Err(Fault::StackOutOfRange { location: c.registers.sp.location });
    }
    RegisterOperations::push_register_pair(
        &c.registers.d,
        &c.registers.e,
        &mut c.registers.sp,
        &mut c.mem,
    );
    proof {
        let (m2, sp2) = stack_push(old(c)@.mem, old(c)@.sp, pair16(old(c)@.d, old(c)@.e));
        assert(c@ =~= (CpuState { mem: m2, sp: sp2, ..old(c)@ }));
    }
    Ok(11)
}

/// SUB n: the operand is subtracted from the accumulator modulo 256.
pub open spec fn op_d6_outcome(s: CpuState, value: u8) -> Outcome {
    Outcome::Next(
        CpuState {
            a: wrap_sub8(s.a, value),
            f: with_carry(sub_flags(s.f, value, wrap_sub8(s.a, value)), false),
            ..s
        },
        17,
    )
}

pub fn op_d6(c: &mut RuntimeComponents, value: u8) -> (r: Result<u16, Fault>)
    requires
        old(c).wf(),
    ensures
        final(c).wf(),
        outcome_post(op_d6_outcome(old(c)@, value), old(c)@, final(c)@, r),
{
    c.registers.a.sub_value(value, &mut c.registers.f);
    proof {
        assert(c@ =~= (CpuState {
            a: wrap_sub8(old(c)@.a, value),
            f: with_carry(sub_flags(old(c)@.f, value, wrap_sub8(old(c)@.a, value)), false),
            ..old(c)@
        }));
    }
    Ok(17)
}

/// RET C.
pub open spec fn op_d8_outcome(s: CpuState) -> Outcome {
    ret_if_outcome(s, is_carry(s.f))
}

pub fn op_d8(c: &mut RuntimeComponents) -> (r: Result<u16, Fault>)
    requires
        old(c).wf(),
    ensures
        final(c).wf(),
        outcome_post(op_d8_outcome(old(c)@), old(c)@, final(c)@, r),
{
    if c.registers.f.get_carry() == FlagValue::On {
        if c.registers.sp.location > 0xFFFD {
            proof {
                assert(c@ =~= old(c)@);
            }
            return Err(Fault::StackOutOfRange { location: c.registers.sp.location });
        }
        let v = c.registers.sp.pop(&c.mem);
        c.registers.pc.set(v);
        proof {
            let (v2, sp2) = stack_pop(old(c)@.mem, old(c)@.sp);
            assert(c@ =~= (CpuState { pc: v2, sp: sp2, ..old(c)@ }));
        }
        return Ok(11);
    }
    proof {
        assert(c@ =~= old(c)@);
    }
    Ok(5)
}

/// EXX: B, C, D, E, H and L swap with their shadows in one step.
pub open spec fn op_d9_outcome(s: CpuState) -> Outcome {
    Outcome::Next(
        CpuState {
            b: s.b_,
            c: s.c_,
            d: s.d_,
            e: s.e_,
            h: s.h_,
            l: s.l_,
            b_: s.b,
            c_: s.c,
            d_: s.d,
            e_: s.e,
            h_: s.h,
            l_: s.l,
            ..s
        },
        4,
    )
}

pub fn op_d9(c: &mut RuntimeComponents) -> (r: Result<u16, Fault>)
    requires
        old(c).wf(),
    ensures
        final(c).wf(),
        outcome_post(op_d9_outcome(old(c)@), old(c)@, final(c)@, r),
{
    let b = c.registers.b.get();
    let cv = c.registers.c.get();
    let d = c.registers.d.get();
    let e = c.registers.e.get();
    let h = c.registers.h.get();
    let l = c.registers.l.get();
    let b_shadow = c.registers.b_.get();
    let c_shadow = c.registers.c_.get();
    let d_shadow = c.registers.d_.get();
    let e_shadow = c.registers.e_.get();
    let h_shadow = c.registers.h_.get();
    let l_shadow = c.registers.l_.get();
    c.registers.b.set(b_shadow);
    c.registers.c.set(c_shadow);
    c.registers.d.set(d_shadow);
    c.registers.e.set(e_shadow);
    c.registers.h.set(h_shadow);
    c.registers.l.set(l_shadow);
    c.registers.b_.set(b);
    c.registers.c_.set(cv);
    c.registers.d_.set(d);
    c.registers.e_.set(e);
    c.registers.h_.set(h);
    c.registers.l_.set(l);
    proof {
        assert(c@ =~= (CpuState {
            b: old(c)@.b_,
            c: old(c)@.c_,
            d: old(c)@.d_,
            e: old(c)@.e_,
            h: old(c)@.h_,
            l: old(c)@.l_,
            b_: old(c)@.b,
            c_: old(c)@.c,
            d_: old(c)@.d,
            e_: old(c)@.e,
            h_: old(c)@.h,
            l_: old(c)@.l,
            ..old(c)@
        }));
    }
    Ok(4)
}

/// SBC A,n: the operand plus the carry flag is subtracted from the
/// accumulator modulo 256.
pub open spec fn op_de_outcome(s: CpuState, value: u8) -> Outcome {
    let v2 = wrap_add8(
        value,
        if is_carry(s.f) {
            1u8
        } else {
            0u8
        },
    );
    Outcome::Next(
        CpuState {
            a: wrap_sub8(s.a, v2),
            f: with_carry(sub_flags(s.f, v2, wrap_sub8(s.a, v2)), false),
            ..s
        },
        7,
    )
}

pub fn op_de(c: &mut RuntimeComponents, value: u8) -> (r: Result<u16, Fault>)
    requires
        old(c).wf(),
    ensures
        final(c).wf(),
        outcome_post(op_de_outcome(old(c)@, value), old(c)@, final(c)@, r),
{
    c.registers.a.sub_value_and_carry(value, &mut c.registers.f);
    proof {
        let v2 = wrap_add8(
            value,
            if is_carry(old(c)@.f) {
                1u8
            } else {
                0u8
            },
        );
        assert(c@ =~= (CpuState {
            a: wrap_sub8(old(c)@.a, v2),
            f: with_carry(sub_flags(old(c)@.f, v2, wrap_sub8(old(c)@.a, v2)), false),
            ..old(c)@
        }));
    }
    Ok(7)
}

/// PUSH HL: the H register is pushed for both halves of the pair.
pub open spec fn op_e5_outcome(s: CpuState) -> Outcome {
    push_outcome(s, pair16(s.h, s.h), 11)
}

pub fn op_e5(c: &mut RuntimeComponents) -> (r: Result<u16, Fault>)
    requires
        old(c).wf(),
    ensures
        final(c).wf(),
        outcome_post(op_e5_outcome(old(c)@), old(c)@, final(c)@, r),
{
    if c.registers.sp.location < 2 || c.registers.sp.location > 0xFFFF {
        return Err(Fault::StackOutOfRange { location: c.registers.sp.location });
    }
    RegisterOperations::push_register_pair(
        &c.registers.h,
        &c.registers.h,
        &mut c.registers.sp,
        &mut c.mem,
    );
    proof {
        let (m2, sp2) = stack_push(old(c)@.mem, old(c)@.sp, pair16(old(c)@.h, old(c)@.h));
        assert(c@ =~= (CpuState { mem: m2, sp: sp2, ..old(c)@ }));
    }
    Ok(11)
}

/// AND n: Carry and Add/Subtract cleared, Half-carry set, Parity/Overflow
/// from bit 7 of the result.
pub open spec fn op_e6_outcome(s: CpuState, value: u8) -> Outcome {
    Outcome::Next(
        CpuState {
            a: s.a & value,
            f: with_parity_overflow(
                with_half_carry(with_add_subtract(with_carry(s.f, false), false), true),
                bit7(s.a & value),
            ),
            ..s
        },
        7,
    )
}

pub fn op_e6(c: &mut RuntimeComponents, value: u8) -> (r: Result<u16, Fault>)
    requires
        old(c).wf(),
    ensures
        final(c).wf(),
        outcome_post(op_e6_outcome(old(c)@, value), old(c)@, final(c)@, r),
{
    c.registers.a.and(value, &mut c.registers.f);
    proof {
        assert(c@ =~= (CpuState {
            a: old(c)@.a & value,
            f: with_parity_overflow(
                with_half_carry(with_add_subtract(with_carry(old(c)@.f, false), false), true),
                bit7(old(c)@.a & value),
            ),
            ..old(c)@
        }));
    }
    Ok(7)
}

/// EX DE,HL: DE and HL swap.
pub open spec fn op_eb_outcome(s: CpuState) -> Outcome {
    Outcome::Next(CpuState { d: s.h, e: s.l, h: s.d, l: s.e, ..s }, 4)
}

pub fn op_eb(c: &mut RuntimeComponents) -> (r: Result<u16, Fault>)
    requires
        old(c).wf(),
    ensures
        final(c).wf(),
        outcome_post(op_eb_outcome(old(c)@), old(c)@, final(c)@, r),
{
    let d_val = c.registers.d.get();
    let e_val = c.registers.e.get();
    let h_val = c.registers.h.get();
    let l_val = c.registers.l.get();
    c.registers.d.set(h_val);
    c.registers.e.set(l_val);
    c.registers.h.set(d_val);
    c.registers.l.set(e_val);
    proof {
        assert(c@ =~= (CpuState {
            d: old(c)@.h,
            e: old(c)@.l,
            h: old(c)@.d,
            l: old(c)@.e,
            ..old(c)@
        }));
    }
    Ok(4)
}

/// RET P: taken while the Sign flag is unset.
pub open spec fn op_f0_outcome(s: CpuState) -> Outcome {
    ret_if_outcome(s, !is_sign(s.f))
}

pub fn op_f0(c: &mut RuntimeComponents) -> (r: Result<u16, Fault>)
    requires
        old(c).wf(),
    ensures
        final(c).wf(),
        outcome_post(op_f0_outcome(old(c)@), old(c)@, final(c)@, r),
{
    if c.registers.f.get_sign() == FlagValue::Off {
        if c.registers.sp.location > 0xFFFD {
            return Err(Fault::StackOutOfRange { location: c.registers.sp.location });
        }
        let v = c.registers.sp.pop(&c.mem);
        c.registers.pc.set(v);
        proof {
            let (v2, sp2) = stack_pop(old(c)@.mem, old(c)@.sp);
            assert(c@ =~= (CpuState { pc: v2, sp: sp2, ..old(c)@ }));
        }
        return Ok(11);
    }
    Ok(5)
}

/// JP P,nn: taken while the Sign flag is set; the cycle cost is the same
/// either way.
pub open spec fn op_f2_outcome(s: CpuState, first: u8, second: u8) -> Outcome {
    if is_sign(s.f) {
        Outcome::Next(CpuState { pc: pair16(second, first), ..s }, 10)
    } else {
        Outcome::Next(s, 10)
    }
}

pub fn op_f2(c: &mut RuntimeComponents, first: u8, second: u8) -> (r: Result<u16, Fault>)
    requires
        old(c).wf(),
    ensures
        final(c).wf(),
        outcome_post(op_f2_outcome(old(c)@, first, second), old(c)@, final(c)@, r),
{
    if c.registers.f.get_sign() == FlagValue::On {
        c.registers.pc.set(combine_to_double_byte(second, first));
        proof {
            assert(c@ =~= (CpuState { pc: pair16(second, first), ..old(c)@ }));
        }
        return Ok(10);
    }
    Ok(10)
}

/// DI: both interrupt flip-flops are cleared.
pub open spec fn op_f3_outcome(s: CpuState) -> Outcome {
    Outcome::Next(CpuState { iff1: false, iff2: false, ..s }, 4)
}

pub fn op_f3(c: &mut RuntimeComponents) -> (r: Result<u16, Fault>)
    requires
        old(c).wf(),
    ensures
        final(c).wf(),
        outcome_post(op_f3_outcome(old(c)@), old(c)@, final(c)@, r),
{
    c.registers.iff1 = false;
    c.registers.iff2 = false;
    proof {
        assert(c@ =~= (CpuState { iff1: false, iff2: false, ..old(c)@ }));
    }
    Ok(4)
}

/// PUSH AF.
pub open spec fn op_f5_outcome(s: CpuState) -> Outcome {
    push_outcome(s, pair16(s.a, s.f), 11)
}

pub fn op_f5(c: &mut RuntimeComponents) -> (r: Result<u16, Fault>)
    requires
        old(c).wf(),
    ensures
        final(c).wf(),
        outcome_post(op_f5_outcome(old(c)@), old(c)@, final(c)@, r),
{
    if c.registers.sp.location < 2 || c.registers.sp.location > 0xFFFF {
        return Err(Fault::StackOutOfRange { location: c.registers.sp.location });
    }
    RegisterOperations::push_register_pair(
        &c.registers.a,
        &c.registers.f,
        &mut c.registers.sp,
        &mut c.mem,
    );
    proof {
        let (m2, sp2) = stack_push(old(c)@.mem, old(c)@.sp, pair16(old(c)@.a, old(c)@.f));
        assert(c@ =~= (CpuState { mem: m2, sp: sp2, ..old(c)@ }));
    }
    Ok(11)
}

/// RET M: taken while the Sign flag is set.
pub open spec fn op_f8_outcome(s: CpuState) -> Outcome {
    ret_if_outcome(s, is_sign(s.f))
}

pub fn op_f8(c: &mut RuntimeComponents) -> (r: Result<u16, Fault>)
    requires
        old(c).wf(),
    ensures
        final(c).wf(),
        outcome_post(op_f8_outcome(old(c)@), old(c)@, final(c)@, r),
{
    if c.registers.f.get_sign() == FlagValue::On {
        if c.registers.sp.location > 0xFFFD {
            return Err(Fault::StackOutOfRange { location: c.registers.sp.location });
        }
        let v = c.registers.sp.pop(&c.mem);
        c.registers.pc.set(v);
        proof {
            let (v2, sp2) = stack_pop(old(c)@.mem, old(c)@.sp);
            assert(c@ =~= (CpuState { pc: v2, sp: sp2, ..old(c)@ }));
        }
        return Ok(11);
    }
    Ok(5)
}

/// EI: both interrupt flip-flops are set.
pub open spec fn op_fb_outcome(s: CpuState) -> Outcome {
    Outcome::Next(CpuState { iff1: true, iff2: true, ..s }, 4)
}

pub fn op_fb(c: &mut RuntimeComponents) -> (r: Result<u16, Fault>)
    requires
        old(c).wf(),
    ensures
        final(c).wf(),
        outcome_post(op_fb_outcome(old(c)@), old(c)@, final(c)@, r),
{
    c.registers.iff1 = true;
    c.registers.iff2 = true;
    proof {
        assert(c@ =~= (CpuState { iff1: true, iff2: true, ..old(c)@ }));
    }
    Ok(4)
}

/// CP n: compares the accumulator with the operand without modifying it;
/// Zero and Sign follow the discarded subtraction result.
pub open spec fn op_fe_outcome(s: CpuState, value: u8) -> Outcome {
    Outcome::Next(CpuState { f: compare_flags(s.f, s.a, value), ..s }, 7)
}

pub fn op_fe(c: &mut RuntimeComponents, value: u8) -> (r: Result<u16, Fault>)
    requires
        old(c).wf(),
    ensures
        final(c).wf(),
        outcome_post(op_fe_outcome(old(c)@, value), old(c)@, final(c)@, r),
{
    c.registers.a.compare_val(value, &mut c.registers.f);
    proof {
        assert(c@ =~= (CpuState { f: compare_flags(old(c)@.f, old(c)@.a, value), ..old(c)@ }));
    }
    Ok(7)
}

} // verus!
