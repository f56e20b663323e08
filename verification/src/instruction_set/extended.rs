//! The 0xED-prefixed extended namespace: port I/O, interrupt-mode selection
//! and block transfer.

use vstd::prelude::*;

use crate::instruction_set::Fault;
use crate::memory::{
    lemma_pair16_parts, lemma_u16_parts, lemma_wrap_add16_units, pair16, wrap_add16, Register,
    RegisterOperations,
};
use crate::runtime::{outcome_post, CpuState, Outcome, RuntimeComponents};
use crate::utils::{combine_to_double_byte, pair_value};

verus! {

/// IM 0: the interrupt-mode selector is set to 0.
pub open spec fn op_ed46_outcome(s: CpuState) -> Outcome {
    Outcome::Next(CpuState { interrupt_mode: 0, ..s }, 10)
}

pub fn op_ed46(c: &mut RuntimeComponents) -> (r: Result<u16, Fault>)
    requires
        old(c).wf(),
    ensures
        final(c).wf(),
        outcome_post(op_ed46_outcome(old(c)@), old(c)@, final(c)@, r),
{
    c.registers.interrupt_mode = 0;
    proof {
        assert(c@ =~= (CpuState { interrupt_mode: 0, ..old(c)@ }));
    }
    Ok(10)
}

/// OUT (C),C: the value of C is written to the port addressed by B and C;
/// the machine state is unchanged.
pub open spec fn op_ed49_outcome(s: CpuState) -> Outcome {
    Outcome::Next(s, 12)
}

pub fn op_ed49(c: &mut RuntimeComponents) -> (r: Result<u16, Fault>)
    requires
        old(c).wf(),
    ensures
        final(c).wf(),
        outcome_post(op_ed49_outcome(old(c)@), old(c)@, final(c)@, r),
{
    let addr_low_and_val = c.registers.c.get();
    let b_val = c.registers.b.get();
    let port = combine_to_double_byte(b_val, addr_low_and_val);
    c.data_bus.write(port, addr_low_and_val);
    proof {
        assert(c@ =~= old(c)@);
    }
    Ok(12)
}

/// IM 1: the interrupt-mode selector is set to 1.
pub open spec fn op_ed56_outcome(s: CpuState) -> Outcome {
    Outcome::Next(CpuState { interrupt_mode: 1, ..s }, 10)
}

pub fn op_ed56(c: &mut RuntimeComponents) -> (r: Result<u16, Fault>)
    requires
        old(c).wf(),
    ensures
        final(c).wf(),
        outcome_post(op_ed56_outcome(old(c)@), old(c)@, final(c)@, r),
{
    c.registers.interrupt_mode = 1;
    proof {
        assert(c@ =~= (CpuState { interrupt_mode: 1, ..old(c)@ }));
    }
    Ok(10)
}

/// LD DE,(nn): the single byte at the immediate address is loaded into E;
/// D is untouched.
pub open spec fn op_ed5b_outcome(s: CpuState, first: u8, second: u8) -> Outcome {
    let addr = pair_value(second, first);
    if addr < 0xFFFF {
        Outcome::Next(CpuState { e: s.mem[addr], ..s }, 20)
    } else {
        Outcome::Stuck(Fault::MemoryOutOfRange { addr: 0xFFFF })
    }
}

pub fn op_ed5b(c: &mut RuntimeComponents, first: u8, second: u8) -> (r: Result<u16, Fault>)
    requires
        old(c).wf(),
    ensures
        final(c).wf(),
        outcome_post(op_ed5b_outcome(old(c)@, first, second), old(c)@, final(c)@, r),
{
    let addr = combine_to_double_byte(second, first);
    if addr >= 0xFFFF {
        return Err(Fault::MemoryOutOfRange { addr: 0xFFFF });
    }
    RegisterOperations::ld_register_pair_from_addr(
        &c.mem,
        &mut c.registers.d,
        &mut c.registers.e,
        addr,
    );
    proof {
        assert(c@ =~= (CpuState { e: old(c)@.mem[pair_value(second, first)], ..old(c)@ }));
    }
    Ok(20)
}

/// IN A,(C): a byte is read from the port addressed by B and C into the
/// accumulator; the bus hands back its fixed placeholder byte.
pub open spec fn op_ed78_outcome(s: CpuState) -> Outcome {
    Outcome::Next(CpuState { a: 0xEF, ..s }, 12)
}

pub fn op_ed78(c: &mut RuntimeComponents) -> (r: Result<u16, Fault>)
    requires
        old(c).wf(),
    ensures
        final(c).wf(),
        outcome_post(op_ed78_outcome(old(c)@), old(c)@, final(c)@, r),
{
    let addr_low_and_val = c.registers.c.get();
    let b_val = c.registers.b.get();
    let port = combine_to_double_byte(b_val, addr_low_and_val);
    let byte = c.data_bus.read(port);
    c.registers.a.set(byte);
    proof {
        assert(c@ =~= (CpuState { a: 0xEF, ..old(c)@ }));
    }
    Ok(12)
}

/// OUT (C),A: the accumulator is written to the port addressed by B and C;
/// the machine state is unchanged.
pub open spec fn op_ed79_outcome(s: CpuState) -> Outcome {
    Outcome::Next(s, 12)
}

pub fn op_ed79(c: &mut RuntimeComponents) -> (r: Result<u16, Fault>)
    requires
        old(c).wf(),
    ensures
        final(c).wf(),
        outcome_post(op_ed79_outcome(old(c)@), old(c)@, final(c)@, r),
{
    let a_val = c.registers.a.get();
    let b_val = c.registers.b.get();
    let c_val = c.registers.c.get();
    let port = combine_to_double_byte(b_val, c_val);
    c.data_bus.write(port, a_val);
    proof {
        assert(c@ =~= old(c)@);
    }
    Ok(12)
}

/// The memory image after `n` steps of a block transfer: each step copies
/// one byte from the running source address to the running target address,
/// both advancing modulo 0x10000.
pub open spec fn ldir_mem(mem: Seq<u8>, hl: u16, de: u16, n: nat) -> Seq<u8>
    decreases n,
{
    if n == 0 {
        mem
    } else {
        let prev = ldir_mem(mem, hl, de, (n - 1) as nat);
        prev.update(wrap_add16(de, n - 1) as int, prev[wrap_add16(hl, n - 1) as int])
    }
}

/// Every source and target address of an `n`-byte block transfer lies inside
/// the memory image.
pub open spec fn ldir_addresses_ok(hl: u16, de: u16, n: nat) -> bool {
    forall|k: int|
        0 <= k < n ==> wrap_add16(hl, k) != 0xFFFF && wrap_add16(de, k) != 0xFFFF
}

/// A block transfer whose addresses all lie inside the memory image never
/// changes its length.
pub proof fn lemma_ldir_mem_len(mem: Seq<u8>, hl: u16, de: u16, n: nat)
    requires
        mem.len() == 0xFFFF,
        ldir_addresses_ok(hl, de, n),
    ensures
        ldir_mem(mem, hl, de, n).len() == mem.len(),
    decreases n,
{
    if n > 0 {
        lemma_ldir_mem_len(mem, hl, de, (n - 1) as nat);
    }
}

/// LDIR: bytes are copied from the address in HL to the address in DE, HL
/// and DE advancing and BC counting down, until BC reaches zero, all within
/// one invocation. The cycle cost is 16 plus 21 for every repeat beyond the
/// first byte. Two machine limits bound the transfer: a block that touches
/// the one unmapped location, or one long enough that its cost exceeds the
/// 16-bit cycle counter, is reported as a fault, as is a zero count.
pub open spec fn op_edb0_outcome(s: CpuState) -> Outcome {
    let bc = pair16(s.b, s.c);
    let hl = pair16(s.h, s.l);
    let de = pair16(s.d, s.e);
    if bc == 0 {
        Outcome::Stuck(Fault::BlockCountZero)
    } else if !ldir_addresses_ok(hl, de, bc as nat) {
        Outcome::Stuck(Fault::MemoryOutOfRange { addr: 0xFFFF })
    } else if bc > 3120 {
        Outcome::Stuck(Fault::CycleCountOverflow)
    } else {
        let hl2 = wrap_add16(hl, bc as int);
        let de2 = wrap_add16(de, bc as int);
        Outcome::Next(
            CpuState {
                b: 0,
                c: 0,
                h: (hl2 / 256) as u8,
                l: (hl2 % 256) as u8,
                d: (de2 / 256) as u8,
                e: (de2 % 256) as u8,
                mem: ldir_mem(s.mem, hl, de, bc as nat),
                ..s
            },
            (16 + 21 * (bc - 1)) as u16,
        )
    }
}

#[verifier::rlimit(80)]
pub fn op_edb0(c: &mut RuntimeComponents) -> (r: Result<u16, Fault>)
    requires
        old(c).wf(),
    ensures
        final(c).wf(),
        outcome_post(op_edb0_outcome(old(c)@), old(c)@, final(c)@, r),
{
    let bc0 = combine_to_double_byte(c.registers.b.get(), c.registers.c.get());
    if bc0 == 0 {
        return Err(Fault::BlockCountZero);
    }
    let hl0 = combine_to_double_byte(c.registers.h.get(), c.registers.l.get());
    let de0 = combine_to_double_byte(c.registers.d.get(), c.registers.e.get());

    let mut k: u16 = 0;
    while k < bc0
        invariant
            c.wf(),
            c@ == old(c)@,
            bc0 == pair16(old(c)@.b, old(c)@.c),
            hl0 == pair16(old(c)@.h, old(c)@.l),
            de0 == pair16(old(c)@.d, old(c)@.e),
            bc0 > 0,
            k <= bc0,
            forall|j: int|
                0 <= j < k ==> wrap_add16(hl0, j) != 0xFFFF && wrap_add16(de0, j) != 0xFFFF,
        decreases bc0 - k,
    {
        let src = hl0.wrapping_add(k);
        let dst = de0.wrapping_add(k);
        proof {
            lemma_wrap_add16_units(hl0, k as int);
            lemma_wrap_add16_units(de0, k as int);
        }
        if src == 0xFFFF || dst == 0xFFFF {
            proof {
                assert(!ldir_addresses_ok(hl0, de0, bc0 as nat)) by {
                    assert(!(wrap_add16(hl0, k as int) != 0xFFFF && wrap_add16(de0, k as int)
                        != 0xFFFF));
                };
            }
            return Err(Fault::MemoryOutOfRange { addr: 0xFFFF });
        }
        k += 1;
    }
    if bc0 > 3120 {
        return Err(Fault::CycleCountOverflow);
    }

    let mut n: u16 = 0;
    while n < bc0
        invariant
            c.wf(),
            old(c)@.mem.len() == 0xFFFF,
            n <= bc0,
            0 < bc0 <= 3120,
            bc0 == pair16(old(c)@.b, old(c)@.c),
            hl0 == pair16(old(c)@.h, old(c)@.l),
            de0 == pair16(old(c)@.d, old(c)@.e),
            ldir_addresses_ok(hl0, de0, bc0 as nat),
            c@.mem == ldir_mem(old(c)@.mem, hl0, de0, n as nat),
            pair16(c@.h, c@.l) == wrap_add16(hl0, n as int),
            pair16(c@.d, c@.e) == wrap_add16(de0, n as int),
            pair16(c@.b, c@.c) == bc0 - n,
            c@.a == old(c)@.a,
            c@.f == old(c)@.f,
            c@.a_ == old(c)@.a_,
            c@.f_ == old(c)@.f_,
            c@.b_ == old(c)@.b_,
            c@.c_ == old(c)@.c_,
            c@.d_ == old(c)@.d_,
            c@.e_ == old(c)@.e_,
            c@.h_ == old(c)@.h_,
            c@.l_ == old(c)@.l_,
            c@.i == old(c)@.i,
            c@.x == old(c)@.x,
            c@.pc == old(c)@.pc,
            c@.sp == old(c)@.sp,
            c@.iff1 == old(c)@.iff1,
            c@.iff2 == old(c)@.iff2,
            c@.interrupt_mode == old(c)@.interrupt_mode,
            c@.bus == old(c)@.bus,
        decreases bc0 - n,
    {
        let src = hl0.wrapping_add(n);
        let dst = de0.wrapping_add(n);
        proof {
            lemma_wrap_add16_units(hl0, n as int);
            lemma_wrap_add16_units(de0, n as int);
            assert(wrap_add16(hl0, n as int) != 0xFFFF && wrap_add16(de0, n as int) != 0xFFFF);
        }
        let byte = c.mem.locations[src as usize];
        c.mem.locations[dst as usize] = byte;
        let next_hl = hl0.wrapping_add(n + 1);
        let next_de = de0.wrapping_add(n + 1);
        let remaining = bc0 - (n + 1);
        RegisterOperations::ld_register_pair_with_value(
            &mut c.registers.h,
            &mut c.registers.l,
            next_hl,
        );
        RegisterOperations::ld_register_pair_with_value(
            &mut c.registers.d,
            &mut c.registers.e,
            next_de,
        );
        RegisterOperations::ld_register_pair_with_value(
            &mut c.registers.b,
            &mut c.registers.c,
            remaining,
        );
        proof {
            lemma_wrap_add16_units(hl0, n + 1);
            lemma_wrap_add16_units(de0, n + 1);
            lemma_u16_parts(next_hl);
            lemma_u16_parts(next_de);
            lemma_u16_parts(remaining);
            lemma_ldir_mem_len(old(c)@.mem, hl0, de0, n as nat);
            lemma_ldir_mem_len(old(c)@.mem, hl0, de0, (n + 1) as nat);
            assert(c@.mem =~= ldir_mem(old(c)@.mem, hl0, de0, (n + 1) as nat));
            assert(pair16(c@.h, c@.l) == next_hl) by {
                lemma_pair16_parts((next_hl / 256) as u8, (next_hl % 256) as u8);
            };
            assert(pair16(c@.d, c@.e) == next_de) by {
                lemma_pair16_parts((next_de / 256) as u8, (next_de % 256) as u8);
            };
            assert(pair16(c@.b, c@.c) == remaining) by {
                lemma_pair16_parts((remaining / 256) as u8, (remaining % 256) as u8);
            };
        }
        n += 1;
    }

    let cycles = 16 + (bc0 - 1) * 21;
    proof {
        let hl2 = wrap_add16(hl0, bc0 as int);
        let de2 = wrap_add16(de0, bc0 as int);
        lemma_pair16_parts(c@.h, c@.l);
        lemma_pair16_parts(c@.d, c@.e);
        lemma_pair16_parts(c@.b, c@.c);
        assert(c@ =~= (CpuState {
            b: 0,
            c: 0,
            h: (hl2 / 256) as u8,
            l: (hl2 % 256) as u8,
            d: (de2 / 256) as u8,
            e: (de2 % 256) as u8,
            mem: ldir_mem(old(c)@.mem, hl0, de0, bc0 as nat),
            ..old(c)@
        }));
    }
    Ok(cycles)
}

} // verus!
