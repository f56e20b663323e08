//! The memory store, the register file and the stateless register operations.
//!
//! Flags register bit layout (bit -> meaning): 7 = Sign, 6 = Zero, 5 = unused,
//! 4 = Half-carry, 3 = unused, 2 = Parity/Overflow, 1 = Add/Subtract, 0 = Carry.
//! Every flag operation touches only the bit it is named after; the
//! `lemma_set_*` proofs below state that for each of the six named bits.

use vstd::prelude::*;

use crate::utils::{combine_to_double_byte, pair_value, sign_extended, split_double_byte};

verus! {

// ---------------------------------------------------------------------------
// Memory
// ---------------------------------------------------------------------------

/// Flat byte-addressable store of 0xFFFF locations, owned by the runtime.
pub struct Memory {
    pub locations: Vec<u8>,
}

impl Memory {
    /// The store always holds exactly 0xFFFF bytes.
    pub open spec fn wf(&self) -> bool {
        self.locations@.len() == 0xFFFF
    }

    /// A fresh memory, every location filled with the reset byte 0x01.
    pub fn default() -> (r: Memory)
        ensures
            r.wf(),
            forall|i: int| 0 <= i < 0xFFFF ==> r.locations@[i] == 0x01,
    {
        let mut locations: Vec<u8> = Vec::new();
        while locations.len() < 0xFFFF
            invariant
                locations@.len() <= 0xFFFF,
                forall|i: int| 0 <= i < locations@.len() ==> locations@[i] == 0x01,
            decreases 0xFFFF - locations@.len(),
        {
            locations.push(0x01);
        }
        Memory { locations }
    }
}

// ---------------------------------------------------------------------------
// Registers
// ---------------------------------------------------------------------------

/// Whether a flag bit is raised or cleared.
#[derive(Clone, Copy, PartialEq, Eq, Structural, Debug)]
pub enum FlagValue {
    On,
    Off,
}

/// An 8-bit register cell.
pub trait Register: Sized {
    /// The byte the register holds.
    spec fn val(&self) -> u8;

    fn set(&mut self, value: u8)
        ensures
            final(self).val() == value,
    ;

    fn get(&self) -> (r: u8)
        ensures
            r == self.val(),
    ;
}

/// A general-purpose register with no extra behaviour.
pub struct DefaultRegister {
    pub value: u8,
}

impl Register for DefaultRegister {
    open spec fn val(&self) -> u8 {
        self.value
    }

    fn set(&mut self, value: u8) {
        self.value = value;
    }

    fn get(&self) -> (r: u8) {
        self.value
    }
}

// ---------------------------------------------------------------------------
// Modular 8-bit and 16-bit arithmetic
// ---------------------------------------------------------------------------

/// Addition modulo 256.
pub open spec fn wrap_add8(a: u8, b: u8) -> u8 {
    if a + b > 255 {
        (a + b - 256) as u8
    } else {
        (a + b) as u8
    }
}

/// Subtraction modulo 256.
pub open spec fn wrap_sub8(a: u8, b: u8) -> u8 {
    if a - b < 0 {
        (a - b + 256) as u8
    } else {
        (a - b) as u8
    }
}

/// Increment modulo 256.
pub open spec fn inc8(v: u8) -> u8 {
    wrap_add8(v, 1)
}

/// Decrement modulo 256.
pub open spec fn dec8(v: u8) -> u8 {
    wrap_sub8(v, 1)
}

/// Increment modulo 0x10000.
pub open spec fn wrap_inc16(v: u16) -> u16 {
    if v == 0xFFFF {
        0
    } else {
        (v + 1) as u16
    }
}

/// Decrement modulo 0x10000.
pub open spec fn wrap_dec16(v: u16) -> u16 {
    if v == 0 {
        0xFFFF
    } else {
        (v - 1) as u16
    }
}

/// Adds a (possibly negative) displacement to a 16-bit value modulo 0x10000.
pub open spec fn wrap_add16(v: u16, d: int) -> u16 {
    (((v + d) % 0x10000 + 0x10000) % 0x10000) as u16
}

/// The 16-bit value of a big-endian register pair.
pub open spec fn pair16(high: u8, low: u8) -> u16 {
    (high * 256 + low) as u16
}

/// A big-endian pair value splits back into its two bytes.
pub proof fn lemma_pair16_parts(high: u8, low: u8)
    ensures
        pair16(high, low) == high * 256 + low,
        pair16(high, low) / 256 == high,
        pair16(high, low) % 256 == low,
{
    assert((high * 256 + low) / 256 == high && (high * 256 + low) % 256 == low)
        by (nonlinear_arith)
        requires
            0 <= high < 256,
            0 <= low < 256,
    ;
}

/// A 16-bit value is its high byte times 256 plus its low byte.
pub proof fn lemma_u16_parts(v: u16)
    ensures
        (v / 256) * 256 + (v % 256) == v,
        v / 256 <= 255,
        v % 256 <= 255,
{
}

/// For displacements within one 16-bit range, the wrapped sum has a simple
/// piecewise form.
pub proof fn lemma_wrap_add16_units(v: u16, d: int)
    requires
        -0x10000 <= d <= 0xFFFF,
    ensures
        wrap_add16(v, d) == (if v + d > 0xFFFF {
            (v + d - 0x10000) as u16
        } else if v + d < 0 {
            (v + d + 0x10000) as u16
        } else {
            (v + d) as u16
        }),
{
    let t = v + d;
    if t > 0xFFFF {
        assert(t % 0x10000 == t - 0x10000) by (nonlinear_arith)
            requires
                0x10000 <= t < 0x20000,
        ;
        assert((t - 0x10000 + 0x10000) % 0x10000 == t - 0x10000) by (nonlinear_arith)
            requires
                0 <= t - 0x10000 < 0x10000,
        ;
    } else if t < 0 {
        assert(t % 0x10000 == t + 0x10000) by (nonlinear_arith)
            requires
                -0x10000 <= t < 0,
        ;
        assert((t + 0x10000 + 0x10000) % 0x10000 == t + 0x10000) by (nonlinear_arith)
            requires
                0 <= t + 0x10000 < 0x10000,
        ;
    } else {
        assert(t % 0x10000 == t) by (nonlinear_arith)
            requires
                0 <= t < 0x10000,
        ;
        assert((t + 0x10000) % 0x10000 == t) by (nonlinear_arith)
            requires
                0 <= t < 0x10000,
        ;
    }
}

/// The target of a relative jump: the signed displacement added to the
/// program counter modulo 0x10000.
pub fn relative_jump_target(pc: u16, offset: u8) -> (r: u16)
    ensures
        r == wrap_add16(pc, sign_extended(offset)),
{
    let jump_val = crate::utils::signed(offset);
    let r = pc.wrapping_add_signed(jump_val as i16);
    proof {
        lemma_wrap_add16_units(pc, sign_extended(offset));
    }
    r
}

/// Whether bit 7 (the sign bit) of a byte is set.
pub open spec fn bit7(v: u8) -> bool {
    v & 0x80 == 0x80
}

/// Incrementing then decrementing restores an 8-bit value modulo 256; the
/// flag side effects of the two operations are not required to round-trip.
pub proof fn lemma_inc_then_dec_restores(v: u8)
    ensures
        dec8(inc8(v)) == v,
{
}

/// Decrementing then incrementing restores an 8-bit value modulo 256.
pub proof fn lemma_dec_then_inc_restores(v: u8)
    ensures
        inc8(dec8(v)) == v,
{
}

// ---------------------------------------------------------------------------
// Flags register
// ---------------------------------------------------------------------------

/// Whether the Sign flag (bit 7, mask 0x80) is set.
pub open spec fn is_sign(f: u8) -> bool {
    f & 0x80 == 0x80
}

/// Whether the Zero flag (bit 6, mask 0x40) is set.
pub open spec fn is_zero(f: u8) -> bool {
    f & 0x40 == 0x40
}

/// Whether the Half-carry flag (bit 4, mask 0x10) is set.
pub open spec fn is_half_carry(f: u8) -> bool {
    f & 0x10 == 0x10
}

/// Whether the Parity/Overflow flag (bit 2, mask 0x04) is set.
pub open spec fn is_parity_overflow(f: u8) -> bool {
    f & 0x04 == 0x04
}

/// Whether the Add/Subtract flag (bit 1, mask 0x02) is set.
pub open spec fn is_add_subtract(f: u8) -> bool {
    f & 0x02 == 0x02
}

/// Whether the Carry flag (bit 0, mask 0x01) is set.
pub open spec fn is_carry(f: u8) -> bool {
    f & 0x01 == 0x01
}

/// The flags byte with the Sign bit set or cleared.
pub open spec fn with_sign(f: u8, on: bool) -> u8 {
    if on {
        f | 0x80
    } else {
        f & 0x7F
    }
}

/// The flags byte with the Zero bit set or cleared.
pub open spec fn with_zero(f: u8, on: bool) -> u8 {
    if on {
        f | 0x40
    } else {
        f & 0xBF
    }
}

/// The flags byte with the Half-carry bit set or cleared.
pub open spec fn with_half_carry(f: u8, on: bool) -> u8 {
    if on {
        f | 0x10
    } else {
        f & 0xEF
    }
}

/// The flags byte with the Parity/Overflow bit set or cleared.
pub open spec fn with_parity_overflow(f: u8, on: bool) -> u8 {
    if on {
        f | 0x04
    } else {
        f & 0xFB
    }
}

/// The flags byte with the Add/Subtract bit set or cleared.
pub open spec fn with_add_subtract(f: u8, on: bool) -> u8 {
    if on {
        f | 0x02
    } else {
        f & 0xFD
    }
}

/// The flags byte with the Carry bit set or cleared.
pub open spec fn with_carry(f: u8, on: bool) -> u8 {
    if on {
        f | 0x01
    } else {
        f & 0xFE
    }
}

/// Setting the Carry flag changes bit 0 alone: the five other named flags
/// keep their value.
pub proof fn lemma_set_carry_touches_only_carry(f: u8, on: bool)
    by (bit_vector)
    ensures
        is_carry(with_carry(f, on)) == on,
        is_add_subtract(with_carry(f, on)) == is_add_subtract(f),
        is_parity_overflow(with_carry(f, on)) == is_parity_overflow(f),
        is_half_carry(with_carry(f, on)) == is_half_carry(f),
        is_zero(with_carry(f, on)) == is_zero(f),
        is_sign(with_carry(f, on)) == is_sign(f),
{
}

/// Setting the Add/Subtract flag changes bit 1 alone.
pub proof fn lemma_set_add_subtract_touches_only_add_subtract(f: u8, on: bool)
    by (bit_vector)
    ensures
        is_add_subtract(with_add_subtract(f, on)) == on,
        is_carry(with_add_subtract(f, on)) == is_carry(f),
        is_parity_overflow(with_add_subtract(f, on)) == is_parity_overflow(f),
        is_half_carry(with_add_subtract(f, on)) == is_half_carry(f),
        is_zero(with_add_subtract(f, on)) == is_zero(f),
        is_sign(with_add_subtract(f, on)) == is_sign(f),
{
}

/// Setting the Parity/Overflow flag changes bit 2 alone.
pub proof fn lemma_set_parity_overflow_touches_only_parity_overflow(f: u8, on: bool)
    by (bit_vector)
    ensures
        is_parity_overflow(with_parity_overflow(f, on)) == on,
        is_carry(with_parity_overflow(f, on)) == is_carry(f),
        is_add_subtract(with_parity_overflow(f, on)) == is_add_subtract(f),
        is_half_carry(with_parity_overflow(f, on)) == is_half_carry(f),
        is_zero(with_parity_overflow(f, on)) == is_zero(f),
        is_sign(with_parity_overflow(f, on)) == is_sign(f),
{
}

/// Setting the Half-carry flag changes bit 4 alone.
pub proof fn lemma_set_half_carry_touches_only_half_carry(f: u8, on: bool)
    by (bit_vector)
    ensures
        is_half_carry(with_half_carry(f, on)) == on,
        is_carry(with_half_carry(f, on)) == is_carry(f),
        is_add_subtract(with_half_carry(f, on)) == is_add_subtract(f),
        is_parity_overflow(with_half_carry(f, on)) == is_parity_overflow(f),
        is_zero(with_half_carry(f, on)) == is_zero(f),
        is_sign(with_half_carry(f, on)) == is_sign(f),
{
}

/// Setting the Zero flag changes bit 6 alone.
pub proof fn lemma_set_zero_touches_only_zero(f: u8, on: bool)
    by (bit_vector)
    ensures
        is_zero(with_zero(f, on)) == on,
        is_carry(with_zero(f, on)) == is_carry(f),
        is_add_subtract(with_zero(f, on)) == is_add_subtract(f),
        is_parity_overflow(with_zero(f, on)) == is_parity_overflow(f),
        is_half_carry(with_zero(f, on)) == is_half_carry(f),
        is_sign(with_zero(f, on)) == is_sign(f),
{
}

/// Setting the Sign flag changes bit 7 alone.
pub proof fn lemma_set_sign_touches_only_sign(f: u8, on: bool)
    by (bit_vector)
    ensures
        is_sign(with_sign(f, on)) == on,
        is_carry(with_sign(f, on)) == is_carry(f),
        is_add_subtract(with_sign(f, on)) == is_add_subtract(f),
        is_parity_overflow(with_sign(f, on)) == is_parity_overflow(f),
        is_half_carry(with_sign(f, on)) == is_half_carry(f),
        is_zero(with_sign(f, on)) == is_zero(f),
{
}

/// The status register, with named accessors for its six meaningful bits.
pub struct FlagsRegister {
    pub value: u8,
}

impl Register for FlagsRegister {
    open spec fn val(&self) -> u8 {
        self.value
    }

    fn set(&mut self, value: u8) {
        self.value = value;
    }

    fn get(&self) -> (r: u8) {
        self.value
    }
}

impl FlagsRegister {
    pub fn set_carry(&mut self, value: FlagValue)
        ensures
            final(self).value == with_carry(old(self).value, value == FlagValue::On),
    {
        match value {
            FlagValue::On => self.value = self.value | 0x01,
            FlagValue::Off => self.value = self.value & 0xFE,
        }
    }

    pub fn set_add_subtract(&mut self, value: FlagValue)
        ensures
            final(self).value == with_add_subtract(old(self).value, value == FlagValue::On),
    {
        match value {
            FlagValue::On => self.value = self.value | 0x02,
            FlagValue::Off => self.value = self.value & 0xFD,
        }
    }

    pub fn set_parity_overflow(&mut self, value: FlagValue)
        ensures
            final(self).value == with_parity_overflow(old(self).value, value == FlagValue::On),
    {
        match value {
            FlagValue::On => self.value = self.value | 0x04,
            FlagValue::Off => self.value = self.value & 0xFB,
        }
    }

    pub fn set_half_carry(&mut self, value: FlagValue)
        ensures
            final(self).value == with_half_carry(old(self).value, value == FlagValue::On),
    {
        match value {
            FlagValue::On => self.value = self.value | 0x10,
            FlagValue::Off => self.value = self.value & 0xEF,
        }
    }

    pub fn set_zero(&mut self, value: FlagValue)
        ensures
            final(self).value == with_zero(old(self).value, value == FlagValue::On),
    {
        self.value = match value {
            FlagValue::On => self.value | 0x40,
            FlagValue::Off => self.value & 0xBF,
        }
    }

    pub fn set_sign(&mut self, value: FlagValue)
        ensures
            final(self).value == with_sign(old(self).value, value == FlagValue::On),
    {
        self.value = match value {
            FlagValue::On => self.value | 0x80,
            FlagValue::Off => self.value & 0x7F,
        }
    }

    pub fn get_carry(&mut self) -> (r: FlagValue)
        ensures
            final(self).value == old(self).value,
            r == (if is_carry(old(self).value) {
                FlagValue::On
            } else {
                FlagValue::Off
            }),
    {
        if self.value & 0x01 == 0x01 {
            FlagValue::On
        } else {
            FlagValue::Off
        }
    }

    pub fn get_add_subtract(&mut self) -> (r: FlagValue)
        ensures
            final(self).value == old(self).value,
            r == (if is_add_subtract(old(self).value) {
                FlagValue::On
            } else {
                FlagValue::Off
            }),
    {
        if self.value & 0x02 == 0x02 {
            FlagValue::On
        } else {
            FlagValue::Off
        }
    }

    pub fn get_parity_overflow(&mut self) -> (r: FlagValue)
        ensures
            final(self).value == old(self).value,
            r == (if is_parity_overflow(old(self).value) {
                FlagValue::On
            } else {
                FlagValue::Off
            }),
    {
        if self.value & 0x04 == 0x04 {
            FlagValue::On
        } else {
            FlagValue::Off
        }
    }

    pub fn get_half_carry(&mut self) -> (r: FlagValue)
        ensures
            final(self).value == old(self).value,
            r == (if is_half_carry(old(self).value) {
                FlagValue::On
            } else {
                FlagValue::Off
            }),
    {
        if self.value & 0x10 == 0x10 {
            FlagValue::On
        } else {
            FlagValue::Off
        }
    }

    pub fn get_zero(&mut self) -> (r: FlagValue)
        ensures
            final(self).value == old(self).value,
            r == (if is_zero(old(self).value) {
                FlagValue::On
            } else {
                FlagValue::Off
            }),
    {
        if self.value & 0x40 == 0x40 {
            FlagValue::On
        } else {
            FlagValue::Off
        }
    }

    pub fn get_sign(&self) -> (r: FlagValue)
        ensures
            r == (if is_sign(self.value) {
                FlagValue::On
            } else {
                FlagValue::Off
            }),
    {
        if self.value & 0x80 == 0x80 {
            FlagValue::On
        } else {
            FlagValue::Off
        }
    }
}

// ---------------------------------------------------------------------------
// Accumulator
// ---------------------------------------------------------------------------

/// The accumulator: a register with arithmetic, logical and compare
/// operations that also recompute flags.
pub struct Accumulator {
    pub value: u8,
}

impl Register for Accumulator {
    open spec fn val(&self) -> u8 {
        self.value
    }

    fn set(&mut self, value: u8) {
        self.value = value;
    }

    fn get(&self) -> (r: u8) {
        self.value
    }
}

impl Accumulator {
    /// Subtracts a register from the accumulator modulo 256; Parity/Overflow
    /// is recomputed from bit 7 of the operand, Zero and Sign from the
    /// result.
    pub fn sub_reg<R: Register>(&mut self, reg: &R, flags: &mut FlagsRegister)
        ensures
            final(self).value == wrap_sub8(old(self).value, reg.val()),
            final(flags).value == sub_flags(
                old(flags).value,
                reg.val(),
                wrap_sub8(old(self).value, reg.val()),
            ),
    {
        self.set(self.get().wrapping_sub(reg.get()));
        flags.set_parity_overflow(
            if reg.get() & 0x80 == 0x80 {
                FlagValue::On
            } else {
                FlagValue::Off
            },
        );
        flags.set_zero(
            if self.get() == 0 {
                FlagValue::On
            } else {
                FlagValue::Off
            },
        );
        flags.set_sign(
            if self.get() & 0x80 == 0x80 {
                FlagValue::On
            } else {
                FlagValue::Off
            },
        );
    }

    /// Subtracts an immediate value modulo 256; Parity/Overflow is recomputed
    /// from bit 7 of the operand, Zero and Sign from the result, and Carry is
    /// always cleared (the carry test compares an 8-bit sum against 0xFFFF,
    /// which it can never exceed).
    pub fn sub_value(&mut self, value: u8, flags: &mut FlagsRegister)
        ensures
            final(self).value == wrap_sub8(old(self).value, value),
            final(flags).value == with_carry(
                sub_flags(old(flags).value, value, wrap_sub8(old(self).value, value)),
                false,
            ),
    {
        let carry = if (self.value as u32 + value as u32) > u16::MAX as u32 {
            FlagValue::On
        } else {
            FlagValue::Off
        };
        self.set(self.get().wrapping_sub(value));
        flags.set_parity_overflow(
            if value & 0x80 == 0x80 {
                FlagValue::On
            } else {
                FlagValue::Off
            },
        );
        flags.set_zero(
            if self.get() == 0 {
                FlagValue::On
            } else {
                FlagValue::Off
            },
        );
        flags.set_sign(
            if self.get() & 0x80 == 0x80 {
                FlagValue::On
            } else {
                FlagValue::Off
            },
        );
        flags.set_carry(carry);
    }

    /// Subtracts an immediate value and the carry flag from the accumulator,
    /// with the flag effects of the plain subtraction.
    pub fn sub_value_and_carry(&mut self, value: u8, flags: &mut FlagsRegister)
        ensures
            ({
                let v2 = wrap_add8(
                    value,
                    if is_carry(old(flags).value) {
                        1u8
                    } else {
                        0u8
                    },
                );
                &&& final(self).value == wrap_sub8(old(self).value, v2)
                &&& final(flags).value == with_carry(
                    sub_flags(old(flags).value, v2, wrap_sub8(old(self).value, v2)),
                    false,
                )
            }),
    {
        let value = value.wrapping_add(
            if flags.get_carry() == FlagValue::On {
                1
            } else {
                0
            },
        );
        self.sub_value(value, flags);
    }

    /// Bitwise AND with an immediate value: Carry and Add/Subtract are
    /// cleared, Half-carry is set, Parity/Overflow is recomputed from bit 7
    /// of the result. Zero and Sign are deliberately left untouched — a
    /// documented deviation from the hardware rule that the test suite pins.
    pub fn and(&mut self, value: u8, flags: &mut FlagsRegister)
        ensures
            final(self).value == (old(self).value & value),
            final(flags).value == with_parity_overflow(
                with_half_carry(
                    with_add_subtract(with_carry(old(flags).value, false), false),
                    true,
                ),
                bit7(old(self).value & value),
            ),
    {
        self.set(self.get() & value);
        flags.set_carry(FlagValue::Off);
        flags.set_add_subtract(FlagValue::Off);
        flags.set_half_carry(FlagValue::On);

        let overflow = if self.get() & 0x80 == 0x80 {
            FlagValue::On
        } else {
            FlagValue::Off
        };
        flags.set_parity_overflow(overflow);
    }

    /// Bitwise OR with a register: Half-carry, Carry and Add/Subtract are
    /// cleared, Parity/Overflow is recomputed from bit 7 of the operand,
    /// Zero and Sign from the result.
    pub fn or<R: Register>(&mut self, reg: &R, flags: &mut FlagsRegister)
        ensures
            final(self).value == (old(self).value | reg.val()),
            final(flags).value == xor_flags(
                old(flags).value,
                reg.val(),
                old(self).value | reg.val(),
            ),
    {
        self.set(self.get() | reg.get());
        flags.set_half_carry(FlagValue::Off);
        flags.set_carry(FlagValue::Off);
        flags.set_add_subtract(FlagValue::Off);
        flags.set_parity_overflow(
            if reg.get() & 0x80 == 0x80 {
                FlagValue::On
            } else {
                FlagValue::Off
            },
        );
        flags.set_zero(
            if self.get() == 0 {
                FlagValue::On
            } else {
                FlagValue::Off
            },
        );
        flags.set_sign(
            if self.get() & 0x80 == 0x80 {
                FlagValue::On
            } else {
                FlagValue::Off
            },
        );
    }

    /// Bitwise OR of the accumulator with itself: the value is unchanged and
    /// the flags take the effects of an inclusive or with that value.
    pub fn or_a(&mut self, flags: &mut FlagsRegister)
        ensures
            final(self).value == old(self).value,
            final(flags).value == xor_flags(
                old(flags).value,
                old(self).value,
                old(self).value,
            ),
    {
        proof {
            assert(forall|a: u8| #[trigger] (a | a) == a) by (bit_vector);
        }
        self.set(self.get() | self.get());
        flags.set_half_carry(FlagValue::Off);
        flags.set_carry(FlagValue::Off);
        flags.set_add_subtract(FlagValue::Off);
        flags.set_parity_overflow(
            if self.get() & 0x80 == 0x80 {
                FlagValue::On
            } else {
                FlagValue::Off
            },
        );
        flags.set_zero(
            if self.get() == 0 {
                FlagValue::On
            } else {
                FlagValue::Off
            },
        );
        flags.set_sign(
            if self.get() & 0x80 == 0x80 {
                FlagValue::On
            } else {
                FlagValue::Off
            },
        );
    }

    /// Compares the accumulator with a register without modifying it:
    /// Parity/Overflow is set when the signed difference falls below -128,
    /// Zero and Sign are recomputed from the discarded subtraction result.
    pub fn compare_reg<R: Register>(&self, reg: &R, flags: &mut FlagsRegister)
        ensures
            final(flags).value == compare_flags(old(flags).value, self.value, reg.val()),
    {
        flags.set_parity_overflow(
            if (self.get() as i16) - (reg.get() as i16) < -128 {
                FlagValue::On
            } else {
                FlagValue::Off
            },
        );
        let result = self.get().wrapping_sub(reg.get());
        flags.set_zero(
            if result == 0 {
                FlagValue::On
            } else {
                FlagValue::Off
            },
        );
        flags.set_sign(
            if result & 0x80 == 0x80 {
                FlagValue::On
            } else {
                FlagValue::Off
            },
        );
    }

    /// Compares the accumulator with an immediate value without modifying
    /// it, with the same flag effects as the register compare.
    pub fn compare_val(&self, val: u8, flags: &mut FlagsRegister)
        ensures
            final(flags).value == compare_flags(old(flags).value, self.value, val),
    {
        flags.set_parity_overflow(
            if (self.get() as i16) - (val as i16) < -128 {
                FlagValue::On
            } else {
                FlagValue::Off
            },
        );
        let result = self.get().wrapping_sub(val);
        flags.set_zero(
            if result == 0 {
                FlagValue::On
            } else {
                FlagValue::Off
            },
        );
        flags.set_sign(
            if result & 0x80 == 0x80 {
                FlagValue::On
            } else {
                FlagValue::Off
            },
        );
    }

    /// Bitwise XOR with a register: Half-carry, Carry and Add/Subtract are
    /// cleared, Parity/Overflow is recomputed from bit 7 of the operand,
    /// Zero and Sign from the result.
    pub fn xor<R: Register>(&mut self, reg: &R, flags: &mut FlagsRegister)
        ensures
            final(self).value == (old(self).value ^ reg.val()),
            final(flags).value == xor_flags(
                old(flags).value,
                reg.val(),
                old(self).value ^ reg.val(),
            ),
    {
        self.set(self.get() ^ reg.get());
        flags.set_half_carry(FlagValue::Off);
        flags.set_carry(FlagValue::Off);
        flags.set_add_subtract(FlagValue::Off);
        flags.set_parity_overflow(
            if reg.get() & 0x80 == 0x80 {
                FlagValue::On
            } else {
                FlagValue::Off
            },
        );
        flags.set_zero(
            if self.value == 0 {
                FlagValue::On
            } else {
                FlagValue::Off
            },
        );
        flags.set_sign(
            if self.value & 0x80 == 0x80 {
                FlagValue::On
            } else {
                FlagValue::Off
            },
        );
    }

    /// Bitwise XOR with the byte at the address a register pair points to,
    /// with the same flag effects as the register form.
    pub fn xor_address_from_reg_pair<R: Register>(
        &mut self,
        mem: &Memory,
        high: &R,
        low: &R,
        flags: &mut FlagsRegister,
    )
        requires
            mem.wf(),
            pair_value(high.val(), low.val()) < 0xFFFF,
        ensures
            ({
                let m = mem.locations@[pair_value(high.val(), low.val())];
                &&& final(self).value == (old(self).value ^ m)
                &&& final(flags).value == xor_flags(old(flags).value, m, old(self).value ^ m)
            }),
    {
        let location = combine_to_double_byte(high.get(), low.get());
        let val = mem.locations[location as usize];
        self.set(self.get() ^ val);
        flags.set_half_carry(FlagValue::Off);
        flags.set_carry(FlagValue::Off);
        flags.set_add_subtract(FlagValue::Off);
        flags.set_parity_overflow(
            if val & 0x80 == 0x80 {
                FlagValue::On
            } else {
                FlagValue::Off
            },
        );
        flags.set_zero(
            if self.value == 0 {
                FlagValue::On
            } else {
                FlagValue::Off
            },
        );
        flags.set_sign(
            if self.value & 0x80 == 0x80 {
                FlagValue::On
            } else {
                FlagValue::Off
            },
        );
    }

    /// XOR of the accumulator with itself: the result is always zero, so
    /// Zero is set and Parity/Overflow and Sign are cleared with it, besides
    /// the usual Half-carry, Carry and Add/Subtract clearing.
    pub fn xor_a(&mut self, flags: &mut FlagsRegister)
        ensures
            final(self).value == 0,
            final(flags).value == xor_flags(old(flags).value, 0, 0),
    {
        proof {
            assert(forall|a: u8| #[trigger] (a ^ a) == 0 && !(0u8 & 0x80 == 0x80)) by (bit_vector);
        }
        self.set(self.get() ^ self.get());
        flags.set_half_carry(FlagValue::Off);
        flags.set_carry(FlagValue::Off);
        flags.set_add_subtract(FlagValue::Off);
        flags.set_parity_overflow(
            if self.get() & 0x80 == 0x80 {
                FlagValue::On
            } else {
                FlagValue::Off
            },
        );
        flags.set_zero(
            if self.get() == 0 {
                FlagValue::On
            } else {
                FlagValue::Off
            },
        );
        flags.set_sign(
            if self.get() & 0x80 == 0x80 {
                FlagValue::On
            } else {
                FlagValue::Off
            },
        );
    }

    /// Adds a register to the accumulator modulo 256; Parity/Overflow is
    /// recomputed from bit 7 of the operand.
    pub fn add_a<R: Register>(&mut self, reg: &R, flags: &mut FlagsRegister)
        ensures
            final(self).value == wrap_add8(old(self).value, reg.val()),
            final(flags).value == with_parity_overflow(old(flags).value, bit7(reg.val())),
    {
        self.set(self.get().wrapping_add(reg.get()));
        flags.set_parity_overflow(
            if reg.get() & 0x80 == 0x80 {
                FlagValue::On
            } else {
                FlagValue::Off
            },
        );
    }

    /// Adds a register and the carry flag to the accumulator modulo 256.
    pub fn adc_a<R: Register>(&mut self, reg: &R, flags: &mut FlagsRegister)
        ensures
            final(self).value == wrap_add8(
                wrap_add8(old(self).value, reg.val()),
                if is_carry(old(flags).value) {
                    1u8
                } else {
                    0u8
                },
            ),
            final(flags).value == with_parity_overflow(old(flags).value, bit7(reg.val())),
    {
        let carry: u8 = if flags.get_carry() == FlagValue::On {
            1
        } else {
            0
        };
        self.set(self.get().wrapping_add(reg.get()).wrapping_add(carry));
        flags.set_parity_overflow(
            if reg.get() & 0x80 == 0x80 {
                FlagValue::On
            } else {
                FlagValue::Off
            },
        );
    }
}

// ---------------------------------------------------------------------------
// Program counter and stack pointer
// ---------------------------------------------------------------------------

/// The 16-bit program counter; it wraps modulo 0x10000.
pub struct ProgramCounter {
    pub value: u16,
}

impl ProgramCounter {
    pub fn set(&mut self, value: u16)
        ensures
            final(self).value == value,
    {
        self.value = value;
    }

    pub fn get(&self) -> (r: u16)
        ensures
            r == self.value,
    {
        self.value
    }

    pub(crate) fn inc(&mut self)
        ensures
            final(self).value == wrap_inc16(old(self).value),
    {
        self.value = self.value.wrapping_add(1);
    }

    pub(crate) fn dec(&mut self)
        ensures
            final(self).value == wrap_dec16(old(self).value),
    {
        self.value = self.value.wrapping_sub(1);
    }
}

/// Memory and stack-pointer location after pushing a 16-bit value: the high
/// byte is written first, then the low byte, each at a descending address.
pub open spec fn stack_push(mem: Seq<u8>, location: usize, value: u16) -> (Seq<u8>, usize) {
    (
        mem.update(location - 1, (value / 256) as u8).update(location - 2, (value % 256) as u8),
        (location - 2) as usize,
    )
}

/// Value read and stack-pointer location after popping: the low byte is read
/// first, then the high byte, each at an ascending address.
pub open spec fn stack_pop(mem: Seq<u8>, location: usize) -> (u16, usize) {
    (
        (mem[location + 1] * 256 + mem[location as int]) as u16,
        (location + 2) as usize,
    )
}

/// Popping directly after pushing returns exactly the pushed value and
/// restores the stack pointer.
pub proof fn lemma_stack_round_trip(mem: Seq<u8>, location: usize, value: u16)
    requires
        mem.len() == 0xFFFF,
        2 <= location <= 0xFFFF,
    ensures
        ({
            let (m1, l1) = stack_push(mem, location, value);
            let (v, l2) = stack_pop(m1, l1);
            v == value && l2 == location
        }),
{
}

/// Two pushes followed by two pops return the values in reverse order and
/// restore the stack pointer: the stack is last-in first-out.
pub proof fn lemma_stack_lifo(mem: Seq<u8>, location: usize, first: u16, second: u16)
    requires
        mem.len() == 0xFFFF,
        4 <= location <= 0xFFFF,
    ensures
        ({
            let (m1, l1) = stack_push(mem, location, first);
            let (m2, l2) = stack_push(m1, l1, second);
            let (v1, l3) = stack_pop(m2, l2);
            let (v2, l4) = stack_pop(m2, l3);
            v1 == second && v2 == first && l4 == location
        }),
{
}

/// The 16-bit stack pointer: it starts at the top of memory and moves down
/// on push.
pub struct StackPointer {
    pub location: usize,
}

impl StackPointer {
    pub fn push(&mut self, memory: &mut Memory, value: u16)
        requires
            old(memory).wf(),
            2 <= old(self).location <= 0xFFFF,
        ensures
            final(memory).wf(),
            (final(memory).locations@, final(self).location) == stack_push(
                old(memory).locations@,
                old(self).location,
                value,
            ),
    {
        let (high, low) = split_double_byte(value);
        self.location -= 1;
        self.locations_write(memory, high);
        self.location -= 1;
        self.locations_write(memory, low);
    }

    /// Writes a byte at the current stack location.
    fn locations_write(&self, memory: &mut Memory, byte: u8)
        requires
            old(memory).wf(),
            self.location < 0xFFFF,
        ensures
            final(memory).wf(),
            final(memory).locations@ == old(memory).locations@.update(
                self.location as int,
                byte,
            ),
    {
        memory.locations[self.location] = byte;
    }

    pub fn pop(&mut self, memory: &Memory) -> (r: u16)
        requires
            memory.wf(),
            old(self).location + 2 <= 0xFFFF,
        ensures
            (r, final(self).location) == stack_pop(memory.locations@, old(self).location),
    {
        let low = memory.locations[self.location];
        self.location += 1;
        let high = memory.locations[self.location];
        self.location += 1;
        combine_to_double_byte(high, low)
    }

    pub fn set(&mut self, value: usize)
        ensures
            final(self).location == value,
    {
        self.location = value;
    }
}

// ---------------------------------------------------------------------------
// Buses
// ---------------------------------------------------------------------------

/// The address bus value latched by the engine.
pub struct AddressBus {
    pub value: u16,
}

/// The I/O port abstraction the two port instructions talk to. Writes are
/// absorbed and reads return a fixed placeholder byte.
pub struct DataBus {}

impl DataBus {
    pub fn write(&self, port: u16, value: u8) {
    }

    pub fn read(&self, port: u16) -> (r: u8)
        ensures
            r == 0xEF,
    {
        0xEF
    }
}

// ---------------------------------------------------------------------------
// The register file
// ---------------------------------------------------------------------------

/// The full register file: main set, shadow set, index registers, program
/// counter, stack pointer and interrupt state.
pub struct Registers {
    pub a: Accumulator,
    pub f: FlagsRegister,
    pub b: DefaultRegister,
    pub c: DefaultRegister,
    pub d: DefaultRegister,
    pub e: DefaultRegister,
    pub h: DefaultRegister,
    pub l: DefaultRegister,
    pub a_: Accumulator,
    pub f_: FlagsRegister,
    pub b_: DefaultRegister,
    pub c_: DefaultRegister,
    pub d_: DefaultRegister,
    pub e_: DefaultRegister,
    pub h_: DefaultRegister,
    pub l_: DefaultRegister,
    pub i: DefaultRegister,
    pub x: DefaultRegister,
    pub pc: ProgramCounter,
    pub sp: StackPointer,
    pub iff1: bool,
    pub iff2: bool,
    pub interrupt_mode: u8,
}

impl Registers {
    /// The documented reset state: every register zero, the program counter
    /// at the start of memory, the stack pointer at its top, interrupts
    /// disabled and interrupt mode 0.
    pub fn default() -> (r: Registers)
        ensures
            r.a.value == 0 && r.f.value == 0,
            r.b.value == 0 && r.c.value == 0 && r.d.value == 0 && r.e.value == 0,
            r.h.value == 0 && r.l.value == 0,
            r.a_.value == 0 && r.f_.value == 0,
            r.b_.value == 0 && r.c_.value == 0 && r.d_.value == 0 && r.e_.value == 0,
            r.h_.value == 0 && r.l_.value == 0,
            r.i.value == 0 && r.x.value == 0,
            r.pc.value == 0,
            r.sp.location == 0xFFFF,
            !r.iff1 && !r.iff2,
            r.interrupt_mode == 0,
    {
        Registers {
            a: Accumulator { value: 0 },
            f: FlagsRegister { value: 0 },
            b: DefaultRegister { value: 0 },
            c: DefaultRegister { value: 0 },
            d: DefaultRegister { value: 0 },
            e: DefaultRegister { value: 0 },
            h: DefaultRegister { value: 0 },
            l: DefaultRegister { value: 0 },
            a_: Accumulator { value: 0 },
            f_: FlagsRegister { value: 0 },
            b_: DefaultRegister { value: 0 },
            c_: DefaultRegister { value: 0 },
            d_: DefaultRegister { value: 0 },
            e_: DefaultRegister { value: 0 },
            h_: DefaultRegister { value: 0 },
            l_: DefaultRegister { value: 0 },
            i: DefaultRegister { value: 0 },
            x: DefaultRegister { value: 0 },
            pc: ProgramCounter { value: 0 },
            sp: StackPointer { location: 0xFFFF },
            iff1: false,
            iff2: false,
            interrupt_mode: 0,
        }
    }
}

// ---------------------------------------------------------------------------
// Stateless register operations
// ---------------------------------------------------------------------------

/// Flags after an 8-bit decrement of `v`: Parity/Overflow and Sign are
/// recomputed from bit 7 of the result, Half-carry is set when the
/// subtraction borrows into bit 4 (the low nibble of `v` is zero),
/// Add/Subtract is set and Zero follows the result.
pub open spec fn dec_flags(f: u8, v: u8) -> u8 {
    let result = dec8(v);
    with_sign(
        with_zero(
            with_add_subtract(
                with_half_carry(with_parity_overflow(f, bit7(result)), (v & 0x0F) == 0),
                true,
            ),
            result == 0,
        ),
        bit7(result),
    )
}

/// Flags after an exclusive or inclusive or whose operand byte was `m` and
/// whose result was `res`: Half-carry, Carry and Add/Subtract are cleared,
/// Parity/Overflow is recomputed from bit 7 of the operand, Zero and Sign
/// from the result.
pub open spec fn xor_flags(f: u8, m: u8, res: u8) -> u8 {
    with_sign(
        with_zero(
            with_parity_overflow(
                with_add_subtract(with_carry(with_half_carry(f, false), false), false),
                bit7(m),
            ),
            res == 0,
        ),
        bit7(res),
    )
}

/// Flags after comparing the accumulator value `a` with operand `v`:
/// Parity/Overflow is set when the signed difference falls below -128, Zero
/// and Sign are recomputed from the discarded subtraction result.
pub open spec fn compare_flags(f: u8, a: u8, v: u8) -> u8 {
    with_sign(
        with_zero(with_parity_overflow(f, a - v < -128), wrap_sub8(a, v) == 0),
        bit7(wrap_sub8(a, v)),
    )
}

/// Flags after subtracting operand `v` from the accumulator with `result`:
/// Parity/Overflow is recomputed from bit 7 of the operand, Zero and Sign
/// from the result.
pub open spec fn sub_flags(f: u8, v: u8, result: u8) -> u8 {
    with_sign(with_zero(with_parity_overflow(f, bit7(v)), result == 0), bit7(result))
}

/// Flags after an 8-bit increment of `v`.
pub open spec fn inc_flags(f: u8, v: u8) -> u8 {
    with_add_subtract(
        with_half_carry(with_parity_overflow(f, bit7(inc8(v))), (v & 0x0F) == 0x0F),
        false,
    )
}

/// Flags after a 16-bit pair addition of values `v1` and `v2`. Carry is set
/// when the 32-bit sum exceeds 0xFFFF; the half-carry heuristic compares the
/// masked bit 3 of each operand against 1 and so never fires; Add/Subtract is
/// set.
pub open spec fn add_pair_flags(f: u8, v1: u16, v2: u16) -> u8 {
    with_add_subtract(with_half_carry(with_carry(f, v1 + v2 > 0xFFFF), false), true)
}

/// Stateless algorithms over register handles.
pub struct RegisterOperations {}

impl RegisterOperations {
    /// Decrements a register modulo 256: Parity/Overflow, Zero and Sign are
    /// recomputed from the result, Half-carry is set when the low nibble
    /// borrows into bit 4, Add/Subtract is set.
    pub fn dec<R: Register>(reg: &mut R, flags: &mut FlagsRegister)
        ensures
            final(reg).val() == dec8(old(reg).val()),
            final(flags).value == dec_flags(old(flags).value, old(reg).val()),
    {
        let half_carry = (reg.get() & 0x0F) == 0x00;
        reg.set(reg.get().wrapping_sub(1));
        flags.set_parity_overflow(
            if reg.get() & 0x80 == 0x80 {
                FlagValue::On
            } else {
                FlagValue::Off
            },
        );
        flags.set_half_carry(
            if half_carry {
                FlagValue::On
            } else {
                FlagValue::Off
            },
        );
        flags.set_add_subtract(FlagValue::On);
        flags.set_zero(
            if reg.get() == 0 {
                FlagValue::On
            } else {
                FlagValue::Off
            },
        );
        flags.set_sign(
            if reg.get() & 0x80 == 0x80 {
                FlagValue::On
            } else {
                FlagValue::Off
            },
        );
    }

    /// Decrements a big-endian register pair modulo 0x10000 and sets the
    /// Add/Subtract flag; no other flag is affected.
    pub fn dec_register_pair<R: Register>(high: &mut R, low: &mut R, flags: &mut FlagsRegister)
        ensures
            ({
                let v = wrap_dec16(pair16(old(high).val(), old(low).val()));
                &&& final(high).val() == v / 256
                &&& final(low).val() == v % 256
                &&& final(flags).value == with_add_subtract(old(flags).value, true)
            }),
    {
        let value = combine_to_double_byte(high.get(), low.get()).wrapping_sub(1);
        let (h, l) = split_double_byte(value);
        high.set(h);
        low.set(l);
        flags.set_add_subtract(FlagValue::On);
    }

    /// Increments a register modulo 256 and recomputes Parity/Overflow,
    /// Half-carry and Add/Subtract.
    pub fn inc<R: Register>(reg: &mut R, flags: &mut FlagsRegister)
        ensures
            final(reg).val() == inc8(old(reg).val()),
            final(flags).value == inc_flags(old(flags).value, old(reg).val()),
    {
        let half_carry = (reg.get() & 0x0F) == 0x0F;
        reg.set(reg.get().wrapping_add(1));
        flags.set_parity_overflow(
            if reg.get() & 0x80 == 0x80 {
                FlagValue::On
            } else {
                FlagValue::Off
            },
        );
        flags.set_half_carry(
            if half_carry {
                FlagValue::On
            } else {
                FlagValue::Off
            },
        );
        flags.set_add_subtract(FlagValue::Off);
    }

    /// Increments a big-endian register pair modulo 0x10000 and sets the
    /// Add/Subtract flag, the one flag effect the pair operations share;
    /// Half-carry, Parity/Overflow, Zero and Sign are unaffected.
    pub fn inc_register_pair<R: Register>(high: &mut R, low: &mut R, flags: &mut FlagsRegister)
        ensures
            ({
                let v = wrap_inc16(pair16(old(high).val(), old(low).val()));
                &&& final(high).val() == v / 256
                &&& final(low).val() == v % 256
                &&& final(flags).value == with_add_subtract(old(flags).value, true)
            }),
    {
        let value = combine_to_double_byte(high.get(), low.get()).wrapping_add(1);
        let (h, l) = split_double_byte(value);
        high.set(h);
        low.set(l);
        flags.set_add_subtract(FlagValue::On);
    }

    /// Loads an immediate byte into a register.
    pub fn ld_register_with_value<R: Register>(reg: &mut R, value: u8)
        ensures
            final(reg).val() == value,
    {
        reg.set(value);
    }

    /// Copies one register into another.
    pub fn ld_register_from_register<R: Register, T: Register>(source: &R, target: &mut T)
        ensures
            final(target).val() == source.val(),
    {
        target.set(source.get());
    }

    /// Loads the byte at an absolute address into a register.
    pub fn ld_register_from_addr<R: Register>(mem: &Memory, reg: &mut R, value: u16)
        requires
            mem.wf(),
            value < 0xFFFF,
        ensures
            final(reg).val() == mem.locations@[value as int],
    {
        reg.set(mem.locations[value as usize]);
    }

    /// Loads the byte at the address a register pair points to into a
    /// register.
    pub fn ld_register_from_addr_with_register_pair<R: Register, P: Register>(
        mem: &Memory,
        reg: &mut R,
        high: &P,
        low: &P,
    )
        requires
            mem.wf(),
            pair_value(high.val(), low.val()) < 0xFFFF,
        ensures
            final(reg).val() == mem.locations@[pair_value(high.val(), low.val())],
    {
        let addr = combine_to_double_byte(high.get(), low.get());
        reg.set(mem.locations[addr as usize]);
    }

    /// Loads a 16-bit immediate into a big-endian register pair.
    pub fn ld_register_pair_with_value<R: Register>(high: &mut R, low: &mut R, value: u16)
        ensures
            final(high).val() == value / 256,
            final(low).val() == value % 256,
    {
        let (h, l) = split_double_byte(value);
        high.set(h);
        low.set(l);
    }

    /// Loads the single byte at an absolute address into the low register of
    /// a pair; the high register is untouched.
    pub fn ld_register_pair_from_addr<R: Register>(
        mem: &Memory,
        high: &mut R,
        low: &mut R,
        addr: u16,
    )
        requires
            mem.wf(),
            addr < 0xFFFF,
        ensures
            final(high).val() == old(high).val(),
            final(low).val() == mem.locations@[addr as int],
    {
        let value = mem.locations[addr as usize];
        low.set(value);
    }

    /// Stores an immediate byte at the address a register pair points to.
    pub fn ld_addr_from_reg_pair_with_value<R: Register>(
        mem: &mut Memory,
        high: &R,
        low: &R,
        value: u8,
    )
        requires
            old(mem).wf(),
            pair_value(high.val(), low.val()) < 0xFFFF,
        ensures
            final(mem).wf(),
            final(mem).locations@ == old(mem).locations@.update(
                pair_value(high.val(), low.val()),
                value,
            ),
    {
        let addr = combine_to_double_byte(high.get(), low.get());
        mem.locations[addr as usize] = value;
    }

    /// Stores a register at an absolute address.
    pub fn ld_addr_from_value_with_register<R: Register>(mem: &mut Memory, value: u16, reg: &R)
        requires
            old(mem).wf(),
            value < 0xFFFF,
        ensures
            final(mem).wf(),
            final(mem).locations@ == old(mem).locations@.update(value as int, reg.val()),
    {
        mem.locations[value as usize] = reg.get();
    }

    /// Stores only the low byte of a register pair at an absolute address.
    pub fn ld_addr_from_value_with_register_pair<R: Register>(
        mem: &mut Memory,
        value: u16,
        high: &R,
        low: &R,
    )
        requires
            old(mem).wf(),
            value < 0xFFFF,
        ensures
            final(mem).wf(),
            final(mem).locations@ == old(mem).locations@.update(value as int, low.val()),
    {
        mem.locations[value as usize] = low.get();
    }

    /// Stores a register at the address a register pair points to.
    pub fn ld_addr_from_reg_pair_with_register<R: Register, P: Register>(
        mem: &mut Memory,
        high: &R,
        low: &R,
        reg: &P,
    )
        requires
            old(mem).wf(),
            pair_value(high.val(), low.val()) < 0xFFFF,
        ensures
            final(mem).wf(),
            final(mem).locations@ == old(mem).locations@.update(
                pair_value(high.val(), low.val()),
                reg.val(),
            ),
    {
        let addr = combine_to_double_byte(high.get(), low.get());
        mem.locations[addr as usize] = reg.get();
    }

    /// Doubles a register pair modulo 0x10000, with the flag effects of a
    /// pair addition of the value to itself.
    pub fn dbl_register_pair<P: Register>(high: &mut P, low: &mut P, flags: &mut FlagsRegister)
        ensures
            ({
                let v = pair16(old(high).val(), old(low).val());
                let total = wrap_add16(v, v as int);
                &&& final(high).val() == total / 256
                &&& final(low).val() == total % 256
                &&& final(flags).value == add_pair_flags(old(flags).value, v, v)
            }),
    {
        let val = combine_to_double_byte(high.get(), low.get());
        let total_as_u32 = val as u32 + val as u32;
        let carry = if (val as u32 + val as u32) > u16::MAX as u32 {
            FlagValue::On
        } else {
            FlagValue::Off
        };
        let half_carry = if (val & 8 == 1) && (val & 8 == 1) {
            FlagValue::On
        } else {
            FlagValue::Off
        };
        proof {
            assert(forall|v: u16| (#[trigger] (v & 8)) != 1) by (bit_vector);
            assert(forall|t: u32| t <= 0x1FFFE ==> (#[trigger] (t & 0xFFFF)) == t % 0x10000)
                by (bit_vector);
        }
        let total_as_u16 = (total_as_u32 & 0xFFFF) as u16;
        let (h, l) = split_double_byte(total_as_u16);
        high.set(h);
        low.set(l);
        flags.set_carry(carry);
        flags.set_half_carry(half_carry);
        flags.set_add_subtract(FlagValue::On);
    }

    /// Adds a source register pair to a target register pair modulo 0x10000;
    /// Carry is set when the 32-bit sum exceeds 0xFFFF, Add/Subtract is set.
    pub fn add_register_pairs<P: Register>(
        target_high: &mut P,
        target_low: &mut P,
        source_high: &P,
        source_low: &P,
        flags: &mut FlagsRegister,
    )
        ensures
            ({
                let v1 = pair16(old(target_high).val(), old(target_low).val());
                let v2 = pair16(source_high.val(), source_low.val());
                let total = wrap_add16(v1, v2 as int);
                &&& final(target_high).val() == total / 256
                &&& final(target_low).val() == total % 256
                &&& final(flags).value == add_pair_flags(old(flags).value, v1, v2)
            }),
    {
        let val1 = combine_to_double_byte(target_high.get(), target_low.get());
        let val2 = combine_to_double_byte(source_high.get(), source_low.get());
        let total_as_u32 = val1 as u32 + val2 as u32;
        let carry = if (val1 as u32 + val2 as u32) > u16::MAX as u32 {
            FlagValue::On
        } else {
            FlagValue::Off
        };
        let half_carry = if (val1 & 8 == 1) && (val2 & 8 == 1) {
            FlagValue::On
        } else {
            FlagValue::Off
        };
        proof {
            assert(forall|v: u16| (#[trigger] (v & 8)) != 1) by (bit_vector);
            assert(forall|t: u32| t <= 0x1FFFE ==> (#[trigger] (t & 0xFFFF)) == t % 0x10000)
                by (bit_vector);
        }
        let total_as_u16 = (total_as_u32 & 0xFFFF) as u16;
        let (h, l) = split_double_byte(total_as_u16);
        target_high.set(h);
        target_low.set(l);
        flags.set_carry(carry);
        flags.set_half_carry(half_carry);
        flags.set_add_subtract(FlagValue::On);
    }

    /// Pushes a register pair onto the stack, high register first.
    pub fn push_register_pair<R: Register, P: Register>(
        high: &R,
        low: &P,
        sp: &mut StackPointer,
        mem: &mut Memory,
    )
        requires
            old(mem).wf(),
            2 <= old(sp).location <= 0xFFFF,
        ensures
            final(mem).wf(),
            (final(mem).locations@, final(sp).location) == stack_push(
                old(mem).locations@,
                old(sp).location,
                pair16(high.val(), low.val()),
            ),
    {
        let val = combine_to_double_byte(high.get(), low.get());
        sp.push(mem, val);
    }

    /// Pops a 16-bit value from the stack into a register pair.
    pub fn pop_register_pair<R: Register, P: Register>(
        high: &mut R,
        low: &mut P,
        sp: &mut StackPointer,
        mem: &mut Memory,
    )
        requires
            mem.wf(),
            old(sp).location + 2 <= 0xFFFF,
        ensures
            final(mem).wf(),
            ({
                let (v, l) = stack_pop(old(mem).locations@, old(sp).location);
                &&& final(sp).location == l
                &&& final(high).val() == v / 256
                &&& final(low).val() == v % 256
                &&& final(mem).locations@ == old(mem).locations@
            }),
    {
        let (val1, val2) = split_double_byte(sp.pop(mem));
        high.set(val1);
        low.set(val2);
    }

    /// Pushes the current program counter and jumps to the target address.
    pub fn call(value: u16, sp: &mut StackPointer, pc: &mut ProgramCounter, mem: &mut Memory)
        requires
            old(mem).wf(),
            2 <= old(sp).location <= 0xFFFF,
        ensures
            final(mem).wf(),
            (final(mem).locations@, final(sp).location) == stack_push(
                old(mem).locations@,
                old(sp).location,
                old(pc).value,
            ),
            final(pc).value == value,
    {
        sp.push(mem, pc.value);
        pc.set(value);
    }

    /// Shifts a register right one bit: bit 0 moves into Carry and a zero is
    /// put into bit 7, so the value is halved.
    pub fn srl<R: Register>(reg: &mut R, flags: &mut FlagsRegister)
        ensures
            final(reg).val() == old(reg).val() / 2,
            final(flags).value == with_carry(old(flags).value, old(reg).val() % 2 == 1),
    {
        proof {
            assert(forall|v: u8|
                ((#[trigger] (v >> 1)) & 0x7F) == v / 2 && ((v & 1 == 1) == (v % 2 == 1)))
                by (bit_vector);
        }
        flags.set_carry(
            if reg.get() & 1 == 1 {
                FlagValue::On
            } else {
                FlagValue::Off
            },
        );
        reg.set((reg.get() >> 1) & 0x7F);
    }
}

} // verus!
