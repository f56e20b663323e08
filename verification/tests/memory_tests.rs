use cpc_emu::memory::{
    Accumulator, DefaultRegister, FlagValue, FlagsRegister, Memory, Register, StackPointer,
};

#[test]
fn test_stack_pointer() {
    let mut sp = StackPointer { location: 0x100 };
    let mut mem = Memory::default();

    sp.push(&mut mem, 0xABEF);
    assert!(sp.location == 0x100 - 0x2);

    sp.push(&mut mem, 0xCD89);
    assert!(sp.location == 0x100 - 0x4);

    let val = sp.pop(&mut mem);
    assert!(val == 0xCD89);
    assert!(sp.location == 0x100 - 0x2);

    let val = sp.pop(&mut mem);
    assert!(val == 0xABEF);
    assert!(sp.location == 0x100);
}

#[test]
fn stack_round_trip_restores_pointer() {
    let mut sp = StackPointer { location: 0xFFFF };
    let mut mem = Memory::default();

    sp.push(&mut mem, 0xABEF);
    let val = sp.pop(&mut mem);
    assert_eq!(val, 0xABEF);
    assert_eq!(sp.location, 0xFFFF);
}

#[test]
fn flag_bit_positions_are_fixed() {
    // Sign=0x80, Zero=0x40, Half-carry=0x10, Parity/Overflow=0x04,
    // Add/Subtract=0x02, Carry=0x01.
    let mut f = FlagsRegister { value: 0 };
    f.set_sign(FlagValue::On);
    assert_eq!(f.get(), 0x80);

    f.set(0);
    f.set_zero(FlagValue::On);
    assert_eq!(f.get(), 0x40);

    f.set(0);
    f.set_half_carry(FlagValue::On);
    assert_eq!(f.get(), 0x10);

    f.set(0);
    f.set_parity_overflow(FlagValue::On);
    assert_eq!(f.get(), 0x04);

    f.set(0);
    f.set_add_subtract(FlagValue::On);
    assert_eq!(f.get(), 0x02);

    f.set(0);
    f.set_carry(FlagValue::On);
    assert_eq!(f.get(), 0x01);
}

#[test]
fn flag_setters_touch_only_their_bit() {
    let mut f = FlagsRegister { value: 0xFF };
    f.set_carry(FlagValue::Off);
    assert_eq!(f.get(), 0xFE);

    f.set(0xFF);
    f.set_sign(FlagValue::Off);
    assert_eq!(f.get(), 0x7F);

    f.set(0x00);
    f.set_zero(FlagValue::On);
    f.set_zero(FlagValue::Off);
    assert_eq!(f.get(), 0x00);
}

#[test]
fn flag_getters_read_their_bit() {
    let mut f = FlagsRegister { value: 0b1101_0101 };
    assert_eq!(f.get_sign(), FlagValue::On);
    assert_eq!(f.get_zero(), FlagValue::On);
    assert_eq!(f.get_half_carry(), FlagValue::On);
    assert_eq!(f.get_parity_overflow(), FlagValue::On);
    assert_eq!(f.get_add_subtract(), FlagValue::Off);
    assert_eq!(f.get_carry(), FlagValue::On);
}

#[test]
fn or_clears_half_carry_carry_and_add_subtract() {
    let mut a = Accumulator { value: 0x80 };
    let mut f = FlagsRegister { value: 0xFF };
    let reg = DefaultRegister { value: 0x01 };
    a.or(&reg, &mut f);
    assert_eq!(a.get(), 0x81);
    assert_eq!(f.get_half_carry(), FlagValue::Off);
    assert_eq!(f.get_carry(), FlagValue::Off);
    assert_eq!(f.get_add_subtract(), FlagValue::Off);
    assert_eq!(f.get_zero(), FlagValue::Off);
    assert_eq!(f.get_sign(), FlagValue::On);
    assert_eq!(f.get_parity_overflow(), FlagValue::Off); // operand's bit 7 is clear
}

#[test]
fn or_a_recomputes_flags_from_its_own_value() {
    let mut a = Accumulator { value: 0x00 };
    let mut f = FlagsRegister { value: 0xFF };
    a.or_a(&mut f);
    assert_eq!(a.get(), 0x00);
    assert_eq!(f.get_zero(), FlagValue::On);
    assert_eq!(f.get_sign(), FlagValue::Off);
    assert_eq!(f.get_parity_overflow(), FlagValue::Off);
    assert_eq!(f.get_half_carry(), FlagValue::Off);
    assert_eq!(f.get_carry(), FlagValue::Off);
    assert_eq!(f.get_add_subtract(), FlagValue::Off);
}

#[test]
fn sub_reg_recomputes_zero_and_sign() {
    let mut a = Accumulator { value: 3 };
    let mut f = FlagsRegister { value: 0 };
    let reg = DefaultRegister { value: 3 };
    a.sub_reg(&reg, &mut f);
    assert_eq!(a.get(), 0);
    assert_eq!(f.get_zero(), FlagValue::On);
    assert_eq!(f.get_sign(), FlagValue::Off);
}

#[test]
fn memory_resets_to_fill_byte() {
    let mem = Memory::default();
    assert_eq!(mem.locations.len(), 0xFFFF);
    assert_eq!(mem.locations[0], 0x01);
    assert_eq!(mem.locations[0xFFFE], 0x01);
}
