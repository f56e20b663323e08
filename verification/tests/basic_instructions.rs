use cpc_emu::instruction_set::{Fault, Instruction, Operands};
use cpc_emu::memory::{AddressBus, DataBus, FlagValue, Memory, Register, Registers};
use cpc_emu::runtime::RuntimeComponents;
use cpc_emu::utils::split_double_byte;

fn runtime_components() -> RuntimeComponents {
    RuntimeComponents {
        mem: Memory::default(),
        registers: Registers::default(),
        address_bus: AddressBus { value: 0 },
        data_bus: DataBus {},
    }
}

#[test]
fn inc_b() {
    let mut components = runtime_components();

    assert!(components.registers.b.get() == 0);
    let _ = Instruction::Op04.execute(&mut components, Operands::Zero);
    assert!(components.registers.b.get() == 1);
}

#[test]
fn dec_b() {
    let mut components = runtime_components();

    components.registers.b.set(1);
    assert!(components.registers.b.get() == 1);
    let _ = Instruction::Op05.execute(&mut components, Operands::Zero);
    assert!(components.registers.b.get() == 0);
}

#[test]
fn rlca_doubling() {
    // The contents of A are rotated left one bit position.
    // The contents of bit 7 are copied to the carry flag and bit 0.
    let mut components = runtime_components();

    components.registers.a.set(1);
    let _ = Instruction::Op07.execute(&mut components, Operands::Zero);
    assert!(components.registers.a.get() == 2);

    components.registers.a.set(35);
    let _ = Instruction::Op07.execute(&mut components, Operands::Zero);
    assert!(components.registers.a.get() == 70);
}

#[test]
fn rlca_overflow() {
    // The contents of A are rotated left one bit position.
    // The contents of bit 7 are copied to the carry flag and bit 0.
    let mut components = runtime_components();

    components.registers.a.set(255);
    let _ = Instruction::Op07.execute(&mut components, Operands::Zero);
    assert!(components.registers.a.get() == 255);

    components.registers.a.set(254);
    let _ = Instruction::Op07.execute(&mut components, Operands::Zero);
    assert!(components.registers.a.get() == 253);
}

#[test]
fn jpnz() {
    let mut components = runtime_components();

    components.registers.f.set_zero(FlagValue::Off);
    let _ = Instruction::OpC2.execute(&mut components, Operands::Two(0xAA, 0xFF));
    assert!(components.registers.pc.get() == 0xFFAA);
}

#[test]
fn push_bc() {
    let mut components = runtime_components();

    components.registers.b.set(0xA);
    components.registers.c.set(0xB);
    let _ = Instruction::OpC5.execute(&mut components, Operands::Zero);

    let value = components.registers.sp.pop(&components.mem);

    let (high, low) = split_double_byte(value);
    assert!(high == 0xA);
    assert!(low == 0xB);
}

#[test]
fn ret() {
    let mut components = runtime_components();

    components.registers.sp.push(&mut components.mem, 0xABCD);
    let _ = Instruction::OpC9.execute(&mut components, Operands::Zero);
    assert!(components.registers.pc.get() == 0xABCD);
}

#[test]
fn push_af() {
    let mut components = runtime_components();

    components.registers.a.set(0xEF);
    components.registers.f.set(0x8C);
    let _ = Instruction::OpF5.execute(&mut components, Operands::Zero);

    let value = components.registers.sp.pop(&components.mem);

    let (high, low) = split_double_byte(value);
    assert!(high == 0xEF);
    assert!(low == 0x8C);
}

#[test]
fn and_n() {
    let mut components = runtime_components();

    components.registers.a.set(120);
    components.registers.f.set(0);
    let _ = Instruction::OpE6.execute(&mut components, Operands::One(105));
    assert!(components.registers.f.get_carry() == FlagValue::Off);
    assert!(components.registers.f.get_add_subtract() == FlagValue::Off);
    assert!(components.registers.f.get_parity_overflow() == FlagValue::Off);
    assert!(components.registers.f.get_half_carry() == FlagValue::On);
    assert!(components.registers.f.get_zero() == FlagValue::Off);
    assert!(components.registers.f.get_sign() == FlagValue::Off);

    components.registers.a.set(128);
    components.registers.f.set(0);
    let _ = Instruction::OpE6.execute(&mut components, Operands::One(135));
    assert!(components.registers.f.get_carry() == FlagValue::Off);
    assert!(components.registers.f.get_add_subtract() == FlagValue::Off);
    assert!(components.registers.f.get_parity_overflow() == FlagValue::On);
    assert!(components.registers.f.get_half_carry() == FlagValue::On);
    assert!(components.registers.f.get_zero() == FlagValue::Off);
    assert!(components.registers.f.get_sign() == FlagValue::Off);
}

#[test]
fn dec_bc() {
    let mut components = runtime_components();
    components.registers.b.set(0xFF);
    components.registers.c.set(0x3F);

    let cycles = Instruction::Op0B.execute(&mut components, Operands::Zero).unwrap();
    assert!(cycles == 6);
    assert!(components.registers.b.get() == 0xFF);
    assert!(components.registers.c.get() == 0x3E);
}

#[test]
fn sbc_a_n() {
    let mut components = runtime_components();
    components.registers.a.set(0x11);
    components.registers.f.set(0x01);
    let cycles = Instruction::OpDE.execute(&mut components, Operands::One(0x01)).unwrap();
    assert_eq!(cycles, 7);
    assert_eq!(components.registers.a.get(), 0x0F);

    components.registers.a.set(0x12);
    components.registers.f.set(0x00);
    let cycles = Instruction::OpDE.execute(&mut components, Operands::One(0x01)).unwrap();
    assert_eq!(cycles, 7);
    assert_eq!(components.registers.a.get(), 0x11);
}

#[test]
fn inc_b_wraps_at_byte_limit() {
    let mut components = runtime_components();

    components.registers.b.set(0xFF);
    let _ = Instruction::Op04.execute(&mut components, Operands::Zero);
    assert_eq!(components.registers.b.get(), 0x00);
}

#[test]
fn inc_then_dec_restores_register() {
    let mut components = runtime_components();

    components.registers.b.set(0x7F);
    let _ = Instruction::Op04.execute(&mut components, Operands::Zero);
    let _ = Instruction::Op05.execute(&mut components, Operands::Zero);
    assert_eq!(components.registers.b.get(), 0x7F);

    components.registers.b.set(0xFF);
    let _ = Instruction::Op04.execute(&mut components, Operands::Zero);
    let _ = Instruction::Op05.execute(&mut components, Operands::Zero);
    assert_eq!(components.registers.b.get(), 0xFF);
}

#[test]
fn jp_nz_not_taken_when_zero_set() {
    let mut components = runtime_components();

    components.registers.pc.set(0x1234);
    components.registers.f.set_zero(FlagValue::On);
    let cycles = Instruction::OpC2.execute(&mut components, Operands::Two(0xAA, 0xFF)).unwrap();
    assert_eq!(cycles, 10);
    assert_eq!(components.registers.pc.get(), 0x1234);
}

#[test]
fn rlca_sets_carry_from_bit_7() {
    let mut components = runtime_components();

    components.registers.a.set(0b0000_0001);
    let _ = Instruction::Op07.execute(&mut components, Operands::Zero);
    assert_eq!(components.registers.a.get(), 0b0000_0010);
    assert_eq!(components.registers.f.get_carry(), FlagValue::Off);

    components.registers.a.set(0b1000_0011);
    let _ = Instruction::Op07.execute(&mut components, Operands::Zero);
    assert_eq!(components.registers.a.get(), 0b0000_0111);
    assert_eq!(components.registers.f.get_carry(), FlagValue::On);
}

#[test]
fn dec_b_sets_half_carry_on_low_nibble_borrow() {
    let mut components = runtime_components();

    components.registers.b.set(0x10);
    let _ = Instruction::Op05.execute(&mut components, Operands::Zero);
    assert_eq!(components.registers.b.get(), 0x0F);
    assert_eq!(components.registers.f.get_half_carry(), FlagValue::On);

    components.registers.b.set(0x11);
    let _ = Instruction::Op05.execute(&mut components, Operands::Zero);
    assert_eq!(components.registers.b.get(), 0x10);
    assert_eq!(components.registers.f.get_half_carry(), FlagValue::Off);
}

#[test]
fn xor_clears_half_carry_carry_and_add_subtract() {
    let mut components = runtime_components();

    components.registers.a.set(0x0F);
    components.registers.c.set(0x0F);
    components.registers.f.set(0xFF);
    let _ = Instruction::OpA9.execute(&mut components, Operands::Zero);
    assert_eq!(components.registers.a.get(), 0x00);
    assert_eq!(components.registers.f.get_half_carry(), FlagValue::Off);
    assert_eq!(components.registers.f.get_carry(), FlagValue::Off);
    assert_eq!(components.registers.f.get_add_subtract(), FlagValue::Off);
    assert_eq!(components.registers.f.get_zero(), FlagValue::On);
    assert_eq!(components.registers.f.get_sign(), FlagValue::Off);
    assert_eq!(components.registers.f.get_parity_overflow(), FlagValue::Off);
}

#[test]
fn xor_a_clears_accumulator_and_sets_zero() {
    let mut components = runtime_components();

    components.registers.a.set(0x5A);
    components.registers.f.set(0xFF);
    let _ = Instruction::OpAF.execute(&mut components, Operands::Zero);
    assert_eq!(components.registers.a.get(), 0x00);
    assert_eq!(components.registers.f.get_zero(), FlagValue::On);
    assert_eq!(components.registers.f.get_sign(), FlagValue::Off);
    assert_eq!(components.registers.f.get_parity_overflow(), FlagValue::Off);
    assert_eq!(components.registers.f.get_half_carry(), FlagValue::Off);
    assert_eq!(components.registers.f.get_carry(), FlagValue::Off);
    assert_eq!(components.registers.f.get_add_subtract(), FlagValue::Off);
}

#[test]
fn inc_bc_sets_add_subtract() {
    let mut components = runtime_components();

    let _ = Instruction::Op03.execute(&mut components, Operands::Zero);
    assert_eq!(components.registers.c.get(), 1);
    assert_eq!(components.registers.f.get_add_subtract(), FlagValue::On);
}

#[test]
fn compare_recomputes_zero_and_sign() {
    let mut components = runtime_components();

    components.registers.a.set(5);
    components.registers.e.set(5);
    let _ = Instruction::OpBB.execute(&mut components, Operands::Zero);
    assert_eq!(components.registers.a.get(), 5); // the accumulator is untouched
    assert_eq!(components.registers.f.get_zero(), FlagValue::On);
    assert_eq!(components.registers.f.get_sign(), FlagValue::Off);

    components.registers.a.set(0);
    let _ = Instruction::OpFE.execute(&mut components, Operands::One(1));
    assert_eq!(components.registers.f.get_zero(), FlagValue::Off);
    assert_eq!(components.registers.f.get_sign(), FlagValue::On);
}

#[test]
fn sub_recomputes_zero_and_sign() {
    let mut components = runtime_components();

    components.registers.a.set(5);
    let _ = Instruction::OpD6.execute(&mut components, Operands::One(5));
    assert_eq!(components.registers.a.get(), 0);
    assert_eq!(components.registers.f.get_zero(), FlagValue::On);
    assert_eq!(components.registers.f.get_sign(), FlagValue::Off);

    components.registers.a.set(0);
    let _ = Instruction::OpD6.execute(&mut components, Operands::One(1));
    assert_eq!(components.registers.a.get(), 0xFF);
    assert_eq!(components.registers.f.get_zero(), FlagValue::Off);
    assert_eq!(components.registers.f.get_sign(), FlagValue::On);
}

#[test]
fn memory_fault_reports_address() {
    let mut components = runtime_components();

    components.registers.h.set(0xFF);
    components.registers.l.set(0xFF);
    let result = Instruction::Op7E.execute(&mut components, Operands::Zero);
    assert_eq!(result, Err(Fault::MemoryOutOfRange { addr: 0xFFFF }));
}

#[test]
fn stack_fault_reports_location() {
    let mut components = runtime_components();

    components.registers.sp.set(1);
    let result = Instruction::OpC5.execute(&mut components, Operands::Zero);
    assert_eq!(result, Err(Fault::StackOutOfRange { location: 1 }));
}
