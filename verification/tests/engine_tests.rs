use cpc_emu::instruction_set::{Fault, Instruction, InstructionSet, Namespace, Operands};
use cpc_emu::memory::Register;
use cpc_emu::runtime::Runtime;

#[test]
fn unmapped_basic_lookup_is_none() {
    let set = InstructionSet::default();
    assert!(set.instruction_for(0x0A).is_none());
    assert!(set.instruction_for(0x04).is_some());
    assert!(set.extended_instruction_for(0xB0).is_some());
    assert!(set.extended_instruction_for(0x00).is_none());
    assert!(set.index_instruction_for(0xE1).is_some());
    assert!(set.bit_instruction_for(0x38).is_some());
    assert!(set.bit_instruction_for(0x00).is_none());
}

#[test]
fn step_reports_unmapped_opcode() {
    let mut runtime = Runtime::default();
    runtime.components.mem.locations[0] = 0x0A;
    runtime.components.registers.pc.set(0);

    let result = runtime.step();
    assert_eq!(
        result,
        Err(Fault::UnmappedOpcode { namespace: Namespace::Basic, byte: 0x0A })
    );
    // A fault leaves the machine state untouched.
    assert_eq!(runtime.components.registers.pc.get(), 0);
}

#[test]
fn step_reports_unmapped_prefixed_opcode() {
    let mut runtime = Runtime::default();
    runtime.components.mem.locations[0] = 0xED;
    runtime.components.mem.locations[1] = 0x13;
    runtime.components.registers.pc.set(0);

    let result = runtime.step();
    assert_eq!(
        result,
        Err(Fault::UnmappedOpcode { namespace: Namespace::Extended, byte: 0x13 })
    );
}

#[test]
fn step_executes_basic_instruction() {
    let mut runtime = Runtime::default();
    runtime.components.mem.locations[0] = 0x04; // INC B
    runtime.components.registers.pc.set(0);

    let cycles = runtime.step().unwrap();
    assert_eq!(cycles, 4);
    assert_eq!(runtime.components.registers.b.get(), 1);
    assert_eq!(runtime.components.registers.pc.get(), 1);
}

#[test]
fn step_fetches_operands() {
    let mut runtime = Runtime::default();
    runtime.components.mem.locations[0] = 0x01; // LD BC,nn
    runtime.components.mem.locations[1] = 0x34;
    runtime.components.mem.locations[2] = 0x12;
    runtime.components.registers.pc.set(0);

    let cycles = runtime.step().unwrap();
    assert_eq!(cycles, 10);
    assert_eq!(runtime.components.registers.b.get(), 0x12);
    assert_eq!(runtime.components.registers.c.get(), 0x34);
    assert_eq!(runtime.components.registers.pc.get(), 3);
}

#[test]
fn step_dispatches_prefixed_namespace() {
    let mut runtime = Runtime::default();
    runtime.components.mem.locations[0] = 0xCB; // bit namespace prefix
    runtime.components.mem.locations[1] = 0x38; // SRL B, which consumes one operand byte
    runtime.components.registers.pc.set(0);
    runtime.components.registers.b.set(4);

    let cycles = runtime.step().unwrap();
    assert_eq!(cycles, 8);
    assert_eq!(runtime.components.registers.b.get(), 2);
    assert_eq!(runtime.components.registers.pc.get(), 3);
}

#[test]
fn step_jp_p_consumes_two_operands() {
    let mut runtime = Runtime::default();
    runtime.components.mem.locations[0] = 0xF2; // JP P,nn
    runtime.components.mem.locations[1] = 0x34;
    runtime.components.mem.locations[2] = 0x12;
    runtime.components.registers.pc.set(0);
    runtime.components.registers.f.set(0x80); // Sign set: the jump is taken

    let cycles = runtime.step().unwrap();
    assert_eq!(cycles, 10);
    assert_eq!(runtime.components.registers.pc.get(), 0x1234);

    let mut runtime = Runtime::default();
    runtime.components.mem.locations[0] = 0xF2;
    runtime.components.registers.pc.set(0);

    let _ = runtime.step().unwrap();
    // Not taken: the program counter advances past the opcode and both
    // operand bytes.
    assert_eq!(runtime.components.registers.pc.get(), 3);
}

#[test]
fn ldir_copies_block() {
    let mut runtime = Runtime::default();
    let c = &mut runtime.components;
    c.registers.h.set(0x40);
    c.registers.l.set(0x00);
    c.registers.d.set(0x50);
    c.registers.e.set(0x00);
    c.registers.b.set(0x00);
    c.registers.c.set(0x03);
    c.mem.locations[0x4000] = 11;
    c.mem.locations[0x4001] = 22;
    c.mem.locations[0x4002] = 33;
    c.mem.locations[0x5000] = 0;
    c.mem.locations[0x5001] = 0;
    c.mem.locations[0x5002] = 0;

    let cycles = Instruction::OpEDB0.execute(c, Operands::Zero).unwrap();
    assert_eq!(cycles, 16 + 21 * 2);
    assert_eq!(c.mem.locations[0x5000], 11);
    assert_eq!(c.mem.locations[0x5001], 22);
    assert_eq!(c.mem.locations[0x5002], 33);
    assert_eq!(c.registers.b.get(), 0);
    assert_eq!(c.registers.c.get(), 0);
    assert_eq!(
        (c.registers.h.get(), c.registers.l.get()),
        (0x40, 0x03)
    );
    assert_eq!(
        (c.registers.d.get(), c.registers.e.get()),
        (0x50, 0x03)
    );
}

#[test]
fn ldir_with_zero_count_faults() {
    let mut runtime = Runtime::default();
    let c = &mut runtime.components;
    let result = Instruction::OpEDB0.execute(c, Operands::Zero);
    assert_eq!(result, Err(Fault::BlockCountZero));
}

#[test]
fn ldir_cycle_overflow_faults() {
    let mut runtime = Runtime::default();
    let c = &mut runtime.components;
    c.registers.b.set(0x40); // BC = 0x4000, more repeats than the cycle counter holds
    c.registers.d.set(0x50);

    let result = Instruction::OpEDB0.execute(c, Operands::Zero);
    assert_eq!(result, Err(Fault::CycleCountOverflow));
}

#[test]
fn load_rom_maps_16k_image() {
    let mut runtime = Runtime::default();
    let mut rom = vec![0u8; 0x4000];
    rom[0] = 0xAA;
    rom[0x3FFF] = 0xBB;

    runtime.load_rom_from_bytes(&rom);
    assert_eq!(runtime.components.mem.locations[0], 0xAA);
    assert_eq!(runtime.components.mem.locations[0x3FFF], 0xBB);
    // The rest of memory keeps its reset fill.
    assert_eq!(runtime.components.mem.locations[0x4000], 0x01);
}

#[test]
fn load_rom_maps_32k_image() {
    let mut runtime = Runtime::default();
    let mut rom = vec![0u8; 0x8000];
    rom[0] = 0xAA;
    rom[0x4000] = 0xCC;
    rom[0x7FFE] = 0xDD;

    runtime.load_rom_from_bytes(&rom);
    assert_eq!(runtime.components.mem.locations[0], 0xAA);
    assert_eq!(runtime.components.mem.locations[0xC000], 0xCC);
    assert_eq!(runtime.components.mem.locations[0xFFFE], 0xDD);
    // The gap between the two mapped areas keeps its reset fill.
    assert_eq!(runtime.components.mem.locations[0x8000], 0x01);
}

#[test]
fn cycle_time_follows_four_megahertz_clock() {
    assert_eq!(Runtime::cycle_time_nanos(1), 250);
    assert_eq!(Runtime::cycle_time_nanos(4), 1000);
    assert_eq!(Runtime::cycle_time_nanos(58), 14500);
}

#[test]
fn port_input_reads_bus_byte() {
    let mut runtime = Runtime::default();
    let cycles = Instruction::OpED78.execute(&mut runtime.components, Operands::Zero).unwrap();
    assert_eq!(cycles, 12);
    assert_eq!(runtime.components.registers.a.get(), 0xEF);
}
