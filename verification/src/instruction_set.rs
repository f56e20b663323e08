//! The instruction catalog: a closed set of opcodes in four decode
//! namespaces, dispatched through exhaustive matches.
//!
//! Every opcode is one variant of [`Instruction`]; the four lookup tables
//! map an opcode byte to its variant and report an unmapped byte as `None`,
//! which the engine turns into a fatal [`Fault::UnmappedOpcode`].

pub mod basic;
pub mod bit;
pub mod extended;
pub mod index;

use vstd::prelude::*;

use crate::runtime::{outcome_post, CpuState, Outcome, RuntimeComponents};

verus! {

/// The immediate bytes that followed an opcode, shaped by the instruction's
/// declared operand count so that a mismatch cannot be represented at the
/// point of execution.
#[derive(Clone, Copy, PartialEq, Eq, Structural, Debug)]
pub enum Operands {
    Zero,
    One(u8),
    Two(u8, u8),
}

/// The decode namespace an opcode byte was looked up in.
#[derive(Clone, Copy, PartialEq, Eq, Structural, Debug)]
pub enum Namespace {
    Basic,
    Extended,
    Index,
    Bit,
}

/// A fatal condition met while fetching, decoding or executing one
/// instruction. Each is reported to the caller instead of tearing the
/// process down, so the engine loop can identify the offending byte.
#[derive(Clone, Copy, PartialEq, Eq, Structural, Debug)]
pub enum Fault {
    /// An opcode byte with no instruction mapped in its namespace.
    UnmappedOpcode { namespace: Namespace, byte: u8 },
    /// A computed address one past the last memory location.
    MemoryOutOfRange { addr: u16 },
    /// A stack access outside the memory image.
    StackOutOfRange { location: usize },
    /// A block transfer started with a zero byte count.
    BlockCountZero,
    /// A block transfer long enough that its cycle cost exceeds the 16-bit
    /// cycle counter.
    CycleCountOverflow,
}

/// The first operand byte, or zero where none was fetched.
pub open spec fn operand1(ops: Operands) -> u8 {
    match ops {
        Operands::Zero => 0,
        Operands::One(a) => a,
        Operands::Two(a, _) => a,
    }
}

/// The second operand byte, or zero where none was fetched.
pub open spec fn operand2(ops: Operands) -> u8 {
    match ops {
        Operands::Zero => 0,
        Operands::One(_) => 0,
        Operands::Two(_, b) => b,
    }
}

/// Whether the shape of the fetched operands matches the instruction's
/// declared operand count.
pub open spec fn operands_match(instruction: Instruction, ops: Operands) -> bool {
    match ops {
        Operands::Zero => arity(instruction) == 0,
        Operands::One(_) => arity(instruction) == 1,
        Operands::Two(_, _) => arity(instruction) == 2,
    }
}

/// One instruction of the catalog, named after its opcode byte sequence.
#[derive(Clone, Copy, PartialEq, Eq, Structural, Debug)]
pub enum Instruction {
    /// NOP
    Op00,
    /// LD BC,nn
    Op01,
    /// LD (BC),A — loads the byte at (BC) into A
    Op02,
    /// INC BC
    Op03,
    /// INC B
    Op04,
    /// DEC B
    Op05,
    /// LD B,n
    Op06,
    /// RLCA
    Op07,
    /// EX AF,AF'
    Op08,
    /// ADD HL,BC
    Op09,
    /// DJNZ d
    Op10,
    /// DEC BC
    Op0B,
    /// INC C
    Op0C,
    /// DEC C
    Op0D,
    /// LD C,n
    Op0E,
    /// LD DE,nn
    Op11,
    /// INC DE
    Op13,
    /// JR d
    Op18,
    /// ADD HL,DE
    Op19,
    /// LD A,(DE) — reads through the BC pair
    Op1A,
    /// JR NZ,d
    Op20,
    /// LD HL,nn
    Op21,
    /// LD (nn),HL — stores only L, address bytes taken high-first
    Op22,
    /// INC HL
    Op23,
    /// ADD HL,HL
    Op29,
    /// DEC HL
    Op2B,
    /// DEC L
    Op2D,
    /// CPL
    Op2F,
    /// JR NC,d
    Op30,
    /// LD SP,nn
    Op31,
    /// LD (nn),A
    Op32,
    /// LD (HL),n
    Op36,
    /// LD A,(nn)
    Op3A,
    /// INC A
    Op3C,
    /// LD A,n
    Op3E,
    /// LD B,C
    Op41,
    /// LD B,A
    Op47,
    /// LD C,H
    Op4C,
    /// LD C,(HL)
    Op4E,
    /// LD D,(HL)
    Op56,
    /// LD E,(HL)
    Op5E,
    /// LD H,A
    Op67,
    /// LD L,A
    Op6F,
    /// LD (HL),B
    Op70,
    /// LD (HL),C
    Op71,
    /// LD (HL),D
    Op72,
    /// LD (HL),E
    Op73,
    /// LD (HL),A
    Op77,
    /// LD A,B
    Op78,
    /// LD A,C
    Op79,
    /// LD A,H
    Op7C,
    /// LD A,L
    Op7D,
    /// LD A,(HL)
    Op7E,
    /// XOR C
    OpA9,
    /// XOR A
    OpAF,
    /// OR (HL) — performs an exclusive or with (HL)
    OpB6,
    /// OR A — performs an exclusive or with (HL)
    OpB7,
    /// CP E
    OpBB,
    /// RET NZ
    OpC0,
    /// POP BC
    OpC1,
    /// JP NZ,nn
    OpC2,
    /// JP nn
    OpC3,
    /// PUSH BC
    OpC5,
    /// RET Z
    OpC8,
    /// RET
    OpC9,
    /// CALL nn
    OpCD,
    /// POP DE
    OpD1,
    /// PUSH DE
    OpD5,
    /// SUB n
    OpD6,
    /// RET C
    OpD8,
    /// EXX
    OpD9,
    /// SBC A,n
    OpDE,
    /// PUSH HL — pushes the H register for both bytes
    OpE5,
    /// AND n
    OpE6,
    /// EX DE,HL
    OpEB,
    /// RET P
    OpF0,
    /// JP P,nn — taken while the Sign flag is set
    OpF2,
    /// DI
    OpF3,
    /// PUSH AF
    OpF5,
    /// RET M
    OpF8,
    /// EI
    OpFB,
    /// CP n
    OpFE,
    /// IM 0
    OpED46,
    /// OUT (C),C
    OpED49,
    /// IM 1
    OpED56,
    /// LD DE,(nn)
    OpED5B,
    /// IN A,(C)
    OpED78,
    /// OUT (C),A
    OpED79,
    /// LDIR
    OpEDB0,
    /// POP IX
    OpDDE1,
    /// PUSH IX
    OpDDE5,
    /// SRL B
    OpCB38,
}

/// How many immediate operand bytes follow the instruction's opcode.
pub open spec fn arity(instruction: Instruction) -> u8 {
    match instruction {
        Instruction::Op01 => 2,
        Instruction::Op06 => 1,
        Instruction::Op10 => 1,
        Instruction::Op0E => 1,
        Instruction::Op11 => 2,
        Instruction::Op18 => 1,
        Instruction::Op20 => 1,
        Instruction::Op21 => 2,
        Instruction::Op22 => 2,
        Instruction::Op30 => 1,
        Instruction::Op31 => 2,
        Instruction::Op32 => 2,
        Instruction::Op36 => 1,
        Instruction::Op3A => 2,
        Instruction::Op3E => 1,
        Instruction::OpC2 => 2,
        Instruction::OpC3 => 2,
        Instruction::OpF2 => 2,
        Instruction::OpCD => 2,
        Instruction::OpD6 => 1,
        Instruction::OpDE => 1,
        Instruction::OpE6 => 1,
        Instruction::OpFE => 1,
        Instruction::OpED5B => 2,
        Instruction::OpCB38 => 1,
        _ => 0,
    }
}

impl Instruction {
    /// The number of immediate bytes the engine must fetch before executing
    /// this instruction.
    pub fn operand_count(&self) -> (r: u8)
        ensures
            r == arity(*self),
    {
        match self {
            Instruction::Op01 => 2,
            Instruction::Op06 => 1,
            Instruction::Op10 => 1,
            Instruction::Op0E => 1,
            Instruction::Op11 => 2,
            Instruction::Op18 => 1,
            Instruction::Op20 => 1,
            Instruction::Op21 => 2,
            Instruction::Op22 => 2,
            Instruction::Op30 => 1,
            Instruction::Op31 => 2,
            Instruction::Op32 => 2,
            Instruction::Op36 => 1,
            Instruction::Op3A => 2,
            Instruction::Op3E => 1,
            Instruction::OpC2 => 2,
            Instruction::OpC3 => 2,
            Instruction::OpF2 => 2,
            Instruction::OpCD => 2,
            Instruction::OpD6 => 1,
            Instruction::OpDE => 1,
            Instruction::OpE6 => 1,
            Instruction::OpFE => 1,
            Instruction::OpED5B => 2,
            Instruction::OpCB38 => 1,
            _ => 0,
        }
    }
}

/// The basic namespace: opcodes dispatched without a prefix byte.
pub open spec fn basic_lookup(byte: u8) -> Option<Instruction> {
    match byte {
        0x00u8 => Some(Instruction::Op00),
        0x01u8 => Some(Instruction::Op01),
        0x04u8 => Some(Instruction::Op04),
        0x05u8 => Some(Instruction::Op05),
        0x06u8 => Some(Instruction::Op06),
        0x07u8 => Some(Instruction::Op07),
        0x08u8 => Some(Instruction::Op08),
        0x09u8 => Some(Instruction::Op09),
        0x0Cu8 => Some(Instruction::Op0C),
        0x0Du8 => Some(Instruction::Op0D),
        0x0Eu8 => Some(Instruction::Op0E),
        0x10u8 => Some(Instruction::Op10),
        0x11u8 => Some(Instruction::Op11),
        0x13u8 => Some(Instruction::Op13),
        0x18u8 => Some(Instruction::Op18),
        0x19u8 => Some(Instruction::Op19),
        0x1Au8 => Some(Instruction::Op1A),
        0x20u8 => Some(Instruction::Op20),
        0x21u8 => Some(Instruction::Op21),
        0x22u8 => Some(Instruction::Op22),
        0x23u8 => Some(Instruction::Op23),
        0x29u8 => Some(Instruction::Op29),
        0x2Bu8 => Some(Instruction::Op2B),
        0x2Du8 => Some(Instruction::Op2D),
        0x2Fu8 => Some(Instruction::Op2F),
        0x30u8 => Some(Instruction::Op30),
        0x31u8 => Some(Instruction::Op31),
        0x32u8 => Some(Instruction::Op32),
        0x36u8 => Some(Instruction::Op36),
        0x3Au8 => Some(Instruction::Op3A),
        0x3Cu8 => Some(Instruction::Op3C),
        0x3Eu8 => Some(Instruction::Op3E),
        0x41u8 => Some(Instruction::Op41),
        0x47u8 => Some(Instruction::Op47),
        0x4Cu8 => Some(Instruction::Op4C),
        0x4Eu8 => Some(Instruction::Op4E),
        0x56u8 => Some(Instruction::Op56),
        0x5Eu8 => Some(Instruction::Op5E),
        0x67u8 => Some(Instruction::Op67),
        0x6Fu8 => Some(Instruction::Op6F),
        0x70u8 => Some(Instruction::Op70),
        0x71u8 => Some(Instruction::Op71),
        0x72u8 => Some(Instruction::Op72),
        0x73u8 => Some(Instruction::Op73),
        0x77u8 => Some(Instruction::Op77),
        0x78u8 => Some(Instruction::Op78),
        0x79u8 => Some(Instruction::Op79),
        0x7Cu8 => Some(Instruction::Op7C),
        0x7Du8 => Some(Instruction::Op7D),
        0x7Eu8 => Some(Instruction::Op7E),
        0xA9u8 => Some(Instruction::OpA9),
        0xAFu8 => Some(Instruction::OpAF),
        0xB6u8 => Some(Instruction::OpB6),
        0xB7u8 => Some(Instruction::OpB7),
        0xBBu8 => Some(Instruction::OpBB),
        0xC0u8 => Some(Instruction::OpC0),
        0xC1u8 => Some(Instruction::OpC1),
        0xC3u8 => Some(Instruction::OpC3),
        0xC5u8 => Some(Instruction::OpC5),
        0xC8u8 => Some(Instruction::OpC8),
        0xC9u8 => Some(Instruction::OpC9),
        0xCDu8 => Some(Instruction::OpCD),
        0xD1u8 => Some(Instruction::OpD1),
        0xD5u8 => Some(Instruction::OpD5),
        0xD6u8 => Some(Instruction::OpD6),
        0xD8u8 => Some(Instruction::OpD8),
        0xD9u8 => Some(Instruction::OpD9),
        0xDEu8 => Some(Instruction::OpDE),
        0xE5u8 => Some(Instruction::OpE5),
        0xE6u8 => Some(Instruction::OpE6),
        0xEBu8 => Some(Instruction::OpEB),
        0xF2u8 => Some(Instruction::OpF2),
        0xF3u8 => Some(Instruction::OpF3),
        0xF5u8 => Some(Instruction::OpF5),
        0xF8u8 => Some(Instruction::OpF8),
        0xFBu8 => Some(Instruction::OpFB),
        0xFEu8 => Some(Instruction::OpFE),
        _ => None,
    }
}

/// The 0xED-prefixed extended namespace.
pub open spec fn extended_lookup(byte: u8) -> Option<Instruction> {
    match byte {
        0x46u8 => Some(Instruction::OpED46),
        0x49u8 => Some(Instruction::OpED49),
        0x56u8 => Some(Instruction::OpED56),
        0x5Bu8 => Some(Instruction::OpED5B),
        0x78u8 => Some(Instruction::OpED78),
        0x79u8 => Some(Instruction::OpED79),
        0xB0u8 => Some(Instruction::OpEDB0),
        _ => None,
    }
}

/// The 0xDD-prefixed index namespace.
pub open spec fn index_lookup(byte: u8) -> Option<Instruction> {
    match byte {
        0xE1u8 => Some(Instruction::OpDDE1),
        0xE5u8 => Some(Instruction::OpDDE5),
        _ => None,
    }
}

/// The 0xCB-prefixed bit namespace.
pub open spec fn bit_lookup(byte: u8) -> Option<Instruction> {
    match byte {
        0x38u8 => Some(Instruction::OpCB38),
        _ => None,
    }
}

/// The lookup table of the given namespace.
pub open spec fn namespace_lookup(namespace: Namespace, byte: u8) -> Option<Instruction> {
    match namespace {
        Namespace::Basic => basic_lookup(byte),
        Namespace::Extended => extended_lookup(byte),
        Namespace::Index => index_lookup(byte),
        Namespace::Bit => bit_lookup(byte),
    }
}

/// The dispatch table: maps an opcode byte to its instruction within the
/// correct namespace and reports an unmapped byte as `None`.
pub struct InstructionSet {}

impl InstructionSet {
    pub fn default() -> (r: InstructionSet) {
        InstructionSet {}
    }

    /// Looks an opcode byte up in the basic namespace; `None` is the
    /// distinguished result for an unmapped byte.
    pub fn instruction_for(&self, byte: u8) -> (r: Option<Instruction>)
        ensures
            r == basic_lookup(byte),
    {
        match byte {
            0x00 => Some(Instruction::Op00),
            0x01 => Some(Instruction::Op01),
            0x04 => Some(Instruction::Op04),
            0x05 => Some(Instruction::Op05),
            0x06 => Some(Instruction::Op06),
            0x07 => Some(Instruction::Op07),
            0x08 => Some(Instruction::Op08),
            0x09 => Some(Instruction::Op09),
            0x0C => Some(Instruction::Op0C),
            0x0D => Some(Instruction::Op0D),
            0x0E => Some(Instruction::Op0E),
            0x10 => Some(Instruction::Op10),
            0x11 => Some(Instruction::Op11),
            0x13 => Some(Instruction::Op13),
            0x18 => Some(Instruction::Op18),
            0x19 => Some(Instruction::Op19),
            0x1A => Some(Instruction::Op1A),
            0x20 => Some(Instruction::Op20),
            0x21 => Some(Instruction::Op21),
            0x22 => Some(Instruction::Op22),
            0x23 => Some(Instruction::Op23),
            0x29 => Some(Instruction::Op29),
            0x2B => Some(Instruction::Op2B),
            0x2D => Some(Instruction::Op2D),
            0x2F => Some(Instruction::Op2F),
            0x30 => Some(Instruction::Op30),
            0x31 => Some(Instruction::Op31),
            0x32 => Some(Instruction::Op32),
            0x36 => Some(Instruction::Op36),
            0x3A => Some(Instruction::Op3A),
            0x3C => Some(Instruction::Op3C),
            0x3E => Some(Instruction::Op3E),
            0x41 => Some(Instruction::Op41),
            0x47 => Some(Instruction::Op47),
            0x4C => Some(Instruction::Op4C),
            0x4E => Some(Instruction::Op4E),
            0x56 => Some(Instruction::Op56),
            0x5E => Some(Instruction::Op5E),
            0x67 => Some(Instruction::Op67),
            0x6F => Some(Instruction::Op6F),
            0x70 => Some(Instruction::Op70),
            0x71 => Some(Instruction::Op71),
            0x72 => Some(Instruction::Op72),
            0x73 => Some(Instruction::Op73),
            0x77 => Some(Instruction::Op77),
            0x78 => Some(Instruction::Op78),
            0x79 => Some(Instruction::Op79),
            0x7C => Some(Instruction::Op7C),
            0x7D => Some(Instruction::Op7D),
            0x7E => Some(Instruction::Op7E),
            0xA9 => Some(Instruction::OpA9),
            0xAF => Some(Instruction::OpAF),
            0xB6 => Some(Instruction::OpB6),
            0xB7 => Some(Instruction::OpB7),
            0xBB => Some(Instruction::OpBB),
            0xC0 => Some(Instruction::OpC0),
            0xC1 => Some(Instruction::OpC1),
            0xC3 => Some(Instruction::OpC3),
            0xC5 => Some(Instruction::OpC5),
            0xC8 => Some(Instruction::OpC8),
            0xC9 => Some(Instruction::OpC9),
            0xCD => Some(Instruction::OpCD),
            0xD1 => Some(Instruction::OpD1),
            0xD5 => Some(Instruction::OpD5),
            0xD6 => Some(Instruction::OpD6),
            0xD8 => Some(Instruction::OpD8),
            0xD9 => Some(Instruction::OpD9),
            0xDE => Some(Instruction::OpDE),
            0xE5 => Some(Instruction::OpE5),
            0xE6 => Some(Instruction::OpE6),
            0xEB => Some(Instruction::OpEB),
            0xF2 => Some(Instruction::OpF2),
            0xF3 => Some(Instruction::OpF3),
            0xF5 => Some(Instruction::OpF5),
            0xF8 => Some(Instruction::OpF8),
            0xFB => Some(Instruction::OpFB),
            0xFE => Some(Instruction::OpFE),
            _ => None,
        }
    }

    /// Looks an opcode byte up in the 0xED extended namespace.
    pub fn extended_instruction_for(&self, byte: u8) -> (r: Option<Instruction>)
        ensures
            r == extended_lookup(byte),
    {
        match byte {
            0x46 => Some(Instruction::OpED46),
            0x49 => Some(Instruction::OpED49),
            0x56 => Some(Instruction::OpED56),
            0x5B => Some(Instruction::OpED5B),
            0x78 => Some(Instruction::OpED78),
            0x79 => Some(Instruction::OpED79),
            0xB0 => Some(Instruction::OpEDB0),
            _ => None,
        }
    }

    /// Looks an opcode byte up in the 0xDD index namespace.
    pub fn index_instruction_for(&self, byte: u8) -> (r: Option<Instruction>)
        ensures
            r == index_lookup(byte),
    {
        match byte {
            0xE1 => Some(Instruction::OpDDE1),
            0xE5 => Some(Instruction::OpDDE5),
            _ => None,
        }
    }

    /// Looks an opcode byte up in the 0xCB bit namespace.
    pub fn bit_instruction_for(&self, byte: u8) -> (r: Option<Instruction>)
        ensures
            r == bit_lookup(byte),
    {
        match byte {
            0x38 => Some(Instruction::OpCB38),
            _ => None,
        }
    }
}

/// What one instruction does to the machine state, given the operand
/// bytes that were fetched for it (zero where it takes fewer).
pub open spec fn instr_outcome(i: Instruction, s: CpuState, op1: u8, op2: u8) -> Outcome {
    match i {
        Instruction::Op00 => basic::op_00_outcome(s),
        Instruction::Op01 => basic::op_01_outcome(s, op1, op2),
        Instruction::Op02 => basic::op_02_outcome(s),
        Instruction::Op03 => basic::op_03_outcome(s),
        Instruction::Op04 => basic::op_04_outcome(s),
        Instruction::Op05 => basic::op_05_outcome(s),
        Instruction::Op06 => basic::op_06_outcome(s, op1),
        Instruction::Op07 => basic::op_07_outcome(s),
        Instruction::Op08 => basic::op_08_outcome(s),
        Instruction::Op09 => basic::op_09_outcome(s),
        Instruction::Op10 => basic::op_10_outcome(s, op1),
        Instruction::Op0B => basic::op_0b_outcome(s),
        Instruction::Op0C => basic::op_0c_outcome(s),
        Instruction::Op0D => basic::op_0d_outcome(s),
        Instruction::Op0E => basic::op_0e_outcome(s, op1),
        Instruction::Op11 => basic::op_11_outcome(s, op1, op2),
        Instruction::Op13 => basic::op_13_outcome(s),
        Instruction::Op18 => basic::op_18_outcome(s, op1),
        Instruction::Op19 => basic::op_19_outcome(s),
        Instruction::Op1A => basic::op_1a_outcome(s),
        Instruction::Op20 => basic::op_20_outcome(s, op1),
        Instruction::Op21 => basic::op_21_outcome(s, op1, op2),
        Instruction::Op22 => basic::op_22_outcome(s, op1, op2),
        Instruction::Op23 => basic::op_23_outcome(s),
        Instruction::Op29 => basic::op_29_outcome(s),
        Instruction::Op2B => basic::op_2b_outcome(s),
        Instruction::Op2D => basic::op_2d_outcome(s),
        Instruction::Op2F => basic::op_2f_outcome(s),
        Instruction::Op30 => basic::op_30_outcome(s, op1),
        Instruction::Op31 => basic::op_31_outcome(s, op1, op2),
        Instruction::Op32 => basic::op_32_outcome(s, op1, op2),
        Instruction::Op36 => basic::op_36_outcome(s, op1),
        Instruction::Op3A => basic::op_3a_outcome(s, op1, op2),
        Instruction::Op3C => basic::op_3c_outcome(s),
        Instruction::Op3E => basic::op_3e_outcome(s, op1),
        Instruction::Op41 => basic::op_41_outcome(s),
        Instruction::Op47 => basic::op_47_outcome(s),
        Instruction::Op4C => basic::op_4c_outcome(s),
        Instruction::Op4E => basic::op_4e_outcome(s),
        Instruction::Op56 => basic::op_56_outcome(s),
        Instruction::Op5E => basic::op_5e_outcome(s),
        Instruction::Op67 => basic::op_67_outcome(s),
        Instruction::Op6F => basic::op_6f_outcome(s),
        Instruction::Op70 => basic::op_70_outcome(s),
        Instruction::Op71 => basic::op_71_outcome(s),
        Instruction::Op72 => basic::op_72_outcome(s),
        Instruction::Op73 => basic::op_73_outcome(s),
        Instruction::Op77 => basic::op_77_outcome(s),
        Instruction::Op78 => basic::op_78_outcome(s),
        Instruction::Op79 => basic::op_79_outcome(s),
        Instruction::Op7C => basic::op_7c_outcome(s),
        Instruction::Op7D => basic::op_7d_outcome(s),
        Instruction::Op7E => basic::op_7e_outcome(s),
        Instruction::OpA9 => basic::op_a9_outcome(s),
        Instruction::OpAF => basic::op_af_outcome(s),
        Instruction::OpB6 => basic::op_b6_outcome(s),
        Instruction::OpB7 => basic::op_b7_outcome(s),
        Instruction::OpBB => basic::op_bb_outcome(s),
        Instruction::OpC0 => basic::op_c0_outcome(s),
        Instruction::OpC1 => basic::op_c1_outcome(s),
        Instruction::OpC2 => basic::op_c2_outcome(s, op1, op2),
        Instruction::OpC3 => basic::op_c3_outcome(s, op1, op2),
        Instruction::OpC5 => basic::op_c5_outcome(s),
        Instruction::OpC8 => basic::op_c8_outcome(s),
        Instruction::OpC9 => basic::op_c9_outcome(s),
        Instruction::OpCD => basic::op_cd_outcome(s, op1, op2),
        Instruction::OpD1 => basic::op_d1_outcome(s),
        Instruction::OpD5 => basic::op_d5_outcome(s),
        Instruction::OpD6 => basic::op_d6_outcome(s, op1),
        Instruction::OpD8 => basic::op_d8_outcome(s),
        Instruction::OpD9 => basic::op_d9_outcome(s),
        Instruction::OpDE => basic::op_de_outcome(s, op1),
        Instruction::OpE5 => basic::op_e5_outcome(s),
        Instruction::OpE6 => basic::op_e6_outcome(s, op1),
        Instruction::OpEB => basic::op_eb_outcome(s),
        Instruction::OpF0 => basic::op_f0_outcome(s),
        Instruction::OpF2 => basic::op_f2_outcome(s, op1, op2),
        Instruction::OpF3 => basic::op_f3_outcome(s),
        Instruction::OpF5 => basic::op_f5_outcome(s),
        Instruction::OpF8 => basic::op_f8_outcome(s),
        Instruction::OpFB => basic::op_fb_outcome(s),
        Instruction::OpFE => basic::op_fe_outcome(s, op1),
        Instruction::OpED46 => extended::op_ed46_outcome(s),
        Instruction::OpED49 => extended::op_ed49_outcome(s),
        Instruction::OpED56 => extended::op_ed56_outcome(s),
        Instruction::OpED5B => extended::op_ed5b_outcome(s, op1, op2),
        Instruction::OpED78 => extended::op_ed78_outcome(s),
        Instruction::OpED79 => extended::op_ed79_outcome(s),
        Instruction::OpEDB0 => extended::op_edb0_outcome(s),
        Instruction::OpDDE1 => index::op_dde1_outcome(s),
        Instruction::OpDDE5 => index::op_dde5_outcome(s),
        Instruction::OpCB38 => bit::op_cb38_outcome(s),
    }
}

/// The canonical machine-code template of an instruction, with
/// placeholders for its immediate bytes.
pub open spec fn machine_code_spec(i: Instruction) -> Seq<char> {
    match i {
        Instruction::Op00 => "00"@,
        Instruction::Op01 => "01 *1 *2"@,
        Instruction::Op02 => "02"@,
        Instruction::Op03 => "03"@,
        Instruction::Op04 => "04"@,
        Instruction::Op05 => "05"@,
        Instruction::Op06 => "06 *1"@,
        Instruction::Op07 => "07"@,
        Instruction::Op08 => "08"@,
        Instruction::Op09 => "09"@,
        Instruction::Op10 => "10 *1"@,
        Instruction::Op0B => "0B"@,
        Instruction::Op0C => "0C"@,
        Instruction::Op0D => "0D"@,
        Instruction::Op0E => "0E *1"@,
        Instruction::Op11 => "11 *1 *2"@,
        Instruction::Op13 => "13"@,
        Instruction::Op18 => "18 *1"@,
        Instruction::Op19 => "19"@,
        Instruction::Op1A => "1A"@,
        Instruction::Op20 => "20 *1"@,
        Instruction::Op21 => "21 *1 *2"@,
        Instruction::Op22 => "22 *1 *2"@,
        Instruction::Op23 => "23"@,
        Instruction::Op29 => "29"@,
        Instruction::Op2B => "2B"@,
        Instruction::Op2D => "2D"@,
        Instruction::Op2F => "2F"@,
        Instruction::Op30 => "30 *1"@,
        Instruction::Op31 => "31 *1 *2"@,
        Instruction::Op32 => "32 *1 *2"@,
        Instruction::Op36 => "36 *1"@,
        Instruction::Op3A => "3A *1 *2"@,
        Instruction::Op3C => "3C"@,
        Instruction::Op3E => "3E *1"@,
        Instruction::Op41 => "41"@,
        Instruction::Op47 => "47"@,
        Instruction::Op4C => "4C"@,
        Instruction::Op4E => "4E"@,
        Instruction::Op56 => "56"@,
        Instruction::Op5E => "5E"@,
        Instruction::Op67 => "67"@,
        Instruction::Op6F => "6F"@,
        Instruction::Op70 => "70"@,
        Instruction::Op71 => "71"@,
        Instruction::Op72 => "72"@,
        Instruction::Op73 => "73"@,
        Instruction::Op77 => "77"@,
        Instruction::Op78 => "78"@,
        Instruction::Op79 => "79"@,
        Instruction::Op7C => "7C"@,
        Instruction::Op7D => "7D"@,
        Instruction::Op7E => "7E"@,
        Instruction::OpA9 => "A9"@,
        Instruction::OpAF => "AF"@,
        Instruction::OpB6 => "B6"@,
        Instruction::OpB7 => "B7"@,
        Instruction::OpBB => "BB"@,
        Instruction::OpC0 => "C0"@,
        Instruction::OpC1 => "D1"@,
        Instruction::OpC2 => "C2 *1 *2"@,
        Instruction::OpC3 => "C3 *1 *2"@,
        Instruction::OpC5 => "C5"@,
        Instruction::OpC8 => "C8"@,
        Instruction::OpC9 => "C9"@,
        Instruction::OpCD => "CD"@,
        Instruction::OpD1 => "D1"@,
        Instruction::OpD5 => "D5"@,
        Instruction::OpD6 => "D6 *1"@,
        Instruction::OpD8 => "D8"@,
        Instruction::OpD9 => "D9"@,
        Instruction::OpDE => "DE *1"@,
        Instruction::OpE5 => "E5"@,
        Instruction::OpE6 => "E6 *1"@,
        Instruction::OpEB => "EB"@,
        Instruction::OpF0 => "F0"@,
        Instruction::OpF2 => "F2 *1 *2"@,
        Instruction::OpF3 => "F3"@,
        Instruction::OpF5 => "F5"@,
        Instruction::OpF8 => "F8"@,
        Instruction::OpFB => "FB"@,
        Instruction::OpFE => "FE"@,
        Instruction::OpED46 => "ED 46"@,
        Instruction::OpED49 => "ED 49"@,
        Instruction::OpED56 => "ED 56"@,
        Instruction::OpED5B => "ED 5B *1 *2"@,
        Instruction::OpED78 => "ED 78"@,
        Instruction::OpED79 => "ED 79"@,
        Instruction::OpEDB0 => "BED 0"@,
        Instruction::OpDDE1 => "DD E1"@,
        Instruction::OpDDE5 => "DD E5"@,
        Instruction::OpCB38 => "CB 38"@,
    }
}

/// The canonical assembly-mnemonic template of an instruction.
pub open spec fn assembly_spec(i: Instruction) -> Seq<char> {
    match i {
        Instruction::Op00 => "nop"@,
        Instruction::Op01 => "LD BC,*2*1"@,
        Instruction::Op02 => "LD (BC),A"@,
        Instruction::Op03 => "INC BC"@,
        Instruction::Op04 => "INC B"@,
        Instruction::Op05 => "DEC B"@,
        Instruction::Op06 => "LD B,*1"@,
        Instruction::Op07 => "RCLA"@,
        Instruction::Op08 => "EX AF,AF'"@,
        Instruction::Op09 => "ADD HL,BC"@,
        Instruction::Op10 => "DJNZ *1"@,
        Instruction::Op0B => "DEC BC"@,
        Instruction::Op0C => "INC C"@,
        Instruction::Op0D => "DEC C"@,
        Instruction::Op0E => "LD C,*1"@,
        Instruction::Op11 => "LD DE,*2*1"@,
        Instruction::Op13 => "INC DE"@,
        Instruction::Op18 => "JR *1"@,
        Instruction::Op19 => "ADD HL,DE"@,
        Instruction::Op1A => "LD A,(DE)"@,
        Instruction::Op20 => "JR NZ,*1"@,
        Instruction::Op21 => "LD HL,*2*1"@,
        Instruction::Op22 => "LD (*2*1),HL"@,
        Instruction::Op23 => "INC HL"@,
        Instruction::Op29 => "ADD HL,HL"@,
        Instruction::Op2B => "DEC HL"@,
        Instruction::Op2D => "DEC L"@,
        Instruction::Op2F => "CPL"@,
        Instruction::Op30 => "JR NC,*1"@,
        Instruction::Op31 => "LD SP,*2*1"@,
        Instruction::Op32 => "LD (*2*1),A"@,
        Instruction::Op36 => "LD (HL),*1"@,
        Instruction::Op3A => "LD A,(*2*1)"@,
        Instruction::Op3C => "INC A"@,
        Instruction::Op3E => "LD A,*1"@,
        Instruction::Op41 => "LD B,C"@,
        Instruction::Op47 => "LD B,A"@,
        Instruction::Op4C => "LD C,H"@,
        Instruction::Op4E => "LD C,(HL)"@,
        Instruction::Op56 => "LD D,(HL)"@,
        Instruction::Op5E => "LD E,(HL)"@,
        Instruction::Op67 => "LD H,A"@,
        Instruction::Op6F => "LD L,A"@,
        Instruction::Op70 => "LD (HL),B"@,
        Instruction::Op71 => "LD (HL),C"@,
        Instruction::Op72 => "LD (HL),D"@,
        Instruction::Op73 => "LD (HL),E"@,
        Instruction::Op77 => "LD (HL),A"@,
        Instruction::Op78 => "LD A,B"@,
        Instruction::Op79 => "LD A,C"@,
        Instruction::Op7C => "LD A,H"@,
        Instruction::Op7D => "LD A,L"@,
        Instruction::Op7E => "LD A,(HL)"@,
        Instruction::OpA9 => "XOR C"@,
        Instruction::OpAF => "XOR A"@,
        Instruction::OpB6 => "OR (HL)"@,
        Instruction::OpB7 => "OR A"@,
        Instruction::OpBB => "CP E"@,
        Instruction::OpC0 => "RET NZ"@,
        Instruction::OpC1 => "POP BC"@,
        Instruction::OpC2 => "JP NZ,*2*1"@,
        Instruction::OpC3 => "JP *2*1"@,
        Instruction::OpC5 => "PUSH BC"@,
        Instruction::OpC8 => "RET Z"@,
        Instruction::OpC9 => "RET"@,
        Instruction::OpCD => "CALL *2*1"@,
        Instruction::OpD1 => "POP DE"@,
        Instruction::OpD5 => "PUSH DE"@,
        Instruction::OpD6 => "SUB *1"@,
        Instruction::OpD8 => "RET C"@,
        Instruction::OpD9 => "EXX"@,
        Instruction::OpDE => "SBC A,*1"@,
        Instruction::OpE5 => "PUSH HL"@,
        Instruction::OpE6 => "AND *1"@,
        Instruction::OpEB => "EX DE,HL"@,
        Instruction::OpF0 => "RET P"@,
        Instruction::OpF2 => "JP P,*2*1"@,
        Instruction::OpF3 => "DI"@,
        Instruction::OpF5 => "PUSH AF"@,
        Instruction::OpF8 => "RET M"@,
        Instruction::OpFB => "EI"@,
        Instruction::OpFE => "CP *1"@,
        Instruction::OpED46 => "IM 0"@,
        Instruction::OpED49 => "OUT (C),C"@,
        Instruction::OpED56 => "IM 1"@,
        Instruction::OpED5B => "LD DE,(*2*1)"@,
        Instruction::OpED78 => "IN A,(C)"@,
        Instruction::OpED79 => "OUT (C),A"@,
        Instruction::OpEDB0 => "LDIR"@,
        Instruction::OpDDE1 => "POP IX"@,
        Instruction::OpDDE5 => "PUSH IX"@,
        Instruction::OpCB38 => "SRL B"@,
    }
}

impl Instruction {
    /// The machine-code encoding template, as the catalog documents it.
    pub fn machine_code(&self) -> (r: &'static str)
        ensures
            r@ == machine_code_spec(*self),
    {
        match self {
            Instruction::Op00 => "00",
            Instruction::Op01 => "01 *1 *2",
            Instruction::Op02 => "02",
            Instruction::Op03 => "03",
            Instruction::Op04 => "04",
            Instruction::Op05 => "05",
            Instruction::Op06 => "06 *1",
            Instruction::Op07 => "07",
            Instruction::Op08 => "08",
            Instruction::Op09 => "09",
            Instruction::Op10 => "10 *1",
            Instruction::Op0B => "0B",
            Instruction::Op0C => "0C",
            Instruction::Op0D => "0D",
            Instruction::Op0E => "0E *1",
            Instruction::Op11 => "11 *1 *2",
            Instruction::Op13 => "13",
            Instruction::Op18 => "18 *1",
            Instruction::Op19 => "19",
            Instruction::Op1A => "1A",
            Instruction::Op20 => "20 *1",
            Instruction::Op21 => "21 *1 *2",
            Instruction::Op22 => "22 *1 *2",
            Instruction::Op23 => "23",
            Instruction::Op29 => "29",
            Instruction::Op2B => "2B",
            Instruction::Op2D => "2D",
            Instruction::Op2F => "2F",
            Instruction::Op30 => "30 *1",
            Instruction::Op31 => "31 *1 *2",
            Instruction::Op32 => "32 *1 *2",
            Instruction::Op36 => "36 *1",
            Instruction::Op3A => "3A *1 *2",
            Instruction::Op3C => "3C",
            Instruction::Op3E => "3E *1",
            Instruction::Op41 => "41",
            Instruction::Op47 => "47",
            Instruction::Op4C => "4C",
            Instruction::Op4E => "4E",
            Instruction::Op56 => "56",
            Instruction::Op5E => "5E",
            Instruction::Op67 => "67",
            Instruction::Op6F => "6F",
            Instruction::Op70 => "70",
            Instruction::Op71 => "71",
            Instruction::Op72 => "72",
            Instruction::Op73 => "73",
            Instruction::Op77 => "77",
            Instruction::Op78 => "78",
            Instruction::Op79 => "79",
            Instruction::Op7C => "7C",
            Instruction::Op7D => "7D",
            Instruction::Op7E => "7E",
            Instruction::OpA9 => "A9",
            Instruction::OpAF => "AF",
            Instruction::OpB6 => "B6",
            Instruction::OpB7 => "B7",
            Instruction::OpBB => "BB",
            Instruction::OpC0 => "C0",
            Instruction::OpC1 => "D1",
            Instruction::OpC2 => "C2 *1 *2",
            Instruction::OpC3 => "C3 *1 *2",
            Instruction::OpC5 => "C5",
            Instruction::OpC8 => "C8",
            Instruction::OpC9 => "C9",
            Instruction::OpCD => "CD",
            Instruction::OpD1 => "D1",
            Instruction::OpD5 => "D5",
            Instruction::OpD6 => "D6 *1",
            Instruction::OpD8 => "D8",
            Instruction::OpD9 => "D9",
            Instruction::OpDE => "DE *1",
            Instruction::OpE5 => "E5",
            Instruction::OpE6 => "E6 *1",
            Instruction::OpEB => "EB",
            Instruction::OpF0 => "F0",
            Instruction::OpF2 => "F2 *1 *2",
            Instruction::OpF3 => "F3",
            Instruction::OpF5 => "F5",
            Instruction::OpF8 => "F8",
            Instruction::OpFB => "FB",
            Instruction::OpFE => "FE",
            Instruction::OpED46 => "ED 46",
            Instruction::OpED49 => "ED 49",
            Instruction::OpED56 => "ED 56",
            Instruction::OpED5B => "ED 5B *1 *2",
            Instruction::OpED78 => "ED 78",
            Instruction::OpED79 => "ED 79",
            Instruction::OpEDB0 => "BED 0",
            Instruction::OpDDE1 => "DD E1",
            Instruction::OpDDE5 => "DD E5",
            Instruction::OpCB38 => "CB 38",
        }
    }

    /// The assembly-mnemonic template, as the catalog documents it.
    pub fn assembly(&self) -> (r: &'static str)
        ensures
            r@ == assembly_spec(*self),
    {
        match self {
            Instruction::Op00 => "nop",
            Instruction::Op01 => "LD BC,*2*1",
            Instruction::Op02 => "LD (BC),A",
            Instruction::Op03 => "INC BC",
            Instruction::Op04 => "INC B",
            Instruction::Op05 => "DEC B",
            Instruction::Op06 => "LD B,*1",
            Instruction::Op07 => "RCLA",
            Instruction::Op08 => "EX AF,AF'",
            Instruction::Op09 => "ADD HL,BC",
            Instruction::Op10 => "DJNZ *1",
            Instruction::Op0B => "DEC BC",
            Instruction::Op0C => "INC C",
            Instruction::Op0D => "DEC C",
            Instruction::Op0E => "LD C,*1",
            Instruction::Op11 => "LD DE,*2*1",
            Instruction::Op13 => "INC DE",
            Instruction::Op18 => "JR *1",
            Instruction::Op19 => "ADD HL,DE",
            Instruction::Op1A => "LD A,(DE)",
            Instruction::Op20 => "JR NZ,*1",
            Instruction::Op21 => "LD HL,*2*1",
            Instruction::Op22 => "LD (*2*1),HL",
            Instruction::Op23 => "INC HL",
            Instruction::Op29 => "ADD HL,HL",
            Instruction::Op2B => "DEC HL",
            Instruction::Op2D => "DEC L",
            Instruction::Op2F => "CPL",
            Instruction::Op30 => "JR NC,*1",
            Instruction::Op31 => "LD SP,*2*1",
            Instruction::Op32 => "LD (*2*1),A",
            Instruction::Op36 => "LD (HL),*1",
            Instruction::Op3A => "LD A,(*2*1)",
            Instruction::Op3C => "INC A",
            Instruction::Op3E => "LD A,*1",
            Instruction::Op41 => "LD B,C",
            Instruction::Op47 => "LD B,A",
            Instruction::Op4C => "LD C,H",
            Instruction::Op4E => "LD C,(HL)",
            Instruction::Op56 => "LD D,(HL)",
            Instruction::Op5E => "LD E,(HL)",
            Instruction::Op67 => "LD H,A",
            Instruction::Op6F => "LD L,A",
            Instruction::Op70 => "LD (HL),B",
            Instruction::Op71 => "LD (HL),C",
            Instruction::Op72 => "LD (HL),D",
            Instruction::Op73 => "LD (HL),E",
            Instruction::Op77 => "LD (HL),A",
            Instruction::Op78 => "LD A,B",
            Instruction::Op79 => "LD A,C",
            Instruction::Op7C => "LD A,H",
            Instruction::Op7D => "LD A,L",
            Instruction::Op7E => "LD A,(HL)",
            Instruction::OpA9 => "XOR C",
            Instruction::OpAF => "XOR A",
            Instruction::OpB6 => "OR (HL)",
            Instruction::OpB7 => "OR A",
            Instruction::OpBB => "CP E",
            Instruction::OpC0 => "RET NZ",
            Instruction::OpC1 => "POP BC",
            Instruction::OpC2 => "JP NZ,*2*1",
            Instruction::OpC3 => "JP *2*1",
            Instruction::OpC5 => "PUSH BC",
            Instruction::OpC8 => "RET Z",
            Instruction::OpC9 => "RET",
            Instruction::OpCD => "CALL *2*1",
            Instruction::OpD1 => "POP DE",
            Instruction::OpD5 => "PUSH DE",
            Instruction::OpD6 => "SUB *1",
            Instruction::OpD8 => "RET C",
            Instruction::OpD9 => "EXX",
            Instruction::OpDE => "SBC A,*1",
            Instruction::OpE5 => "PUSH HL",
            Instruction::OpE6 => "AND *1",
            Instruction::OpEB => "EX DE,HL",
            Instruction::OpF0 => "RET P",
            Instruction::OpF2 => "JP P,*2*1",
            Instruction::OpF3 => "DI",
            Instruction::OpF5 => "PUSH AF",
            Instruction::OpF8 => "RET M",
            Instruction::OpFB => "EI",
            Instruction::OpFE => "CP *1",
            Instruction::OpED46 => "IM 0",
            Instruction::OpED49 => "OUT (C),C",
            Instruction::OpED56 => "IM 1",
            Instruction::OpED5B => "LD DE,(*2*1)",
            Instruction::OpED78 => "IN A,(C)",
            Instruction::OpED79 => "OUT (C),A",
            Instruction::OpEDB0 => "LDIR",
            Instruction::OpDDE1 => "POP IX",
            Instruction::OpDDE5 => "PUSH IX",
            Instruction::OpCB38 => "SRL B",
        }
    }

    /// Executes the instruction against the runtime components, returning
    /// its cycle cost or the fault that stopped it; a fault leaves the
    /// state untouched. The operands must match the declared operand
    /// count, which the engine guarantees by construction.
    #[verifier::rlimit(100)]
    #[verifier::spinoff_prover]
    pub fn execute(&self, components: &mut RuntimeComponents, operands: Operands) -> (r:
        Result<u16, Fault>)
        requires
            old(components).wf(),
            operands_match(*self, operands),
        ensures
            final(components).wf(),
            outcome_post(
                instr_outcome(*self, old(components)@, operand1(operands), operand2(operands)),
                old(components)@,
                final(components)@,
                r,
            ),
    {
        let (v1, v2): (u8, u8) = match operands {
            Operands::Zero => (0, 0),
            Operands::One(a) => (a, 0),
            Operands::Two(a, b) => (a, b),
        };
        match self {
            Instruction::Op00 => basic::op_00(components),
            Instruction::Op01 => basic::op_01(components, v1, v2),
            Instruction::Op02 => basic::op_02(components),
            Instruction::Op03 => basic::op_03(components),
            Instruction::Op04 => basic::op_04(components),
            Instruction::Op05 => basic::op_05(components),
            Instruction::Op06 => basic::op_06(components, v1),
            Instruction::Op07 => basic::op_07(components),
            Instruction::Op08 => basic::op_08(components),
            Instruction::Op09 => basic::op_09(components),
            Instruction::Op10 => basic::op_10(components, v1),
            Instruction::Op0B => basic::op_0b(components),
            Instruction::Op0C => basic::op_0c(components),
            Instruction::Op0D => basic::op_0d(components),
            Instruction::Op0E => basic::op_0e(components, v1),
            Instruction::Op11 => basic::op_11(components, v1, v2),
            Instruction::Op13 => basic::op_13(components),
            Instruction::Op18 => basic::op_18(components, v1),
            Instruction::Op19 => basic::op_19(components),
            Instruction::Op1A => basic::op_1a(components),
            Instruction::Op20 => basic::op_20(components, v1),
            Instruction::Op21 => basic::op_21(components, v1, v2),
            Instruction::Op22 => basic::op_22(components, v1, v2),
            Instruction::Op23 => basic::op_23(components),
            Instruction::Op29 => basic::op_29(components),
            Instruction::Op2B => basic::op_2b(components),
            Instruction::Op2D => basic::op_2d(components),
            Instruction::Op2F => basic::op_2f(components),
            Instruction::Op30 => basic::op_30(components, v1),
            Instruction::Op31 => basic::op_31(components, v1, v2),
            Instruction::Op32 => basic::op_32(components, v1, v2),
            Instruction::Op36 => basic::op_36(components, v1),
            Instruction::Op3A => basic::op_3a(components, v1, v2),
            Instruction::Op3C => basic::op_3c(components),
            Instruction::Op3E => basic::op_3e(components, v1),
            Instruction::Op41 => basic::op_41(components),
            Instruction::Op47 => basic::op_47(components),
            Instruction::Op4C => basic::op_4c(components),
            Instruction::Op4E => basic::op_4e(components),
            Instruction::Op56 => basic::op_56(components),
            Instruction::Op5E => basic::op_5e(components),
            Instruction::Op67 => basic::op_67(components),
            Instruction::Op6F => basic::op_6f(components),
            Instruction::Op70 => basic::op_70(components),
            Instruction::Op71 => basic::op_71(components),
            Instruction::Op72 => basic::op_72(components),
            Instruction::Op73 => basic::op_73(components),
            Instruction::Op77 => basic::op_77(components),
            Instruction::Op78 => basic::op_78(components),
            Instruction::Op79 => basic::op_79(components),
            Instruction::Op7C => basic::op_7c(components),
            Instruction::Op7D => basic::op_7d(components),
            Instruction::Op7E => basic::op_7e(components),
            Instruction::OpA9 => basic::op_a9(components),
            Instruction::OpAF => basic::op_af(components),
            Instruction::OpB6 => basic::op_b6(components),
            Instruction::OpB7 => basic::op_b7(components),
            Instruction::OpBB => basic::op_bb(components),
            Instruction::OpC0 => basic::op_c0(components),
            Instruction::OpC1 => basic::op_c1(components),
            Instruction::OpC2 => basic::op_c2(components, v1, v2),
            Instruction::OpC3 => basic::op_c3(components, v1, v2),
            Instruction::OpC5 => basic::op_c5(components),
            Instruction::OpC8 => basic::op_c8(components),
            Instruction::OpC9 => basic::op_c9(components),
            Instruction::OpCD => basic::op_cd(components, v1, v2),
            Instruction::OpD1 => basic::op_d1(components),
            Instruction::OpD5 => basic::op_d5(components),
            Instruction::OpD6 => basic::op_d6(components, v1),
            Instruction::OpD8 => basic::op_d8(components),
            Instruction::OpD9 => basic::op_d9(components),
            Instruction::OpDE => basic::op_de(components, v1),
            Instruction::OpE5 => basic::op_e5(components),
            Instruction::OpE6 => basic::op_e6(components, v1),
            Instruction::OpEB => basic::op_eb(components),
            Instruction::OpF0 => basic::op_f0(components),
            Instruction::OpF2 => basic::op_f2(components, v1, v2),
            Instruction::OpF3 => basic::op_f3(components),
            Instruction::OpF5 => basic::op_f5(components),
            Instruction::OpF8 => basic::op_f8(components),
            Instruction::OpFB => basic::op_fb(components),
            Instruction::OpFE => basic::op_fe(components, v1),
            Instruction::OpED46 => extended::op_ed46(components),
            Instruction::OpED49 => extended::op_ed49(components),
            Instruction::OpED56 => extended::op_ed56(components),
            Instruction::OpED5B => extended::op_ed5b(components, v1, v2),
            Instruction::OpED78 => extended::op_ed78(components),
            Instruction::OpED79 => extended::op_ed79(components),
            Instruction::OpEDB0 => extended::op_edb0(components),
            Instruction::OpDDE1 => index::op_dde1(components),
            Instruction::OpDDE5 => index::op_dde5(components),
            Instruction::OpCB38 => bit::op_cb38(components),
        }
    }
}

} // verus!
