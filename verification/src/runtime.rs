//! The runtime bundle that instructions execute against, the ghost machine
//! state it is specified by, and the fetch-decode-execute step of the engine.

use vstd::prelude::*;

use crate::instruction_set::{
    arity, instr_outcome, namespace_lookup, Fault, Instruction, InstructionSet, Namespace,
    Operands,
};
use crate::memory::{wrap_inc16, AddressBus, DataBus, Memory, Registers};

verus! {

// ---------------------------------------------------------------------------
// The ghost machine state
// ---------------------------------------------------------------------------

/// The mathematical state of the machine: every register of both banks, the
/// control state and the memory image. All contracts of the instruction
/// catalog and of the engine are stated over this type.
#[verifier::ext_equal]
pub struct CpuState {
    pub a: u8,
    pub f: u8,
    pub b: u8,
    pub c: u8,
    pub d: u8,
    pub e: u8,
    pub h: u8,
    pub l: u8,
    pub a_: u8,
    pub f_: u8,
    pub b_: u8,
    pub c_: u8,
    pub d_: u8,
    pub e_: u8,
    pub h_: u8,
    pub l_: u8,
    pub i: u8,
    pub x: u8,
    pub pc: u16,
    pub sp: usize,
    pub iff1: bool,
    pub iff2: bool,
    pub interrupt_mode: u8,
    pub bus: u16,
    pub mem: Seq<u8>,
}

impl CpuState {
    /// The memory image always spans exactly 0xFFFF bytes.
    pub open spec fn wf(&self) -> bool {
        self.mem.len() == 0xFFFF
    }
}

/// The state of the machine at engine start: registers zeroed, the program
/// counter at the start of memory, the stack pointer at its top, interrupts
/// disabled, memory filled with the reset byte.
pub open spec fn reset_state() -> CpuState {
    CpuState {
        a: 0,
        f: 0,
        b: 0,
        c: 0,
        d: 0,
        e: 0,
        h: 0,
        l: 0,
        a_: 0,
        f_: 0,
        b_: 0,
        c_: 0,
        d_: 0,
        e_: 0,
        h_: 0,
        l_: 0,
        i: 0,
        x: 0,
        pc: 0,
        sp: 0xFFFF,
        iff1: false,
        iff2: false,
        interrupt_mode: 0,
        bus: 0,
        mem: Seq::new(0xFFFF, |j: int| 0x01u8),
    }
}

/// What one instruction, or one engine step, does to the machine: either the
/// next state together with the cycle cost, or a fault that leaves the state
/// as it was.
pub enum Outcome {
    Next(CpuState, u16),
    Stuck(Fault),
}

/// Relates an outcome to the states before and after an execution and to the
/// result it returned: on `Next` the new state and the cycle cost are exact;
/// on a fault the state is unchanged and the fault is reported.
pub open spec fn outcome_post(
    o: Outcome,
    pre: CpuState,
    post: CpuState,
    r: Result<u16, Fault>,
) -> bool {
    match o {
        Outcome::Next(s2, cycles) => r == Ok::<u16, Fault>(cycles) && post == s2,
        Outcome::Stuck(fault) => r == Err::<u16, Fault>(fault) && post == pre,
    }
}

// ---------------------------------------------------------------------------
// Runtime components
// ---------------------------------------------------------------------------

/// The mutable state bundle handed by exclusive reference into every
/// instruction: memory, register file and the two buses.
pub struct RuntimeComponents {
    pub mem: Memory,
    pub registers: Registers,
    pub address_bus: AddressBus,
    pub data_bus: DataBus,
}

impl View for RuntimeComponents {
    type V = CpuState;

    open spec fn view(&self) -> CpuState {
        CpuState {
            a: self.registers.a.value,
            f: self.registers.f.value,
            b: self.registers.b.value,
            c: self.registers.c.value,
            d: self.registers.d.value,
            e: self.registers.e.value,
            h: self.registers.h.value,
            l: self.registers.l.value,
            a_: self.registers.a_.value,
            f_: self.registers.f_.value,
            b_: self.registers.b_.value,
            c_: self.registers.c_.value,
            d_: self.registers.d_.value,
            e_: self.registers.e_.value,
            h_: self.registers.h_.value,
            l_: self.registers.l_.value,
            i: self.registers.i.value,
            x: self.registers.x.value,
            pc: self.registers.pc.value,
            sp: self.registers.sp.location,
            iff1: self.registers.iff1,
            iff2: self.registers.iff2,
            interrupt_mode: self.registers.interrupt_mode,
            bus: self.address_bus.value,
            mem: self.mem.locations@,
        }
    }
}

impl RuntimeComponents {
    pub open spec fn wf(&self) -> bool {
        self.mem.wf()
    }

    /// The components in their documented reset state.
    pub fn default() -> (r: RuntimeComponents)
        ensures
            r.wf(),
            r@ == reset_state(),
    {
        let mem = Memory::default();
        let registers: Registers = Registers::default();
        let address_bus = AddressBus { value: 0 };
        let data_bus = DataBus {};
        let r = RuntimeComponents { mem, registers, address_bus, data_bus };
        proof {
            assert(r@.mem =~= reset_state().mem);
            assert(r@ =~= reset_state());
        }
        r
    }
}

// ---------------------------------------------------------------------------
// The engine
// ---------------------------------------------------------------------------

/// After its opcode at `pc_op` has been fetched, an instruction's declared
/// operand bytes are read, the program counter is advanced past the consumed
/// bytes and the instruction is executed.
pub open spec fn operands_step(s: CpuState, i: Instruction, pc_op: u16) -> Outcome {
    let n = arity(i);
    if n == 0 {
        instr_outcome(i, CpuState { pc: wrap_inc16(pc_op), ..s }, 0, 0)
    } else if n == 1 {
        let pc1 = wrap_inc16(pc_op);
        if pc1 == 0xFFFF {
            Outcome::Stuck(Fault::MemoryOutOfRange { addr: 0xFFFF })
        } else {
            instr_outcome(i, CpuState { pc: wrap_inc16(pc1), ..s }, s.mem[pc1 as int], 0)
        }
    } else {
        let pc1 = wrap_inc16(pc_op);
        if pc1 == 0xFFFF {
            Outcome::Stuck(Fault::MemoryOutOfRange { addr: 0xFFFF })
        } else {
            let pc2 = wrap_inc16(pc1);
            if pc2 == 0xFFFF {
                Outcome::Stuck(Fault::MemoryOutOfRange { addr: 0xFFFF })
            } else {
                instr_outcome(
                    i,
                    CpuState { pc: wrap_inc16(pc2), ..s },
                    s.mem[pc1 as int],
                    s.mem[pc2 as int],
                )
            }
        }
    }
}

/// The opcode byte at `pc_op` is looked up in its namespace; an unmapped
/// byte is the distinguished fatal result, identifying byte and namespace.
pub open spec fn lookup_step(s: CpuState, namespace: Namespace, byte: u8, pc_op: u16) -> Outcome {
    match namespace_lookup(namespace, byte) {
        Some(i) => operands_step(s, i, pc_op),
        None => Outcome::Stuck(Fault::UnmappedOpcode { namespace, byte }),
    }
}

/// After a prefix byte, the opcode is fetched from the following location
/// and dispatched in the prefix's namespace.
pub open spec fn prefixed_step(s: CpuState, namespace: Namespace) -> Outcome {
    let pc1 = wrap_inc16(s.pc);
    if pc1 == 0xFFFF {
        Outcome::Stuck(Fault::MemoryOutOfRange { addr: 0xFFFF })
    } else {
        lookup_step(s, namespace, s.mem[pc1 as int], pc1)
    }
}

/// One fetch-decode-execute step of the engine: the byte at the program
/// counter selects a namespace (when it is a prefix) or is dispatched
/// directly; operands are fetched per the instruction's declared count; the
/// program counter is advanced past the consumed bytes; the instruction
/// executes. A fault leaves the machine state exactly as it was.
pub open spec fn step_spec(s: CpuState) -> Outcome {
    if s.pc == 0xFFFF {
        Outcome::Stuck(Fault::MemoryOutOfRange { addr: 0xFFFF })
    } else {
        let b0 = s.mem[s.pc as int];
        if b0 == 0xCB {
            prefixed_step(s, Namespace::Bit)
        } else if b0 == 0xDD {
            prefixed_step(s, Namespace::Index)
        } else if b0 == 0xED {
            prefixed_step(s, Namespace::Extended)
        } else {
            lookup_step(s, Namespace::Basic, b0, s.pc)
        }
    }
}

/// The engine: the dispatch table together with the runtime components it
/// drives.
pub struct Runtime {
    pub instruction_set: InstructionSet,
    pub components: RuntimeComponents,
}

impl View for Runtime {
    type V = CpuState;

    open spec fn view(&self) -> CpuState {
        self.components@
    }
}

impl Runtime {
    pub open spec fn wf(&self) -> bool {
        self.components.wf()
    }

    /// A fresh engine over components in their reset state.
    pub fn default() -> (r: Runtime)
        ensures
            r.wf(),
            r@ == reset_state(),
    {
        Runtime::new(InstructionSet::default(), RuntimeComponents::default())
    }

    fn new(instruction_set: InstructionSet, components: RuntimeComponents) -> (r: Runtime)
        ensures
            r.components == components,
    {
        Runtime { instruction_set, components }
    }

    /// Wall-clock time one instruction is due: one cycle is 250 nanoseconds
    /// on the nominal 4 MHz clock.
    pub fn cycle_time_nanos(cycles: u16) -> (r: u64)
        ensures
            r == cycles * 250,
    {
        (cycles as u64) * 250
    }

    /// Maps a ROM image into memory: a 16 KiB image verbatim at 0x0000; a
    /// 32 KiB image additionally maps its second half at 0xC000. The caller
    /// must hand in one of exactly those two sizes.
    pub fn load_rom_from_bytes(&mut self, bytes: &[u8])
        requires
            old(self).wf(),
            bytes@.len() == 0x4000 || bytes@.len() == 0x8000,
        ensures
            final(self).wf(),
            forall|i: int| 0 <= i < 0x4000 ==> final(self)@.mem[i] == bytes@[i],
            bytes@.len() == 0x8000 ==> forall|i: int|
                0xC000 <= i < 0xFFFF ==> final(self)@.mem[i] == bytes@[i - 0x8000],
            forall|i: int|
                0x4000 <= i < 0xFFFF && (bytes@.len() == 0x4000 || i < 0xC000)
                    ==> final(self)@.mem[i] == old(self)@.mem[i],
            final(self)@ == (CpuState { mem: final(self)@.mem, ..old(self)@ }),
    {
        if bytes.len() == 0x4000 {
            self.load_os_rom(bytes);
        } else {
            self.load_os_rom(bytes);
            self.load_expansion_rom(bytes);
        }
    }

    /// Copies the first 16 KiB of the image into 0x0000..0x4000.
    fn load_os_rom(&mut self, bytes: &[u8])
        requires
            old(self).wf(),
            bytes@.len() >= 0x4000,
        ensures
            final(self).wf(),
            forall|i: int| 0 <= i < 0x4000 ==> final(self)@.mem[i] == bytes@[i],
            forall|i: int| 0x4000 <= i < 0xFFFF ==> final(self)@.mem[i] == old(self)@.mem[i],
            final(self)@ == (CpuState { mem: final(self)@.mem, ..old(self)@ }),
    {
        let mut i: usize = 0;
        while i < 0x4000
            invariant
                self.wf(),
                bytes@.len() >= 0x4000,
                i <= 0x4000,
                forall|j: int| 0 <= j < i ==> self@.mem[j] == bytes@[j],
                forall|j: int| i <= j < 0xFFFF ==> self@.mem[j] == old(self)@.mem[j],
                self@ == (CpuState { mem: self@.mem, ..old(self)@ }),
            decreases 0x4000 - i,
        {
            self.components.mem.locations[i] = bytes[i];
            proof {
                assert(self@ =~= (CpuState { mem: self@.mem, ..old(self)@ }));
            }
            i += 1;
        }
    }

    /// Copies the second 16 KiB of a 32 KiB image into 0xC000..0xFFFF.
    fn load_expansion_rom(&mut self, bytes: &[u8])
        requires
            old(self).wf(),
            bytes@.len() == 0x8000,
        ensures
            final(self).wf(),
            forall|i: int| 0xC000 <= i < 0xFFFF ==> final(self)@.mem[i] == bytes@[i - 0x8000],
            forall|i: int| 0 <= i < 0xC000 ==> final(self)@.mem[i] == old(self)@.mem[i],
            final(self)@ == (CpuState { mem: final(self)@.mem, ..old(self)@ }),
    {
        let mut i: usize = 0xC000;
        while i < 0xFFFF
            invariant
                self.wf(),
                bytes@.len() == 0x8000,
                0xC000 <= i <= 0xFFFF,
                forall|j: int| 0xC000 <= j < i ==> self@.mem[j] == bytes@[j - 0x8000],
                forall|j: int| 0 <= j < 0xC000 ==> self@.mem[j] == old(self)@.mem[j],
                forall|j: int| i <= j < 0xFFFF ==> self@.mem[j] == old(self)@.mem[j],
                self@ == (CpuState { mem: self@.mem, ..old(self)@ }),
            decreases 0xFFFF - i,
        {
            self.components.mem.locations[i] = bytes[i - 0xC000 + 0x4000];
            proof {
                assert(self@ =~= (CpuState { mem: self@.mem, ..old(self)@ }));
            }
            i += 1;
        }
    }

    /// Performs one fetch-decode-execute step and reports the instruction's
    /// cycle cost, or the fault that stopped the engine with the state
    /// rolled back to the start of the step.
    #[verifier::rlimit(60)]
    pub fn step(&mut self) -> (r: Result<u16, Fault>)
        requires
            old(self).wf(),
        ensures
            final(self).wf(),
            outcome_post(step_spec(old(self)@), old(self)@, final(self)@, r),
    {
        let pc0 = self.components.registers.pc.get();
        if pc0 == 0xFFFF {
            return Err(Fault::MemoryOutOfRange { addr: 0xFFFF });
        }
        let b0 = self.components.mem.locations[pc0 as usize];

        let namespace: Namespace;
        let opcode: u8;
        let pc_op: u16;
        if b0 == 0xCB || b0 == 0xDD || b0 == 0xED {
            let pc1 = pc0.wrapping_add(1);
            if pc1 == 0xFFFF {
                return Err(Fault::MemoryOutOfRange { addr: 0xFFFF });
            }
            opcode = self.components.mem.locations[pc1 as usize];
            pc_op = pc1;
            namespace = if b0 == 0xCB {
                Namespace::Bit
            } else if b0 == 0xDD {
                Namespace::Index
            } else {
                Namespace::Extended
            };
        } else {
            namespace = Namespace::Basic;
            opcode = b0;
            pc_op = pc0;
        }

        let looked_up = match namespace {
            Namespace::Basic => self.instruction_set.instruction_for(opcode),
            Namespace::Extended => self.instruction_set.extended_instruction_for(opcode),
            Namespace::Index => self.instruction_set.index_instruction_for(opcode),
            Namespace::Bit => self.instruction_set.bit_instruction_for(opcode),
        };
        let instruction = match looked_up {
            Some(instruction) => instruction,
            None => {
                return Err(Fault::UnmappedOpcode { namespace, byte: opcode });
            },
        };

        let op_count = instruction.operand_count();
        let operands: Operands;
        let pc_next: u16;
        if op_count == 0 {
            operands = Operands::Zero;
            pc_next = pc_op.wrapping_add(1);
        } else if op_count == 1 {
            let pc1 = pc_op.wrapping_add(1);
            if pc1 == 0xFFFF {
                return Err(Fault::MemoryOutOfRange { addr: 0xFFFF });
            }
            let operand1 = self.components.mem.locations[pc1 as usize];
            operands = Operands::One(operand1);
            pc_next = pc1.wrapping_add(1);
        } else {
            let pc1 = pc_op.wrapping_add(1);
            if pc1 == 0xFFFF {
                return Err(Fault::MemoryOutOfRange { addr: 0xFFFF });
            }
            let operand1 = self.components.mem.locations[pc1 as usize];
            let pc2 = pc1.wrapping_add(1);
            if pc2 == 0xFFFF {
                return Err(Fault::MemoryOutOfRange { addr: 0xFFFF });
            }
            let operand2 = self.components.mem.locations[pc2 as usize];
            operands = Operands::Two(operand1, operand2);
            pc_next = pc2.wrapping_add(1);
        }

        self.components.registers.pc.set(pc_next);
        proof {
            assert(self.components@ =~= (CpuState { pc: pc_next, ..old(self)@ }));
        }
        match instruction.execute(&mut self.components, operands) {
            Ok(cycles) => Ok(cycles),
            Err(fault) => {
                self.components.registers.pc.set(pc0);
                proof {
                    assert(self@ =~= old(self)@);
                }
                Err(fault)
            },
        }
    }
}

} // verus!
