//! Pipeline registers and control signals.

use vstd::prelude::*;
use vstd::array::spec_array_fill_for_copy_type;
use crate::arch::{Word, XWord};
use crate::errors::PipelineResult;
use crate::instructions::Instruction;
use crate::memory::interface::Address;

verus! {

/// The [PipelineRegister] represents an intermediate state of an instruction's
/// execution within the CPU pipeline. As the [PipelineRegister] passes through
/// each stage, the type is saturated. Ultimately, its transient fields are
/// discarded after it has made its way through the register write-back stage via
/// [PipelineRegister::advance].
#[derive(Debug, Clone, Copy, PartialEq, Eq)]
pub struct PipelineRegister {
    /// If the last instruction exited the program, this will be `true`.
    pub exit: bool,
    /// The exit code of the program, if it exited.
    pub exit_code: XWord,
    /// The current program counter.
    pub pc: XWord,
    /// The register file.
    pub registers: [XWord; 32],
    /// The next program counter.
    pub next_pc: XWord,
    /// The current instruction (raw).
    pub instruction_raw: Option<Word>,
    /// The current instruction (decoded).
    pub instruction: Option<Instruction>,
    /// The cached value of the `rs1` register.
    pub rs1_value: Option<XWord>,
    /// The cached value of the `rs2` register.
    pub rs2_value: Option<XWord>,
    /// The cached sign-extended immediate.
    pub immediate: Option<XWord>,
    /// The cached `rd` register index.
    pub rd: Option<u8>,
    /// The result of the ALU computation, if one occurred.
    pub alu_result: Option<XWord>,
    /// The data read from memory, if any.
    pub memory: Option<XWord>,
    /// The load reservation address, if any.
    pub reservation: Option<Address>,
}

/// A pipeline register after a stage, with what the stage returned.
pub struct Staged {
    /// The pipeline register as the stage left it.
    pub register: PipelineRegister,
    /// What the stage returned.
    pub result: PipelineResult<()>,
}

impl PipelineRegister {
    /// Whether every field that lives for one cycle only is empty.
    pub open spec fn transient_cleared(self) -> bool {
        &&& self.instruction_raw is None
        &&& self.instruction is None
        &&& self.rs1_value is None
        &&& self.rs2_value is None
        &&& self.immediate is None
        &&& self.rd is None
        &&& self.alu_result is None
        &&& self.memory is None
    }

    /// Whether the destination, where there is one, and the registers of the
    /// instruction, where there is one, are among the 32 of the register file.
    pub open spec fn wf(self) -> bool {
        &&& self.rd matches Some(rd) ==> rd < 32
        &&& self.instruction matches Some(instruction) ==> instruction.wf()
    }

    /// The register at the start of a program: every register is zero, and
    /// nothing is in flight.
    pub open spec fn spec_new(pc: XWord) -> PipelineRegister {
        PipelineRegister {
            exit: false,
            exit_code: 0,
            pc,
            registers: spec_array_fill_for_copy_type::<XWord, 32>(0),
            next_pc: 0,
            instruction_raw: None,
            instruction: None,
            rs1_value: None,
            rs2_value: None,
            immediate: None,
            rd: None,
            alu_result: None,
            memory: None,
            reservation: None,
        }
    }

    /// The register at the start of the next cycle: the program counter is the
    /// next program counter, and what lives for one cycle only is gone. The
    /// register file, the exit flag with its code and the reservation stay.
    pub open spec fn spec_advance(self) -> PipelineRegister {
        PipelineRegister {
            exit: self.exit,
            exit_code: self.exit_code,
            pc: self.next_pc,
            registers: self.registers,
            next_pc: 0,
            instruction_raw: None,
            instruction: None,
            rs1_value: None,
            rs2_value: None,
            immediate: None,
            rd: None,
            alu_result: None,
            memory: None,
            reservation: self.reservation,
        }
    }

    /// The sum of `rs1_value` and `immediate` modulo 2^64, where both are there.
    pub open spec fn spec_effective_address(self) -> Option<Address> {
        match (self.rs1_value, self.immediate) {
            (Some(rs1), Some(imm)) => Some(rs1.wrapping_add(imm)),
            _ => None,
        }
    }

    /// Creates a new [PipelineRegister] with the given program counter.
    pub fn new(pc: XWord) -> (r: Self)
        ensures
            r == Self::spec_new(pc),
            r.transient_cleared(),
            forall|i: int| 0 <= i < 32 ==> r.registers[i] == 0,
    {
        PipelineRegister {
            exit: false,
            exit_code: 0,
            pc,
            registers: [0u64; 32],
            next_pc: 0,
            instruction_raw: None,
            instruction: None,
            rs1_value: None,
            rs2_value: None,
            immediate: None,
            rd: None,
            alu_result: None,
            memory: None,
            reservation: None,
        }
    }

    /// Clear the [PipelineRegister] and set the program counter to the next
    /// program counter.
    pub fn advance(&mut self)
        ensures
            *final(self) == old(self).spec_advance(),
            final(self).transient_cleared(),
            final(self).pc == old(self).next_pc,
            final(self).registers == old(self).registers,
            final(self).exit == old(self).exit,
            final(self).exit_code == old(self).exit_code,
            final(self).reservation == old(self).reservation,
    {
        *self = PipelineRegister {
            exit: self.exit,
            exit_code: self.exit_code,
            pc: self.next_pc,
            registers: self.registers,
            next_pc: 0,
            instruction_raw: None,
            instruction: None,
            rs1_value: None,
            rs2_value: None,
            immediate: None,
            rd: None,
            alu_result: None,
            memory: None,
            reservation: self.reservation,
        };
    }

    /// Computes the effective address of the memory operation if
    /// [Self::rs1_value] and [Self::immediate] are [Some].
    pub fn effective_address(&self) -> (r: Option<Address>)
        ensures
            r == self.spec_effective_address(),
    {
        match (self.rs1_value, self.immediate) {
            (Some(rs1), Some(imm)) => Some(rs1.wrapping_add(imm)),
            _ => None,
        }
    }
}

impl Default for PipelineRegister {
    fn default() -> (r: Self)
        ensures
            r == Self::spec_new(0),
    {
        Self::new(0)
    }
}

} // verus!
