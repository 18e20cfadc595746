//! The Instruction Decode pipeline stage.

use vstd::prelude::*;
use crate::arch::XWord;
use crate::errors::{PipelineError, PipelineResult};
use crate::instructions::Instruction;
use crate::pipeline::register::{PipelineRegister, Staged};

verus! {

/// The value of the register with the given index, where there is an index.
pub open spec fn register_value(registers: [XWord; 32], index: Option<u8>) -> Option<XWord> {
    match index {
        Some(index) => Some(registers[index as int]),
        None => None,
    }
}

/// The pipeline register after the decode stage, with what the stage returns.
///
/// Without a raw instruction the stage fails with `MissingState`, and with one
/// that does not decode it fails with the decoder's error; the register stays as
/// it was. Otherwise the register holds the decoded instruction, the values of
/// its source registers, its immediate and its destination. For `ECALL` the
/// stage then raises `SyscallException` with the value of register `a7`.
pub open spec fn spec_decode_instruction(register: PipelineRegister) -> Staged {
    match register.instruction_raw {
        None => Staged {
            register,
            result: Err(PipelineError::MissingState("instruction_raw")),
        },
        Some(raw) => match Instruction::spec_try_from(raw) {
            Err(e) => Staged { register, result: Err(PipelineError::InstructionDecodeError(e)) },
            Ok(instruction) => Staged {
                register: PipelineRegister {
                    rs1_value: register_value(register.registers, instruction.spec_rs1()),
                    rs2_value: register_value(register.registers, instruction.spec_rs2()),
                    rd: instruction.spec_rd(),
                    immediate: instruction.spec_immediate(),
                    instruction: Some(instruction),
                    ..register
                },
                result: if instruction.spec_is_system_call() {
                    Err(PipelineError::SyscallException(register.registers[17]))
                } else {
                    Ok(())
                },
            },
        },
    }
}

/// Executes the instruction decode stage.
///
/// In this stage, the raw instruction is decoded, the register values are read
/// from the register file, and then finally copied into the [PipelineRegister].
pub fn decode_instruction(register: &mut PipelineRegister) -> (r: PipelineResult<()>)
    ensures
        *final(register) == spec_decode_instruction(*old(register)).register,
        r == spec_decode_instruction(*old(register)).result,
        r is Ok ==> final(register).wf(),
{
    // Decode the raw instruction.
    let instruction_raw = match register.instruction_raw {
        Some(raw) => raw,
        None => {
            return Err(PipelineError::MissingState("instruction_raw"));
        },
    };
    let instruction = match Instruction::try_from(instruction_raw) {
        Ok(instruction) => instruction,
        Err(e) => {
            return Err(PipelineError::InstructionDecodeError(e));
        },
    };

    // Read register values and update the stage state.
    register.rs1_value = match instruction.rs1() {
        Some(rs1) => Some(register.registers[rs1 as usize]),
        None => None,
    };
    register.rs2_value = match instruction.rs2() {
        Some(rs2) => Some(register.registers[rs2 as usize]),
        None => None,
    };
    register.rd = instruction.rd();
    register.immediate = instruction.immediate();

    // Set the decoded instruction in the pipeline register.
    register.instruction = Some(instruction);

    // Throw an interrupt if the instruction is a system call.
    if instruction.is_system_call() {
        return Err(PipelineError::SyscallException(register.registers[17]));
    }

    Ok(())
}

} // verus!
