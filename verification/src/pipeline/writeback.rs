//! The writeback pipeline stage.

use vstd::prelude::*;
use vstd::array::spec_array_update;
use crate::arch::XWord;
use crate::errors::{PipelineError, PipelineResult};
use crate::pipeline::register::PipelineRegister;

verus! {

/// The value that the writeback stage writes: what the memory stage read, else
/// what the execute stage computed, if either is there.
pub open spec fn writeback_value(register: PipelineRegister) -> Option<XWord> {
    match register.memory {
        Some(memory) => Some(memory),
        None => register.alu_result,
    }
}

/// The pipeline register after the writeback stage: where the destination is
/// defined and is not `x0`, and there is a value to write, the destination
/// holds the value. Nothing else changes.
pub open spec fn spec_writeback(register: PipelineRegister) -> PipelineRegister {
    match (register.rd, writeback_value(register)) {
        (Some(rd), Some(value)) => if rd == 0 {
            register
        } else {
            PipelineRegister {
                registers: spec_array_update(register.registers, rd as int, value),
                ..register
            }
        },
        _ => register,
    }
}

/// The writeback stage changes at most the destination register, and never
/// `x0`.
pub proof fn lemma_writeback_registers(register: PipelineRegister, i: int)
    requires
        0 <= i < 32,
        register.rd matches Some(rd) ==> rd < 32,
    ensures
        spec_writeback(register).registers[i] == (if i != 0 && register.rd == Some(i as u8)
            && writeback_value(register) is Some {
            writeback_value(register).unwrap()
        } else {
            register.registers[i]
        }),
{
}

/// Execute the WriteBack pipeline stage.
pub fn writeback(p_reg: &mut PipelineRegister) -> (r: PipelineResult<()>)
    requires
        old(p_reg).rd matches Some(rd) ==> rd < 32,
    ensures
        r == Ok::<(), PipelineError>(()),
        *final(p_reg) == spec_writeback(*old(p_reg)),
        old(p_reg).rd == Some(0u8) ==> final(p_reg).registers == old(p_reg).registers,
        final(p_reg).registers[0] == old(p_reg).registers[0],
        final(p_reg).reservation == old(p_reg).reservation,
{
    if let Some(rd) = p_reg.rd {
        // No-op illegal writes to the zero register.
        if rd == 0 {
            return Ok(());
        }
        // Store the result in the destination register.

        if let Some(mem) = p_reg.memory {
            p_reg.registers[rd as usize] = mem;
        } else if let Some(alu_result) = p_reg.alu_result {
            p_reg.registers[rd as usize] = alu_result;
        }
    }
    Ok(())
}

} // verus!
