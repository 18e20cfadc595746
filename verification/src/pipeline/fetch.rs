//! The Instruction Fetch pipeline stage.

use vstd::prelude::*;
use crate::arch::{Word, XWord};
use crate::errors::{PipelineError, PipelineResult};
use crate::instructions::rvc::is_compressed;
use crate::memory::interface::{le_value, load, Memory};
use crate::memory::page::PageIndex;
use crate::pipeline::register::PipelineRegister;

verus! {

/// The word that a fetch at `pc` reads: four bytes, little-endian.
pub open spec fn fetched_word(pages: Map<PageIndex, Seq<u8>>, pc: XWord) -> Word {
    le_value(load(pages, pc, 4)) as Word
}

/// The number of bytes of the instruction that starts with `raw`: two for a
/// compressed instruction, four otherwise.
pub open spec fn instruction_length(raw: Word) -> XWord {
    if is_compressed(raw) {
        2
    } else {
        4
    }
}

/// The pipeline register after `raw` was fetched: it holds `raw`, and the next
/// program counter is the program counter plus the length of the instruction,
/// modulo 2^64.
pub open spec fn fetched_as(register: PipelineRegister, raw: Word) -> PipelineRegister {
    PipelineRegister {
        instruction_raw: Some(raw),
        next_pc: register.pc.wrapping_add(instruction_length(raw)),
        ..register
    }
}

/// The pipeline register after the fetch stage: the word at the program counter
/// was fetched.
pub open spec fn spec_instruction_fetch(
    register: PipelineRegister,
    pages: Map<PageIndex, Seq<u8>>,
) -> PipelineRegister {
    fetched_as(register, fetched_word(pages, register.pc))
}

/// Execute the Instruction Fetch pipeline stage.
pub fn instruction_fetch<M: Memory>(p_reg: &mut PipelineRegister, memory: &M) -> (r:
    PipelineResult<()>)
    ensures
        r == Ok::<(), PipelineError>(()),
        *final(p_reg) == spec_instruction_fetch(*old(p_reg), memory.pages()),
        final(p_reg).next_pc == (old(p_reg).pc + instruction_length(
            fetched_word(memory.pages(), old(p_reg).pc),
        )) % 0x1_0000_0000_0000_0000,
{
    // Fetch the instruction from memory at the current program counter.
    let instr_raw: Word = match memory.get_word(p_reg.pc) {
        Ok(word) => word,
        Err(e) => {
            return Err(PipelineError::MemoryError(e));
        },
    };
    p_reg.instruction_raw = Some(instr_raw);

    // Increment the program counter eagerly. If a branch is taken, the program
    // counter will be updated in the `execute` stage.
    let inc: XWord = if is_compressed(instr_raw) {
        2
    } else {
        4
    };
    p_reg.next_pc = p_reg.pc.wrapping_add(inc);

    Ok(())
}

} // verus!
