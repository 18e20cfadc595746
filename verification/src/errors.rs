//! Errors of instruction decoding and of the pipeline.

use vstd::prelude::*;
use crate::arch::XWord;
use crate::memory::errors::MemoryError;

verus! {

/// An error that occurs when decoding an instruction.
#[derive(Clone, Copy, Debug, PartialEq, Eq, Structural)]
pub enum InstructionDecodeError {
    /// Invalid opcode.
    InvalidOpcode(u8),
    /// Invalid function qualifiers.
    InvalidFunction {
        /// First function qualifier.
        q_a: u8,
        /// Second function qualifier.
        q_b: u8,
    },
}

/// An error that occurs while executing the pipeline.
#[derive(Debug)]
pub enum PipelineError {
    /// A field is missing in the pipeline state.
    MissingState(&'static str),
    /// An error occurred while decoding an instruction.
    InstructionDecodeError(InstructionDecodeError),
    /// An error occurred in the memory bus.
    MemoryError(MemoryError),
    /// A syscall exception occurred.
    SyscallException(XWord),
    /// Bad AMO size detected in atomic instruction.
    BadAmoSize(u8),
    /// Unaligned atomic memory access.
    UnalignedAmo,
}

/// A [Result] type with [Result::Err] = [PipelineError].
pub type PipelineResult<T> = Result<T, PipelineError>;

} // verus!
