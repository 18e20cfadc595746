//! The kernel interface: what the emulator hands a system call to.

use vstd::prelude::*;
use crate::arch::XWord;
use crate::errors::PipelineResult;
use crate::memory::interface::Memory;
use crate::memory::page::PageIndex;
use crate::pipeline::register::PipelineRegister;

verus! {

/// What a system call is given and what it leaves: the number of the call, the
/// pages of the memory and the pipeline register before and after it, and what
/// it returned.
pub struct Handled {
    /// The number of the system call.
    pub syscall_no: XWord,
    /// The pages of the memory before the call.
    pub pages_before: Map<PageIndex, Seq<u8>>,
    /// The pages of the memory after the call.
    pub pages_after: Map<PageIndex, Seq<u8>>,
    /// The pipeline register before the call.
    pub register_before: PipelineRegister,
    /// The pipeline register after the call.
    pub register_after: PipelineRegister,
    /// What the call returned.
    pub outcome: PipelineResult<XWord>,
}

/// The [`Kernel`] trait defines the interface for performing system calls.
///
/// A kernel may read and write the memory and the pipeline register as it
/// likes. It ends the program by setting `exit` and `exit_code` of the pipeline
/// register.
pub trait Kernel<S> {
    /// What a system call of this kernel may do, as a relation between the
    /// kernel and the state before the call and after it. Every call is
    /// allowed where an implementation does not say otherwise.
    open spec fn allows(&self, after: &Self, state: &S, state_after: &S, call: Handled) -> bool {
        true
    }

    /// Perform a system call with the given arguments.
    fn syscall<M: Memory>(
        &mut self,
        syscall_no: XWord,
        memory: &mut M,
        p_reg: &mut PipelineRegister,
        state: &mut S,
    ) -> (r: PipelineResult<XWord>)
        ensures
            old(self).allows(
                final(self),
                old(state),
                final(state),
                (Handled {
                    syscall_no,
                    pages_before: old(memory).pages(),
                    pages_after: final(memory).pages(),
                    register_before: *old(p_reg),
                    register_after: *final(p_reg),
                    outcome: r,
                }),
            ),
    ;
}

} // verus!
