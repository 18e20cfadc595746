//! The system calls of the RISC-V Linux convention that a kernel has to know:
//! the number of the call is in `a7`, its arguments are in `a0` to `a5`.

use vstd::prelude::*;
use crate::arch::XWord;
use crate::memory::errors::MemoryResult;
use crate::memory::interface::{load, mapped_through, Memory};
use crate::pipeline::register::PipelineRegister;

verus! {

/// The number of the `write` system call.
pub const SYS_WRITE: XWord = 0x40;

/// The number of the `exit` system call.
pub const SYS_EXIT: XWord = 0x5D;

/// The pipeline register after `exit`: the program has exited with the code in
/// `a0`.
pub open spec fn spec_exit(register: PipelineRegister) -> PipelineRegister {
    PipelineRegister { exit: true, exit_code: register.registers[10], ..register }
}

/// The `exit` system call: reads the exit code from `a0` and terminates the
/// program.
pub fn sys_exit(p_reg: &mut PipelineRegister)
    ensures
        *final(p_reg) == spec_exit(*old(p_reg)),
{
    p_reg.exit_code = p_reg.registers[10];
    p_reg.exit = true;
}

/// The `write` system call: reads the file descriptor from `a0`, the address of
/// the message from `a1` and its length from `a2`, and returns the descriptor
/// with the bytes of the message. It is for the host to send them.
pub fn sys_write<M: Memory>(memory: &mut M, p_reg: &PipelineRegister) -> (r: MemoryResult<
    (XWord, Vec<u8>),
>)
    requires
        p_reg.registers[11] + p_reg.registers[12] <= u64::MAX,
        p_reg.registers[12] <= usize::MAX,
    ensures
        final(memory).pages() == old(memory).pages(),
        r is Ok <==> mapped_through(
            old(memory).pages(),
            p_reg.registers[11],
            p_reg.registers[12] as int,
        ),
        r matches Ok((fd, message)) ==> fd == p_reg.registers[10] && message@ == load(
            old(memory).pages(),
            p_reg.registers[11],
            p_reg.registers[12] as nat,
        ),
{
    let fd = p_reg.registers[10];
    let ptr = p_reg.registers[11];
    let len = p_reg.registers[12];
    match memory.read_memory_range(ptr, len) {
        Ok(message) => Ok((fd, message)),
        Err(e) => Err(e),
    }
}

} // verus!
