//! Single-threaded, single-cycle 5-stage RISC-V pipeline.

use vstd::prelude::*;
use vstd::array::spec_array_update;
use crate::arch::{Word, XWord};
use crate::cfg::EmuConfig;
use crate::errors::{PipelineError, PipelineResult};
use crate::instructions::rvc::is_compressed;
use crate::instructions::{lemma_decoded_canonical, Instruction};
use crate::kernel::{Handled, Kernel};
use crate::memory::interface::{
    agree_outside, byte_at, lemma_load_agrees, lemma_store_agrees, load, refused, Address, Memory,
};
use crate::memory::page::PageIndex;
use crate::pipeline::decode::{decode_instruction, spec_decode_instruction};
use crate::pipeline::execute::{execute, spec_execute};
use crate::pipeline::fetch::{
    fetched_as, fetched_word, instruction_fetch, spec_instruction_fetch,
};
use crate::pipeline::memory::{
    amo_bytes, amo_load, amo_operand, amo_size, keeps_off, lemma_amo_size, load_size, mem_access,
    spec_amo_value, spec_mem_access, spec_mem_range, spec_mem_refused, spec_mem_write,
    spec_store_bytes, Accessed,
};
use crate::pipeline::register::PipelineRegister;
use crate::pipeline::writeback::{
    lemma_writeback_registers, spec_writeback, writeback, writeback_value,
};
use crate::st::builder::StEmuBuilder;

pub mod builder;

verus! {

/// Single-cycle RISC-V processor emulator.
pub struct StEmu<'ctx, Config> where Config: EmuConfig<'ctx> {
    /// The pipeline register.
    pub register: PipelineRegister,
    /// The device memory.
    pub memory: Config::Memory,
    /// The system call interface.
    pub kernel: Config::Kernel,
    /// The emulator's context.
    pub ctx: Config::Context,
}

/// The pipeline register and the pages after the five stages ran in order on a
/// memory that always allocates, with what they returned: the stages after one
/// that fails do not run.
pub open spec fn spec_stages(
    register: PipelineRegister,
    pages: Map<PageIndex, Seq<u8>>,
) -> Accessed {
    spec_after_fetch(spec_instruction_fetch(register, pages), pages)
}

/// The pipeline register and the pages after the four stages that follow the
/// fetch ran in order, with what they returned.
pub open spec fn spec_after_fetch(
    fetched: PipelineRegister,
    pages: Map<PageIndex, Seq<u8>>,
) -> Accessed {
    let decoded = spec_decode_instruction(fetched);
    if decoded.result is Err {
        Accessed { register: decoded.register, pages, result: decoded.result }
    } else {
        let executed = spec_execute(decoded.register);
        if executed.result is Err {
            Accessed { register: executed.register, pages, result: executed.result }
        } else {
            let accessed = spec_mem_access(executed.register, pages);
            if accessed.result is Err {
                accessed
            } else {
                Accessed {
                    register: spec_writeback(accessed.register),
                    pages: accessed.pages,
                    result: Ok(()),
                }
            }
        }
    }
}

/// What the five stages write to the memory, where they write: the address and
/// the bytes. Only the memory stage writes, and only where the stages before
/// it did not fail.
pub open spec fn spec_stages_write(
    register: PipelineRegister,
    pages: Map<PageIndex, Seq<u8>>,
) -> Option<(Address, Seq<u8>)> {
    let decoded = spec_decode_instruction(spec_instruction_fetch(register, pages));
    if decoded.result is Err {
        None
    } else {
        let executed = spec_execute(decoded.register);
        if executed.result is Err {
            None
        } else {
            spec_mem_write(executed.register, pages)
        }
    }
}

/// The pipeline register that the five stages leave where the memory refuses
/// what the memory stage writes: the register after the execute stage, as the
/// memory stage leaves it then.
pub open spec fn spec_stages_refused(
    register: PipelineRegister,
    pages: Map<PageIndex, Seq<u8>>,
) -> PipelineRegister {
    let decoded = spec_decode_instruction(spec_instruction_fetch(register, pages));
    spec_mem_refused(spec_execute(decoded.register).register, pages)
}

/// The pipeline register at the end of a cycle whose stages, or whose system
/// call, left it as `register`: it stays as it is where `exit` is set, and is
/// advanced where not.
pub open spec fn spec_cycle_end(register: PipelineRegister) -> PipelineRegister {
    if register.exit {
        register
    } else {
        register.spec_advance()
    }
}

/// Whether the instruction writes the address of the instruction after it to
/// its destination.
pub open spec fn links(instruction: Instruction) -> bool {
    instruction is Jal || instruction is Jalr
}

/// Whether two pipeline registers hold the same but for the next program
/// counter, the raw instruction and the result of the execute stage.
spec fn same_but_length(a: PipelineRegister, b: PipelineRegister) -> bool {
    &&& a.exit == b.exit
    &&& a.exit_code == b.exit_code
    &&& a.pc == b.pc
    &&& a.registers == b.registers
    &&& a.instruction == b.instruction
    &&& a.rs1_value == b.rs1_value
    &&& a.rs2_value == b.rs2_value
    &&& a.immediate == b.immediate
    &&& a.rd == b.rd
    &&& a.memory == b.memory
    &&& a.reservation == b.reservation
}

proof fn lemma_decode_by_instruction(a: PipelineRegister, b: PipelineRegister)
    requires
        same_but_length(a, b),
        a.instruction_raw matches Some(raw_a) && b.instruction_raw matches Some(raw_b)
            && Instruction::spec_try_from(raw_a) == Instruction::spec_try_from(raw_b),
    ensures
        spec_decode_instruction(a).result == spec_decode_instruction(b).result,
        same_but_length(spec_decode_instruction(a).register, spec_decode_instruction(b).register),
        spec_decode_instruction(a).register.next_pc == a.next_pc,
        spec_decode_instruction(b).register.next_pc == b.next_pc,
        spec_decode_instruction(a).result is Ok ==> spec_decode_instruction(a).register.instruction
            == Some(Instruction::spec_try_from(a.instruction_raw.unwrap()).unwrap()),
{
}

proof fn lemma_execute_by_instruction(a: PipelineRegister, b: PipelineRegister)
    requires
        same_but_length(a, b),
    ensures
        spec_execute(a).result == spec_execute(b).result,
        same_but_length(spec_execute(a).register, spec_execute(b).register),
        spec_execute(a).register.next_pc == spec_execute(b).register.next_pc || (spec_execute(
            a,
        ).register.next_pc == a.next_pc && spec_execute(b).register.next_pc == b.next_pc),
        spec_execute(a).result is Ok ==> spec_execute(a).register.alu_result is Some
            && spec_execute(b).register.alu_result is Some,
        spec_execute(a).result is Ok ==> (if links(a.instruction.unwrap()) {
            spec_execute(a).register.alu_result == Some(a.next_pc) && spec_execute(
                b,
            ).register.alu_result == Some(b.next_pc)
        } else {
            a.instruction.unwrap() is Branch || spec_execute(a).register.alu_result
                == spec_execute(b).register.alu_result
        }),
        spec_execute(a).register.instruction == a.instruction,
{
}

proof fn lemma_access_by_instruction(
    a: PipelineRegister,
    b: PipelineRegister,
    pages: Map<PageIndex, Seq<u8>>,
)
    requires
        same_but_length(a, b),
        a.instruction is Some,
        a.alu_result is Some,
        b.alu_result is Some,
        !links(a.instruction.unwrap()) && !(a.instruction.unwrap() is Branch) ==> a.alu_result
            == b.alu_result,
    ensures
        spec_mem_access(a, pages).result == spec_mem_access(b, pages).result,
        spec_mem_access(a, pages).pages == spec_mem_access(b, pages).pages,
        same_but_length(spec_mem_access(a, pages).register, spec_mem_access(b, pages).register),
        spec_mem_access(a, pages).register.next_pc == a.next_pc,
        spec_mem_access(b, pages).register.next_pc == b.next_pc,
        spec_mem_access(a, pages).register.alu_result == a.alu_result,
        spec_mem_access(b, pages).register.alu_result == b.alu_result,
        links(a.instruction.unwrap()) ==> spec_mem_access(a, pages).register.memory == a.memory,
{
}

/// A compressed instruction has the effect of the regular instruction that it
/// abbreviates, but for its length.
///
/// Let a compressed word and a regular word decode to the same instruction, and
/// let both be run from the same pipeline register, in which nothing is in
/// flight, and the same memory. Then the stages after the fetch return the
/// same and leave the same memory. They leave the same register file, but that
/// a jump that links writes the address two bytes after the program counter
/// for the one and four bytes after it for the other. And they leave the same
/// next program counter where the instruction jumps or branches, and the
/// program counter plus two and plus four where it does not.
pub proof fn lemma_compressed_runs_as_expansion(
    register: PipelineRegister,
    pages: Map<PageIndex, Seq<u8>>,
    compressed: Word,
    regular: Word,
)
    requires
        register.transient_cleared(),
        is_compressed(compressed),
        !is_compressed(regular),
        Instruction::spec_try_from(compressed) == Instruction::spec_try_from(regular),
    ensures
        ({
            let short = spec_after_fetch(fetched_as(register, compressed), pages);
            let long = spec_after_fetch(fetched_as(register, regular), pages);
            &&& short.result == long.result
            &&& short.pages == long.pages
            &&& short.register.next_pc == long.register.next_pc || (short.register.next_pc
                == register.pc.wrapping_add(2) && long.register.next_pc
                == register.pc.wrapping_add(4))
            &&& match Instruction::spec_try_from(compressed) {
                Ok(instruction) => if links(instruction) && short.result is Ok
                    && instruction.spec_rd() != Some(0u8) {
                    let rd = instruction.spec_rd().unwrap() as int;
                    &&& short.register.registers == spec_array_update(
                        register.registers,
                        rd,
                        register.pc.wrapping_add(2),
                    )
                    &&& long.register.registers == spec_array_update(
                        register.registers,
                        rd,
                        register.pc.wrapping_add(4),
                    )
                } else {
                    short.register.registers == long.register.registers
                },
                Err(_) => short.register.registers == long.register.registers,
            }
        }),
{
    let a = fetched_as(register, compressed);
    let b = fetched_as(register, regular);
    lemma_decode_by_instruction(a, b);
    let decoded_a = spec_decode_instruction(a);
    let decoded_b = spec_decode_instruction(b);
    if decoded_a.result is Ok {
        lemma_execute_by_instruction(decoded_a.register, decoded_b.register);
        let executed_a = spec_execute(decoded_a.register);
        let executed_b = spec_execute(decoded_b.register);
        if executed_a.result is Ok {
            lemma_access_by_instruction(executed_a.register, executed_b.register, pages);
        }
    }
}

/// The five stages change at most one register: the destination of the
/// instruction, where they do not fail; and never `x0`.
pub proof fn lemma_stages_registers(
    register: PipelineRegister,
    pages: Map<PageIndex, Seq<u8>>,
    i: int,
)
    requires
        0 <= i < 32,
    ensures
        ({
            let staged = spec_stages(register, pages);
            staged.register.registers[i] != register.registers[i] ==> {
                &&& i != 0
                &&& staged.result is Ok
                &&& staged.register.rd == Some(i as u8)
                &&& Some(staged.register.registers[i]) == writeback_value(staged.register)
            }
        }),
{
    let fetched = spec_instruction_fetch(register, pages);
    lemma_decoded_canonical(fetched.instruction_raw.unwrap());
    let decoded = spec_decode_instruction(fetched);
    if decoded.result is Ok {
        let executed = spec_execute(decoded.register);
        if executed.result is Ok {
            let accessed = spec_mem_access(executed.register, pages);
            if accessed.result is Ok {
                lemma_writeback_registers(accessed.register, i);
            }
        }
    }
}

/// The places of the memory that the stages after the fetch read or write,
/// where they do either: those of the memory stage, where the stages before it
/// did not fail.
pub open spec fn spec_stages_range(
    register: PipelineRegister,
    pages: Map<PageIndex, Seq<u8>>,
) -> Option<(Address, nat)> {
    let decoded = spec_decode_instruction(spec_instruction_fetch(register, pages));
    if decoded.result is Err {
        None
    } else {
        let executed = spec_execute(decoded.register);
        if executed.result is Err {
            None
        } else {
            spec_mem_range(executed.register)
        }
    }
}

proof fn lemma_access_agrees(
    a: PipelineRegister,
    b: PipelineRegister,
    pages_a: Map<PageIndex, Seq<u8>>,
    pages_b: Map<PageIndex, Seq<u8>>,
    start: int,
    len: int,
)
    requires
        same_but_length(a, b),
        a.instruction is Some,
        a.alu_result is Some,
        b.alu_result is Some,
        !links(a.instruction.unwrap()) && !(a.instruction.unwrap() is Branch) ==> a.alu_result
            == b.alu_result,
        agree_outside(pages_a, pages_b, start, len),
        keeps_off(spec_mem_range(a), start, len),
    ensures
        spec_mem_access(a, pages_a).result == spec_mem_access(b, pages_b).result,
        agree_outside(
            spec_mem_access(a, pages_a).pages,
            spec_mem_access(b, pages_b).pages,
            start,
            len,
        ),
        same_but_length(spec_mem_access(a, pages_a).register, spec_mem_access(b, pages_b).register),
        spec_mem_access(a, pages_a).register.next_pc == a.next_pc,
        spec_mem_access(b, pages_b).register.next_pc == b.next_pc,
        spec_mem_access(a, pages_a).register.alu_result == a.alu_result,
        spec_mem_access(b, pages_b).register.alu_result == b.alu_result,
        links(a.instruction.unwrap()) ==> spec_mem_access(a, pages_a).register.memory == a.memory,
{
    match (a.instruction, a.alu_result) {
        (Some(Instruction::MemoryLoad(_, funct)), Some(address)) => {
            lemma_load_agrees(pages_a, pages_b, start, len, address, 1);
            lemma_load_agrees(pages_a, pages_b, start, len, address, load_size(funct));
            assert(load(pages_a, address, 1)[0] == byte_at(pages_a, address, 0));
            assert(load(pages_b, address, 1)[0] == byte_at(pages_b, address, 0));
        },
        (Some(Instruction::MemoryStore(_, funct)), Some(address)) => {
            if let Some(value) = a.rs2_value {
                lemma_store_agrees(
                    pages_a,
                    pages_b,
                    start,
                    len,
                    address,
                    spec_store_bytes(funct, value),
                );
            }
        },
        (Some(Instruction::Amo(r_type, funct)), Some(_)) => {
            if let Some(address) = a.rs1_value {
                if r_type.funct3 == 2 || r_type.funct3 == 3 {
                    lemma_amo_size(r_type.funct3);
                    let size = amo_size(r_type.funct3);
                    if address % (size as XWord) == 0 {
                        lemma_load_agrees(pages_a, pages_b, start, len, address, size as nat);
                        if let Some(rs2) = a.rs2_value {
                            let mem = amo_operand(size, amo_load(pages_a, address, size));
                            let value = spec_amo_value(funct, mem, amo_operand(size, rs2));
                            lemma_store_agrees(
                                pages_a,
                                pages_b,
                                start,
                                len,
                                address,
                                amo_bytes(size, value),
                            );
                            lemma_store_agrees(
                                pages_a,
                                pages_b,
                                start,
                                len,
                                address,
                                amo_bytes(size, rs2),
                            );
                        }
                    }
                }
            }
        },
        _ => {},
    }
}

/// A compressed instruction in memory has the effect of the regular
/// instruction that it abbreviates in its place, but for its length.
///
/// Let two memories agree but in the four bytes at the program counter, where
/// the one holds a compressed word and the other a regular word that decode to
/// the same instruction, and let the instruction keep off these four bytes.
/// Let the stages run from the same pipeline register, in which nothing is in
/// flight, on the one and on the other. Then they return the same and leave
/// memories that agree but in these four bytes. They leave the same register
/// file, but that a jump that links writes the address two bytes after the
/// program counter for the one and four bytes after it for the other. And they
/// leave the same next program counter where the instruction jumps or
/// branches, and the program counter plus two and plus four where it does not.
pub proof fn lemma_compressed_in_memory_runs_as_expansion(
    register: PipelineRegister,
    short_pages: Map<PageIndex, Seq<u8>>,
    long_pages: Map<PageIndex, Seq<u8>>,
)
    requires
        register.transient_cleared(),
        is_compressed(fetched_word(short_pages, register.pc)),
        !is_compressed(fetched_word(long_pages, register.pc)),
        Instruction::spec_try_from(fetched_word(short_pages, register.pc))
            == Instruction::spec_try_from(fetched_word(long_pages, register.pc)),
        agree_outside(short_pages, long_pages, register.pc as int, 4),
        keeps_off(spec_stages_range(register, short_pages), register.pc as int, 4),
    ensures
        ({
            let short = spec_stages(register, short_pages);
            let long = spec_stages(register, long_pages);
            &&& short.result == long.result
            &&& agree_outside(short.pages, long.pages, register.pc as int, 4)
            &&& short.register.next_pc == long.register.next_pc || (short.register.next_pc
                == register.pc.wrapping_add(2) && long.register.next_pc
                == register.pc.wrapping_add(4))
            &&& match Instruction::spec_try_from(fetched_word(short_pages, register.pc)) {
                Ok(instruction) => if links(instruction) && short.result is Ok
                    && instruction.spec_rd() != Some(0u8) {
                    let rd = instruction.spec_rd().unwrap() as int;
                    &&& short.register.registers == spec_array_update(
                        register.registers,
                        rd,
                        register.pc.wrapping_add(2),
                    )
                    &&& long.register.registers == spec_array_update(
                        register.registers,
                        rd,
                        register.pc.wrapping_add(4),
                    )
                } else {
                    short.register.registers == long.register.registers
                },
                Err(_) => short.register.registers == long.register.registers,
            }
        }),
{
    let a = spec_instruction_fetch(register, short_pages);
    let b = spec_instruction_fetch(register, long_pages);
    lemma_decode_by_instruction(a, b);
    let decoded_a = spec_decode_instruction(a);
    let decoded_b = spec_decode_instruction(b);
    if decoded_a.result is Ok {
        lemma_execute_by_instruction(decoded_a.register, decoded_b.register);
        let executed_a = spec_execute(decoded_a.register);
        let executed_b = spec_execute(decoded_b.register);
        if executed_a.result is Ok {
            lemma_access_agrees(
                executed_a.register,
                executed_b.register,
                short_pages,
                long_pages,
                register.pc as int,
                4,
            );
        }
    }
}

/// Runs the five stages of the pipeline in order, until one fails.
///
/// The stages fail with a memory error only where the memory stage writes and
/// the memory refuses a page for it; a memory that always allocates never
/// does. Then the memory is left as the refused write leaves it, and the
/// pipeline register as [spec_stages_refused] says. In every other case the
/// stages do what [spec_stages] says.
pub fn run_stages<M: Memory>(register: &mut PipelineRegister, memory: &mut M) -> (r: PipelineResult<
    (),
>)
    ensures
        r matches Err(PipelineError::MemoryError(_)) ==> {
            &&& !M::always_allocates()
            &&& spec_stages(*old(register), old(memory).pages()).pages != old(memory).pages()
            &&& spec_stages_write(*old(register), old(memory).pages()) matches Some(
                (address, bytes),
            )
            &&& refused(old(memory).pages(), final(memory).pages(), address, bytes)
            &&& *final(register) == spec_stages_refused(*old(register), old(memory).pages())
        },
        !(r matches Err(PipelineError::MemoryError(_))) ==> {
            &&& *final(register) == spec_stages(*old(register), old(memory).pages()).register
            &&& final(memory).pages() == spec_stages(*old(register), old(memory).pages()).pages
            &&& r == spec_stages(*old(register), old(memory).pages()).result
        },
{
    instruction_fetch(register, memory)?;
    decode_instruction(register)?;
    execute(register)?;
    mem_access(register, memory)?;
    writeback(register)
}

/// Ends a cycle in which the kernel handled a system call and returned
/// `outcome`: an error of the kernel is the error of the cycle; without one the
/// pipeline register is advanced unless the kernel has set `exit`.
pub fn end_syscall(register: &mut PipelineRegister, outcome: PipelineResult<XWord>) -> (r:
    PipelineResult<()>)
    ensures
        match outcome {
            Ok(_) => r is Ok && *final(register) == spec_cycle_end(*old(register)),
            Err(e) => r == Err::<(), PipelineError>(e) && *final(register) == *old(register),
        },
{
    match outcome {
        Ok(_) => {
            // Exit emulation if the syscall terminated the program.
            if !register.exit {
                register.advance();
            }
            Ok(())
        },
        Err(e) => Err(e),
    }
}

impl<'ctx, Config> StEmu<'ctx, Config> where Config: EmuConfig<'ctx> {
    /// What a cycle does: `self` is the emulator before it, `after` the emulator
    /// after it, and `r` what it returns.
    ///
    /// A cycle that returns without an error and without `exit` set leaves
    /// nothing in flight. Unless the memory refuses what the memory stage
    /// writes, which is [Self::spec_cycle_refused], the five stages run as
    /// [spec_stages] says. Without an error of theirs the cycle ends
    /// as [spec_cycle_end] says. Where they raise `SyscallException`, the
    /// kernel is called with the number of the system call, the memory and the
    /// pipeline register as the stages left them; an error of the kernel is the
    /// error of the cycle, and without one the cycle ends as [spec_cycle_end]
    /// says. Any other error of a stage is the error of the cycle, which leaves
    /// the pipeline register as the stage left it.
    pub open spec fn spec_cycle(self, after: Self, r: PipelineResult<()>) -> bool {
        let staged = spec_stages(self.register, self.memory.pages());
        &&& r is Ok && !after.register.exit ==> after.register.transient_cleared()
        &&& self.spec_cycle_refused(after, r) || match staged.result {
            Ok(_) => {
                &&& r is Ok
                &&& after.memory.pages() == staged.pages
                &&& after.register == spec_cycle_end(staged.register)
                &&& after.kernel == self.kernel
                &&& after.ctx == self.ctx
            },
            Err(PipelineError::SyscallException(syscall_no)) => exists|
                outcome: PipelineResult<XWord>,
                handled: PipelineRegister,
            |
                {
                    &&& #[trigger] self.kernel.allows(
                        &after.kernel,
                        &self.ctx,
                        &after.ctx,
                        (Handled {
                            syscall_no,
                            pages_before: staged.pages,
                            pages_after: after.memory.pages(),
                            register_before: staged.register,
                            register_after: handled,
                            outcome,
                        }),
                    )
                    &&& match outcome {
                        Ok(_) => r is Ok && after.register == spec_cycle_end(handled),
                        Err(e) => r == Err::<(), PipelineError>(e) && after.register == handled,
                    }
                },
            Err(e) => {
                &&& r == Err::<(), PipelineError>(e)
                &&& after.memory.pages() == staged.pages
                &&& after.register == staged.register
                &&& after.kernel == self.kernel
                &&& after.ctx == self.ctx
            },
        }
    }

    /// What a cycle does where the memory refuses what the memory stage writes:
    /// the cycle returns a memory error, and leaves the memory as the refused
    /// write leaves it and the pipeline register as [spec_stages_refused] says.
    /// This is no cycle of a memory that always allocates, nor one whose stages
    /// write nothing.
    pub open spec fn spec_cycle_refused(self, after: Self, r: PipelineResult<()>) -> bool {
        &&& !Config::Memory::always_allocates()
        &&& r matches Err(PipelineError::MemoryError(_))
        &&& spec_stages_write(self.register, self.memory.pages()) matches Some((address, bytes))
        &&& refused(self.memory.pages(), after.memory.pages(), address, bytes)
        &&& after.register == spec_stages_refused(self.register, self.memory.pages())
        &&& after.kernel == self.kernel
        &&& after.ctx == self.ctx
    }

    /// What a run of at most `max_cycles` cycles does: `self` is the emulator
    /// before it, `after` the emulator after it, and `r` what it returns.
    ///
    /// With no cycle left, or with `exit` set, the run ends and returns the
    /// pipeline register. Else a cycle runs: its error ends the run, and
    /// without one the run goes on with one cycle less.
    pub open spec fn spec_run(
        self,
        after: Self,
        max_cycles: nat,
        r: PipelineResult<PipelineRegister>,
    ) -> bool
        decreases max_cycles,
    {
        if max_cycles == 0 || self.register.exit {
            after == self && r == Ok::<PipelineRegister, PipelineError>(self.register)
        } else {
            exists|next: Self, outcome: PipelineResult<()>| #[trigger]
                self.spec_cycle(next, outcome) && match outcome {
                    Ok(_) => next.spec_run(after, (max_cycles - 1) as nat, r),
                    Err(e) => after == next && r == Err::<PipelineRegister, PipelineError>(e),
                }
        }
    }

    /// Creates a new [`StEmuBuilder`].
    pub fn builder() -> (r: StEmuBuilder<'ctx, Config>)
        ensures
            r.pc == 0,
            r.memory is None,
            r.kernel is None,
            r.state is None,
    {
        StEmuBuilder::default()
    }

    /// Execute a single cycle of the processor in full.
    ///
    /// The five stages run. Where they raise `SyscallException`, the kernel is
    /// called, and an error of the kernel is returned. Any other error of a
    /// stage is returned as it is. Without an error the pipeline register is
    /// advanced, unless `exit` is set.
    pub fn cycle(&mut self) -> (r: PipelineResult<()>)
        ensures
            old(self).spec_cycle(*final(self), r),
            r is Ok && !final(self).register.exit ==> final(self).register.transient_cleared(),
            ({
                let staged = spec_stages(old(self).register, old(self).memory.pages());
                r is Ok && !final(self).register.exit && staged.result is Ok ==> {
                    &&& final(self).register.pc == staged.register.next_pc
                    &&& final(self).register.registers == staged.register.registers
                    &&& final(self).register.reservation == staged.register.reservation
                    &&& final(self).memory.pages() == staged.pages
                }
            }),
            ({
                let staged = spec_stages(old(self).register, old(self).memory.pages());
                r matches Err(PipelineError::MemoryError(_)) && !(staged.result matches Err(
                    PipelineError::SyscallException(_),
                )) ==> staged.pages != old(self).memory.pages()
            }),
    {
        // Execute all pipeline stages sequentially.
        let cycle_res = run_stages(&mut self.register, &mut self.memory);

        // Handle system calls.
        match cycle_res {
            Ok(()) => {
                if !self.register.exit {
                    self.register.advance();
                }
                Ok(())
            },
            Err(PipelineError::SyscallException(syscall_no)) => {
                let outcome = self.kernel.syscall(
                    syscall_no,
                    &mut self.memory,
                    &mut self.register,
                    &mut self.ctx,
                );
                let ghost handled = self.register;
                let r = end_syscall(&mut self.register, outcome);
                proof {
                    let staged = spec_stages(old(self).register, old(self).memory.pages());
                    assert(old(self).kernel.allows(
                        &self.kernel,
                        &old(self).ctx,
                        &self.ctx,
                        (Handled {
                            syscall_no,
                            pages_before: staged.pages,
                            pages_after: self.memory.pages(),
                            register_before: staged.register,
                            register_after: handled,
                            outcome,
                        }),
                    ));
                }
                r
            },
            Err(e) => Err(e),
        }
    }

    /// Executes the program until it exits or `max_cycles` cycles have run,
    /// returning the final [PipelineRegister]: its `exit` tells which of the two
    /// it was. The first error of a cycle ends the run.
    pub fn run(&mut self, max_cycles: u64) -> (r: PipelineResult<PipelineRegister>)
        ensures
            old(self).spec_run(*final(self), max_cycles as nat, r),
            r matches Ok(register) ==> register == final(self).register,
            max_cycles == 0 || old(self).register.exit ==> *final(self) == *old(self) && r
                == Ok::<PipelineRegister, PipelineError>(old(self).register),
    {
        let mut cycles: u64 = 0;
        while !self.register.exit && cycles < max_cycles
            invariant
                cycles <= max_cycles,
                cycles == 0 ==> *self == *old(self),
                old(self).register.exit ==> cycles == 0,
                forall|after: Self, r: PipelineResult<PipelineRegister>| #[trigger]
                    self.spec_run(after, (max_cycles - cycles) as nat, r) ==> old(self).spec_run(
                        after,
                        max_cycles as nat,
                        r,
                    ),
            decreases max_cycles - cycles,
        {
            let ghost current = *self;
            let ghost left = (max_cycles - cycles) as nat;
            match self.cycle() {
                Ok(()) => {
                    proof {
                        let next = *self;
                        assert forall|after: Self, r: PipelineResult<PipelineRegister>| #[trigger]
                            next.spec_run(after, (left - 1) as nat, r) implies old(self).spec_run(
                            after,
                            max_cycles as nat,
                            r,
                        ) by {
                            assert(current.spec_cycle(next, Ok::<(), PipelineError>(())));
                            assert(current.spec_run(after, left, r));
                        }
                    }
                },
                Err(e) => {
                    proof {
                        let next = *self;
                        let r = Err::<PipelineRegister, PipelineError>(e);
                        assert(current.spec_cycle(next, Err::<(), PipelineError>(e)));
                        assert(current.spec_run(next, left, r));
                    }
                    return Err(e);
                },
            }
            cycles += 1;
        }
        proof {
            let r = Ok::<PipelineRegister, PipelineError>(self.register);
            assert((*self).spec_run(*self, (max_cycles - cycles) as nat, r));
        }
        Ok(self.register)
    }
}

} // verus!
