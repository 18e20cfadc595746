//! A builder for the [`StEmu`] emulator.

use vstd::prelude::*;
use crate::arch::XWord;
use crate::cfg::EmuConfig;
use crate::load::{elf_parsed, load_elf, spec_load_segments, spec_may_refuse, ElfLoadError};
use crate::memory::interface::Memory;
use crate::pipeline::register::PipelineRegister;
use crate::st::StEmu;

verus! {

/// A builder for the [`StEmu`] emulator.
pub struct StEmuBuilder<'ctx, Config> where Config: EmuConfig<'ctx> {
    /// The starting program counter.
    pub pc: XWord,
    /// The initial memory for the emulator.
    pub memory: Option<Config::Memory>,
    /// The system call interface for the emulator.
    pub kernel: Option<Config::Kernel>,
    /// The emulator's state.
    pub state: Option<Config::Context>,
}

impl<'ctx, Config> Default for StEmuBuilder<'ctx, Config> where Config: EmuConfig<'ctx> {
    fn default() -> (r: Self)
        ensures
            r.pc == 0,
            r.memory is None,
            r.kernel is None,
            r.state is None,
    {
        Self { pc: 0, memory: None, kernel: None, state: None }
    }
}

impl<'ctx, Config> StEmuBuilder<'ctx, Config> where Config: EmuConfig<'ctx> {
    /// Loads an elf file into the given memory and assigns the memory and the
    /// entry point of the program to the emulator builder.
    pub fn with_elf(self, elf_bytes: &[u8], memory: Config::Memory) -> (r: Result<
        Self,
        ElfLoadError,
    >)
        ensures
            r matches Err(ElfLoadError::Memory(_)) ==> {
                &&& !Config::Memory::always_allocates()
                &&& elf_parsed(elf_bytes@) matches Some((_, headers))
                &&& spec_may_refuse(memory.pages(), elf_bytes@, headers, 0)
            },
            !(r matches Err(ElfLoadError::Memory(_))) ==> match elf_parsed(elf_bytes@) {
                None => r matches Err(error) && error == ElfLoadError::Parse,
                Some((entry, headers)) => match spec_load_segments(
                    memory.pages(),
                    elf_bytes@,
                    headers,
                    0,
                ) {
                    Ok(pages) => r matches Ok(builder) && builder.pc == entry
                        && builder.kernel == self.kernel && builder.state == self.state
                        && builder.memory is Some && builder.memory.unwrap().pages() == pages,
                    Err(e) => r matches Err(error) && error == e,
                },
            },
    {
        match load_elf(elf_bytes, memory) {
            Ok((loaded, entry)) => Ok(
                StEmuBuilder {
                    pc: entry,
                    memory: Some(loaded),
                    kernel: self.kernel,
                    state: self.state,
                },
            ),
            Err(e) => Err(e),
        }
    }

    /// Assigns the entry point of the program.
    pub fn with_pc(self, pc: XWord) -> (r: Self)
        ensures
            r.pc == pc,
            r.memory == self.memory,
            r.kernel == self.kernel,
            r.state == self.state,
    {
        StEmuBuilder { pc, memory: self.memory, kernel: self.kernel, state: self.state }
    }

    /// Assigns a pre-created memory instance to the emulator.
    pub fn with_memory(self, memory: Config::Memory) -> (r: Self)
        ensures
            r.pc == self.pc,
            r.memory == Some(memory),
            r.kernel == self.kernel,
            r.state == self.state,
    {
        StEmuBuilder { pc: self.pc, memory: Some(memory), kernel: self.kernel, state: self.state }
    }

    /// Assigns the kernel to the emulator.
    pub fn with_kernel(self, kernel: Config::Kernel) -> (r: Self)
        ensures
            r.pc == self.pc,
            r.memory == self.memory,
            r.kernel == Some(kernel),
            r.state == self.state,
    {
        StEmuBuilder { pc: self.pc, memory: self.memory, kernel: Some(kernel), state: self.state }
    }

    /// Assigns the state to the emulator.
    pub fn with_ctx(self, state: Config::Context) -> (r: Self)
        ensures
            r.pc == self.pc,
            r.memory == self.memory,
            r.kernel == self.kernel,
            r.state == Some(state),
    {
        StEmuBuilder { pc: self.pc, memory: self.memory, kernel: self.kernel, state: Some(state) }
    }

    /// Builds the emulator with the current configuration: the memory, the
    /// kernel and the state have to be set.
    pub fn build(self) -> (r: StEmu<'ctx, Config>)
        requires
            self.memory is Some,
            self.kernel is Some,
            self.state is Some,
        ensures
            r.register == PipelineRegister::spec_new(self.pc),
            Some(r.memory) == self.memory,
            Some(r.kernel) == self.kernel,
            Some(r.ctx) == self.state,
    {
        StEmu {
            register: PipelineRegister::new(self.pc),
            memory: self.memory.unwrap(),
            kernel: self.kernel.unwrap(),
            ctx: self.state.unwrap(),
        }
    }
}

} // verus!
