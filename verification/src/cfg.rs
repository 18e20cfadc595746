//! Emulator type configuration trait.

use vstd::prelude::*;
use crate::kernel::Kernel;
use crate::memory::interface::Memory;

verus! {

/// The [`EmuConfig`] trait defines the type configuration for the emulator.
pub trait EmuConfig<'ctx> {
    /// The [Memory] type used by the emulator.
    type Memory: Memory;

    /// The kernel used by the emulator.
    type Kernel: Kernel<Self::Context> + 'ctx;

    /// The state outside the emulator that is passed to the kernel.
    type Context: 'ctx;
}

} // verus!
