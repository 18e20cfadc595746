//! A user-mode RISC-V (RV64IMAC) instruction set simulator: instruction decoding,
//! a single-cycle five-stage pipeline, and a paged sparse memory.

pub mod arch;
pub mod bits;
pub mod cfg;
pub mod errors;
pub mod functions;
pub mod instructions;
pub mod kernel;
pub mod linux;
pub mod load;
pub mod memory;
pub mod pipeline;
pub mod st;
