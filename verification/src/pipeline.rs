//! 5-stage RISC-V pipeline stages and state.

pub mod decode;
pub mod execute;
pub mod fetch;
pub mod memory;
pub mod register;
pub mod writeback;
