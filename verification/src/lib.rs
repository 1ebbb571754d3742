//! A verified model of the TantraOS platform layer: error codes, time,
//! processes, the tasklet runtime protocol, memory operations, the target
//! description and the EL0 transformation pass.
pub mod mem;
pub mod text;
pub mod mir;
pub mod pal;
pub mod os;
pub mod runtime;
pub mod process;
pub mod time;
pub mod thread;
pub mod allocator;
pub mod mm_ipc;
pub mod el0;
pub mod rt;
pub mod target;
pub mod codegen;
