//! The 64-bit instruction semantics of an x86 emulator and its profiling counters.

pub mod alu;
pub mod bits;
pub mod bytes;
pub mod cpu;
pub mod flags;
pub mod fxsave;
pub mod laws;
pub mod memory;
pub mod modrm;
pub mod muldiv;
pub mod pair;
pub mod profiler;
pub mod run;
pub mod segments;
pub mod shift;
pub mod stack;
pub mod sse;
pub mod strings;
pub mod system;
pub mod width;

