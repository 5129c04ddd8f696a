//! Privilege-level transitions and exception handling for a single-core
//! AArch64 kernel, together with the small data formats and host-side
//! decisions that surround it.

pub mod regs;
pub mod syndrome;
pub mod text;
pub mod frame;
pub mod privilege;
pub mod mask;
pub mod vector;
pub mod transition;
pub mod report;
pub mod devicetree;
pub mod tasks;
pub mod words;
pub mod shell;
pub mod allocator;
