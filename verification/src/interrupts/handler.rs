//! The register state visible to an interrupt handler.

use vstd::prelude::*;

verus! {

/// Registers pushed by the entry trampoline before the handler runs, and
/// restored when it returns.
#[derive(Debug, Clone, Copy, PartialEq, Eq, Structural)]
pub struct Registers {
    pub r15: u64,
    pub r14: u64,
    pub r13: u64,
    pub r12: u64,
    pub r11: u64,
    pub r10: u64,
    pub r9: u64,
    pub r8: u64,
    pub rbp: u64,
    pub rdi: u64,
    pub rsi: u64,
    pub rdx: u64,
    pub rcx: u64,
    pub rbx: u64,
    pub rax: u64,
}

/// The frame the processor pushes on interrupt entry and consumes on
/// return.
#[derive(Debug, Clone, Copy, PartialEq, Eq, Structural)]
pub struct IretStack {
    /// The return instruction pointer.
    pub rip: u64,
    /// The return code-segment selector.
    pub cs: u64,
    /// A copy of the flags register.
    pub rflags: u64,
    /// The return stack pointer.
    pub rsp: u64,
    /// The return stack-segment selector.
    pub ss: u64,
}

} // verus!
