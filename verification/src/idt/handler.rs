//! Interrupt entry frames and handler references.
//!
//! The assembly trampolines that save and restore registers on trap entry
//! are outside this crate; a handler is carried here as an opaque
//! entry-point address with documented conventions.

use vstd::prelude::*;

verus! {

/// Register values saved on entering the kernel through an interrupt.  They
/// are restored upon returning to the interrupted code.
#[derive(Debug, Clone, Copy, PartialEq, Eq, Structural)]
pub struct Regs {
    // Preserved registers
    pub r15: u64,
    pub r14: u64,
    pub r13: u64,
    pub r12: u64,
    pub rbp: u64,
    pub rbx: u64,
    // Scratch registers
    pub r11: u64,
    pub r10: u64,
    pub r9: u64,
    pub r8: u64,
    pub rax: u64,
    pub rcx: u64,
    pub rdx: u64,
    pub rdi: u64,
    pub rsi: u64,
}

/// Interrupt stack frame.  On an interrupt the processor pushes these
/// values on the stack; after the interrupt is handled it resumes at `rip`.
#[derive(Debug, Clone, Copy, PartialEq, Eq, Structural)]
pub struct IRetStack {
    /// The return instruction pointer.
    pub rip: u64,
    /// The return code-segment selector.
    pub cs: u64,
    /// A copy of the flags register; the upper 32 bits are written as zeros.
    pub rflags: u64,
    /// The return stack pointer.
    pub rsp: u64,
    /// The return stack-segment selector.
    pub ss: u64,
}

/// Interrupt frame: every interrupt handler has access to these values.
#[derive(Debug, Clone, Copy, PartialEq, Eq, Structural)]
pub struct Frame {
    pub regs: Regs,
    pub iret: IRetStack,
}

/// An interrupt handler, carried as the opaque address of its entry
/// trampoline.
#[derive(Debug, Clone, Copy, PartialEq, Eq, Structural)]
pub struct Handler {
    /// The entry-point address the processor jumps to when the interrupt is
    /// triggered.
    pub inner: u64,
}

impl Handler {
    /// Wrap a raw interrupt handler entry-point address.
    pub fn new(inner: u64) -> (r: Self)
        ensures
            r.inner == inner,
    {
        Self { inner }
    }

    /// Return the entry-point address, for use in a gate descriptor.
    pub fn as_ptr(&self) -> (r: u64)
        ensures
            r == self.inner,
    {
        self.inner
    }
}

} // verus!
