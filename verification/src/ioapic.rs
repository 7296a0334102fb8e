//! The I/O advanced interrupt controller.
//!
//! Only the register formats live here; the controller itself is reached
//! through a memory-mapped select/window register pair, which is the
//! hardware layer's task to drive.

pub mod registers;
