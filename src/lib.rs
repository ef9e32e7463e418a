//! Foundation for issuing raw kernel system calls.
//!
//! The library states, and proves, the parts of a raw system call that are
//! decisions rather than machine instructions: how the kernel's returned word is
//! classified into success or failure, how a list of arguments is routed to a
//! fixed arity of at most six words, and which registers each supported target
//! loads, reads back and loses across the trap.

pub mod arch;
pub mod args;
pub mod frame;
pub mod word;
