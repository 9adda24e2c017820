//! A model of the exception lifecycle of an ARMv7-M processor core.
//!
//! The crate holds the register file with its banked stack pointers, the
//! memory-mapped private peripheral bus, the stacking and unstacking that
//! exception entry and return perform, and a small interrupt service routine
//! written against the model.

pub mod arm_isr;
pub mod cpu;
pub mod exception;
pub mod fault;
pub mod insns;
pub mod lang;
pub mod mem;
pub mod programs;
