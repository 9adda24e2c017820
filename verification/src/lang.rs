//! The names by which instructions refer to registers.

use vstd::prelude::*;

verus! {

/// The thirteen general-purpose registers.
#[derive(Clone, Copy, Debug, PartialEq, Eq, Structural)]
pub enum GPR {
    R0,
    R1,
    R2,
    R3,
    R4,
    R5,
    R6,
    R7,
    R8,
    R9,
    R10,
    R11,
    R12,
}

impl GPR {
    /// The register's number, from 0 to 12.
    pub open spec fn spec_index(self) -> int {
        match self {
            GPR::R0 => 0,
            GPR::R1 => 1,
            GPR::R2 => 2,
            GPR::R3 => 3,
            GPR::R4 => 4,
            GPR::R5 => 5,
            GPR::R6 => 6,
            GPR::R7 => 7,
            GPR::R8 => 8,
            GPR::R9 => 9,
            GPR::R10 => 10,
            GPR::R11 => 11,
            GPR::R12 => 12,
        }
    }

    /// The register's number, from 0 to 12.
    pub fn index(self) -> (i: usize)
        ensures
            i == self.spec_index(),
            i < 13,
    {
        match self {
            GPR::R0 => 0,
            GPR::R1 => 1,
            GPR::R2 => 2,
            GPR::R3 => 3,
            GPR::R4 => 4,
            GPR::R5 => 5,
            GPR::R6 => 6,
            GPR::R7 => 7,
            GPR::R8 => 8,
            GPR::R9 => 9,
            GPR::R10 => 10,
            GPR::R11 => 11,
            GPR::R12 => 12,
        }
    }
}

/// The special registers.
#[derive(Clone, Copy, Debug, PartialEq, Eq, Structural)]
pub enum SpecialRegister {
    /// The stack pointer: the main or the process stack pointer, whichever
    /// is active.
    Sp,
    /// The link register.
    Lr,
    /// The program status register.
    Psr,
    /// The exception number field of the program status register: its low
    /// eight bits. Software can read it and cannot write it.
    Ipsr,
    /// The control register: bit 0 is `nPRIV`, bit 1 is `SPSEL`.
    Control,
}

/// The option of an instruction synchronization barrier.
#[derive(Clone, Copy, Debug, PartialEq, Eq, Structural)]
pub enum IsbOpt {
    /// Full system barrier, the only option that the architecture defines.
    Sys,
}

} // verus!
