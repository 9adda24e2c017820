//! The instructions that the programs of this crate are written in.
//!
//! Each instruction works on the register file and the memory through their
//! ordinary operations. Condition flags are not modelled, so that `movs` and
//! `lsrs` differ from `mov` and `lsr` in name only; there is no program
//! counter either, so that a branch only says where it goes.

use vstd::prelude::*;
use crate::cpu::Armv7m;
use crate::fault::Fault;
use crate::lang::{GPR, IsbOpt, SpecialRegister};
use crate::mem::Memory;

verus! {

/// Logical shift left: bits that leave the word are lost, and a shift by 32
/// or more gives zero.
pub open spec fn spec_lsl(value: u32, shift: u32) -> u32 {
    if shift < 32 {
        value << shift
    } else {
        0
    }
}

/// Logical shift right: a shift by 32 or more gives zero.
pub open spec fn spec_lsr(value: u32, shift: u32) -> u32 {
    if shift < 32 {
        value >> shift
    } else {
        0
    }
}

/// Logical shift left.
pub fn lsl(value: u32, shift: u32) -> (r: u32)
    ensures
        r == spec_lsl(value, shift),
{
    if shift < 32 {
        value << shift
    } else {
        0
    }
}

/// Logical shift right.
pub fn lsr(value: u32, shift: u32) -> (r: u32)
    ensures
        r == spec_lsr(value, shift),
{
    if shift < 32 {
        value >> shift
    } else {
        0
    }
}

impl Armv7m {
    /// `movw rd, #imm`: loads an immediate.
    pub fn movw_imm(&mut self, rd: GPR, imm: u32)
        ensures
            final(self)@ == old(self)@.with_gpr(rd, imm),
    {
        self.update_general_reg(rd, imm);
    }

    /// `movs rd, #imm`: loads an immediate.
    pub fn movs_imm(&mut self, rd: GPR, imm: u32)
        ensures
            final(self)@ == old(self)@.with_gpr(rd, imm),
    {
        self.update_general_reg(rd, imm);
    }

    /// `ldr rd, =imm`: loads a word from the literal pool.
    pub fn pseudo_ldr(&mut self, rd: GPR, imm: u32)
        ensures
            final(self)@ == old(self)@.with_gpr(rd, imm),
    {
        self.update_general_reg(rd, imm);
    }

    /// Loads an immediate into a special register, as `mvn lr, #6` does for
    /// the link register.
    pub fn pseudo_ldr_special(&mut self, reg: SpecialRegister, imm: u32)
        ensures
            final(self)@ == old(self)@.with_special(reg, imm),
    {
        self.update_special_reg(reg, imm);
    }

    /// `msr reg, rn`: writes a special register from a general-purpose one.
    pub fn msr(&mut self, reg: SpecialRegister, rn: GPR)
        ensures
            final(self)@ == old(self)@.with_special(reg, old(self)@.gpr(rn)),
    {
        let value: u32 = self.get_value_from_general_reg(rn);
        self.update_special_reg(reg, value);
    }

    /// `mrs rd, reg`: reads a special register into a general-purpose one.
    pub fn mrs(&mut self, rd: GPR, reg: SpecialRegister)
        ensures
            final(self)@ == old(self)@.with_gpr(rd, old(self)@.special(reg)),
    {
        let value: u32 = self.get_value_from_special_reg(reg);
        self.update_general_reg(rd, value);
    }

    /// `isb`: an instruction synchronization barrier. The model executes in
    /// order, so the barrier changes nothing.
    pub fn isb(&mut self, _opt: Option<IsbOpt>)
        ensures
            final(self)@ == old(self)@,
    {
    }

    /// `and rd, rd, #imm`: bitwise and with an immediate.
    pub fn and_imm(&mut self, rd: GPR, imm: u32)
        ensures
            final(self)@ == old(self)@.with_gpr(rd, old(self)@.gpr(rd) & imm),
    {
        let value: u32 = self.get_value_from_general_reg(rd);
        self.update_general_reg(rd, value & imm);
    }

    /// `subw rd, rn, #imm`: subtracts an immediate, modulo 2^32.
    pub fn subw_imm(&mut self, rd: GPR, rn: GPR, imm: u32)
        ensures
            final(self)@ == old(self)@.with_gpr(rd, old(self)@.gpr(rn).wrapping_sub(imm)),
    {
        let value: u32 = self.get_value_from_general_reg(rn);
        self.update_general_reg(rd, value.wrapping_sub(imm));
    }

    /// `lsrs rd, rm, #shift`: logical shift right by an immediate.
    pub fn lsrs_imm(&mut self, rd: GPR, rm: GPR, shift: u32)
        ensures
            final(self)@ == old(self)@.with_gpr(rd, spec_lsr(old(self)@.gpr(rm), shift)),
    {
        let value: u32 = self.get_value_from_general_reg(rm);
        self.update_general_reg(rd, lsr(value, shift));
    }

    /// `lsl rd, rn, rm`: logical shift left by the low byte of a register.
    pub fn lslw_reg(&mut self, rd: GPR, rn: GPR, rm: GPR)
        ensures
            final(self)@ == old(self)@.with_gpr(
                rd,
                spec_lsl(old(self)@.gpr(rn), old(self)@.gpr(rm) & 0xFF),
            ),
    {
        let value: u32 = self.get_value_from_general_reg(rn);
        let shift: u32 = self.get_value_from_general_reg(rm) & 0xFF;
        self.update_general_reg(rd, lsl(value, shift));
    }

    /// `str rt, [rn, rm, lsl #shift]`: stores a register at the address that
    /// a base register and a shifted index register give, modulo 2^32.
    ///
    /// Fails as the write to memory does, and then changes nothing.
    pub fn strw_lsl_reg(&mut self, rt: GPR, rn: GPR, rm: GPR, shift: u32) -> (r: Result<
        (),
        Fault,
    >)
        ensures
            ({
                let address = old(self)@.gpr(rn).wrapping_add(spec_lsl(old(self)@.gpr(rm), shift));
                &&& Memory::is_valid_write_addr(address) ==> r is Ok && final(self)@ == old(
                    self,
                )@.with_word(address, old(self)@.gpr(rt))
                &&& !Memory::is_valid_write_addr(address) ==> r == Err::<(), Fault>(
                    Memory::access_fault(address),
                ) && final(self)@ == old(self)@
            }),
    {
        let base: u32 = self.get_value_from_general_reg(rn);
        let index: u32 = self.get_value_from_general_reg(rm);
        let value: u32 = self.get_value_from_general_reg(rt);
        self.write32(base.wrapping_add(lsl(index, shift)), value)
    }

    /// Stores `value` at the address that `rn` holds.
    ///
    /// Fails as the write to memory does, and then changes nothing.
    pub fn str_direct(&mut self, value: u32, rn: GPR) -> (r: Result<(), Fault>)
        ensures
            ({
                let address = old(self)@.gpr(rn);
                &&& Memory::is_valid_write_addr(address) ==> r is Ok && final(self)@ == old(
                    self,
                )@.with_word(address, value)
                &&& !Memory::is_valid_write_addr(address) ==> r == Err::<(), Fault>(
                    Memory::access_fault(address),
                ) && final(self)@ == old(self)@
            }),
    {
        let address: u32 = self.get_value_from_general_reg(rn);
        self.write32(address, value)
    }

    /// `bx reg`: the address that the branch goes to. Where `reg` is the link
    /// register and holds a return code, the branch is an exception return,
    /// and the address is the code to return with.
    pub fn bx(&self, reg: SpecialRegister) -> (target: u32)
        ensures
            target == self@.special(reg),
    {
        self.get_value_from_special_reg(reg)
    }
}

} // verus!
