//! Short programs that show what the instructions do to the processor.

use vstd::prelude::*;
use crate::cpu::{Armv7m, Control, ProcessorState};
use crate::lang::{GPR, SpecialRegister};
use crate::mem::nvic::ICER0_ADDR;
use crate::mem::sys_tick::SYST_CSR_ADDR;

verus! {

/// The second word of the interrupt clear-enable bank.
pub const ICER1_ADDR: u32 = 0xE000_E184;

/// Leaves in `r0` the exception number modulo 32.
pub fn simple_mod(armv7m: &mut Armv7m)
    ensures
        final(armv7m)@ == old(armv7m)@.with_gpr(GPR::R0, old(armv7m)@.ipsr() % 32),
{
    let ghost ipsr: u32 = armv7m@.ipsr();
    assert(ipsr & 31 == ipsr % 32) by (bit_vector);
    // r0 = ipsr
    armv7m.mrs(GPR::R0, SpecialRegister::Ipsr);
    // r0 = r0 & 31
    armv7m.and_imm(GPR::R0, 31);
}

/// Leaves zero in `r0`: one, modulo 32, shifted right by five.
pub fn simple_shift(armv7m: &mut Armv7m)
    ensures
        final(armv7m)@ == old(armv7m)@.with_gpr(GPR::R0, 0),
{
    assert((1u32 & 31) >> 5 == 0) by (bit_vector);
    // r0 = 1
    armv7m.movs_imm(GPR::R0, 1);
    // r0 = r0 & 31
    armv7m.and_imm(GPR::R0, 31);
    // r0 = r0 >> 5
    armv7m.lsrs_imm(GPR::R0, GPR::R0, 5);
}

/// Stores one in the control and status register of the system timer,
/// through `r3`.
pub fn simple_store(armv7m: &mut Armv7m)
    ensures
        final(armv7m)@ == old(armv7m)@.with_gpr(GPR::R3, SYST_CSR_ADDR).with_word(
            SYST_CSR_ADDR,
            1,
        ),
{
    armv7m.movw_imm(GPR::R3, SYST_CSR_ADDR);
    armv7m.str_direct(1, GPR::R3).unwrap();
}

/// Loads `r3` with a word and writes that word to the control register,
/// which keeps its two low bits: both are clear.
pub fn store_diff_maps(armv7m: &mut Armv7m)
    ensures
        final(armv7m)@ == (ProcessorState {
            control: Control { npriv: false, spsel: false },
            ..old(armv7m)@.with_gpr(GPR::R3, SYST_CSR_ADDR)
        }),
{
    assert(SYST_CSR_ADDR & 1 == 0 && SYST_CSR_ADDR & 2 == 0) by (bit_vector);
    armv7m.movw_imm(GPR::R3, SYST_CSR_ADDR);
    armv7m.msr(SpecialRegister::Control, GPR::R3);
}

/// Stores one in the first word of the interrupt clear-enable bank, through
/// `r3`.
pub fn simple_store_nvic(armv7m: &mut Armv7m)
    ensures
        final(armv7m)@ == old(armv7m)@.with_gpr(GPR::R3, ICER0_ADDR).with_word(ICER0_ADDR, 1),
{
    armv7m.pseudo_ldr(GPR::R3, ICER0_ADDR);
    armv7m.str_direct(1, GPR::R3).unwrap();
}

/// The state in which `lsl_store_nvic` leaves the processor: `r3` holds the
/// address of the first word of the interrupt clear-enable bank, `r0` and `r1`
/// hold one, and the second word of the bank holds one.
pub open spec fn lsl_store_nvic_done(s: ProcessorState) -> ProcessorState {
    s.with_gpr(GPR::R3, ICER0_ADDR).with_gpr(GPR::R0, 1).with_gpr(GPR::R1, 1).with_word(
        ICER1_ADDR,
        1,
    )
}

/// Stores one in the second word of the interrupt clear-enable bank: the
/// base is the first word, and the index one is shifted left by two.
pub fn lsl_store_nvic(armv7m: &mut Armv7m)
    ensures
        final(armv7m)@ == lsl_store_nvic_done(old(armv7m)@),
{
    assert(1u32 << 2u32 == 4) by (bit_vector);
    armv7m.pseudo_ldr(GPR::R3, ICER0_ADDR);
    armv7m.movw_imm(GPR::R0, 1);
    armv7m.movw_imm(GPR::R1, 1);
    armv7m.strw_lsl_reg(GPR::R0, GPR::R3, GPR::R1, 2).unwrap();
}

/// The store of `lsl_store_nvic` does not go to the first word of the bank:
/// where that word did not hold one before, it does not hold one after.
pub proof fn lsl_store_nvic_wrong(s: ProcessorState)
    requires
        s.mem[ICER0_ADDR] != 1,
    ensures
        lsl_store_nvic_done(s).mem[ICER0_ADDR] != 1,
{
}

/// Loads zero into `r0`.
pub fn movw_r0(armv7m: &mut Armv7m)
    ensures
        final(armv7m)@ == old(armv7m)@.with_gpr(GPR::R0, 0),
{
    armv7m.movw_imm(GPR::R0, 0);
}

/// Loads one into `r1`.
pub fn movw_r1(armv7m: &mut Armv7m)
    ensures
        final(armv7m)@ == old(armv7m)@.with_gpr(GPR::R1, 1),
{
    armv7m.movw_imm(GPR::R1, 1);
}

/// Loads zero into `r0` and one into `r1`, by the two programs above.
pub fn two_movs_by_call(armv7m: &mut Armv7m)
    ensures
        final(armv7m)@ == old(armv7m)@.with_gpr(GPR::R0, 0).with_gpr(GPR::R1, 1),
{
    movw_r0(armv7m);
    movw_r1(armv7m);
}

/// Loads zero into `r0` and one into `r1`.
pub fn two_movs(armv7m: &mut Armv7m)
    ensures
        final(armv7m)@ == old(armv7m)@.with_gpr(GPR::R0, 0).with_gpr(GPR::R1, 1),
{
    armv7m.movw_imm(GPR::R0, 0);
    armv7m.movw_imm(GPR::R1, 1);
}

} // verus!
