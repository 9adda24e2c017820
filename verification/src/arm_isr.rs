//! The interrupt service routine that every external interrupt runs.
//!
//! The routine marks the interrupt that is being served in two tables of the
//! interrupt controller, each of one bit for each interrupt: it stores a word
//! with the interrupt's bit set in the interrupt's word of the clear-enable
//! bank and of the set-pending bank.

use vstd::prelude::*;
use crate::exception::EXC_RETURN_THREAD_MAIN;
use crate::cpu::{Armv7m, Control, ProcessorState};
use crate::fault::Fault;
use crate::lang::{GPR, IsbOpt, SpecialRegister};
use crate::mem::nvic::{NvicBank, NvicReg, ICER0_ADDR, ISPR0_ADDR};
use crate::mem::{Ppb, Register};

verus! {

/// The number of the first external interrupt.
pub const FIRST_EXTERNAL_INTERRUPT: u32 = 16;

/// The position of the bit of exception `ipsr` in its word.
pub open spec fn isr_bit_loc(ipsr: u32) -> u32
    recommends
        ipsr >= FIRST_EXTERNAL_INTERRUPT,
{
    ((ipsr - FIRST_EXTERNAL_INTERRUPT) % 32) as u32
}

/// The word with only the bit of exception `ipsr` set: what the routine
/// leaves in `r0` and stores.
pub open spec fn isr_r0(ipsr: u32) -> u32
    recommends
        ipsr >= FIRST_EXTERNAL_INTERRUPT,
{
    1u32 << isr_bit_loc(ipsr)
}

/// The number of the word that holds the bit of exception `ipsr`: what the
/// routine leaves in `r2`.
pub open spec fn isr_r2(ipsr: u32) -> u32
    recommends
        ipsr >= FIRST_EXTERNAL_INTERRUPT,
{
    ((ipsr - FIRST_EXTERNAL_INTERRUPT) / 32) as u32
}

/// The distance in bytes of that word from the start of its bank.
pub open spec fn isr_offset(ipsr: u32) -> u32
    recommends
        ipsr >= FIRST_EXTERNAL_INTERRUPT,
{
    (isr_r2(ipsr) * 4) as u32
}

/// The state in which the routine leaves a processor that is serving an
/// external interrupt.
///
/// The interrupt's word in the clear-enable bank and in the set-pending bank
/// holds the interrupt's bit and no other. `r0` holds that word, `r2` the
/// word's number and `r3` the address of the set-pending bank. The control
/// register is cleared, and the link register holds the return code for
/// thread mode on the main stack.
pub open spec fn isr_done(s: ProcessorState) -> ProcessorState {
    let ipsr = s.ipsr();
    ProcessorState {
        control: Control { npriv: false, spsel: false },
        lr: EXC_RETURN_THREAD_MAIN,
        regs: s.regs.insert(GPR::R0, isr_r0(ipsr)).insert(GPR::R2, isr_r2(ipsr)).insert(
            GPR::R3,
            ISPR0_ADDR,
        ),
        mem: s.mem.insert((ICER0_ADDR + isr_offset(ipsr)) as u32, isr_r0(ipsr)).insert(
            (ISPR0_ADDR + isr_offset(ipsr)) as u32,
            isr_r0(ipsr),
        ),
        ..s
    }
}

/// The state in which the routine leaves a processor that is not serving an
/// external interrupt: its first store has failed.
///
/// The subtraction of 16 from the exception number has wrapped, so that
/// `r2` holds `0x07FF_FFFF` and `r0` the bit 16 places above the one that the
/// exception number names. `r3` holds the address of the clear-enable bank.
/// The control register is cleared, and the link register holds the return
/// code for thread mode on the main stack. The memory is as it was.
pub open spec fn isr_faulted(s: ProcessorState) -> ProcessorState {
    let ipsr = s.ipsr();
    ProcessorState {
        control: Control { npriv: false, spsel: false },
        lr: EXC_RETURN_THREAD_MAIN,
        regs: s.regs.insert(GPR::R0, 1u32 << ((ipsr + 16) as u32)).insert(
            GPR::R2,
            0x07FF_FFFF,
        ).insert(GPR::R3, ICER0_ADDR),
        ..s
    }
}

/// For an external interrupt the two stores of the routine go to registers of
/// the interrupt controller: to the interrupt's word of the clear-enable bank
/// and to the same word of the set-pending bank. The word that is stored has
/// one bit set, and the bit and the word together name the interrupt.
pub proof fn lemma_isr_marks_interrupt(ipsr: u32)
    requires
        FIRST_EXTERNAL_INTERRUPT <= ipsr < 256,
    ensures
        isr_bit_loc(ipsr) < 32,
        isr_r2(ipsr) < 8,
        ipsr == FIRST_EXTERNAL_INTERRUPT + 32 * isr_r2(ipsr) + isr_bit_loc(ipsr),
        Ppb::spec_decode((ICER0_ADDR + isr_offset(ipsr)) as u32) == Ok::<Register, Fault>(
            Register::Nvic(NvicReg { bank: NvicBank::Icer, index: isr_r2(ipsr) }),
        ),
        Ppb::spec_decode((ISPR0_ADDR + isr_offset(ipsr)) as u32) == Ok::<Register, Fault>(
            Register::Nvic(NvicReg { bank: NvicBank::Ispr, index: isr_r2(ipsr) }),
        ),
{
}

/// Serves the interrupt whose number the status register holds.
///
/// For an external interrupt, one whose number is 16 or more, the routine
/// succeeds and leaves the processor as `isr_done` says. For a lower
/// exception number its first store goes to an address outside the private
/// peripheral bus: the routine fails with `InvalidAddress` and leaves the
/// processor as `isr_faulted` says.
///
/// ```text
///    0:   f04f 0000       mov.w   r0, #0
///    4:   f380 8814       msr     CONTROL, r0
///    8:   f3bf 8f6f       isb     sy
///    c:   f06f 0e06       mvn.w   lr, #6
///   10:   f3ef 8005       mrs     r0, IPSR
///   14:   f000 00ff       and.w   r0, r0, #255
///   18:   f1a0 0010       sub.w   r0, r0, #16
///   1c:   0942            lsrs    r2, r0, #5
///   1e:   2301            movs    r3, #1
///   20:   f000 001f       and.w   r0, r0, #31
///   24:   fa03 f000       lsl.w   r0, r3, r0
///   28:   4b03            ldr     r3, [pc, #12]
///   2a:   f843 0022       str.w   r0, [r3, r2, lsl #2]
///   2e:   4b03            ldr     r3, [pc, #12]
///   30:   f843 0022       str.w   r0, [r3, r2, lsl #2]
///   34:   4770            bx      lr
///   38:   e000e180        .word   0xe000e180
///   3c:   e000e200        .word   0xe000e200
/// ```
pub fn generic_isr_armv7m(armv7m: &mut Armv7m) -> (r: Result<(), Fault>)
    ensures
        old(armv7m)@.ipsr() >= FIRST_EXTERNAL_INTERRUPT ==> r is Ok && final(armv7m)@ == isr_done(
            old(armv7m)@,
        ),
        old(armv7m)@.ipsr() < FIRST_EXTERNAL_INTERRUPT ==> r == Err::<(), Fault>(
            Fault::InvalidAddress,
        ) && final(armv7m)@ == isr_faulted(old(armv7m)@),
{
    let ghost psr: u32 = armv7m@.psr;
    let ghost ipsr: u32 = armv7m@.ipsr();
    let ghost wrapped: u32 = ipsr.wrapping_sub(16);
    proof {
        assert(0u32 & 1 == 0 && 0u32 & 2 == 0) by (bit_vector);
        assert((psr & 0xFF) & 0xFF == psr & 0xFF && psr & 0xFF < 256) by (bit_vector);
        assert(wrapped >> 5 == wrapped / 32 && wrapped & 31 == wrapped % 32 && (wrapped & 31)
            & 0xFF == wrapped & 31) by (bit_vector);
        assert((wrapped >> 5) << 2 == (wrapped >> 5) * 4) by (bit_vector);
    }
    // r0 = 0
    armv7m.movw_imm(GPR::R0, 0);
    // control = r0 = 0
    armv7m.msr(SpecialRegister::Control, GPR::R0);
    armv7m.isb(Some(IsbOpt::Sys));
    // lr = 0xFFFFFFF9
    armv7m.pseudo_ldr_special(SpecialRegister::Lr, EXC_RETURN_THREAD_MAIN);
    // r0 = ipsr
    armv7m.mrs(GPR::R0, SpecialRegister::Ipsr);
    armv7m.and_imm(GPR::R0, 0xFF);
    // r0 = ipsr - 16
    armv7m.subw_imm(GPR::R0, GPR::R0, 16);
    // r2 = r0 >> 5, that is (ipsr - 16) / 32
    armv7m.lsrs_imm(GPR::R2, GPR::R0, 5);
    // r3 = 1
    armv7m.movs_imm(GPR::R3, 1);
    // r0 = r0 & 31, that is (ipsr - 16) % 32
    armv7m.and_imm(GPR::R0, 31);
    // r0 = r3 << r0, that is 1 << ((ipsr - 16) % 32)
    armv7m.lslw_reg(GPR::R0, GPR::R3, GPR::R0);
    armv7m.pseudo_ldr(GPR::R3, ICER0_ADDR);
    // mem[0xe000_e180 + (r2 << 2)] = r0
    armv7m.strw_lsl_reg(GPR::R0, GPR::R3, GPR::R2, 2)?;
    armv7m.pseudo_ldr(GPR::R3, ISPR0_ADDR);
    // mem[0xe000_e200 + (r2 << 2)] = r0
    armv7m.strw_lsl_reg(GPR::R0, GPR::R3, GPR::R2, 2)?;
    armv7m.bx(SpecialRegister::Lr);
    Ok(())
}

} // verus!
