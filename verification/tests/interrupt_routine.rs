use armv7m::arm_isr::generic_isr_armv7m;
use armv7m::insns::{lsl, lsr};
use armv7m::cpu::{Armv7m, CPUMode, Control, Stack};
use armv7m::fault::Fault;
use armv7m::lang::{GPR, IsbOpt, SpecialRegister};

const ICER: u32 = 0xE000_E180;
const ISPR: u32 = 0xE000_E200;

fn serving(exception_number: u32) -> Armv7m {
    let mut cpu = Armv7m::new();
    cpu.update_special_reg(SpecialRegister::Psr, exception_number);
    cpu
}

/// Checks the sixteen words of the two tracking banks: the word `word` holds
/// `value`, the others hold zero.
fn assert_only_word(cpu: &Armv7m, word: u32, value: u32) {
    for base in [ICER, ISPR] {
        for i in 0..16u32 {
            let expected = if i == word { value } else { 0 };
            assert_eq!(cpu.read32(base + 4 * i), Ok(expected));
        }
    }
}

#[test]
fn interrupt_45_sets_bit_29_of_word_0() {
    let mut cpu = serving(45);
    assert_eq!(generic_isr_armv7m(&mut cpu), Ok(()));
    assert_eq!(cpu.read32(0xE000_E180), Ok(1 << 29));
    assert_eq!(cpu.read32(0xE000_E200), Ok(1 << 29));
    assert_only_word(&cpu, 0, 0x2000_0000);
    assert_eq!(cpu.get_value_from_general_reg(GPR::R0), 0x2000_0000);
    assert_eq!(cpu.get_value_from_general_reg(GPR::R2), 0);
    assert_eq!(cpu.get_value_from_general_reg(GPR::R3), 0xE000_E200);
    assert_eq!(cpu.get_value_from_special_reg(SpecialRegister::Lr), 0xFFFF_FFF9);
    assert_eq!(cpu.control(), Control { npriv: false, spsel: false });
    assert_eq!(cpu.get_value_from_special_reg(SpecialRegister::Psr), 45);
}

#[test]
fn interrupt_routine_touches_no_other_word() {
    let mut cpu = serving(45);
    let watched: Vec<u32> = (0xE000_E000u32..0xE000_F000)
        .step_by(4)
        .filter(|a| *a != 0xE000_E180 && *a != 0xE000_E200)
        .collect();
    let before: Vec<Result<u32, Fault>> = watched.iter().map(|a| cpu.read32(*a)).collect();
    assert_eq!(generic_isr_armv7m(&mut cpu), Ok(()));
    let after: Vec<Result<u32, Fault>> = watched.iter().map(|a| cpu.read32(*a)).collect();
    assert_eq!(before, after);
    for reg in [
        GPR::R1,
        GPR::R4,
        GPR::R5,
        GPR::R6,
        GPR::R7,
        GPR::R8,
        GPR::R9,
        GPR::R10,
        GPR::R11,
        GPR::R12,
    ] {
        assert_eq!(cpu.get_value_from_general_reg(reg), 0);
    }
    assert_eq!(cpu.stack_pointer(Stack::Main), 0);
    assert_eq!(cpu.stack_pointer(Stack::Process), 0);
    assert_eq!(cpu.mode(), CPUMode::Thread);
}

#[test]
fn interrupt_routine_by_exception_number() {
    let cases: [(u32, u32, u32); 9] = [
        (16, 0, 0),
        (17, 0, 1),
        (47, 0, 31),
        (48, 1, 0),
        (79, 1, 31),
        (80, 2, 0),
        (100, 2, 20),
        (239, 6, 31),
        (255, 7, 15),
    ];
    for (number, word, bit) in cases {
        let mut cpu = serving(number);
        assert_eq!(generic_isr_armv7m(&mut cpu), Ok(()), "exception {}", number);
        assert_only_word(&cpu, word, 1 << bit);
        assert_eq!(cpu.get_value_from_general_reg(GPR::R0), 1 << bit);
        assert_eq!(cpu.get_value_from_general_reg(GPR::R2), word);
        assert_eq!(cpu.get_value_from_general_reg(GPR::R3), 0xE000_E200);
    }
}

#[test]
fn interrupt_routine_for_every_external_interrupt() {
    for number in 16..=255u32 {
        let mut cpu = serving(number);
        assert_eq!(generic_isr_armv7m(&mut cpu), Ok(()));
        assert_only_word(&cpu, (number - 16) / 32, 1 << ((number - 16) % 32));
    }
}

#[test]
fn interrupt_routine_reads_only_the_low_byte_of_the_status_register() {
    let mut cpu = serving(0xABCD_EF2D);
    assert_eq!(generic_isr_armv7m(&mut cpu), Ok(()));
    assert_only_word(&cpu, 0, 1 << 29);
    assert_eq!(cpu.get_value_from_special_reg(SpecialRegister::Psr), 0xABCD_EF2D);
}

#[test]
fn interrupt_routine_stores_the_word_whole() {
    let mut cpu = serving(45);
    assert_eq!(cpu.write32(0xE000_E180, 0xFFFF_FFFF), Ok(()));
    assert_eq!(cpu.write32(0xE000_E200, 0x0000_0001), Ok(()));
    assert_eq!(generic_isr_armv7m(&mut cpu), Ok(()));
    assert_only_word(&cpu, 0, 1 << 29);
}

#[test]
fn interrupt_routine_clears_the_control_register() {
    let mut cpu = serving(45);
    cpu.update_special_reg(SpecialRegister::Control, 3);
    assert_eq!(generic_isr_armv7m(&mut cpu), Ok(()));
    assert_eq!(cpu.control(), Control { npriv: false, spsel: false });
}

#[test]
fn interrupt_routine_after_entry() {
    let mut cpu = Armv7m::new();
    cpu.update_stack_pointer(Stack::Main, 0xE000_E480);
    assert_eq!(cpu.exception_entry(45), Ok(()));
    assert_eq!(generic_isr_armv7m(&mut cpu), Ok(()));
    assert_only_word(&cpu, 0, 1 << 29);
    let return_code = cpu.bx(SpecialRegister::Lr);
    assert_eq!(return_code, 0xFFFF_FFF9);
    assert_eq!(cpu.exception_exit(return_code), Ok(()));
    assert_eq!(cpu.mode(), CPUMode::Thread);
    assert_eq!(cpu.stack_pointer(Stack::Main), 0xE000_E480);
    assert_eq!(cpu.get_value_from_general_reg(GPR::R0), 0);
    assert_only_word(&cpu, 0, 1 << 29);
}

#[test]
fn interrupt_routine_fails_below_the_first_external_interrupt() {
    for number in 0..16u32 {
        let mut cpu = serving(number);
        cpu.update_general_reg(GPR::R1, 0x77);
        assert_eq!(generic_isr_armv7m(&mut cpu), Err(Fault::InvalidAddress));
        // No word was stored.
        assert_only_word(&cpu, 16, 0);
        // The registers are as the instructions before the store left them.
        assert_eq!(cpu.get_value_from_general_reg(GPR::R0), 1 << (number + 16));
        assert_eq!(cpu.get_value_from_general_reg(GPR::R2), 0x07FF_FFFF);
        assert_eq!(cpu.get_value_from_general_reg(GPR::R3), 0xE000_E180);
        assert_eq!(cpu.get_value_from_general_reg(GPR::R1), 0x77);
        assert_eq!(cpu.get_value_from_special_reg(SpecialRegister::Lr), 0xFFFF_FFF9);
        assert_eq!(cpu.control(), Control { npriv: false, spsel: false });
    }
}

#[test]
fn shifts() {
    assert_eq!(lsl(1, 0), 1);
    assert_eq!(lsl(1, 31), 0x8000_0000);
    assert_eq!(lsl(3, 31), 0x8000_0000);
    assert_eq!(lsl(1, 32), 0);
    assert_eq!(lsl(0xFFFF_FFFF, 255), 0);
    assert_eq!(lsl(0x07FF_FFFF, 2), 0x1FFF_FFFC);
    assert_eq!(lsr(0x8000_0000, 31), 1);
    assert_eq!(lsr(0x8000_0000, 32), 0);
    assert_eq!(lsr(29, 5), 0);
    assert_eq!(lsr(0xFFFF_FFF0, 5), 0x07FF_FFFF);
    assert_eq!(lsr(0xFFFF_FFFF, 0), 0xFFFF_FFFF);
}

#[test]
fn instructions_on_registers() {
    let mut cpu = Armv7m::new();
    cpu.movw_imm(GPR::R4, 0x1234);
    assert_eq!(cpu.get_value_from_general_reg(GPR::R4), 0x1234);
    cpu.movs_imm(GPR::R5, 0x5678);
    assert_eq!(cpu.get_value_from_general_reg(GPR::R5), 0x5678);
    cpu.pseudo_ldr(GPR::R6, 0xE000_E180);
    assert_eq!(cpu.get_value_from_general_reg(GPR::R6), 0xE000_E180);
    cpu.and_imm(GPR::R4, 0x0FF0);
    assert_eq!(cpu.get_value_from_general_reg(GPR::R4), 0x0230);
    cpu.subw_imm(GPR::R7, GPR::R4, 0x30);
    assert_eq!(cpu.get_value_from_general_reg(GPR::R7), 0x0200);
    assert_eq!(cpu.get_value_from_general_reg(GPR::R4), 0x0230);
    cpu.subw_imm(GPR::R7, GPR::R7, 0x201);
    assert_eq!(cpu.get_value_from_general_reg(GPR::R7), 0xFFFF_FFFF);
    cpu.lsrs_imm(GPR::R8, GPR::R7, 28);
    assert_eq!(cpu.get_value_from_general_reg(GPR::R8), 0xF);
    cpu.lsrs_imm(GPR::R8, GPR::R7, 32);
    assert_eq!(cpu.get_value_from_general_reg(GPR::R8), 0);
    cpu.movw_imm(GPR::R9, 0x0000_0104);
    cpu.lslw_reg(GPR::R10, GPR::R5, GPR::R9);
    // Only the low byte of the shift register counts.
    assert_eq!(cpu.get_value_from_general_reg(GPR::R10), 0x5678 << 4);
    cpu.movw_imm(GPR::R9, 0x20);
    cpu.lslw_reg(GPR::R10, GPR::R5, GPR::R9);
    assert_eq!(cpu.get_value_from_general_reg(GPR::R10), 0);
}

#[test]
fn instructions_on_special_registers() {
    let mut cpu = Armv7m::new();
    cpu.pseudo_ldr_special(SpecialRegister::Lr, 0xFFFF_FFF9);
    assert_eq!(cpu.get_value_from_special_reg(SpecialRegister::Lr), 0xFFFF_FFF9);
    assert_eq!(cpu.bx(SpecialRegister::Lr), 0xFFFF_FFF9);
    cpu.movw_imm(GPR::R0, 3);
    cpu.msr(SpecialRegister::Control, GPR::R0);
    assert_eq!(cpu.control(), Control { npriv: true, spsel: true });
    cpu.mrs(GPR::R1, SpecialRegister::Control);
    assert_eq!(cpu.get_value_from_general_reg(GPR::R1), 3);
    cpu.movw_imm(GPR::R0, 0x0100_0030);
    cpu.msr(SpecialRegister::Psr, GPR::R0);
    cpu.mrs(GPR::R2, SpecialRegister::Ipsr);
    assert_eq!(cpu.get_value_from_general_reg(GPR::R2), 0x30);
    cpu.mrs(GPR::R2, SpecialRegister::Psr);
    assert_eq!(cpu.get_value_from_general_reg(GPR::R2), 0x0100_0030);
    cpu.movw_imm(GPR::R0, 0x2000_0100);
    cpu.msr(SpecialRegister::Sp, GPR::R0);
    assert_eq!(cpu.stack_pointer(Stack::Process), 0x2000_0100);
    assert_eq!(cpu.stack_pointer(Stack::Main), 0);
    cpu.isb(Some(IsbOpt::Sys));
    cpu.isb(None);
    assert_eq!(cpu.stack_pointer(Stack::Process), 0x2000_0100);
    assert_eq!(cpu.get_value_from_general_reg(GPR::R0), 0x2000_0100);
}

#[test]
fn store_instructions() {
    let mut cpu = Armv7m::new();
    cpu.movw_imm(GPR::R0, 0xAA);
    cpu.movw_imm(GPR::R3, 0xE000_E400);
    cpu.movw_imm(GPR::R2, 3);
    assert_eq!(cpu.strw_lsl_reg(GPR::R0, GPR::R3, GPR::R2, 2), Ok(()));
    assert_eq!(cpu.read32(0xE000_E40C), Ok(0xAA));
    assert_eq!(cpu.strw_lsl_reg(GPR::R0, GPR::R3, GPR::R2, 0), Err(Fault::InvalidAddress));
    assert_eq!(cpu.strw_lsl_reg(GPR::R0, GPR::R3, GPR::R2, 32), Ok(()));
    assert_eq!(cpu.read32(0xE000_E400), Ok(0xAA));
    assert_eq!(cpu.str_direct(0xBB, GPR::R3), Ok(()));
    assert_eq!(cpu.read32(0xE000_E400), Ok(0xBB));
    cpu.movw_imm(GPR::R3, 0xE000_ED00);
    assert_eq!(cpu.str_direct(0xBB, GPR::R3), Err(Fault::InvalidAddress));
    cpu.movw_imm(GPR::R3, 0xE000_EF90);
    assert_eq!(cpu.str_direct(0xBB, GPR::R3), Err(Fault::UnimplementedRegion));
    // The address wraps around.
    cpu.movw_imm(GPR::R3, 0xF000_E400);
    cpu.movw_imm(GPR::R2, 0x3C00_0000);
    assert_eq!(cpu.strw_lsl_reg(GPR::R0, GPR::R3, GPR::R2, 2), Ok(()));
    assert_eq!(cpu.read32(0xE000_E400), Ok(0xAA));
}
