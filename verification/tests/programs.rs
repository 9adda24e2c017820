use armv7m::cpu::{Armv7m, Control, Stack};
use armv7m::lang::{GPR, SpecialRegister};
use armv7m::programs::{
    lsl_store_nvic, movw_r0, movw_r1, simple_mod, simple_shift, simple_store, simple_store_nvic,
    store_diff_maps, two_movs, two_movs_by_call, ICER1_ADDR,
};

fn cpu_with_registers() -> Armv7m {
    let mut cpu = Armv7m::new();
    for reg in [GPR::R0, GPR::R1, GPR::R2, GPR::R3, GPR::R4, GPR::R12] {
        cpu.update_general_reg(reg, 0x5555_5555);
    }
    cpu
}

#[test]
fn simple_mod_leaves_the_exception_number_modulo_32() {
    for (psr, expected) in [(0u32, 0u32), (31, 31), (32, 0), (45, 13), (255, 31), (0x1F2D, 13)] {
        let mut cpu = cpu_with_registers();
        cpu.update_special_reg(SpecialRegister::Psr, psr);
        simple_mod(&mut cpu);
        assert_eq!(cpu.get_value_from_general_reg(GPR::R0), expected);
        assert_eq!(cpu.get_value_from_general_reg(GPR::R1), 0x5555_5555);
        assert_eq!(cpu.get_value_from_special_reg(SpecialRegister::Psr), psr);
    }
}

#[test]
fn simple_shift_leaves_zero() {
    let mut cpu = cpu_with_registers();
    simple_shift(&mut cpu);
    assert_eq!(cpu.get_value_from_general_reg(GPR::R0), 0);
    assert_eq!(cpu.get_value_from_general_reg(GPR::R1), 0x5555_5555);
}

#[test]
fn simple_store_writes_the_system_timer() {
    let mut cpu = cpu_with_registers();
    simple_store(&mut cpu);
    assert_eq!(cpu.get_value_from_general_reg(GPR::R3), 0xE000_E010);
    assert_eq!(cpu.read32(0xE000_E010), Ok(1));
    assert_eq!(cpu.read32(0xE000_E014), Ok(0));
}

#[test]
fn store_diff_maps_writes_a_register_and_the_control_register() {
    let mut cpu = cpu_with_registers();
    cpu.update_special_reg(SpecialRegister::Control, 3);
    store_diff_maps(&mut cpu);
    assert_eq!(cpu.get_value_from_general_reg(GPR::R3), 0xE000_E010);
    assert_eq!(cpu.control(), Control { npriv: false, spsel: false });
    assert_eq!(cpu.get_value_from_special_reg(SpecialRegister::Control), 0);
    assert_eq!(cpu.active_stack(), Stack::Main);
}

#[test]
fn simple_store_nvic_writes_the_first_word() {
    let mut cpu = cpu_with_registers();
    simple_store_nvic(&mut cpu);
    assert_eq!(cpu.get_value_from_general_reg(GPR::R3), 0xE000_E180);
    assert_eq!(cpu.read32(0xE000_E180), Ok(1));
    assert_eq!(cpu.read32(0xE000_E184), Ok(0));
}

#[test]
fn lsl_store_nvic_writes_the_second_word() {
    let mut cpu = cpu_with_registers();
    lsl_store_nvic(&mut cpu);
    assert_eq!(ICER1_ADDR, 0xE000_E184);
    assert_eq!(cpu.read32(0xE000_E184), Ok(1));
    assert_eq!(cpu.get_value_from_general_reg(GPR::R0), 1);
    assert_eq!(cpu.get_value_from_general_reg(GPR::R1), 1);
    assert_eq!(cpu.get_value_from_general_reg(GPR::R3), 0xE000_E180);
    assert_eq!(cpu.get_value_from_general_reg(GPR::R2), 0x5555_5555);
}

#[test]
fn lsl_store_nvic_wrong() {
    // The store goes to the second word: the first is not the one that
    // changes.
    let mut cpu = cpu_with_registers();
    lsl_store_nvic(&mut cpu);
    assert_ne!(cpu.read32(0xE000_E180), Ok(1));
    assert_eq!(cpu.read32(0xE000_E180), Ok(0));
}

#[test]
fn movw_r0_loads_zero() {
    let mut cpu = cpu_with_registers();
    movw_r0(&mut cpu);
    assert_eq!(cpu.get_value_from_general_reg(GPR::R0), 0);
    assert_eq!(cpu.get_value_from_general_reg(GPR::R1), 0x5555_5555);
}

#[test]
fn movw_r1_loads_one() {
    let mut cpu = cpu_with_registers();
    movw_r1(&mut cpu);
    assert_eq!(cpu.get_value_from_general_reg(GPR::R1), 1);
    assert_eq!(cpu.get_value_from_general_reg(GPR::R0), 0x5555_5555);
}

#[test]
fn two_movs_load_zero_and_one() {
    let mut cpu = cpu_with_registers();
    two_movs(&mut cpu);
    assert_eq!(cpu.get_value_from_general_reg(GPR::R0), 0);
    assert_eq!(cpu.get_value_from_general_reg(GPR::R1), 1);
    assert_eq!(cpu.get_value_from_general_reg(GPR::R2), 0x5555_5555);
    let mut cpu = cpu_with_registers();
    two_movs_by_call(&mut cpu);
    assert_eq!(cpu.get_value_from_general_reg(GPR::R0), 0);
    assert_eq!(cpu.get_value_from_general_reg(GPR::R1), 1);
    assert_eq!(cpu.get_value_from_general_reg(GPR::R2), 0x5555_5555);
}
