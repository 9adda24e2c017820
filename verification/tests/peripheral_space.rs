use armv7m::fault::Fault;
use armv7m::mem::mpu::{Mpu, MpuReg, MPU_CTRL_ADDR, MPU_RASR_A3_ADDR, MPU_TYPE_ADDR};
use armv7m::mem::nvic::{Nvic, NvicBank, NvicReg};
use armv7m::mem::sys_control::{
    SysControlReg, SysControlSpace, ACTLR_ADDR, AIRCR_ADDR, AIRCR_RESET, CPACR_ADDR, CPUID_ADDR,
    ICTR_ADDR, STIR_ADDR,
};
use armv7m::mem::sys_tick::{SysTick, SysTickReg, SYST_CALIB_ADDR, SYST_CSR_ADDR};
use armv7m::mem::{Memory, Ppb, Region, Register};

/// Every address at which a register lives, in ascending order.
fn mapped_addresses() -> Vec<u32> {
    let mut all: Vec<u32> = vec![0xE000_E004, 0xE000_E008];
    all.extend((0..4).map(|i| 0xE000_E010 + 4 * i));
    for base in [0xE000_E100u32, 0xE000_E180, 0xE000_E200, 0xE000_E280, 0xE000_E300] {
        all.extend((0..16).map(|i| base + 4 * i));
    }
    all.extend((0..124).map(|i| 0xE000_E400 + 4 * i));
    all.extend((0..16).map(|i| 0xE000_ED00 + 4 * i));
    all.push(0xE000_ED88);
    all.extend((0..11).map(|i| 0xE000_ED90 + 4 * i));
    all.push(0xE000_EF00);
    all
}

const READ_ONLY: [u32; 4] = [0xE000_E004, 0xE000_E01C, 0xE000_ED00, 0xE000_ED90];

#[test]
fn cpuid_can_be_read() {
    let mem = Memory::new();
    assert_eq!(mem.read(0xE000_ED00), Ok(0));
    let ppb = Ppb::new();
    assert_eq!(ppb.read(0xE000_ED00), Ok(0));
}

#[test]
fn cpuid_cannot_be_written() {
    let mut mem = Memory::new();
    assert_eq!(mem.write(0xE000_ED00, 0x1234_5678), Err(Fault::InvalidAddress));
    assert_eq!(mem.read(0xE000_ED00), Ok(0));
    let mut ppb = Ppb::new();
    assert_eq!(ppb.write(0xE000_ED00, 0x1234_5678), Err(Fault::InvalidAddress));
    assert_eq!(ppb.read(0xE000_ED00), Ok(0));
}

#[test]
fn implementation_defined_band_is_unimplemented() {
    let mut mem = Memory::new();
    let mut ppb = Ppb::new();
    for address in 0xE000_EF90u32..=0xE000_EFCF {
        assert_eq!(mem.read(address), Err(Fault::UnimplementedRegion));
        assert_eq!(mem.write(address, 1), Err(Fault::UnimplementedRegion));
        assert_eq!(ppb.read(address), Err(Fault::UnimplementedRegion));
        assert_eq!(ppb.write(address, 1), Err(Fault::UnimplementedRegion));
    }
}

#[test]
fn debug_band_is_unimplemented() {
    let mut mem = Memory::new();
    for address in [0xE000_EDF0u32, 0xE000_EDF4, 0xE000_EE00, 0xE000_EEFF] {
        assert_eq!(mem.read(address), Err(Fault::UnimplementedRegion));
        assert_eq!(mem.write(address, 1), Err(Fault::UnimplementedRegion));
    }
}

#[test]
fn mcu_specific_band_is_unimplemented() {
    let mut mem = Memory::new();
    for address in [0xE000_EFD0u32, 0xE000_EFE0, 0xE000_EFFC, 0xE000_EFFF] {
        assert_eq!(mem.read(address), Err(Fault::UnimplementedRegion));
        assert_eq!(mem.write(address, 1), Err(Fault::UnimplementedRegion));
    }
}

#[test]
fn band_edges_are_exact() {
    let mem = Memory::new();
    // Last word of the memory protection unit's band, first of the debug band.
    assert_eq!(mem.read(0xE000_EDEC), Err(Fault::InvalidAddress));
    assert_eq!(mem.read(0xE000_EDEF), Err(Fault::InvalidAddress));
    assert_eq!(mem.read(0xE000_EDF0), Err(Fault::UnimplementedRegion));
    // The software-triggered interrupt register sits between two bands that
    // are not implemented.
    assert_eq!(mem.read(0xE000_EEFF), Err(Fault::UnimplementedRegion));
    assert_eq!(mem.read(0xE000_EF00), Ok(0));
    assert_eq!(mem.read(0xE000_EF04), Err(Fault::InvalidAddress));
    assert_eq!(mem.read(0xE000_EF8F), Err(Fault::InvalidAddress));
    assert_eq!(mem.read(0xE000_EF90), Err(Fault::UnimplementedRegion));
    assert_eq!(mem.read(0xE000_EFCF), Err(Fault::UnimplementedRegion));
    assert_eq!(mem.read(0xE000_EFD0), Err(Fault::UnimplementedRegion));
    assert_eq!(mem.read(0xE000_EFFF), Err(Fault::UnimplementedRegion));
    assert_eq!(mem.read(0xE000_F000), Err(Fault::InvalidAddress));
}

#[test]
fn addresses_outside_the_bus_are_invalid() {
    let mut mem = Memory::new();
    for address in [0u32, 0x2000_0000, 0xDFFF_FFFF, 0xE010_0000, 0xFFFF_FFFF] {
        assert_eq!(mem.read(address), Err(Fault::InvalidAddress));
        assert_eq!(mem.write(address, 1), Err(Fault::InvalidAddress));
    }
}

#[test]
fn bus_addresses_outside_every_band_are_invalid() {
    let mut mem = Memory::new();
    let mut ppb = Ppb::new();
    for address in [0xE000_0000u32, 0xE000_DFFC, 0xE000_F000, 0xE00F_FFFF] {
        assert_eq!(mem.read(address), Err(Fault::InvalidAddress));
        assert_eq!(mem.write(address, 1), Err(Fault::InvalidAddress));
        assert_eq!(ppb.read(address), Err(Fault::InvalidAddress));
        assert_eq!(ppb.write(address, 1), Err(Fault::InvalidAddress));
    }
}

#[test]
fn ppb_rejects_addresses_outside_the_bus() {
    let mut ppb = Ppb::new();
    for address in [0u32, 0x2000_0000, 0xFFFF_FFFF] {
        assert_eq!(ppb.read(address), Err(Fault::InvalidAddress));
        assert_eq!(ppb.write(address, 1), Err(Fault::InvalidAddress));
    }
}

#[test]
fn addresses_between_registers_are_invalid() {
    let mut mem = Memory::new();
    for address in [
        0xE000_E000u32,
        0xE000_E00C,
        0xE000_E020,
        0xE000_E0FC,
        0xE000_E140,
        0xE000_E1C0,
        0xE000_E340,
        0xE000_E3FC,
        0xE000_E5F0,
        0xE000_ECFC,
        0xE000_ED40,
        0xE000_ED84,
        0xE000_ED8C,
        0xE000_EDBC,
        0xE000_EF04,
    ] {
        assert_eq!(mem.read(address), Err(Fault::InvalidAddress));
        assert_eq!(mem.write(address, 1), Err(Fault::InvalidAddress));
    }
}

#[test]
fn unaligned_addresses_are_invalid() {
    let mut mem = Memory::new();
    for address in [0xE000_E101u32, 0xE000_E102, 0xE000_E103, 0xE000_E011, 0xE000_ED01, 0xE000_ED93]
    {
        assert_eq!(mem.read(address), Err(Fault::InvalidAddress));
        assert_eq!(mem.write(address, 1), Err(Fault::InvalidAddress));
    }
}

#[test]
fn there_are_239_registers() {
    assert_eq!(mapped_addresses().len(), 239);
}

#[test]
fn exactly_the_registers_can_be_read() {
    let mem = Memory::new();
    let mapped = mapped_addresses();
    for address in 0xE000_E000u32..0xE000_F000 {
        let expected = mapped.binary_search(&address).is_ok();
        assert_eq!(mem.read(address).is_ok(), expected, "address {:#x}", address);
        assert_eq!(Memory::is_readable(address), expected, "address {:#x}", address);
    }
}

#[test]
fn exactly_the_registers_that_are_not_read_only_can_be_written() {
    let mapped = mapped_addresses();
    for address in 0xE000_E000u32..0xE000_F000 {
        let mut mem = Memory::new();
        let expected = mapped.binary_search(&address).is_ok() && !READ_ONLY.contains(&address);
        assert_eq!(mem.write(address, 1).is_ok(), expected, "address {:#x}", address);
        assert_eq!(Memory::is_writable(address), expected, "address {:#x}", address);
    }
}

#[test]
fn what_can_be_written_can_be_read() {
    for address in 0xE000_E000u32..0xE000_F000 {
        if Memory::is_writable(address) {
            assert!(Memory::is_readable(address));
        }
    }
}

#[test]
fn read_only_registers_reject_writes() {
    let mut mem = Memory::new();
    for address in READ_ONLY {
        let before = mem.read(address);
        assert!(before.is_ok());
        assert_eq!(mem.write(address, 0xFFFF_FFFF), Err(Fault::InvalidAddress));
        assert_eq!(mem.read(address), before);
    }
}

#[test]
fn a_write_changes_its_register_and_no_other() {
    let mapped = mapped_addresses();
    let mut mem = Memory::new();
    let mut expected: Vec<u32> = mapped.iter().map(|a| mem.read(*a).unwrap()).collect();
    for (i, address) in mapped.iter().enumerate() {
        let value = 0xA500_0000 + i as u32;
        if mem.write(*address, value).is_ok() {
            expected[i] = value;
        }
        for (j, other) in mapped.iter().enumerate() {
            assert_eq!(mem.read(*other), Ok(expected[j]));
        }
    }
}

#[test]
fn a_failed_write_changes_nothing() {
    let mapped = mapped_addresses();
    let mut mem = Memory::new();
    for (i, address) in mapped.iter().enumerate() {
        let _ = mem.write(*address, i as u32 + 1);
    }
    let before: Vec<Result<u32, Fault>> = mapped.iter().map(|a| mem.read(*a)).collect();
    assert_eq!(mem.write(0xE000_ED00, 9), Err(Fault::InvalidAddress));
    assert_eq!(mem.write(0xE000_EF90, 9), Err(Fault::UnimplementedRegion));
    assert_eq!(mem.write(0x2000_0000, 9), Err(Fault::InvalidAddress));
    let after: Vec<Result<u32, Fault>> = mapped.iter().map(|a| mem.read(*a)).collect();
    assert_eq!(before, after);
}

#[test]
fn reset_values() {
    let mem = Memory::new();
    for address in mapped_addresses() {
        let expected = if address == AIRCR_ADDR { 0xFA05_0000 } else { 0 };
        assert_eq!(mem.read(address), Ok(expected), "address {:#x}", address);
    }
    assert_eq!(AIRCR_RESET, 0xFA05_0000);
}

#[test]
fn software_triggered_interrupt_register_reads_back() {
    let mut mem = Memory::new();
    assert_eq!(mem.write(STIR_ADDR, 0x21), Ok(()));
    assert_eq!(mem.read(STIR_ADDR), Ok(0x21));
}

#[test]
fn regions_by_address() {
    assert_eq!(Region::of(0xE000_E000), Some(Region::SystemControl));
    assert_eq!(Region::of(0xE000_E00F), Some(Region::SystemControl));
    assert_eq!(Region::of(0xE000_E010), Some(Region::SysTick));
    assert_eq!(Region::of(0xE000_E0FF), Some(Region::SysTick));
    assert_eq!(Region::of(0xE000_E100), Some(Region::Nvic));
    assert_eq!(Region::of(0xE000_ECFF), Some(Region::Nvic));
    assert_eq!(Region::of(0xE000_ED00), Some(Region::SystemControl));
    assert_eq!(Region::of(0xE000_ED8F), Some(Region::SystemControl));
    assert_eq!(Region::of(0xE000_ED90), Some(Region::Mpu));
    assert_eq!(Region::of(0xE000_EDEF), Some(Region::Mpu));
    assert_eq!(Region::of(0xE000_EDF0), Some(Region::Debug));
    assert_eq!(Region::of(0xE000_EEFF), Some(Region::Debug));
    assert_eq!(Region::of(0xE000_EF00), Some(Region::SystemControl));
    assert_eq!(Region::of(0xE000_EF8F), Some(Region::SystemControl));
    assert_eq!(Region::of(0xE000_EF90), Some(Region::ImplementationDefined));
    assert_eq!(Region::of(0xE000_EFCF), Some(Region::ImplementationDefined));
    assert_eq!(Region::of(0xE000_EFD0), Some(Region::McuSpecific));
    assert_eq!(Region::of(0xE000_EFFF), Some(Region::McuSpecific));
    assert_eq!(Region::of(0xE000_DFFF), None);
    assert_eq!(Region::of(0xE000_F000), None);
    assert_eq!(Region::of(0), None);
}

#[test]
fn implemented_regions() {
    assert!(Region::SystemControl.implemented());
    assert!(Region::SysTick.implemented());
    assert!(Region::Nvic.implemented());
    assert!(Region::Mpu.implemented());
    assert!(!Region::Debug.implemented());
    assert!(!Region::ImplementationDefined.implemented());
    assert!(!Region::McuSpecific.implemented());
}

#[test]
fn decode_names_the_register() {
    assert_eq!(Ppb::decode(0xE000_ED00), Ok(Register::SysControl(SysControlReg::Cpuid)));
    assert_eq!(Ppb::decode(0xE000_E004), Ok(Register::SysControl(SysControlReg::Ictr)));
    assert_eq!(Ppb::decode(0xE000_EF00), Ok(Register::SysControl(SysControlReg::Stir)));
    assert_eq!(Ppb::decode(0xE000_ED88), Ok(Register::SysControl(SysControlReg::Cpacr)));
    assert_eq!(Ppb::decode(0xE000_E018), Ok(Register::SysTick(SysTickReg::Cvr)));
    assert_eq!(Ppb::decode(0xE000_ED9C), Ok(Register::Mpu(MpuReg::Rbar)));
    assert_eq!(
        Ppb::decode(0xE000_E184),
        Ok(Register::Nvic(NvicReg { bank: NvicBank::Icer, index: 1 }))
    );
    assert_eq!(
        Ppb::decode(0xE000_E5EC),
        Ok(Register::Nvic(NvicReg { bank: NvicBank::Ipr, index: 123 }))
    );
    assert_eq!(Ppb::decode(0xE000_E5F0), Err(Fault::InvalidAddress));
    assert_eq!(Ppb::decode(0xE000_EF90), Err(Fault::UnimplementedRegion));
    assert_eq!(Ppb::decode(0x2000_0000), Err(Fault::InvalidAddress));
}

#[test]
fn every_register_has_an_address_of_its_own() {
    let mapped = mapped_addresses();
    let mut seen: Vec<Register> = Vec::new();
    for address in mapped {
        let reg = Ppb::decode(address).unwrap();
        assert_eq!(reg.address(), address);
        assert!(!seen.contains(&reg));
        seen.push(reg);
    }
}

#[test]
fn writable_registers_by_name() {
    assert!(!Register::SysControl(SysControlReg::Cpuid).writable());
    assert!(!Register::SysControl(SysControlReg::Ictr).writable());
    assert!(Register::SysControl(SysControlReg::Actlr).writable());
    assert!(Register::SysControl(SysControlReg::Stir).writable());
    assert!(!Register::SysTick(SysTickReg::Calib).writable());
    assert!(Register::SysTick(SysTickReg::Csr).writable());
    assert!(!Register::Mpu(MpuReg::Type).writable());
    assert!(Register::Mpu(MpuReg::Ctrl).writable());
    assert!(Register::Nvic(NvicReg { bank: NvicBank::Iabr, index: 15 }).writable());
}

#[test]
fn nvic_banks() {
    let banks = [
        (NvicBank::Iser, 0xE000_E100u32, 16u32, 0usize),
        (NvicBank::Icer, 0xE000_E180, 16, 16),
        (NvicBank::Ispr, 0xE000_E200, 16, 32),
        (NvicBank::Icpr, 0xE000_E280, 16, 48),
        (NvicBank::Iabr, 0xE000_E300, 16, 64),
        (NvicBank::Ipr, 0xE000_E400, 124, 80),
    ];
    for (bank, base, words, first_slot) in banks {
        assert_eq!(bank.base(), base);
        assert_eq!(bank.words(), words);
        assert_eq!(bank.first_slot(), first_slot);
        assert!(bank.holds(base));
        assert!(bank.holds(base + 4 * (words - 1)));
        assert!(!bank.holds(base + 4 * words));
        assert!(!bank.holds(base - 4));
        assert!(!bank.holds(base + 2));
        let last = NvicReg { bank, index: words - 1 };
        assert_eq!(last.address(), base + 4 * (words - 1));
        assert_eq!(last.slot(), first_slot + words as usize - 1);
        assert_eq!(NvicReg::decode(last.address()), Some(last));
    }
}

#[test]
fn nvic_block_on_its_own() {
    let mut nvic = Nvic::new();
    assert_eq!(nvic.read(0xE000_E100), Ok(0));
    assert_eq!(nvic.write(0xE000_E13C, 7), Ok(()));
    assert_eq!(nvic.read(0xE000_E13C), Ok(7));
    assert_eq!(nvic.read(0xE000_E140), Err(Fault::InvalidAddress));
    assert_eq!(nvic.write(0xE000_E140, 7), Err(Fault::InvalidAddress));
    assert_eq!(nvic.read(0xE000_ED00), Err(Fault::InvalidAddress));
}

#[test]
fn sys_tick_block_on_its_own() {
    let mut sys_tick = SysTick::new();
    assert_eq!(sys_tick.write(SYST_CSR_ADDR, 5), Ok(()));
    assert_eq!(sys_tick.read(SYST_CSR_ADDR), Ok(5));
    assert_eq!(sys_tick.write(SYST_CALIB_ADDR, 5), Err(Fault::InvalidAddress));
    assert_eq!(sys_tick.read(SYST_CALIB_ADDR), Ok(0));
    assert_eq!(sys_tick.read(0xE000_E020), Err(Fault::InvalidAddress));
    assert_eq!(SysTickReg::decode(0xE000_E014), Some(SysTickReg::Rvr));
    assert_eq!(SysTickReg::Rvr.address(), 0xE000_E014);
    assert_eq!(SysTickReg::Rvr.slot(), 1);
    assert_eq!(SysTickReg::decode(0xE000_E020), None);
}

#[test]
fn mpu_block_on_its_own() {
    let mut mpu = Mpu::new();
    assert_eq!(mpu.write(MPU_CTRL_ADDR, 5), Ok(()));
    assert_eq!(mpu.read(MPU_CTRL_ADDR), Ok(5));
    assert_eq!(mpu.write(MPU_RASR_A3_ADDR, 6), Ok(()));
    assert_eq!(mpu.read(MPU_RASR_A3_ADDR), Ok(6));
    assert_eq!(MPU_RASR_A3_ADDR, 0xE000_EDB8);
    assert_eq!(mpu.write(MPU_TYPE_ADDR, 5), Err(Fault::InvalidAddress));
    assert_eq!(mpu.read(MPU_TYPE_ADDR), Ok(0));
    assert_eq!(mpu.read(0xE000_EDBC), Err(Fault::InvalidAddress));
    assert_eq!(MpuReg::decode(0xE000_EDA0), Some(MpuReg::Rasr));
    assert_eq!(MpuReg::RasrA3.slot(), 10);
}

#[test]
fn sys_control_block_on_its_own() {
    let mut scs = SysControlSpace::new();
    assert_eq!(scs.read(AIRCR_ADDR), Ok(0xFA05_0000));
    assert_eq!(scs.write(ACTLR_ADDR, 5), Ok(()));
    assert_eq!(scs.read(ACTLR_ADDR), Ok(5));
    assert_eq!(scs.write(CPACR_ADDR, 6), Ok(()));
    assert_eq!(scs.read(CPACR_ADDR), Ok(6));
    assert_eq!(scs.write(ICTR_ADDR, 5), Err(Fault::InvalidAddress));
    assert_eq!(scs.write(CPUID_ADDR, 5), Err(Fault::InvalidAddress));
    assert_eq!(scs.read(0xE000_ED40), Err(Fault::InvalidAddress));
    assert_eq!(SysControlReg::decode(0xE000_ED3C), Some(SysControlReg::Afsr));
    assert_eq!(SysControlReg::Afsr.address(), 0xE000_ED3C);
    assert_eq!(SysControlReg::Cpacr.slot(), 19);
}
