//! The system control space: the identification registers at the bottom of the
//! system control space, the system control block, and the software-triggered
//! interrupt register.

use vstd::prelude::*;
use crate::fault::Fault;

verus! {

/// The addresses of the block's registers.
pub const ICTR_ADDR: u32 = 0xE000_E004;
pub const ACTLR_ADDR: u32 = 0xE000_E008;
pub const STIR_ADDR: u32 = 0xE000_EF00;
pub const CPUID_ADDR: u32 = 0xE000_ED00;
pub const ICSR_ADDR: u32 = 0xE000_ED04;
pub const VTOR_ADDR: u32 = 0xE000_ED08;
pub const AIRCR_ADDR: u32 = 0xE000_ED0C;
pub const SCR_ADDR: u32 = 0xE000_ED10;
pub const CCR_ADDR: u32 = 0xE000_ED14;
pub const SHPR1_ADDR: u32 = 0xE000_ED18;
pub const SHPR2_ADDR: u32 = 0xE000_ED1C;
pub const SHPR3_ADDR: u32 = 0xE000_ED20;
pub const SHCSR_ADDR: u32 = 0xE000_ED24;
pub const CFSR_ADDR: u32 = 0xE000_ED28;
pub const HFSR_ADDR: u32 = 0xE000_ED2C;
pub const DFSR_ADDR: u32 = 0xE000_ED30;
pub const MMFAR_ADDR: u32 = 0xE000_ED34;
pub const BFAR_ADDR: u32 = 0xE000_ED38;
pub const AFSR_ADDR: u32 = 0xE000_ED3C;
pub const CPACR_ADDR: u32 = 0xE000_ED88;

/// What the application interrupt and reset control register holds after reset:
/// the key field reads as `0xFA05`, every other field as zero.
pub const AIRCR_RESET: u32 = 0xFA05_0000;

/// The registers of the system control space.
#[derive(Clone, Copy, Debug, PartialEq, Eq, Structural)]
pub enum SysControlReg {
    /// Interrupt controller type, read-only.
    Ictr,
    /// Auxiliary control.
    Actlr,
    /// Software-triggered interrupt. A read gives back what was last written.
    Stir,
    /// Processor identification, read-only.
    Cpuid,
    /// Interrupt control and state.
    Icsr,
    /// Vector table offset.
    Vtor,
    /// Application interrupt and reset control.
    Aircr,
    /// System control.
    Scr,
    /// Configuration and control.
    Ccr,
    /// System handler priorities, first word.
    Shpr1,
    /// System handler priorities, second word.
    Shpr2,
    /// System handler priorities, third word.
    Shpr3,
    /// System handler control and state.
    Shcsr,
    /// Configurable fault status.
    Cfsr,
    /// Hard fault status.
    Hfsr,
    /// Debug fault status.
    Dfsr,
    /// Memory management fault address.
    Mmfar,
    /// Bus fault address.
    Bfar,
    /// Auxiliary fault status.
    Afsr,
    /// Coprocessor access control.
    Cpacr,
}

impl SysControlReg {
    /// The register that lives at `address`, if any.
    pub open spec fn spec_decode(address: u32) -> Option<SysControlReg> {
        if address == ICTR_ADDR {
            Some(SysControlReg::Ictr)
        } else if address == ACTLR_ADDR {
            Some(SysControlReg::Actlr)
        } else if address == STIR_ADDR {
            Some(SysControlReg::Stir)
        } else if address == CPUID_ADDR {
            Some(SysControlReg::Cpuid)
        } else if address == ICSR_ADDR {
            Some(SysControlReg::Icsr)
        } else if address == VTOR_ADDR {
            Some(SysControlReg::Vtor)
        } else if address == AIRCR_ADDR {
            Some(SysControlReg::Aircr)
        } else if address == SCR_ADDR {
            Some(SysControlReg::Scr)
        } else if address == CCR_ADDR {
            Some(SysControlReg::Ccr)
        } else if address == SHPR1_ADDR {
            Some(SysControlReg::Shpr1)
        } else if address == SHPR2_ADDR {
            Some(SysControlReg::Shpr2)
        } else if address == SHPR3_ADDR {
            Some(SysControlReg::Shpr3)
        } else if address == SHCSR_ADDR {
            Some(SysControlReg::Shcsr)
        } else if address == CFSR_ADDR {
            Some(SysControlReg::Cfsr)
        } else if address == HFSR_ADDR {
            Some(SysControlReg::Hfsr)
        } else if address == DFSR_ADDR {
            Some(SysControlReg::Dfsr)
        } else if address == MMFAR_ADDR {
            Some(SysControlReg::Mmfar)
        } else if address == BFAR_ADDR {
            Some(SysControlReg::Bfar)
        } else if address == AFSR_ADDR {
            Some(SysControlReg::Afsr)
        } else if address == CPACR_ADDR {
            Some(SysControlReg::Cpacr)
        } else {
            None
        }
    }

    /// The address at which the register is mapped.
    pub open spec fn spec_address(self) -> u32 {
        match self {
            SysControlReg::Ictr => ICTR_ADDR,
            SysControlReg::Actlr => ACTLR_ADDR,
            SysControlReg::Stir => STIR_ADDR,
            SysControlReg::Cpuid => CPUID_ADDR,
            SysControlReg::Icsr => ICSR_ADDR,
            SysControlReg::Vtor => VTOR_ADDR,
            SysControlReg::Aircr => AIRCR_ADDR,
            SysControlReg::Scr => SCR_ADDR,
            SysControlReg::Ccr => CCR_ADDR,
            SysControlReg::Shpr1 => SHPR1_ADDR,
            SysControlReg::Shpr2 => SHPR2_ADDR,
            SysControlReg::Shpr3 => SHPR3_ADDR,
            SysControlReg::Shcsr => SHCSR_ADDR,
            SysControlReg::Cfsr => CFSR_ADDR,
            SysControlReg::Hfsr => HFSR_ADDR,
            SysControlReg::Dfsr => DFSR_ADDR,
            SysControlReg::Mmfar => MMFAR_ADDR,
            SysControlReg::Bfar => BFAR_ADDR,
            SysControlReg::Afsr => AFSR_ADDR,
            SysControlReg::Cpacr => CPACR_ADDR,
        }
    }

    /// The position of the register in the block's storage.
    pub open spec fn spec_slot(self) -> int {
        match self {
            SysControlReg::Ictr => 0,
            SysControlReg::Actlr => 1,
            SysControlReg::Stir => 2,
            SysControlReg::Cpuid => 3,
            SysControlReg::Icsr => 4,
            SysControlReg::Vtor => 5,
            SysControlReg::Aircr => 6,
            SysControlReg::Scr => 7,
            SysControlReg::Ccr => 8,
            SysControlReg::Shpr1 => 9,
            SysControlReg::Shpr2 => 10,
            SysControlReg::Shpr3 => 11,
            SysControlReg::Shcsr => 12,
            SysControlReg::Cfsr => 13,
            SysControlReg::Hfsr => 14,
            SysControlReg::Dfsr => 15,
            SysControlReg::Mmfar => 16,
            SysControlReg::Bfar => 17,
            SysControlReg::Afsr => 18,
            SysControlReg::Cpacr => 19,
        }
    }

    /// Whether software may write the register.
    pub open spec fn spec_writable(self) -> bool {
        match self {
            SysControlReg::Ictr | SysControlReg::Cpuid => false,
            _ => true,
        }
    }

    /// Finds the register that lives at `address`.
    pub fn decode(address: u32) -> (r: Option<SysControlReg>)
        ensures
            r == Self::spec_decode(address),
    {
        if address == ICTR_ADDR {
            Some(SysControlReg::Ictr)
        } else if address == ACTLR_ADDR {
            Some(SysControlReg::Actlr)
        } else if address == STIR_ADDR {
            Some(SysControlReg::Stir)
        } else if address == CPUID_ADDR {
            Some(SysControlReg::Cpuid)
        } else if address == ICSR_ADDR {
            Some(SysControlReg::Icsr)
        } else if address == VTOR_ADDR {
            Some(SysControlReg::Vtor)
        } else if address == AIRCR_ADDR {
            Some(SysControlReg::Aircr)
        } else if address == SCR_ADDR {
            Some(SysControlReg::Scr)
        } else if address == CCR_ADDR {
            Some(SysControlReg::Ccr)
        } else if address == SHPR1_ADDR {
            Some(SysControlReg::Shpr1)
        } else if address == SHPR2_ADDR {
            Some(SysControlReg::Shpr2)
        } else if address == SHPR3_ADDR {
            Some(SysControlReg::Shpr3)
        } else if address == SHCSR_ADDR {
            Some(SysControlReg::Shcsr)
        } else if address == CFSR_ADDR {
            Some(SysControlReg::Cfsr)
        } else if address == HFSR_ADDR {
            Some(SysControlReg::Hfsr)
        } else if address == DFSR_ADDR {
            Some(SysControlReg::Dfsr)
        } else if address == MMFAR_ADDR {
            Some(SysControlReg::Mmfar)
        } else if address == BFAR_ADDR {
            Some(SysControlReg::Bfar)
        } else if address == AFSR_ADDR {
            Some(SysControlReg::Afsr)
        } else if address == CPACR_ADDR {
            Some(SysControlReg::Cpacr)
        } else {
            None
        }
    }

    /// The address at which the register is mapped.
    pub fn address(self) -> (a: u32)
        ensures
            a == self.spec_address(),
    {
        match self {
            SysControlReg::Ictr => ICTR_ADDR,
            SysControlReg::Actlr => ACTLR_ADDR,
            SysControlReg::Stir => STIR_ADDR,
            SysControlReg::Cpuid => CPUID_ADDR,
            SysControlReg::Icsr => ICSR_ADDR,
            SysControlReg::Vtor => VTOR_ADDR,
            SysControlReg::Aircr => AIRCR_ADDR,
            SysControlReg::Scr => SCR_ADDR,
            SysControlReg::Ccr => CCR_ADDR,
            SysControlReg::Shpr1 => SHPR1_ADDR,
            SysControlReg::Shpr2 => SHPR2_ADDR,
            SysControlReg::Shpr3 => SHPR3_ADDR,
            SysControlReg::Shcsr => SHCSR_ADDR,
            SysControlReg::Cfsr => CFSR_ADDR,
            SysControlReg::Hfsr => HFSR_ADDR,
            SysControlReg::Dfsr => DFSR_ADDR,
            SysControlReg::Mmfar => MMFAR_ADDR,
            SysControlReg::Bfar => BFAR_ADDR,
            SysControlReg::Afsr => AFSR_ADDR,
            SysControlReg::Cpacr => CPACR_ADDR,
        }
    }

    /// The position of the register in the block's storage.
    pub fn slot(self) -> (i: usize)
        ensures
            i == self.spec_slot(),
    {
        match self {
            SysControlReg::Ictr => 0,
            SysControlReg::Actlr => 1,
            SysControlReg::Stir => 2,
            SysControlReg::Cpuid => 3,
            SysControlReg::Icsr => 4,
            SysControlReg::Vtor => 5,
            SysControlReg::Aircr => 6,
            SysControlReg::Scr => 7,
            SysControlReg::Ccr => 8,
            SysControlReg::Shpr1 => 9,
            SysControlReg::Shpr2 => 10,
            SysControlReg::Shpr3 => 11,
            SysControlReg::Shcsr => 12,
            SysControlReg::Cfsr => 13,
            SysControlReg::Hfsr => 14,
            SysControlReg::Dfsr => 15,
            SysControlReg::Mmfar => 16,
            SysControlReg::Bfar => 17,
            SysControlReg::Afsr => 18,
            SysControlReg::Cpacr => 19,
        }
    }

    /// Whether software may write the register.
    pub fn writable(self) -> (w: bool)
        ensures
            w == self.spec_writable(),
    {
        match self {
            SysControlReg::Ictr | SysControlReg::Cpuid => false,
            _ => true,
        }
    }

    /// Decoding undoes `address`: every register has an address of its own.
    pub proof fn lemma_decode_address(self)
        ensures
            Self::spec_decode(self.spec_address()) == Some(self),
    {
    }
}

/// The system control space: twenty registers, of which the interrupt
/// controller type and the processor identification are read-only.
#[derive(Debug)]
pub struct SysControlSpace {
    regs: [u32; 20],
}

impl View for SysControlSpace {
    type V = Map<u32, u32>;

    /// The block as a map from each register's address to its value.
    closed spec fn view(&self) -> Map<u32, u32> {
        Map::new(
            |a: u32| SysControlSpace::is_valid_read_addr(a),
            |a: u32| self.regs[SysControlReg::spec_decode(a).unwrap().spec_slot()],
        )
    }
}

impl SysControlSpace {
    /// The addresses that can be read: those of the block's registers.
    pub open spec fn is_valid_read_addr(address: u32) -> bool {
        ||| address == ICTR_ADDR
        ||| address == ACTLR_ADDR
        ||| address == STIR_ADDR
        ||| address == CPUID_ADDR
        ||| address == ICSR_ADDR
        ||| address == VTOR_ADDR
        ||| address == AIRCR_ADDR
        ||| address == SCR_ADDR
        ||| address == CCR_ADDR
        ||| address == SHPR1_ADDR
        ||| address == SHPR2_ADDR
        ||| address == SHPR3_ADDR
        ||| address == SHCSR_ADDR
        ||| address == CFSR_ADDR
        ||| address == HFSR_ADDR
        ||| address == DFSR_ADDR
        ||| address == MMFAR_ADDR
        ||| address == BFAR_ADDR
        ||| address == AFSR_ADDR
        ||| address == CPACR_ADDR
    }

    /// The addresses that can be written: those of the registers that are not
    /// read-only.
    pub open spec fn is_valid_write_addr(address: u32) -> bool {
        ||| address == ACTLR_ADDR
        ||| address == STIR_ADDR
        ||| address == ICSR_ADDR
        ||| address == VTOR_ADDR
        ||| address == AIRCR_ADDR
        ||| address == SCR_ADDR
        ||| address == CCR_ADDR
        ||| address == SHPR1_ADDR
        ||| address == SHPR2_ADDR
        ||| address == SHPR3_ADDR
        ||| address == SHCSR_ADDR
        ||| address == CFSR_ADDR
        ||| address == HFSR_ADDR
        ||| address == DFSR_ADDR
        ||| address == MMFAR_ADDR
        ||| address == BFAR_ADDR
        ||| address == AFSR_ADDR
        ||| address == CPACR_ADDR
    }

    /// The value that the register at `address` holds after reset.
    pub open spec fn spec_reset_value(address: u32) -> u32 {
        if address == AIRCR_ADDR {
            AIRCR_RESET
        } else {
            0
        }
    }

    /// An address decodes to a register exactly where it can be read, the
    /// register is mapped there, and it is writable exactly where the address
    /// can be written.
    pub proof fn lemma_decode(address: u32)
        ensures
            SysControlReg::spec_decode(address) is Some <==> Self::is_valid_read_addr(address),
            SysControlReg::spec_decode(address) matches Some(reg) ==> reg.spec_address() == address
                && (reg.spec_writable() <==> Self::is_valid_write_addr(address)),
    {
    }

    /// The view maps exactly the addresses that can be read.
    pub proof fn lemma_view_domain(&self)
        ensures
            forall|a: u32| self@.dom().contains(a) <==> Self::is_valid_read_addr(a),
    {
    }

    /// The block as it is after reset: the application interrupt and reset control
    /// register holds `AIRCR_RESET`, every other register zero.
    pub fn new() -> (s: SysControlSpace)
        ensures
            forall|a: u32|
                #![trigger s@[a]]
                Self::is_valid_read_addr(a) ==> s@[a] == Self::spec_reset_value(a),
    {
        let mut regs: [u32; 20] = [0u32; 20];
        regs[SysControlReg::Aircr.slot()] = AIRCR_RESET;
        SysControlSpace { regs }
    }

    /// The value of `reg`.
    fn get(&self, reg: SysControlReg) -> (v: u32)
        ensures
            v == self@[reg.spec_address()],
    {
        self.regs[reg.slot()]
    }

    /// Stores `value` in `reg`, whether or not software may write it.
    fn set(&mut self, reg: SysControlReg, value: u32)
        ensures
            final(self)@ == old(self)@.insert(reg.spec_address(), value),
    {
        let slot: usize = reg.slot();
        self.regs[slot] = value;
    }

    /// Reads the register at `address`.
    pub fn read(&self, address: u32) -> (r: Result<u32, Fault>)
        ensures
            Self::is_valid_read_addr(address) ==> r == Ok::<u32, Fault>(self@[address]),
            !Self::is_valid_read_addr(address) ==> r == Err::<u32, Fault>(Fault::InvalidAddress),
    {
        match SysControlReg::decode(address) {
            Some(reg) => Ok(self.get(reg)),
            None => Err(Fault::InvalidAddress),
        }
    }

    /// Writes `value` to the register at `address`, if there is one and it
    /// takes writes; otherwise the block is left as it was.
    pub fn write(&mut self, address: u32, value: u32) -> (r: Result<(), Fault>)
        ensures
            Self::is_valid_write_addr(address) ==> r is Ok && final(self)@ == old(self)@.insert(
                address,
                value,
            ),
            !Self::is_valid_write_addr(address) ==> r == Err::<(), Fault>(Fault::InvalidAddress)
                && *final(self) == *old(self),
    {
        match SysControlReg::decode(address) {
            Some(reg) => {
                if reg.writable() {
                    self.set(reg, value);
                    Ok(())
                } else {
                    Err(Fault::InvalidAddress)
                }
            },
            None => Err(Fault::InvalidAddress),
        }
    }
}

} // verus!
