//! The system timer block.

use vstd::prelude::*;
use crate::fault::Fault;

verus! {

/// The addresses of the block's registers.
pub const SYST_CSR_ADDR: u32 = 0xE000_E010;
pub const SYST_RVR_ADDR: u32 = 0xE000_E014;
pub const SYST_CVR_ADDR: u32 = 0xE000_E018;
pub const SYST_CALIB_ADDR: u32 = 0xE000_E01C;

/// The registers of the system timer.
#[derive(Clone, Copy, Debug, PartialEq, Eq, Structural)]
pub enum SysTickReg {
    /// Control and status.
    Csr,
    /// Reload value.
    Rvr,
    /// Current value.
    Cvr,
    /// Calibration value, read-only.
    Calib,
}

impl SysTickReg {
    /// The register that lives at `address`, if any.
    pub open spec fn spec_decode(address: u32) -> Option<SysTickReg> {
        if address == SYST_CSR_ADDR {
            Some(SysTickReg::Csr)
        } else if address == SYST_RVR_ADDR {
            Some(SysTickReg::Rvr)
        } else if address == SYST_CVR_ADDR {
            Some(SysTickReg::Cvr)
        } else if address == SYST_CALIB_ADDR {
            Some(SysTickReg::Calib)
        } else {
            None
        }
    }

    /// The address at which the register is mapped.
    pub open spec fn spec_address(self) -> u32 {
        match self {
            SysTickReg::Csr => SYST_CSR_ADDR,
            SysTickReg::Rvr => SYST_RVR_ADDR,
            SysTickReg::Cvr => SYST_CVR_ADDR,
            SysTickReg::Calib => SYST_CALIB_ADDR,
        }
    }

    /// The position of the register in the block's storage.
    pub open spec fn spec_slot(self) -> int {
        match self {
            SysTickReg::Csr => 0,
            SysTickReg::Rvr => 1,
            SysTickReg::Cvr => 2,
            SysTickReg::Calib => 3,
        }
    }

    /// Whether software may write the register.
    pub open spec fn spec_writable(self) -> bool {
        self != SysTickReg::Calib
    }

    /// Finds the register that lives at `address`.
    pub fn decode(address: u32) -> (r: Option<SysTickReg>)
        ensures
            r == Self::spec_decode(address),
    {
        if address == SYST_CSR_ADDR {
            Some(SysTickReg::Csr)
        } else if address == SYST_RVR_ADDR {
            Some(SysTickReg::Rvr)
        } else if address == SYST_CVR_ADDR {
            Some(SysTickReg::Cvr)
        } else if address == SYST_CALIB_ADDR {
            Some(SysTickReg::Calib)
        } else {
            None
        }
    }

    /// The address at which the register is mapped.
    pub fn address(self) -> (a: u32)
        ensures
            a == self.spec_address(),
    {
        match self {
            SysTickReg::Csr => SYST_CSR_ADDR,
            SysTickReg::Rvr => SYST_RVR_ADDR,
            SysTickReg::Cvr => SYST_CVR_ADDR,
            SysTickReg::Calib => SYST_CALIB_ADDR,
        }
    }

    /// The position of the register in the block's storage.
    pub fn slot(self) -> (i: usize)
        ensures
            i == self.spec_slot(),
    {
        match self {
            SysTickReg::Csr => 0,
            SysTickReg::Rvr => 1,
            SysTickReg::Cvr => 2,
            SysTickReg::Calib => 3,
        }
    }

    /// Whether software may write the register.
    pub fn writable(self) -> (w: bool)
        ensures
            w == self.spec_writable(),
    {
        match self {
            SysTickReg::Calib => false,
            _ => true,
        }
    }

    /// Decoding undoes `address`: every register has an address of its own.
    pub proof fn lemma_decode_address(self)
        ensures
            Self::spec_decode(self.spec_address()) == Some(self),
    {
    }
}

/// The system timer block: four registers, of which the calibration value is
/// read-only.
#[derive(Debug)]
pub struct SysTick {
    regs: [u32; 4],
}

impl View for SysTick {
    type V = Map<u32, u32>;

    /// The block as a map from each register's address to its value.
    closed spec fn view(&self) -> Map<u32, u32> {
        Map::new(
            |a: u32| SysTick::is_valid_read_addr(a),
            |a: u32| self.regs[SysTickReg::spec_decode(a).unwrap().spec_slot()],
        )
    }
}

impl SysTick {
    /// The addresses that can be read: those of the block's registers.
    pub open spec fn is_valid_read_addr(address: u32) -> bool {
        ||| address == SYST_CSR_ADDR
        ||| address == SYST_RVR_ADDR
        ||| address == SYST_CVR_ADDR
        ||| address == SYST_CALIB_ADDR
    }

    /// The addresses that can be written: those of the registers that are not
    /// read-only.
    pub open spec fn is_valid_write_addr(address: u32) -> bool {
        ||| address == SYST_CSR_ADDR
        ||| address == SYST_RVR_ADDR
        ||| address == SYST_CVR_ADDR
    }

    /// The value that the register at `address` holds after reset.
    pub open spec fn spec_reset_value(address: u32) -> u32 {
        0
    }

    /// An address decodes to a register exactly where it can be read, the
    /// register is mapped there, and it is writable exactly where the address
    /// can be written.
    pub proof fn lemma_decode(address: u32)
        ensures
            SysTickReg::spec_decode(address) is Some <==> Self::is_valid_read_addr(address),
            SysTickReg::spec_decode(address) matches Some(reg) ==> reg.spec_address() == address
                && (reg.spec_writable() <==> Self::is_valid_write_addr(address)),
    {
    }

    /// The view maps exactly the addresses that can be read.
    pub proof fn lemma_view_domain(&self)
        ensures
            forall|a: u32| self@.dom().contains(a) <==> Self::is_valid_read_addr(a),
    {
    }

    /// The block as it is after reset: every register holds zero.
    pub fn new() -> (s: SysTick)
        ensures
            forall|a: u32|
                #![trigger s@[a]]
                Self::is_valid_read_addr(a) ==> s@[a] == Self::spec_reset_value(a),
    {
        SysTick { regs: [0u32; 4] }
    }

    /// The value of `reg`.
    fn get(&self, reg: SysTickReg) -> (v: u32)
        ensures
            v == self@[reg.spec_address()],
    {
        self.regs[reg.slot()]
    }

    /// Stores `value` in `reg`, whether or not software may write it.
    fn set(&mut self, reg: SysTickReg, value: u32)
        ensures
            final(self)@ == old(self)@.insert(reg.spec_address(), value),
    {
        let slot: usize = reg.slot();
        self.regs[slot] = value;
    }

    /// Reads the register at `address`.
    pub fn read(&self, address: u32) -> (r: Result<u32, Fault>)
        ensures
            Self::is_valid_read_addr(address) ==> r == Ok::<u32, Fault>(self@[address]),
            !Self::is_valid_read_addr(address) ==> r == Err::<u32, Fault>(Fault::InvalidAddress),
    {
        match SysTickReg::decode(address) {
            Some(reg) => Ok(self.get(reg)),
            None => Err(Fault::InvalidAddress),
        }
    }

    /// Writes `value` to the register at `address`, if there is one and it
    /// takes writes; otherwise the block is left as it was.
    pub fn write(&mut self, address: u32, value: u32) -> (r: Result<(), Fault>)
        ensures
            Self::is_valid_write_addr(address) ==> r is Ok && final(self)@ == old(self)@.insert(
                address,
                value,
            ),
            !Self::is_valid_write_addr(address) ==> r == Err::<(), Fault>(Fault::InvalidAddress)
                && *final(self) == *old(self),
    {
        match SysTickReg::decode(address) {
            Some(reg) => {
                if reg.writable() {
                    self.set(reg, value);
                    Ok(())
                } else {
                    Err(Fault::InvalidAddress)
                }
            },
            None => Err(Fault::InvalidAddress),
        }
    }
}

} // verus!
