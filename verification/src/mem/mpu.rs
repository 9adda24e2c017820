//! The memory protection unit's registers. They are storage only: nothing here
//! gates an access by what they hold.

use vstd::prelude::*;
use crate::fault::Fault;

verus! {

/// The addresses of the block's registers.
pub const MPU_TYPE_ADDR: u32 = 0xE000_ED90;
pub const MPU_CTRL_ADDR: u32 = 0xE000_ED94;
pub const MPU_RNR_ADDR: u32 = 0xE000_ED98;
pub const MPU_RBAR_ADDR: u32 = 0xE000_ED9C;
pub const MPU_RASR_ADDR: u32 = 0xE000_EDA0;
pub const MPU_RBAR_A1_ADDR: u32 = 0xE000_EDA4;
pub const MPU_RASR_A1_ADDR: u32 = 0xE000_EDA8;
pub const MPU_RBAR_A2_ADDR: u32 = 0xE000_EDAC;
pub const MPU_RASR_A2_ADDR: u32 = 0xE000_EDB0;
pub const MPU_RBAR_A3_ADDR: u32 = 0xE000_EDB4;
pub const MPU_RASR_A3_ADDR: u32 = 0xE000_EDB8;

/// The registers of the memory protection unit.
#[derive(Clone, Copy, Debug, PartialEq, Eq, Structural)]
pub enum MpuReg {
    /// Type, read-only.
    Type,
    /// Control.
    Ctrl,
    /// Region number.
    Rnr,
    /// Region base address.
    Rbar,
    /// Region attribute and size.
    Rasr,
    /// First alias of the region base address.
    RbarA1,
    /// First alias of the region attribute and size.
    RasrA1,
    /// Second alias of the region base address.
    RbarA2,
    /// Second alias of the region attribute and size.
    RasrA2,
    /// Third alias of the region base address.
    RbarA3,
    /// Third alias of the region attribute and size.
    RasrA3,
}

impl MpuReg {
    /// The register that lives at `address`, if any.
    pub open spec fn spec_decode(address: u32) -> Option<MpuReg> {
        if address == MPU_TYPE_ADDR {
            Some(MpuReg::Type)
        } else if address == MPU_CTRL_ADDR {
            Some(MpuReg::Ctrl)
        } else if address == MPU_RNR_ADDR {
            Some(MpuReg::Rnr)
        } else if address == MPU_RBAR_ADDR {
            Some(MpuReg::Rbar)
        } else if address == MPU_RASR_ADDR {
            Some(MpuReg::Rasr)
        } else if address == MPU_RBAR_A1_ADDR {
            Some(MpuReg::RbarA1)
        } else if address == MPU_RASR_A1_ADDR {
            Some(MpuReg::RasrA1)
        } else if address == MPU_RBAR_A2_ADDR {
            Some(MpuReg::RbarA2)
        } else if address == MPU_RASR_A2_ADDR {
            Some(MpuReg::RasrA2)
        } else if address == MPU_RBAR_A3_ADDR {
            Some(MpuReg::RbarA3)
        } else if address == MPU_RASR_A3_ADDR {
            Some(MpuReg::RasrA3)
        } else {
            None
        }
    }

    /// The address at which the register is mapped.
    pub open spec fn spec_address(self) -> u32 {
        match self {
            MpuReg::Type => MPU_TYPE_ADDR,
            MpuReg::Ctrl => MPU_CTRL_ADDR,
            MpuReg::Rnr => MPU_RNR_ADDR,
            MpuReg::Rbar => MPU_RBAR_ADDR,
            MpuReg::Rasr => MPU_RASR_ADDR,
            MpuReg::RbarA1 => MPU_RBAR_A1_ADDR,
            MpuReg::RasrA1 => MPU_RASR_A1_ADDR,
            MpuReg::RbarA2 => MPU_RBAR_A2_ADDR,
            MpuReg::RasrA2 => MPU_RASR_A2_ADDR,
            MpuReg::RbarA3 => MPU_RBAR_A3_ADDR,
            MpuReg::RasrA3 => MPU_RASR_A3_ADDR,
        }
    }

    /// The position of the register in the block's storage.
    pub open spec fn spec_slot(self) -> int {
        match self {
            MpuReg::Type => 0,
            MpuReg::Ctrl => 1,
            MpuReg::Rnr => 2,
            MpuReg::Rbar => 3,
            MpuReg::Rasr => 4,
            MpuReg::RbarA1 => 5,
            MpuReg::RasrA1 => 6,
            MpuReg::RbarA2 => 7,
            MpuReg::RasrA2 => 8,
            MpuReg::RbarA3 => 9,
            MpuReg::RasrA3 => 10,
        }
    }

    /// Whether software may write the register.
    pub open spec fn spec_writable(self) -> bool {
        self != MpuReg::Type
    }

    /// Finds the register that lives at `address`.
    pub fn decode(address: u32) -> (r: Option<MpuReg>)
        ensures
            r == Self::spec_decode(address),
    {
        if address == MPU_TYPE_ADDR {
            Some(MpuReg::Type)
        } else if address == MPU_CTRL_ADDR {
            Some(MpuReg::Ctrl)
        } else if address == MPU_RNR_ADDR {
            Some(MpuReg::Rnr)
        } else if address == MPU_RBAR_ADDR {
            Some(MpuReg::Rbar)
        } else if address == MPU_RASR_ADDR {
            Some(MpuReg::Rasr)
        } else if address == MPU_RBAR_A1_ADDR {
            Some(MpuReg::RbarA1)
        } else if address == MPU_RASR_A1_ADDR {
            Some(MpuReg::RasrA1)
        } else if address == MPU_RBAR_A2_ADDR {
            Some(MpuReg::RbarA2)
        } else if address == MPU_RASR_A2_ADDR {
            Some(MpuReg::RasrA2)
        } else if address == MPU_RBAR_A3_ADDR {
            Some(MpuReg::RbarA3)
        } else if address == MPU_RASR_A3_ADDR {
            Some(MpuReg::RasrA3)
        } else {
            None
        }
    }

    /// The address at which the register is mapped.
    pub fn address(self) -> (a: u32)
        ensures
            a == self.spec_address(),
    {
        match self {
            MpuReg::Type => MPU_TYPE_ADDR,
            MpuReg::Ctrl => MPU_CTRL_ADDR,
            MpuReg::Rnr => MPU_RNR_ADDR,
            MpuReg::Rbar => MPU_RBAR_ADDR,
            MpuReg::Rasr => MPU_RASR_ADDR,
            MpuReg::RbarA1 => MPU_RBAR_A1_ADDR,
            MpuReg::RasrA1 => MPU_RASR_A1_ADDR,
            MpuReg::RbarA2 => MPU_RBAR_A2_ADDR,
            MpuReg::RasrA2 => MPU_RASR_A2_ADDR,
            MpuReg::RbarA3 => MPU_RBAR_A3_ADDR,
            MpuReg::RasrA3 => MPU_RASR_A3_ADDR,
        }
    }

    /// The position of the register in the block's storage.
    pub fn slot(self) -> (i: usize)
        ensures
            i == self.spec_slot(),
    {
        match self {
            MpuReg::Type => 0,
            MpuReg::Ctrl => 1,
            MpuReg::Rnr => 2,
            MpuReg::Rbar => 3,
            MpuReg::Rasr => 4,
            MpuReg::RbarA1 => 5,
            MpuReg::RasrA1 => 6,
            MpuReg::RbarA2 => 7,
            MpuReg::RasrA2 => 8,
            MpuReg::RbarA3 => 9,
            MpuReg::RasrA3 => 10,
        }
    }

    /// Whether software may write the register.
    pub fn writable(self) -> (w: bool)
        ensures
            w == self.spec_writable(),
    {
        match self {
            MpuReg::Type => false,
            _ => true,
        }
    }

    /// Decoding undoes `address`: every register has an address of its own.
    pub proof fn lemma_decode_address(self)
        ensures
            Self::spec_decode(self.spec_address()) == Some(self),
    {
    }
}

/// The memory protection unit block: eleven registers, of which the type
/// register is read-only.
#[derive(Debug)]
pub struct Mpu {
    regs: [u32; 11],
}

impl View for Mpu {
    type V = Map<u32, u32>;

    /// The block as a map from each register's address to its value.
    closed spec fn view(&self) -> Map<u32, u32> {
        Map::new(
            |a: u32| Mpu::is_valid_read_addr(a),
            |a: u32| self.regs[MpuReg::spec_decode(a).unwrap().spec_slot()],
        )
    }
}

impl Mpu {
    /// The addresses that can be read: those of the block's registers.
    pub open spec fn is_valid_read_addr(address: u32) -> bool {
        ||| address == MPU_TYPE_ADDR
        ||| address == MPU_CTRL_ADDR
        ||| address == MPU_RNR_ADDR
        ||| address == MPU_RBAR_ADDR
        ||| address == MPU_RASR_ADDR
        ||| address == MPU_RBAR_A1_ADDR
        ||| address == MPU_RASR_A1_ADDR
        ||| address == MPU_RBAR_A2_ADDR
        ||| address == MPU_RASR_A2_ADDR
        ||| address == MPU_RBAR_A3_ADDR
        ||| address == MPU_RASR_A3_ADDR
    }

    /// The addresses that can be written: those of the registers that are not
    /// read-only.
    pub open spec fn is_valid_write_addr(address: u32) -> bool {
        ||| address == MPU_CTRL_ADDR
        ||| address == MPU_RNR_ADDR
        ||| address == MPU_RBAR_ADDR
        ||| address == MPU_RASR_ADDR
        ||| address == MPU_RBAR_A1_ADDR
        ||| address == MPU_RASR_A1_ADDR
        ||| address == MPU_RBAR_A2_ADDR
        ||| address == MPU_RASR_A2_ADDR
        ||| address == MPU_RBAR_A3_ADDR
        ||| address == MPU_RASR_A3_ADDR
    }

    /// The value that the register at `address` holds after reset.
    pub open spec fn spec_reset_value(address: u32) -> u32 {
        0
    }

    /// An address decodes to a register exactly where it can be read, the
    /// register is mapped there, and it is writable exactly where the address
    /// can be written.
    pub proof fn lemma_decode(address: u32)
        ensures
            MpuReg::spec_decode(address) is Some <==> Self::is_valid_read_addr(address),
            MpuReg::spec_decode(address) matches Some(reg) ==> reg.spec_address() == address
                && (reg.spec_writable() <==> Self::is_valid_write_addr(address)),
    {
    }

    /// The view maps exactly the addresses that can be read.
    pub proof fn lemma_view_domain(&self)
        ensures
            forall|a: u32| self@.dom().contains(a) <==> Self::is_valid_read_addr(a),
    {
    }

    /// The block as it is after reset: every register holds zero.
    pub fn new() -> (s: Mpu)
        ensures
            forall|a: u32|
                #![trigger s@[a]]
                Self::is_valid_read_addr(a) ==> s@[a] == Self::spec_reset_value(a),
    {
        Mpu { regs: [0u32; 11] }
    }

    /// The value of `reg`.
    fn get(&self, reg: MpuReg) -> (v: u32)
        ensures
            v == self@[reg.spec_address()],
    {
        self.regs[reg.slot()]
    }

    /// Stores `value` in `reg`, whether or not software may write it.
    fn set(&mut self, reg: MpuReg, value: u32)
        ensures
            final(self)@ == old(self)@.insert(reg.spec_address(), value),
    {
        let slot: usize = reg.slot();
        self.regs[slot] = value;
    }

    /// Reads the register at `address`.
    pub fn read(&self, address: u32) -> (r: Result<u32, Fault>)
        ensures
            Self::is_valid_read_addr(address) ==> r == Ok::<u32, Fault>(self@[address]),
            !Self::is_valid_read_addr(address) ==> r == Err::<u32, Fault>(Fault::InvalidAddress),
    {
        match MpuReg::decode(address) {
            Some(reg) => Ok(self.get(reg)),
            None => Err(Fault::InvalidAddress),
        }
    }

    /// Writes `value` to the register at `address`, if there is one and it
    /// takes writes; otherwise the block is left as it was.
    pub fn write(&mut self, address: u32, value: u32) -> (r: Result<(), Fault>)
        ensures
            Self::is_valid_write_addr(address) ==> r is Ok && final(self)@ == old(self)@.insert(
                address,
                value,
            ),
            !Self::is_valid_write_addr(address) ==> r == Err::<(), Fault>(Fault::InvalidAddress)
                && *final(self) == *old(self),
    {
        match MpuReg::decode(address) {
            Some(reg) => {
                if reg.writable() {
                    self.set(reg, value);
                    Ok(())
                } else {
                    Err(Fault::InvalidAddress)
                }
            },
            None => Err(Fault::InvalidAddress),
        }
    }
}

} // verus!
