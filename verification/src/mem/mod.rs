//! The private peripheral bus and the memory that holds it.
//!
//! The bus occupies `0xE000_0000` to `0xE00F_FFFF`. Within it the system
//! control space is laid out as follows:
//!
//! | range                          | block                                   |
//! |--------------------------------|-----------------------------------------|
//! | `0xE000_E000` to `0xE000_E00F` | interrupt and auxiliary control         |
//! | `0xE000_E010` to `0xE000_E0FF` | system timer                            |
//! | `0xE000_E100` to `0xE000_ECFF` | interrupt controller                    |
//! | `0xE000_ED00` to `0xE000_ED8F` | system control block                    |
//! | `0xE000_ED90` to `0xE000_EDEF` | memory protection unit                  |
//! | `0xE000_EDF0` to `0xE000_EEFF` | debug registers, not implemented        |
//! | `0xE000_EF00` to `0xE000_EF8F` | software-triggered interrupt register   |
//! | `0xE000_EF90` to `0xE000_EFCF` | implementation defined, not implemented |
//! | `0xE000_EFD0` to `0xE000_EFFF` | microcontroller identification, not implemented |
//!
//! An access is decoded in two steps: the range gives the block, the block
//! gives the register. Every register can be read; some are read-only.

pub mod mpu;
pub mod nvic;
pub mod sys_control;
pub mod sys_tick;

use vstd::prelude::*;
use crate::fault::Fault;
use crate::mem::mpu::{Mpu, MpuReg};
use crate::mem::nvic::{Nvic, NvicReg};
use crate::mem::sys_control::{SysControlReg, SysControlSpace};
use crate::mem::sys_tick::{SysTick, SysTickReg};

verus! {

/// The first and the last address of the private peripheral bus.
pub const PPB_START: u32 = 0xE000_0000;
pub const PPB_END: u32 = 0xE00F_FFFF;

/// The first and the last address of each band of the system control space.
pub const INTERRUPT_AUXILIARY_CONTROL_REGISTER_START: u32 = 0xE000_E000;
pub const INTERRUPT_AUXILIARY_CONTROL_REGISTER_END: u32 = 0xE000_E00F;

pub const SYSTEM_CONTROL_BLOCK_START: u32 = 0xE000_ED00;
pub const SYSTEM_CONTROL_BLOCK_END: u32 = 0xE000_ED8F;

pub const SW_TRIGGER_INTERRUPT_REG_START: u32 = 0xE000_EF00;
pub const SW_TRIGGER_INTERRUPT_REG_END: u32 = 0xE000_EF8F;

pub const SYS_TICK_START: u32 = 0xE000_E010;
pub const SYS_TICK_END: u32 = 0xE000_E0FF;

pub const NVIC_START: u32 = 0xE000_E100;
pub const NVIC_END: u32 = 0xE000_ECFF;

pub const MPU_START: u32 = 0xE000_ED90;
pub const MPU_END: u32 = 0xE000_EDEF;

pub const DEBUG_START: u32 = 0xE000_EDF0;
pub const DEBUG_END: u32 = 0xE000_EEFF;

pub const IMPLEMENTATION_DEFINED_START: u32 = 0xE000_EF90;
pub const IMPLEMENTATION_DEFINED_END: u32 = 0xE000_EFCF;

pub const MCU_SPECIFIC_START: u32 = 0xE000_EFD0;
pub const MCU_SPECIFIC_END: u32 = 0xE000_EFFF;

/// The address bands of the system control space.
#[derive(Clone, Copy, Debug, PartialEq, Eq, Structural)]
pub enum Region {
    /// Interrupt and auxiliary control, the system control block and the
    /// software-triggered interrupt register: three ranges, one block.
    SystemControl,
    /// The system timer.
    SysTick,
    /// The interrupt controller.
    Nvic,
    /// The memory protection unit.
    Mpu,
    /// The debug registers.
    Debug,
    /// The implementation-defined band.
    ImplementationDefined,
    /// The microcontroller-specific identification band.
    McuSpecific,
}

impl Region {
    /// The band in which `address` lies, if any.
    pub open spec fn spec_of(address: u32) -> Option<Region> {
        if INTERRUPT_AUXILIARY_CONTROL_REGISTER_START <= address
            <= INTERRUPT_AUXILIARY_CONTROL_REGISTER_END || SYSTEM_CONTROL_BLOCK_START <= address
            <= SYSTEM_CONTROL_BLOCK_END || SW_TRIGGER_INTERRUPT_REG_START <= address
            <= SW_TRIGGER_INTERRUPT_REG_END {
            Some(Region::SystemControl)
        } else if SYS_TICK_START <= address <= SYS_TICK_END {
            Some(Region::SysTick)
        } else if NVIC_START <= address <= NVIC_END {
            Some(Region::Nvic)
        } else if MPU_START <= address <= MPU_END {
            Some(Region::Mpu)
        } else if DEBUG_START <= address <= DEBUG_END {
            Some(Region::Debug)
        } else if IMPLEMENTATION_DEFINED_START <= address <= IMPLEMENTATION_DEFINED_END {
            Some(Region::ImplementationDefined)
        } else if MCU_SPECIFIC_START <= address <= MCU_SPECIFIC_END {
            Some(Region::McuSpecific)
        } else {
            None
        }
    }

    /// Whether the band holds registers of this model.
    pub open spec fn spec_implemented(self) -> bool {
        match self {
            Region::Debug | Region::ImplementationDefined | Region::McuSpecific => false,
            _ => true,
        }
    }

    /// The band in which `address` lies, if any.
    pub fn of(address: u32) -> (r: Option<Region>)
        ensures
            r == Self::spec_of(address),
    {
        if (INTERRUPT_AUXILIARY_CONTROL_REGISTER_START <= address && address
            <= INTERRUPT_AUXILIARY_CONTROL_REGISTER_END) || (SYSTEM_CONTROL_BLOCK_START <= address
            && address <= SYSTEM_CONTROL_BLOCK_END) || (SW_TRIGGER_INTERRUPT_REG_START <= address
            && address <= SW_TRIGGER_INTERRUPT_REG_END) {
            Some(Region::SystemControl)
        } else if SYS_TICK_START <= address && address <= SYS_TICK_END {
            Some(Region::SysTick)
        } else if NVIC_START <= address && address <= NVIC_END {
            Some(Region::Nvic)
        } else if MPU_START <= address && address <= MPU_END {
            Some(Region::Mpu)
        } else if DEBUG_START <= address && address <= DEBUG_END {
            Some(Region::Debug)
        } else if IMPLEMENTATION_DEFINED_START <= address && address
            <= IMPLEMENTATION_DEFINED_END {
            Some(Region::ImplementationDefined)
        } else if MCU_SPECIFIC_START <= address && address <= MCU_SPECIFIC_END {
            Some(Region::McuSpecific)
        } else {
            None
        }
    }

    /// Whether the band holds registers of this model.
    pub fn implemented(self) -> (b: bool)
        ensures
            b == self.spec_implemented(),
    {
        match self {
            Region::Debug | Region::ImplementationDefined | Region::McuSpecific => false,
            _ => true,
        }
    }
}

/// A register of the private peripheral bus, named by its block.
#[derive(Clone, Copy, Debug, PartialEq, Eq, Structural)]
pub enum Register {
    SysControl(SysControlReg),
    SysTick(SysTickReg),
    Nvic(NvicReg),
    Mpu(MpuReg),
}

impl Register {
    /// The register exists.
    pub open spec fn wf(self) -> bool {
        self matches Register::Nvic(reg) ==> reg.wf()
    }

    /// The address at which the register is mapped.
    pub open spec fn spec_address(self) -> u32
        recommends
            self.wf(),
    {
        match self {
            Register::SysControl(reg) => reg.spec_address(),
            Register::SysTick(reg) => reg.spec_address(),
            Register::Nvic(reg) => reg.spec_address(),
            Register::Mpu(reg) => reg.spec_address(),
        }
    }

    /// Whether software may write the register.
    pub open spec fn spec_writable(self) -> bool {
        match self {
            Register::SysControl(reg) => reg.spec_writable(),
            Register::SysTick(reg) => reg.spec_writable(),
            Register::Nvic(reg) => reg.spec_writable(),
            Register::Mpu(reg) => reg.spec_writable(),
        }
    }

    /// The address at which the register is mapped.
    pub fn address(self) -> (a: u32)
        requires
            self.wf(),
        ensures
            a == self.spec_address(),
    {
        match self {
            Register::SysControl(reg) => reg.address(),
            Register::SysTick(reg) => reg.address(),
            Register::Nvic(reg) => reg.address(),
            Register::Mpu(reg) => reg.address(),
        }
    }

    /// Whether software may write the register.
    pub fn writable(self) -> (w: bool)
        ensures
            w == self.spec_writable(),
    {
        match self {
            Register::SysControl(reg) => reg.writable(),
            Register::SysTick(reg) => reg.writable(),
            Register::Nvic(reg) => reg.writable(),
            Register::Mpu(reg) => reg.writable(),
        }
    }
}

/// The private peripheral bus: the system control space, the system timer, the
/// interrupt controller and the memory protection unit.
#[derive(Debug)]
pub struct Ppb {
    system_control_space: SysControlSpace,
    sys_tick: SysTick,
    nvic: Nvic,
    mpu: Mpu,
}

impl View for Ppb {
    type V = Map<u32, u32>;

    /// The bus as a map from each register's address to its value.
    closed spec fn view(&self) -> Map<u32, u32> {
        Map::new(
            |a: u32| Ppb::is_valid_read_addr(a),
            |a: u32|
                if SysControlSpace::is_valid_read_addr(a) {
                    self.system_control_space@[a]
                } else if SysTick::is_valid_read_addr(a) {
                    self.sys_tick@[a]
                } else if Nvic::is_valid_read_addr(a) {
                    self.nvic@[a]
                } else {
                    self.mpu@[a]
                },
        )
    }
}

impl Ppb {
    /// The addresses that can be read: those that one of the four blocks
    /// reads.
    pub open spec fn is_valid_read_addr(address: u32) -> bool {
        ||| SysControlSpace::is_valid_read_addr(address)
        ||| SysTick::is_valid_read_addr(address)
        ||| Nvic::is_valid_read_addr(address)
        ||| Mpu::is_valid_read_addr(address)
    }

    /// The addresses that can be written: those that one of the four blocks
    /// writes.
    pub open spec fn is_valid_write_addr(address: u32) -> bool {
        ||| SysControlSpace::is_valid_write_addr(address)
        ||| SysTick::is_valid_write_addr(address)
        ||| Nvic::is_valid_write_addr(address)
        ||| Mpu::is_valid_write_addr(address)
    }

    /// What an access to `address` fails with when it cannot be served:
    /// `UnimplementedRegion` in the three bands that the model leaves out,
    /// `InvalidAddress` everywhere else.
    pub open spec fn access_fault(address: u32) -> Fault {
        if Region::spec_of(address) matches Some(region) && !region.spec_implemented() {
            Fault::UnimplementedRegion
        } else {
            Fault::InvalidAddress
        }
    }

    /// The value that the register at `address` holds after reset.
    pub open spec fn spec_reset_value(address: u32) -> u32 {
        SysControlSpace::spec_reset_value(address)
    }

    /// The register that lives at `address`, or why there is none: the band
    /// gives the block, and the block gives the register.
    pub open spec fn spec_decode(address: u32) -> Result<Register, Fault> {
        match Region::spec_of(address) {
            Some(Region::SystemControl) => match SysControlReg::spec_decode(address) {
                Some(reg) => Ok(Register::SysControl(reg)),
                None => Err(Fault::InvalidAddress),
            },
            Some(Region::SysTick) => match SysTickReg::spec_decode(address) {
                Some(reg) => Ok(Register::SysTick(reg)),
                None => Err(Fault::InvalidAddress),
            },
            Some(Region::Nvic) => match NvicReg::spec_decode(address) {
                Some(reg) => Ok(Register::Nvic(reg)),
                None => Err(Fault::InvalidAddress),
            },
            Some(Region::Mpu) => match MpuReg::spec_decode(address) {
                Some(reg) => Ok(Register::Mpu(reg)),
                None => Err(Fault::InvalidAddress),
            },
            Some(_) => Err(Fault::UnimplementedRegion),
            None => Err(Fault::InvalidAddress),
        }
    }

    /// The view maps exactly the addresses that can be read.
    pub proof fn lemma_view_domain(&self)
        ensures
            forall|a: u32| self@.dom().contains(a) <==> Self::is_valid_read_addr(a),
    {
    }

    /// An address decodes to a register exactly where it can be read. The
    /// register then exists, is mapped at that address, and is writable
    /// exactly where the address can be written. Where no register is found,
    /// the fault is the one that `access_fault` names.
    pub proof fn lemma_decode(address: u32)
        ensures
            Self::spec_decode(address) is Ok <==> Self::is_valid_read_addr(address),
            match Self::spec_decode(address) {
                Ok(reg) => reg.wf() && reg.spec_address() == address && (reg.spec_writable()
                    <==> Self::is_valid_write_addr(address)),
                Err(fault) => fault == Self::access_fault(address),
            },
    {
        SysControlSpace::lemma_decode(address);
        SysTick::lemma_decode(address);
        Nvic::lemma_decode(address);
        Mpu::lemma_decode(address);
    }

    /// Every register has an address of its own: decoding the address of a
    /// register gives that register back.
    pub proof fn lemma_decode_address(reg: Register)
        requires
            reg.wf(),
        ensures
            Self::spec_decode(reg.spec_address()) == Ok::<Register, Fault>(reg),
    {
        match reg {
            Register::SysControl(r) => r.lemma_decode_address(),
            Register::SysTick(r) => r.lemma_decode_address(),
            Register::Nvic(r) => r.lemma_decode_address(),
            Register::Mpu(r) => r.lemma_decode_address(),
        }
    }

    /// What can be written can be read.
    pub proof fn lemma_writable_is_readable(address: u32)
        requires
            Self::is_valid_write_addr(address),
        ensures
            Self::is_valid_read_addr(address),
    {
    }

    /// A read-only register can be read, and a write to it fails with
    /// `InvalidAddress`.
    pub proof fn lemma_read_only(address: u32)
        requires
            Self::is_valid_read_addr(address),
            !Self::is_valid_write_addr(address),
        ensures
            Self::access_fault(address) == Fault::InvalidAddress,
    {
    }

    /// No register lives in the implementation-defined band: an access there,
    /// read or write, fails with `UnimplementedRegion`.
    pub proof fn lemma_implementation_defined_band(address: u32)
        requires
            IMPLEMENTATION_DEFINED_START <= address <= IMPLEMENTATION_DEFINED_END,
        ensures
            !Self::is_valid_read_addr(address),
            !Self::is_valid_write_addr(address),
            Self::access_fault(address) == Fault::UnimplementedRegion,
    {
    }

    /// The bus as it is after reset: each register holds its reset value.
    pub fn new() -> (p: Ppb)
        ensures
            forall|a: u32|
                #![trigger p@[a]]
                Self::is_valid_read_addr(a) ==> p@[a] == Self::spec_reset_value(a),
    {
        Ppb {
            system_control_space: SysControlSpace::new(),
            sys_tick: SysTick::new(),
            nvic: Nvic::new(),
            mpu: Mpu::new(),
        }
    }

    /// Finds the register that lives at `address`.
    pub fn decode(address: u32) -> (r: Result<Register, Fault>)
        ensures
            r == Self::spec_decode(address),
            r is Ok <==> Self::is_valid_read_addr(address),
            r matches Ok(reg) ==> reg.wf() && reg.spec_address() == address && (
            reg.spec_writable() <==> Self::is_valid_write_addr(address)),
            r matches Err(fault) ==> fault == Self::access_fault(address),
    {
        proof {
            Self::lemma_decode(address);
        }
        match Region::of(address) {
            Some(Region::SystemControl) => match SysControlReg::decode(address) {
                Some(reg) => Ok(Register::SysControl(reg)),
                None => Err(Fault::InvalidAddress),
            },
            Some(Region::SysTick) => match SysTickReg::decode(address) {
                Some(reg) => Ok(Register::SysTick(reg)),
                None => Err(Fault::InvalidAddress),
            },
            Some(Region::Nvic) => match NvicReg::decode(address) {
                Some(reg) => Ok(Register::Nvic(reg)),
                None => Err(Fault::InvalidAddress),
            },
            Some(Region::Mpu) => match MpuReg::decode(address) {
                Some(reg) => Ok(Register::Mpu(reg)),
                None => Err(Fault::InvalidAddress),
            },
            Some(_) => Err(Fault::UnimplementedRegion),
            None => Err(Fault::InvalidAddress),
        }
    }

    /// Reads the register at `address`.
    ///
    /// The read succeeds exactly where a register lives. It fails with
    /// `UnimplementedRegion` in the debug, implementation-defined and
    /// microcontroller-specific bands, and with `InvalidAddress` elsewhere.
    pub fn read(&self, address: u32) -> (r: Result<u32, Fault>)
        ensures
            Self::is_valid_read_addr(address) ==> r == Ok::<u32, Fault>(self@[address]),
            !Self::is_valid_read_addr(address) ==> r == Err::<u32, Fault>(
                Self::access_fault(address),
            ),
    {
        match Region::of(address) {
            Some(Region::SystemControl) => self.system_control_space.read(address),
            Some(Region::SysTick) => self.sys_tick.read(address),
            Some(Region::Nvic) => self.nvic.read(address),
            Some(Region::Mpu) => self.mpu.read(address),
            Some(_) => Err(Fault::UnimplementedRegion),
            None => Err(Fault::InvalidAddress),
        }
    }

    /// Writes `value` to the register at `address`.
    ///
    /// The write succeeds exactly where a register lives that is not
    /// read-only, and then changes that register and no other. It fails with
    /// `UnimplementedRegion` in the debug, implementation-defined and
    /// microcontroller-specific bands, and with `InvalidAddress` elsewhere;
    /// a failed write changes nothing.
    pub fn write(&mut self, address: u32, value: u32) -> (r: Result<(), Fault>)
        ensures
            Self::is_valid_write_addr(address) ==> r is Ok && final(self)@ == old(self)@.insert(
                address,
                value,
            ),
            !Self::is_valid_write_addr(address) ==> r == Err::<(), Fault>(
                Self::access_fault(address),
            ) && *final(self) == *old(self),
    {
        match Region::of(address) {
            Some(Region::SystemControl) => self.system_control_space.write(address, value),
            Some(Region::SysTick) => self.sys_tick.write(address, value),
            Some(Region::Nvic) => self.nvic.write(address, value),
            Some(Region::Mpu) => self.mpu.write(address, value),
            Some(_) => Err(Fault::UnimplementedRegion),
            None => Err(Fault::InvalidAddress),
        }
    }
}

/// The memory of the machine. Only the private peripheral bus is mapped:
/// every other address is invalid.
#[derive(Debug)]
pub struct Memory {
    ppb: Ppb,
}

impl View for Memory {
    type V = Map<u32, u32>;

    /// The memory as a map from each mapped address to the word it holds.
    closed spec fn view(&self) -> Map<u32, u32> {
        self.ppb@
    }
}

impl Memory {
    /// Whether `address` lies on the private peripheral bus.
    pub open spec fn in_ppb(address: u32) -> bool {
        PPB_START <= address <= PPB_END
    }

    /// The addresses that can be read.
    pub open spec fn is_valid_read_addr(address: u32) -> bool {
        Self::in_ppb(address) && Ppb::is_valid_read_addr(address)
    }

    /// The addresses that can be written.
    pub open spec fn is_valid_write_addr(address: u32) -> bool {
        Self::in_ppb(address) && Ppb::is_valid_write_addr(address)
    }

    /// What an access to `address` fails with when it cannot be served.
    pub open spec fn access_fault(address: u32) -> Fault {
        if Self::in_ppb(address) {
            Ppb::access_fault(address)
        } else {
            Fault::InvalidAddress
        }
    }

    /// The value that the word at `address` holds after reset.
    pub open spec fn spec_reset_value(address: u32) -> u32 {
        Ppb::spec_reset_value(address)
    }

    /// The view maps exactly the addresses that can be read.
    pub proof fn lemma_view_domain(&self)
        ensures
            forall|a: u32| self@.dom().contains(a) <==> Self::is_valid_read_addr(a),
    {
        self.ppb.lemma_view_domain();
    }

    /// What can be written can be read.
    pub proof fn lemma_writable_is_readable(address: u32)
        requires
            Self::is_valid_write_addr(address),
        ensures
            Self::is_valid_read_addr(address),
    {
    }

    /// No word can be read or written in the implementation-defined band: an
    /// access there fails with `UnimplementedRegion`.
    pub proof fn lemma_implementation_defined_band(address: u32)
        requires
            IMPLEMENTATION_DEFINED_START <= address <= IMPLEMENTATION_DEFINED_END,
        ensures
            !Self::is_valid_read_addr(address),
            !Self::is_valid_write_addr(address),
            Self::access_fault(address) == Fault::UnimplementedRegion,
    {
    }

    /// A read-only word, such as the processor identification register, can be
    /// read, and a write to it fails with `InvalidAddress`.
    pub proof fn lemma_read_only(address: u32)
        requires
            Self::is_valid_read_addr(address),
            !Self::is_valid_write_addr(address),
        ensures
            Self::access_fault(address) == Fault::InvalidAddress,
    {
    }

    /// The memory as it is after reset.
    pub fn new() -> (m: Memory)
        ensures
            forall|a: u32|
                #![trigger m@[a]]
                Self::is_valid_read_addr(a) ==> m@[a] == Self::spec_reset_value(a),
    {
        Memory { ppb: Ppb::new() }
    }

    /// Whether a read of `address` would succeed.
    pub fn is_readable(address: u32) -> (b: bool)
        ensures
            b == Self::is_valid_read_addr(address),
    {
        PPB_START <= address && address <= PPB_END && Ppb::decode(address).is_ok()
    }

    /// Whether a write to `address` would succeed.
    pub fn is_writable(address: u32) -> (b: bool)
        ensures
            b == Self::is_valid_write_addr(address),
    {
        if PPB_START <= address && address <= PPB_END {
            match Ppb::decode(address) {
                Ok(reg) => reg.writable(),
                Err(_) => false,
            }
        } else {
            false
        }
    }

    /// Reads the word at `address`.
    ///
    /// The read succeeds exactly where a register lives. It fails with
    /// `UnimplementedRegion` in the debug, implementation-defined and
    /// microcontroller-specific bands of the private peripheral bus, and with
    /// `InvalidAddress` elsewhere.
    pub fn read(&self, address: u32) -> (r: Result<u32, Fault>)
        ensures
            Self::is_valid_read_addr(address) ==> r == Ok::<u32, Fault>(self@[address]),
            !Self::is_valid_read_addr(address) ==> r == Err::<u32, Fault>(
                Self::access_fault(address),
            ),
    {
        if PPB_START <= address && address <= PPB_END {
            self.ppb.read(address)
        } else {
            Err(Fault::InvalidAddress)
        }
    }

    /// Writes `value` to the word at `address`.
    ///
    /// The write succeeds exactly where a register lives that is not
    /// read-only, and then changes that word and no other. It fails with
    /// `UnimplementedRegion` in the debug, implementation-defined and
    /// microcontroller-specific bands of the private peripheral bus, and with
    /// `InvalidAddress` elsewhere; a failed write changes nothing.
    pub fn write(&mut self, address: u32, value: u32) -> (r: Result<(), Fault>)
        ensures
            Self::is_valid_write_addr(address) ==> r is Ok && final(self)@ == old(self)@.insert(
                address,
                value,
            ),
            !Self::is_valid_write_addr(address) ==> r == Err::<(), Fault>(
                Self::access_fault(address),
            ) && *final(self) == *old(self),
    {
        if PPB_START <= address && address <= PPB_END {
            self.ppb.write(address, value)
        } else {
            Err(Fault::InvalidAddress)
        }
    }
}

} // verus!
