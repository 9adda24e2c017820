//! The nested vectored interrupt controller's registers.
//!
//! Five banks of sixteen words hold one bit for each of up to 512 interrupts:
//! set-enable, clear-enable, set-pending, clear-pending and active. A sixth
//! bank of 124 words holds the interrupt priorities.

use vstd::prelude::*;
use crate::fault::Fault;

verus! {

/// First word of the interrupt set-enable bank.
pub const ISER0_ADDR: u32 = 0xE000_E100;
/// First word of the interrupt clear-enable bank.
pub const ICER0_ADDR: u32 = 0xE000_E180;
/// First word of the interrupt set-pending bank.
pub const ISPR0_ADDR: u32 = 0xE000_E200;
/// First word of the interrupt clear-pending bank.
pub const ICPR0_ADDR: u32 = 0xE000_E280;
/// First word of the interrupt active-bit bank.
pub const IABR0_ADDR: u32 = 0xE000_E300;
/// First word of the interrupt priority bank.
pub const IPR0_ADDR: u32 = 0xE000_E400;

/// Words in each of the five one-bit-per-interrupt banks.
pub const BIT_BANK_WORDS: u32 = 16;
/// Words in the interrupt priority bank.
pub const PRIORITY_BANK_WORDS: u32 = 124;

/// The banks of the interrupt controller.
#[derive(Clone, Copy, Debug, PartialEq, Eq, Structural)]
pub enum NvicBank {
    /// Interrupt set-enable.
    Iser,
    /// Interrupt clear-enable.
    Icer,
    /// Interrupt set-pending.
    Ispr,
    /// Interrupt clear-pending.
    Icpr,
    /// Interrupt active bits.
    Iabr,
    /// Interrupt priorities.
    Ipr,
}

impl NvicBank {
    /// The address of the bank's first word.
    pub open spec fn spec_base(self) -> u32 {
        match self {
            NvicBank::Iser => ISER0_ADDR,
            NvicBank::Icer => ICER0_ADDR,
            NvicBank::Ispr => ISPR0_ADDR,
            NvicBank::Icpr => ICPR0_ADDR,
            NvicBank::Iabr => IABR0_ADDR,
            NvicBank::Ipr => IPR0_ADDR,
        }
    }

    /// The number of words in the bank.
    pub open spec fn spec_words(self) -> u32 {
        match self {
            NvicBank::Ipr => PRIORITY_BANK_WORDS,
            _ => BIT_BANK_WORDS,
        }
    }

    /// The position of the bank's first word in the block's storage.
    pub open spec fn spec_first_slot(self) -> int {
        match self {
            NvicBank::Iser => 0,
            NvicBank::Icer => 16,
            NvicBank::Ispr => 32,
            NvicBank::Icpr => 48,
            NvicBank::Iabr => 64,
            NvicBank::Ipr => 80,
        }
    }

    /// Whether `address` is that of a word of the bank.
    pub open spec fn spec_holds(self, address: u32) -> bool {
        &&& self.spec_base() <= address < self.spec_base() + 4 * self.spec_words()
        &&& (address - self.spec_base()) % 4 == 0
    }

    /// The address of the bank's first word.
    pub fn base(self) -> (a: u32)
        ensures
            a == self.spec_base(),
    {
        match self {
            NvicBank::Iser => ISER0_ADDR,
            NvicBank::Icer => ICER0_ADDR,
            NvicBank::Ispr => ISPR0_ADDR,
            NvicBank::Icpr => ICPR0_ADDR,
            NvicBank::Iabr => IABR0_ADDR,
            NvicBank::Ipr => IPR0_ADDR,
        }
    }

    /// The number of words in the bank.
    pub fn words(self) -> (n: u32)
        ensures
            n == self.spec_words(),
    {
        match self {
            NvicBank::Ipr => PRIORITY_BANK_WORDS,
            _ => BIT_BANK_WORDS,
        }
    }

    /// The position of the bank's first word in the block's storage.
    pub fn first_slot(self) -> (i: usize)
        ensures
            i == self.spec_first_slot(),
    {
        match self {
            NvicBank::Iser => 0,
            NvicBank::Icer => 16,
            NvicBank::Ispr => 32,
            NvicBank::Icpr => 48,
            NvicBank::Iabr => 64,
            NvicBank::Ipr => 80,
        }
    }

    /// Whether `address` is that of a word of the bank.
    pub fn holds(self, address: u32) -> (b: bool)
        ensures
            b == self.spec_holds(address),
    {
        let base: u32 = self.base();
        base <= address && address - base < 4 * self.words() && (address - base) % 4 == 0
    }
}

/// A register of the interrupt controller: a word of one of its banks.
#[derive(Clone, Copy, Debug, PartialEq, Eq, Structural)]
pub struct NvicReg {
    pub bank: NvicBank,
    /// The number of the word within its bank, from zero.
    pub index: u32,
}

impl NvicReg {
    /// The word exists: its index is within its bank.
    pub open spec fn wf(self) -> bool {
        self.index < self.bank.spec_words()
    }

    /// The register that lives at `address`, if any.
    pub open spec fn spec_decode(address: u32) -> Option<NvicReg> {
        if NvicBank::Iser.spec_holds(address) {
            Some(NvicReg { bank: NvicBank::Iser, index: ((address - ISER0_ADDR) / 4) as u32 })
        } else if NvicBank::Icer.spec_holds(address) {
            Some(NvicReg { bank: NvicBank::Icer, index: ((address - ICER0_ADDR) / 4) as u32 })
        } else if NvicBank::Ispr.spec_holds(address) {
            Some(NvicReg { bank: NvicBank::Ispr, index: ((address - ISPR0_ADDR) / 4) as u32 })
        } else if NvicBank::Icpr.spec_holds(address) {
            Some(NvicReg { bank: NvicBank::Icpr, index: ((address - ICPR0_ADDR) / 4) as u32 })
        } else if NvicBank::Iabr.spec_holds(address) {
            Some(NvicReg { bank: NvicBank::Iabr, index: ((address - IABR0_ADDR) / 4) as u32 })
        } else if NvicBank::Ipr.spec_holds(address) {
            Some(NvicReg { bank: NvicBank::Ipr, index: ((address - IPR0_ADDR) / 4) as u32 })
        } else {
            None
        }
    }

    /// The address at which the register is mapped.
    pub open spec fn spec_address(self) -> u32
        recommends
            self.wf(),
    {
        (self.bank.spec_base() + 4 * self.index) as u32
    }

    /// The position of the register in the block's storage.
    pub open spec fn spec_slot(self) -> int {
        self.bank.spec_first_slot() + self.index
    }

    /// Whether software may write the register: every word of every bank takes
    /// writes.
    pub open spec fn spec_writable(self) -> bool {
        true
    }

    /// Finds the register that lives at `address`.
    pub fn decode(address: u32) -> (r: Option<NvicReg>)
        ensures
            r == Self::spec_decode(address),
            r matches Some(reg) ==> reg.wf() && reg.spec_address() == address,
    {
        if NvicBank::Iser.holds(address) {
            Some(NvicReg { bank: NvicBank::Iser, index: (address - ISER0_ADDR) / 4 })
        } else if NvicBank::Icer.holds(address) {
            Some(NvicReg { bank: NvicBank::Icer, index: (address - ICER0_ADDR) / 4 })
        } else if NvicBank::Ispr.holds(address) {
            Some(NvicReg { bank: NvicBank::Ispr, index: (address - ISPR0_ADDR) / 4 })
        } else if NvicBank::Icpr.holds(address) {
            Some(NvicReg { bank: NvicBank::Icpr, index: (address - ICPR0_ADDR) / 4 })
        } else if NvicBank::Iabr.holds(address) {
            Some(NvicReg { bank: NvicBank::Iabr, index: (address - IABR0_ADDR) / 4 })
        } else if NvicBank::Ipr.holds(address) {
            Some(NvicReg { bank: NvicBank::Ipr, index: (address - IPR0_ADDR) / 4 })
        } else {
            None
        }
    }

    /// The address at which the register is mapped.
    pub fn address(self) -> (a: u32)
        requires
            self.wf(),
        ensures
            a == self.spec_address(),
    {
        self.bank.base() + 4 * self.index
    }

    /// The position of the register in the block's storage.
    pub fn slot(self) -> (i: usize)
        requires
            self.wf(),
        ensures
            i == self.spec_slot(),
            i < 204,
    {
        self.bank.first_slot() + self.index as usize
    }

    /// Whether software may write the register.
    pub fn writable(self) -> (w: bool)
        ensures
            w == self.spec_writable(),
    {
        true
    }

    /// Decoding undoes `address`: every register has an address of its own.
    pub proof fn lemma_decode_address(self)
        requires
            self.wf(),
        ensures
            Self::spec_decode(self.spec_address()) == Some(self),
    {
    }
}

/// The interrupt controller block: 204 registers, all of which can be read
/// and written.
#[derive(Debug)]
pub struct Nvic {
    regs: [u32; 204],
}

impl View for Nvic {
    type V = Map<u32, u32>;

    /// The block as a map from each register's address to its value.
    closed spec fn view(&self) -> Map<u32, u32> {
        Map::new(
            |a: u32| Nvic::is_valid_read_addr(a),
            |a: u32| self.regs[NvicReg::spec_decode(a).unwrap().spec_slot()],
        )
    }
}

impl Nvic {
    /// The addresses of the block's registers: the words of its six banks.
    pub open spec fn is_valid_nvic_addr(address: u32) -> bool {
        ||| NvicBank::Iser.spec_holds(address)
        ||| NvicBank::Icer.spec_holds(address)
        ||| NvicBank::Ispr.spec_holds(address)
        ||| NvicBank::Icpr.spec_holds(address)
        ||| NvicBank::Iabr.spec_holds(address)
        ||| NvicBank::Ipr.spec_holds(address)
    }

    /// The addresses that can be read: those of the block's registers.
    pub open spec fn is_valid_read_addr(address: u32) -> bool {
        Self::is_valid_nvic_addr(address)
    }

    /// The addresses that can be written: those of the block's registers.
    pub open spec fn is_valid_write_addr(address: u32) -> bool {
        Self::is_valid_nvic_addr(address)
    }

    /// An address decodes to a register exactly where it can be read, the
    /// register is a word of its bank and is mapped there, and it is writable
    /// exactly where the address can be written.
    pub proof fn lemma_decode(address: u32)
        ensures
            NvicReg::spec_decode(address) is Some <==> Self::is_valid_read_addr(address),
            NvicReg::spec_decode(address) matches Some(reg) ==> reg.wf() && reg.spec_address()
                == address && (reg.spec_writable() <==> Self::is_valid_write_addr(address)),
    {
    }

    /// The view maps exactly the addresses that can be read.
    pub proof fn lemma_view_domain(&self)
        ensures
            forall|a: u32| self@.dom().contains(a) <==> Self::is_valid_read_addr(a),
    {
    }

    /// The block as it is after reset: every register holds zero.
    pub fn new() -> (s: Nvic)
        ensures
            forall|a: u32| #![trigger s@[a]] Self::is_valid_read_addr(a) ==> s@[a] == 0,
    {
        Nvic { regs: [0u32; 204] }
    }

    /// The value of `reg`.
    fn get(&self, reg: NvicReg) -> (v: u32)
        requires
            reg.wf(),
        ensures
            v == self@[reg.spec_address()],
    {
        self.regs[reg.slot()]
    }

    /// Stores `value` in `reg`.
    fn set(&mut self, reg: NvicReg, value: u32)
        requires
            reg.wf(),
        ensures
            final(self)@ == old(self)@.insert(reg.spec_address(), value),
    {
        let slot: usize = reg.slot();
        self.regs[slot] = value;
    }

    /// Reads the register at `address`.
    pub fn read(&self, address: u32) -> (r: Result<u32, Fault>)
        ensures
            Self::is_valid_read_addr(address) ==> r == Ok::<u32, Fault>(self@[address]),
            !Self::is_valid_read_addr(address) ==> r == Err::<u32, Fault>(Fault::InvalidAddress),
    {
        match NvicReg::decode(address) {
            Some(reg) => Ok(self.get(reg)),
            None => Err(Fault::InvalidAddress),
        }
    }

    /// Writes `value` to the register at `address`, if there is one;
    /// otherwise the block is left as it was.
    pub fn write(&mut self, address: u32, value: u32) -> (r: Result<(), Fault>)
        ensures
            Self::is_valid_write_addr(address) ==> r is Ok && final(self)@ == old(self)@.insert(
                address,
                value,
            ),
            !Self::is_valid_write_addr(address) ==> r == Err::<(), Fault>(Fault::InvalidAddress)
                && *final(self) == *old(self),
    {
        match NvicReg::decode(address) {
            Some(reg) => {
                self.set(reg, value);
                Ok(())
            },
            None => Err(Fault::InvalidAddress),
        }
    }
}

} // verus!
