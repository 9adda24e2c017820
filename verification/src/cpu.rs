//! The processor: its register file, its mode and its memory.

use vstd::prelude::*;
use crate::fault::Fault;
use crate::lang::{GPR, SpecialRegister};
use crate::mem::Memory;

verus! {

/// What the link register holds after reset.
pub const LR_RESET: u32 = 0xFFFF_FFFF;

/// The mask of the exception number field of the program status register.
pub const IPSR_MASK: u32 = 0xFF;

/// The `nPRIV` bit of the control register.
pub const CONTROL_NPRIV: u32 = 0x1;

/// The `SPSEL` bit of the control register.
pub const CONTROL_SPSEL: u32 = 0x2;

/// The two modes of the processor.
#[derive(Clone, Copy, Debug, PartialEq, Eq, Structural)]
pub enum CPUMode {
    /// Ordinary execution, privileged or not, on either stack.
    Thread,
    /// Execution of an exception handler: privileged, on the main stack.
    Handler,
}

/// The two stacks.
#[derive(Clone, Copy, Debug, PartialEq, Eq, Structural)]
pub enum Stack {
    Main,
    Process,
}

/// How the processor runs, with the privilege and the stack that come with
/// it: a thread runs with those that the control register selects, a handler
/// always privileged and on the main stack.
#[derive(Clone, Copy, Debug, PartialEq, Eq, Structural)]
pub enum Execution {
    Thread { privileged: bool, active_stack: Stack },
    Handler,
}

/// The control register.
#[derive(Clone, Copy, Debug, PartialEq, Eq, Structural)]
pub struct Control {
    /// Thread mode runs unprivileged.
    pub npriv: bool,
    /// Thread mode runs on the process stack.
    pub spsel: bool,
}

impl Control {
    /// The register as a word: bit 0 is `npriv`, bit 1 is `spsel`.
    pub open spec fn spec_bits(self) -> u32 {
        if self.npriv && self.spsel {
            3
        } else if self.spsel {
            2
        } else if self.npriv {
            1
        } else {
            0
        }
    }

    /// The register that a write of `value` leaves: bits 0 and 1 are kept,
    /// the others are dropped.
    pub open spec fn spec_from_bits(value: u32) -> Control {
        Control {
            npriv: value & CONTROL_NPRIV == CONTROL_NPRIV,
            spsel: value & CONTROL_SPSEL == CONTROL_SPSEL,
        }
    }

    /// The register as a word.
    pub fn bits(self) -> (v: u32)
        ensures
            v == self.spec_bits(),
    {
        if self.npriv && self.spsel {
            3
        } else if self.spsel {
            2
        } else if self.npriv {
            1
        } else {
            0
        }
    }

    /// The register that a write of `value` leaves.
    pub fn from_bits(value: u32) -> (c: Control)
        ensures
            c == Self::spec_from_bits(value),
    {
        Control {
            npriv: value & CONTROL_NPRIV == CONTROL_NPRIV,
            spsel: value & CONTROL_SPSEL == CONTROL_SPSEL,
        }
    }
}

/// The state of the processor as contracts speak of it.
///
/// The stack pointer is banked: which of `sp_main` and `sp_process` is the
/// stack pointer follows from `mode` and `control.spsel`, by `active_stack`.
/// The low byte of `psr` is the number of the exception that is being
/// served: exception entry sets it, and exception return brings back what
/// was stacked.
#[verifier::ext_equal]
pub struct ProcessorState {
    pub mode: CPUMode,
    pub control: Control,
    /// The main stack pointer.
    pub sp_main: u32,
    /// The process stack pointer.
    pub sp_process: u32,
    /// The link register.
    pub lr: u32,
    /// The program status register.
    pub psr: u32,
    /// The general-purpose registers.
    pub regs: Map<GPR, u32>,
    /// The memory, from each mapped address to the word it holds.
    pub mem: Map<u32, u32>,
}

impl ProcessorState {
    /// Every general-purpose register has a value, and the memory maps the
    /// addresses that can be read and no others.
    pub open spec fn wf(self) -> bool {
        &&& forall|reg: GPR| self.regs.dom().contains(reg)
        &&& forall|a: u32| self.mem.dom().contains(a) <==> Memory::is_valid_read_addr(a)
    }

    /// The stack in use: the main stack in handler mode, and in thread mode
    /// the one that `control.spsel` selects.
    pub open spec fn active_stack(self) -> Stack {
        match self.mode {
            CPUMode::Handler => Stack::Main,
            CPUMode::Thread => if self.control.spsel {
                Stack::Process
            } else {
                Stack::Main
            },
        }
    }

    /// How the processor runs.
    pub open spec fn execution(self) -> Execution {
        match self.mode {
            CPUMode::Handler => Execution::Handler,
            CPUMode::Thread => Execution::Thread {
                privileged: !self.control.npriv,
                active_stack: if self.control.spsel {
                    Stack::Process
                } else {
                    Stack::Main
                },
            },
        }
    }

    /// Whether the processor runs privileged: always in handler mode, and in
    /// thread mode unless `control.npriv` is set.
    pub open spec fn privileged(self) -> bool {
        self.mode == CPUMode::Handler || !self.control.npriv
    }

    /// The stack pointer of `stack`.
    pub open spec fn stack_pointer(self, stack: Stack) -> u32 {
        match stack {
            Stack::Main => self.sp_main,
            Stack::Process => self.sp_process,
        }
    }

    /// The state with the stack pointer of `stack` set to `value`.
    pub open spec fn with_stack_pointer(self, stack: Stack, value: u32) -> ProcessorState {
        match stack {
            Stack::Main => ProcessorState { sp_main: value, ..self },
            Stack::Process => ProcessorState { sp_process: value, ..self },
        }
    }

    /// The active stack pointer.
    pub open spec fn sp(self) -> u32 {
        self.stack_pointer(self.active_stack())
    }

    /// The exception number field of the program status register.
    pub open spec fn ipsr(self) -> u32 {
        self.psr & IPSR_MASK
    }

    /// The value of a general-purpose register.
    pub open spec fn gpr(self, reg: GPR) -> u32 {
        self.regs[reg]
    }

    /// The state with a general-purpose register set to `value`.
    pub open spec fn with_gpr(self, reg: GPR, value: u32) -> ProcessorState {
        ProcessorState { regs: self.regs.insert(reg, value), ..self }
    }

    /// The value of a special register.
    pub open spec fn special(self, reg: SpecialRegister) -> u32 {
        match reg {
            SpecialRegister::Sp => self.sp(),
            SpecialRegister::Lr => self.lr,
            SpecialRegister::Psr => self.psr,
            SpecialRegister::Ipsr => self.ipsr(),
            SpecialRegister::Control => self.control.spec_bits(),
        }
    }

    /// The state after a write of `value` to a special register. A write to
    /// the stack pointer goes to the active one; a write to the exception
    /// number field is ignored.
    pub open spec fn with_special(self, reg: SpecialRegister, value: u32) -> ProcessorState {
        match reg {
            SpecialRegister::Sp => self.with_stack_pointer(self.active_stack(), value),
            SpecialRegister::Lr => ProcessorState { lr: value, ..self },
            SpecialRegister::Psr => ProcessorState { psr: value, ..self },
            SpecialRegister::Ipsr => self,
            SpecialRegister::Control => ProcessorState {
                control: Control::spec_from_bits(value),
                ..self
            },
        }
    }

    /// The state with the word at `address` set to `value`.
    pub open spec fn with_word(self, address: u32, value: u32) -> ProcessorState {
        ProcessorState { mem: self.mem.insert(address, value), ..self }
    }
}

/// An ARMv7-M processor with its memory.
#[derive(Debug)]
pub struct Armv7m {
    general_regs: [u32; 13],
    sp_main: u32,
    sp_process: u32,
    lr: u32,
    psr: u32,
    control: Control,
    mode: CPUMode,
    mem: Memory,
}

impl View for Armv7m {
    type V = ProcessorState;

    /// The processor as contracts speak of it.
    closed spec fn view(&self) -> ProcessorState {
        ProcessorState {
            mode: self.mode,
            control: self.control,
            sp_main: self.sp_main,
            sp_process: self.sp_process,
            lr: self.lr,
            psr: self.psr,
            regs: Map::total(|reg: GPR| self.general_regs[reg.spec_index()]),
            mem: self.mem@,
        }
    }
}

impl Armv7m {
    /// The view of a processor is well formed.
    pub proof fn lemma_view_wf(&self)
        ensures
            self@.wf(),
    {
        self.mem.lemma_view_domain();
    }

    /// The processor as it is after reset: in thread mode, privileged, on
    /// the main stack; the link register holds `LR_RESET`; the other
    /// registers hold zero; the memory holds its reset values.
    pub fn new() -> (cpu: Armv7m)
        ensures
            cpu@.wf(),
            cpu@.mode == CPUMode::Thread,
            cpu@.control == (Control { npriv: false, spsel: false }),
            cpu@.sp_main == 0,
            cpu@.sp_process == 0,
            cpu@.lr == LR_RESET,
            cpu@.psr == 0,
            forall|reg: GPR| cpu@.gpr(reg) == 0,
            forall|a: u32|
                #![trigger cpu@.mem[a]]
                Memory::is_valid_read_addr(a) ==> cpu@.mem[a] == Memory::spec_reset_value(a),
    {
        let cpu = Armv7m {
            general_regs: [0u32; 13],
            sp_main: 0,
            sp_process: 0,
            lr: LR_RESET,
            psr: 0,
            control: Control { npriv: false, spsel: false },
            mode: CPUMode::Thread,
            mem: Memory::new(),
        };
        proof {
            cpu.lemma_view_wf();
        }
        cpu
    }

    /// The mode of the processor.
    pub fn mode(&self) -> (m: CPUMode)
        ensures
            m == self@.mode,
    {
        self.mode
    }

    /// Whether the processor is in handler mode.
    pub fn mode_is_handler(&self) -> (b: bool)
        ensures
            b == (self@.mode == CPUMode::Handler),
    {
        self.mode == CPUMode::Handler
    }

    /// The control register.
    pub fn control(&self) -> (c: Control)
        ensures
            c == self@.control,
    {
        self.control
    }

    /// Sets the control register.
    pub fn update_control(&mut self, control: Control)
        ensures
            final(self)@ == (ProcessorState { control, ..old(self)@ }),
    {
        self.control = control;
    }

    /// Puts the processor in `mode`. Only exception entry and return change
    /// the mode.
    pub(crate) fn update_mode(&mut self, mode: CPUMode)
        ensures
            final(self)@ == (ProcessorState { mode, ..old(self)@ }),
    {
        self.mode = mode;
    }

    /// How the processor runs.
    pub fn execution(&self) -> (e: Execution)
        ensures
            e == self@.execution(),
            e matches Execution::Thread { privileged, active_stack } ==> privileged
                == self@.privileged() && active_stack == self@.active_stack(),
            e is Handler ==> self@.privileged() && self@.active_stack() == Stack::Main,
    {
        match self.mode {
            CPUMode::Handler => Execution::Handler,
            CPUMode::Thread => Execution::Thread {
                privileged: !self.control.npriv,
                active_stack: if self.control.spsel {
                    Stack::Process
                } else {
                    Stack::Main
                },
            },
        }
    }

    /// Whether the processor runs privileged.
    pub fn is_privileged(&self) -> (b: bool)
        ensures
            b == self@.privileged(),
    {
        self.mode_is_handler() || !self.control.npriv
    }

    /// The stack in use.
    pub fn active_stack(&self) -> (s: Stack)
        ensures
            s == self@.active_stack(),
    {
        match self.mode {
            CPUMode::Handler => Stack::Main,
            CPUMode::Thread => if self.control.spsel {
                Stack::Process
            } else {
                Stack::Main
            },
        }
    }

    /// The stack pointer of `stack`, active or not.
    pub fn stack_pointer(&self, stack: Stack) -> (v: u32)
        ensures
            v == self@.stack_pointer(stack),
    {
        match stack {
            Stack::Main => self.sp_main,
            Stack::Process => self.sp_process,
        }
    }

    /// Sets the stack pointer of `stack`, active or not.
    pub fn update_stack_pointer(&mut self, stack: Stack, value: u32)
        ensures
            final(self)@ == old(self)@.with_stack_pointer(stack, value),
    {
        match stack {
            Stack::Main => {
                self.sp_main = value;
            },
            Stack::Process => {
                self.sp_process = value;
            },
        }
    }

    /// The value of a general-purpose register.
    pub fn get_value_from_general_reg(&self, reg: GPR) -> (v: u32)
        ensures
            v == self@.gpr(reg),
    {
        self.general_regs[reg.index()]
    }

    /// Sets a general-purpose register.
    pub fn update_general_reg(&mut self, reg: GPR, value: u32)
        ensures
            final(self)@ == old(self)@.with_gpr(reg, value),
    {
        let i: usize = reg.index();
        self.general_regs[i] = value;
    }

    /// The value of a special register. The stack pointer is the active one.
    pub fn get_value_from_special_reg(&self, reg: SpecialRegister) -> (v: u32)
        ensures
            v == self@.special(reg),
    {
        match reg {
            SpecialRegister::Sp => self.stack_pointer(self.active_stack()),
            SpecialRegister::Lr => self.lr,
            SpecialRegister::Psr => self.psr,
            SpecialRegister::Ipsr => self.psr & IPSR_MASK,
            SpecialRegister::Control => self.control.bits(),
        }
    }

    /// Writes a special register. A write to the stack pointer goes to the
    /// active one; a write to the exception number field is ignored.
    pub fn update_special_reg(&mut self, reg: SpecialRegister, value: u32)
        ensures
            final(self)@ == old(self)@.with_special(reg, value),
    {
        match reg {
            SpecialRegister::Sp => {
                let stack = self.active_stack();
                self.update_stack_pointer(stack, value);
            },
            SpecialRegister::Lr => {
                self.lr = value;
            },
            SpecialRegister::Psr => {
                self.psr = value;
            },
            SpecialRegister::Ipsr => {},
            SpecialRegister::Control => {
                self.control = Control::from_bits(value);
            },
        }
    }

    /// Reads the word at `address`.
    pub fn read32(&self, address: u32) -> (r: Result<u32, Fault>)
        ensures
            Memory::is_valid_read_addr(address) ==> r == Ok::<u32, Fault>(self@.mem[address]),
            !Memory::is_valid_read_addr(address) ==> r == Err::<u32, Fault>(
                Memory::access_fault(address),
            ),
    {
        self.mem.read(address)
    }

    /// Writes `value` to the word at `address`. A failed write changes
    /// nothing.
    pub fn write32(&mut self, address: u32, value: u32) -> (r: Result<(), Fault>)
        ensures
            Memory::is_valid_write_addr(address) ==> r is Ok && final(self)@ == old(
                self,
            )@.with_word(address, value),
            !Memory::is_valid_write_addr(address) ==> r == Err::<(), Fault>(
                Memory::access_fault(address),
            ) && final(self)@ == old(self)@,
    {
        self.mem.write(address, value)
    }
}

} // verus!
