//! Exception entry and return.
//!
//! On entry the processor stacks a frame of eight words on the stack in
//! use, loads the link register with a return code that records where it
//! came from, and goes to handler mode on the main stack. On return it
//! takes the stack from the return code, unstacks the frame and goes back to
//! thread mode.
//!
//! What the model leaves out, on purpose: the return address is stacked as
//! zero and is not restored; the frame pointer is not aligned to eight
//! bytes, so bit 9 of the stacked status word is the one that the register
//! held; the state of an interrupted if-then block is not tracked; and the
//! caller-saved registers keep their values across entry. A return code other
//! than `EXC_RETURN_THREAD_MAIN` returns to thread mode on the process stack,
//! `EXC_RETURN_HANDLER` included.

use vstd::prelude::*;
use crate::cpu::{Armv7m, CPUMode, Control, ProcessorState, Stack, IPSR_MASK};
use crate::fault::Fault;
use crate::lang::{GPR, SpecialRegister};
use crate::mem::Memory;

verus! {

/// The size of an exception frame in bytes.
pub const FRAME_SIZE: u32 = 0x20;

/// The offsets of the words of an exception frame from its frame pointer.
pub const FRAME_R0: u32 = 0x00;
pub const FRAME_R1: u32 = 0x04;
pub const FRAME_R2: u32 = 0x08;
pub const FRAME_R3: u32 = 0x0C;
pub const FRAME_R12: u32 = 0x10;
pub const FRAME_LR: u32 = 0x14;
pub const FRAME_RETURN_ADDRESS: u32 = 0x18;
pub const FRAME_PSR: u32 = 0x1C;

/// The return code for a return to handler mode.
pub const EXC_RETURN_HANDLER: u32 = 0xFFFF_FFF1;

/// The return code for a return to thread mode on the main stack.
pub const EXC_RETURN_THREAD_MAIN: u32 = 0xFFFF_FFF9;

/// The return code for a return to thread mode on the process stack.
pub const EXC_RETURN_THREAD_PROCESS: u32 = 0xFFFF_FFFD;

/// The number of the supervisor call exception.
pub const SVCALL: u8 = 11;

/// The eight words that exception entry stacks.
#[derive(Clone, Copy, Debug, PartialEq, Eq, Structural)]
pub struct ExceptionFrame {
    pub r0: u32,
    pub r1: u32,
    pub r2: u32,
    pub r3: u32,
    pub r12: u32,
    pub lr: u32,
    pub return_address: u32,
    pub psr: u32,
}

impl ExceptionFrame {
    /// The address of the word at `offset` in the frame at `frame_ptr`.
    pub open spec fn word_addr(frame_ptr: u32, offset: u32) -> u32 {
        frame_ptr.wrapping_add(offset)
    }

    /// Whether a frame can be stacked at `frame_ptr`: each of its eight words
    /// can be written.
    pub open spec fn spec_is_writable_at(frame_ptr: u32) -> bool {
        &&& Memory::is_valid_write_addr(Self::word_addr(frame_ptr, FRAME_R0))
        &&& Memory::is_valid_write_addr(Self::word_addr(frame_ptr, FRAME_R1))
        &&& Memory::is_valid_write_addr(Self::word_addr(frame_ptr, FRAME_R2))
        &&& Memory::is_valid_write_addr(Self::word_addr(frame_ptr, FRAME_R3))
        &&& Memory::is_valid_write_addr(Self::word_addr(frame_ptr, FRAME_R12))
        &&& Memory::is_valid_write_addr(Self::word_addr(frame_ptr, FRAME_LR))
        &&& Memory::is_valid_write_addr(Self::word_addr(frame_ptr, FRAME_RETURN_ADDRESS))
        &&& Memory::is_valid_write_addr(Self::word_addr(frame_ptr, FRAME_PSR))
    }

    /// Whether a frame can be unstacked from `frame_ptr`: each of the seven
    /// words that exception return loads can be read. The return address is
    /// not among them.
    pub open spec fn spec_is_readable_at(frame_ptr: u32) -> bool {
        &&& Memory::is_valid_read_addr(Self::word_addr(frame_ptr, FRAME_R0))
        &&& Memory::is_valid_read_addr(Self::word_addr(frame_ptr, FRAME_R1))
        &&& Memory::is_valid_read_addr(Self::word_addr(frame_ptr, FRAME_R2))
        &&& Memory::is_valid_read_addr(Self::word_addr(frame_ptr, FRAME_R3))
        &&& Memory::is_valid_read_addr(Self::word_addr(frame_ptr, FRAME_R12))
        &&& Memory::is_valid_read_addr(Self::word_addr(frame_ptr, FRAME_LR))
        &&& Memory::is_valid_read_addr(Self::word_addr(frame_ptr, FRAME_PSR))
    }

    /// The memory `mem` with the frame stored at `frame_ptr`.
    pub open spec fn store(self, mem: Map<u32, u32>, frame_ptr: u32) -> Map<u32, u32> {
        mem.insert(Self::word_addr(frame_ptr, FRAME_R0), self.r0).insert(
            Self::word_addr(frame_ptr, FRAME_R1),
            self.r1,
        ).insert(Self::word_addr(frame_ptr, FRAME_R2), self.r2).insert(
            Self::word_addr(frame_ptr, FRAME_R3),
            self.r3,
        ).insert(Self::word_addr(frame_ptr, FRAME_R12), self.r12).insert(
            Self::word_addr(frame_ptr, FRAME_LR),
            self.lr,
        ).insert(Self::word_addr(frame_ptr, FRAME_RETURN_ADDRESS), self.return_address).insert(
            Self::word_addr(frame_ptr, FRAME_PSR),
            self.psr,
        )
    }

    /// The frame that `mem` holds at `frame_ptr`.
    pub open spec fn stored_at(mem: Map<u32, u32>, frame_ptr: u32) -> ExceptionFrame {
        ExceptionFrame {
            r0: mem[Self::word_addr(frame_ptr, FRAME_R0)],
            r1: mem[Self::word_addr(frame_ptr, FRAME_R1)],
            r2: mem[Self::word_addr(frame_ptr, FRAME_R2)],
            r3: mem[Self::word_addr(frame_ptr, FRAME_R3)],
            r12: mem[Self::word_addr(frame_ptr, FRAME_R12)],
            lr: mem[Self::word_addr(frame_ptr, FRAME_LR)],
            return_address: mem[Self::word_addr(frame_ptr, FRAME_RETURN_ADDRESS)],
            psr: mem[Self::word_addr(frame_ptr, FRAME_PSR)],
        }
    }

    /// Whether a frame can be stacked at `frame_ptr`.
    pub fn is_writable_at(frame_ptr: u32) -> (b: bool)
        ensures
            b == Self::spec_is_writable_at(frame_ptr),
    {
        Memory::is_writable(frame_ptr.wrapping_add(FRAME_R0)) && Memory::is_writable(
            frame_ptr.wrapping_add(FRAME_R1),
        ) && Memory::is_writable(frame_ptr.wrapping_add(FRAME_R2)) && Memory::is_writable(
            frame_ptr.wrapping_add(FRAME_R3),
        ) && Memory::is_writable(frame_ptr.wrapping_add(FRAME_R12)) && Memory::is_writable(
            frame_ptr.wrapping_add(FRAME_LR),
        ) && Memory::is_writable(frame_ptr.wrapping_add(FRAME_RETURN_ADDRESS))
            && Memory::is_writable(frame_ptr.wrapping_add(FRAME_PSR))
    }

    /// Whether a frame can be unstacked from `frame_ptr`.
    pub fn is_readable_at(frame_ptr: u32) -> (b: bool)
        ensures
            b == Self::spec_is_readable_at(frame_ptr),
    {
        Memory::is_readable(frame_ptr.wrapping_add(FRAME_R0)) && Memory::is_readable(
            frame_ptr.wrapping_add(FRAME_R1),
        ) && Memory::is_readable(frame_ptr.wrapping_add(FRAME_R2)) && Memory::is_readable(
            frame_ptr.wrapping_add(FRAME_R3),
        ) && Memory::is_readable(frame_ptr.wrapping_add(FRAME_R12)) && Memory::is_readable(
            frame_ptr.wrapping_add(FRAME_LR),
        ) && Memory::is_readable(frame_ptr.wrapping_add(FRAME_PSR))
    }

    /// A frame that has been stored is the frame that is found there.
    pub proof fn lemma_store_then_load(self, mem: Map<u32, u32>, frame_ptr: u32)
        ensures
            Self::stored_at(self.store(mem, frame_ptr), frame_ptr) == self,
    {
    }

    /// Where a frame can be stacked it can be unstacked.
    pub proof fn lemma_writable_is_readable(frame_ptr: u32)
        requires
            Self::spec_is_writable_at(frame_ptr),
        ensures
            Self::spec_is_readable_at(frame_ptr),
    {
    }
}

/// The return code that a handler leaves with: a supervisor call that came
/// from thread mode on the main stack resumes on the process stack, and
/// everything else resumes on the main stack.
pub open spec fn isr_return_code(exception_number: u8, entry_lr: u32) -> u32 {
    if exception_number == SVCALL && entry_lr == EXC_RETURN_THREAD_MAIN {
        EXC_RETURN_THREAD_PROCESS
    } else {
        EXC_RETURN_THREAD_MAIN
    }
}

impl ProcessorState {
    /// The frame that exception entry stacks: the caller-saved registers, the
    /// link register, zero in place of the return address, and the status
    /// register, each as it is before entry.
    pub open spec fn frame(self) -> ExceptionFrame {
        ExceptionFrame {
            r0: self.gpr(GPR::R0),
            r1: self.gpr(GPR::R1),
            r2: self.gpr(GPR::R2),
            r3: self.gpr(GPR::R3),
            r12: self.gpr(GPR::R12),
            lr: self.lr,
            return_address: 0,
            psr: self.psr,
        }
    }

    /// Where exception entry puts the frame: `FRAME_SIZE` bytes below the
    /// active stack pointer.
    pub open spec fn entry_frame_ptr(self) -> u32 {
        self.sp().wrapping_sub(FRAME_SIZE)
    }

    /// Whether exception entry can stack its frame.
    pub open spec fn can_stack(self) -> bool {
        ExceptionFrame::spec_is_writable_at(self.entry_frame_ptr())
    }

    /// The state after the frame has been stacked: the active stack pointer
    /// is the frame pointer, and the memory holds the frame there.
    pub open spec fn push_stack(self) -> ProcessorState {
        let frame_ptr = self.entry_frame_ptr();
        ProcessorState {
            mem: self.frame().store(self.mem, frame_ptr),
            ..self.with_stack_pointer(self.active_stack(), frame_ptr)
        }
    }

    /// The return code that exception entry leaves in the link register.
    pub open spec fn entry_return_code(self) -> u32 {
        if self.mode == CPUMode::Handler {
            EXC_RETURN_HANDLER
        } else if self.control.spsel {
            EXC_RETURN_THREAD_PROCESS
        } else {
            EXC_RETURN_THREAD_MAIN
        }
    }

    /// The state after an exception has been taken: the status register
    /// holds the exception number in its low byte, the link register holds
    /// the return code, and the processor is in handler mode on the main
    /// stack.
    pub open spec fn exception_taken(self, exception_number: u8) -> ProcessorState {
        ProcessorState {
            psr: (self.psr & !IPSR_MASK) | (exception_number as u32),
            lr: self.entry_return_code(),
            mode: CPUMode::Handler,
            control: Control { spsel: false, ..self.control },
            ..self
        }
    }

    /// The state after exception entry: the frame is stacked, then the
    /// exception is taken.
    pub open spec fn exception_entry(self, exception_number: u8) -> ProcessorState {
        self.push_stack().exception_taken(exception_number)
    }

    /// The stack that a return with `return_exec` goes back to.
    pub open spec fn return_stack(return_exec: u32) -> Stack {
        if return_exec == EXC_RETURN_THREAD_MAIN {
            Stack::Main
        } else {
            Stack::Process
        }
    }

    /// Where a return with `return_exec` finds its frame: at the stack
    /// pointer of the stack that it goes back to.
    pub open spec fn exit_frame_ptr(self, return_exec: u32) -> u32 {
        self.stack_pointer(Self::return_stack(return_exec))
    }

    /// Whether a return with `return_exec` can unstack its frame.
    pub open spec fn can_unstack(self, return_exec: u32) -> bool {
        ExceptionFrame::spec_is_readable_at(self.exit_frame_ptr(return_exec))
    }

    /// The state after a return with `return_exec`: the processor is in
    /// thread mode on the stack that the code names, the stacked registers
    /// are restored, and the frame is popped from that stack.
    pub open spec fn exception_exit(self, return_exec: u32) -> ProcessorState {
        let stack = Self::return_stack(return_exec);
        let frame_ptr = self.exit_frame_ptr(return_exec);
        let frame = ExceptionFrame::stored_at(self.mem, frame_ptr);
        ProcessorState {
            mode: CPUMode::Thread,
            control: Control { spsel: stack == Stack::Process, ..self.control },
            regs: self.regs.insert(GPR::R0, frame.r0).insert(GPR::R1, frame.r1).insert(
                GPR::R2,
                frame.r2,
            ).insert(GPR::R3, frame.r3).insert(GPR::R12, frame.r12),
            lr: frame.lr,
            psr: frame.psr,
            ..self.with_stack_pointer(stack, frame_ptr.wrapping_add(FRAME_SIZE))
        }
    }

    /// The return code with which `preempt` returns.
    pub open spec fn preempt_return_code(self, exception_number: u8) -> u32 {
        isr_return_code(exception_number, self.entry_return_code())
    }

    /// Whether `preempt` can both stack its frame and unstack the frame that
    /// its return code points it to.
    pub open spec fn can_preempt(self, exception_number: u8) -> bool {
        &&& self.can_stack()
        &&& self.exception_entry(exception_number).can_unstack(
            self.preempt_return_code(exception_number),
        )
    }

    /// The state after an exception has been entered, handled and returned
    /// from.
    pub open spec fn preempt(self, exception_number: u8) -> ProcessorState {
        self.exception_entry(exception_number).exception_exit(
            self.preempt_return_code(exception_number),
        )
    }
}

impl ProcessorState {
    /// Exception entry leaves the frame in memory at the frame pointer, and
    /// the frame holds what the registers held before entry: `r0` to `r3`,
    /// `r12`, the link register, zero for the return address, and the status
    /// register. The stack that was in use has the frame pointer as its stack
    /// pointer.
    pub proof fn lemma_entry_stacks_frame(self, exception_number: u8)
        ensures
            ({
                let entered = self.exception_entry(exception_number);
                let frame_ptr = self.entry_frame_ptr();
                &&& ExceptionFrame::stored_at(entered.mem, frame_ptr) == self.frame()
                &&& entered.stack_pointer(self.active_stack()) == frame_ptr
                &&& self.active_stack() == Stack::Main ==> entered.sp() == frame_ptr
            }),
    {
        self.frame().lemma_store_then_load(self.mem, self.entry_frame_ptr());
    }

    /// After entry on the main stack into an exception whose number the
    /// status register already held, the eight words at the stack pointer
    /// are `r0` to `r3`, `r12` and the link register as they were before
    /// entry, zero, and the status register, whose low byte is the exception
    /// number.
    pub proof fn lemma_entry_frame_at_sp(self, exception_number: u8)
        requires
            self.active_stack() == Stack::Main,
            self.ipsr() == exception_number,
        ensures
            ({
                let entered = self.exception_entry(exception_number);
                &&& ExceptionFrame::stored_at(entered.mem, entered.sp()) == (ExceptionFrame {
                    r0: self.gpr(GPR::R0),
                    r1: self.gpr(GPR::R1),
                    r2: self.gpr(GPR::R2),
                    r3: self.gpr(GPR::R3),
                    r12: self.gpr(GPR::R12),
                    lr: self.lr,
                    return_address: 0,
                    psr: entered.psr,
                })
                &&& entered.ipsr() == exception_number
            }),
    {
        self.lemma_entry_stacks_frame(exception_number);
        let psr: u32 = self.psr;
        let number: u32 = exception_number as u32;
        assert((psr & !IPSR_MASK) | number == psr) by (bit_vector)
            requires
                psr & IPSR_MASK == number,
        ;
    }

    /// The return code that entry leaves in the link register tells where the
    /// exception came from: handler mode, thread mode on the process stack,
    /// or thread mode on the main stack. Whatever it came from, the processor
    /// is then in handler mode on the main stack.
    pub proof fn lemma_entry_return_code(self, exception_number: u8)
        ensures
            ({
                let entered = self.exception_entry(exception_number);
                &&& self.mode == CPUMode::Handler ==> entered.lr == EXC_RETURN_HANDLER
                &&& self.mode == CPUMode::Thread && self.control.spsel ==> entered.lr
                    == EXC_RETURN_THREAD_PROCESS
                &&& self.mode == CPUMode::Thread && !self.control.spsel ==> entered.lr
                    == EXC_RETURN_THREAD_MAIN
                &&& entered.mode == CPUMode::Handler
                &&& !entered.control.spsel
                &&& entered.active_stack() == Stack::Main
            }),
    {
    }

    /// Entry from thread mode followed by a return with the return code that
    /// entry left in the link register restores `r0` to `r3`, `r12`, the
    /// link register, the status register and the active stack pointer. It
    /// restores the rest of the processor too: only the memory has changed,
    /// and it holds the frame.
    pub proof fn lemma_entry_exit_round_trip(self, exception_number: u8)
        requires
            self.wf(),
            self.mode == CPUMode::Thread,
            self.can_stack(),
        ensures
            ({
                let entered = self.exception_entry(exception_number);
                let returned = entered.exception_exit(entered.lr);
                &&& entered.can_unstack(entered.lr)
                &&& returned.gpr(GPR::R0) == self.gpr(GPR::R0)
                &&& returned.gpr(GPR::R1) == self.gpr(GPR::R1)
                &&& returned.gpr(GPR::R2) == self.gpr(GPR::R2)
                &&& returned.gpr(GPR::R3) == self.gpr(GPR::R3)
                &&& returned.gpr(GPR::R12) == self.gpr(GPR::R12)
                &&& returned.lr == self.lr
                &&& returned.psr == self.psr
                &&& returned.sp() == self.sp()
                &&& returned == (ProcessorState { mem: entered.mem, ..self })
            }),
    {
        let entered = self.exception_entry(exception_number);
        let returned = entered.exception_exit(entered.lr);
        self.lemma_entry_stacks_frame(exception_number);
        ExceptionFrame::lemma_writable_is_readable(self.entry_frame_ptr());
        assert(returned.regs =~= self.regs);
    }

    /// `preempt` returns with `EXC_RETURN_THREAD_PROCESS` from a supervisor
    /// call that came from thread mode on the main stack, and with
    /// `EXC_RETURN_THREAD_MAIN` from every other exception and from every
    /// other place.
    pub proof fn lemma_preempt_return_code(self, exception_number: u8)
        ensures
            exception_number == SVCALL && self.exception_entry(exception_number).lr
                == EXC_RETURN_THREAD_MAIN ==> self.preempt_return_code(exception_number)
                == EXC_RETURN_THREAD_PROCESS,
            exception_number != SVCALL || self.exception_entry(exception_number).lr
                != EXC_RETURN_THREAD_MAIN ==> self.preempt_return_code(exception_number)
                == EXC_RETURN_THREAD_MAIN,
            self.preempt(exception_number).mode == CPUMode::Thread,
            self.preempt(exception_number).control.spsel == (exception_number == SVCALL
                && self.mode == CPUMode::Thread && !self.control.spsel),
    {
    }
}

impl Armv7m {
    /// Stores one word of a frame whose address has been checked.
    fn stack_word(&mut self, address: u32, value: u32)
        requires
            Memory::is_valid_write_addr(address),
        ensures
            final(self)@ == old(self)@.with_word(address, value),
    {
        self.write32(address, value).unwrap();
    }

    /// Stacks an exception frame below the active stack pointer and moves
    /// that stack pointer down to it.
    ///
    /// Fails with `StackAccessFault`, and changes nothing, where one of the
    /// frame's eight words cannot be written.
    pub fn push_stack(&mut self) -> (r: Result<(), Fault>)
        ensures
            old(self)@.can_stack() ==> r is Ok && final(self)@ == old(self)@.push_stack(),
            !old(self)@.can_stack() ==> r == Err::<(), Fault>(Fault::StackAccessFault)
                && final(self)@ == old(self)@,
    {
        let frame_ptr: u32 = self.get_value_from_special_reg(SpecialRegister::Sp).wrapping_sub(
            FRAME_SIZE,
        );
        if !ExceptionFrame::is_writable_at(frame_ptr) {
            return Err(Fault::StackAccessFault);
        }
        self.update_special_reg(SpecialRegister::Sp, frame_ptr);
        let r0: u32 = self.get_value_from_general_reg(GPR::R0);
        self.stack_word(frame_ptr.wrapping_add(FRAME_R0), r0);
        let r1: u32 = self.get_value_from_general_reg(GPR::R1);
        self.stack_word(frame_ptr.wrapping_add(FRAME_R1), r1);
        let r2: u32 = self.get_value_from_general_reg(GPR::R2);
        self.stack_word(frame_ptr.wrapping_add(FRAME_R2), r2);
        let r3: u32 = self.get_value_from_general_reg(GPR::R3);
        self.stack_word(frame_ptr.wrapping_add(FRAME_R3), r3);
        let r12: u32 = self.get_value_from_general_reg(GPR::R12);
        self.stack_word(frame_ptr.wrapping_add(FRAME_R12), r12);
        let lr: u32 = self.get_value_from_special_reg(SpecialRegister::Lr);
        self.stack_word(frame_ptr.wrapping_add(FRAME_LR), lr);
        self.stack_word(frame_ptr.wrapping_add(FRAME_RETURN_ADDRESS), 0);
        let psr: u32 = self.get_value_from_special_reg(SpecialRegister::Psr);
        self.stack_word(frame_ptr.wrapping_add(FRAME_PSR), psr);
        Ok(())
    }

    /// Takes the exception `exception_number`: records the number in the low
    /// byte of the status register, loads the link register with the return
    /// code, and goes to handler mode on the main stack.
    pub fn exception_taken(&mut self, exception_number: u8)
        ensures
            final(self)@ == old(self)@.exception_taken(exception_number),
            final(self)@.mode == CPUMode::Handler,
            !final(self)@.control.spsel,
            final(self)@.ipsr() == exception_number,
            old(self)@.mode == CPUMode::Handler ==> final(self)@.lr == EXC_RETURN_HANDLER,
            old(self)@.mode == CPUMode::Thread && old(self)@.control.spsel ==> final(self)@.lr
                == EXC_RETURN_THREAD_PROCESS,
            old(self)@.mode == CPUMode::Thread && !old(self)@.control.spsel ==> final(self)@.lr
                == EXC_RETURN_THREAD_MAIN,
    {
        let psr: u32 = self.get_value_from_special_reg(SpecialRegister::Psr);
        let number: u32 = exception_number as u32;
        assert(((psr & !IPSR_MASK) | number) & IPSR_MASK == number) by (bit_vector)
            requires
                number < 256,
        ;
        let control = self.control();
        let lr: u32 = if self.mode_is_handler() {
            EXC_RETURN_HANDLER
        } else if control.spsel {
            EXC_RETURN_THREAD_PROCESS
        } else {
            EXC_RETURN_THREAD_MAIN
        };
        self.update_special_reg(SpecialRegister::Psr, (psr & !IPSR_MASK) | number);
        self.update_special_reg(SpecialRegister::Lr, lr);
        self.update_mode(CPUMode::Handler);
        self.update_control(Control { spsel: false, npriv: control.npriv });
    }

    /// Enters the exception `exception_number`: stacks the frame, then takes
    /// the exception, so that the frame holds the link register and the
    /// status register as they were before.
    ///
    /// Fails with `StackAccessFault`, and changes nothing, where one of the
    /// frame's eight words cannot be written.
    pub fn exception_entry(&mut self, exception_number: u8) -> (r: Result<(), Fault>)
        ensures
            old(self)@.can_stack() ==> r is Ok && final(self)@ == old(self)@.exception_entry(
                exception_number,
            ),
            !old(self)@.can_stack() ==> r == Err::<(), Fault>(Fault::StackAccessFault)
                && final(self)@ == old(self)@,
            r is Ok ==> final(self)@.mode == CPUMode::Handler && !final(self)@.control.spsel
                && final(self)@.ipsr() == exception_number,
            r is Ok && old(self)@.mode == CPUMode::Handler ==> final(self)@.lr
                == EXC_RETURN_HANDLER,
            r is Ok && old(self)@.mode == CPUMode::Thread && old(self)@.control.spsel
                ==> final(self)@.lr == EXC_RETURN_THREAD_PROCESS,
            r is Ok && old(self)@.mode == CPUMode::Thread && !old(self)@.control.spsel
                ==> final(self)@.lr == EXC_RETURN_THREAD_MAIN,
    {
        match self.push_stack() {
            Ok(()) => {
                self.exception_taken(exception_number);
                Ok(())
            },
            Err(fault) => Err(fault),
        }
    }

    /// Loads one word of a frame whose address has been checked.
    fn unstack_word(&self, address: u32) -> (value: u32)
        requires
            Memory::is_valid_read_addr(address),
        ensures
            value == self@.mem[address],
    {
        self.read32(address).unwrap()
    }

    /// Returns from an exception with the return code `return_exec`.
    ///
    /// `EXC_RETURN_THREAD_MAIN` returns to the main stack; every other value
    /// returns to the process stack. The processor goes to thread mode on
    /// that stack, `r0` to `r3`, `r12`, the link register and the status
    /// register are loaded from the frame at its stack pointer, and the
    /// stack pointer moves up past the frame.
    ///
    /// Fails with `StackAccessFault`, and changes nothing, where one of the
    /// seven words to load cannot be read.
    pub fn exception_exit(&mut self, return_exec: u32) -> (r: Result<(), Fault>)
        ensures
            old(self)@.can_unstack(return_exec) ==> r is Ok && final(self)@ == old(
                self,
            )@.exception_exit(return_exec),
            !old(self)@.can_unstack(return_exec) ==> r == Err::<(), Fault>(
                Fault::StackAccessFault,
            ) && final(self)@ == old(self)@,
    {
        let stack = if return_exec == EXC_RETURN_THREAD_MAIN {
            Stack::Main
        } else {
            Stack::Process
        };
        let frame_ptr: u32 = self.stack_pointer(stack);
        if !ExceptionFrame::is_readable_at(frame_ptr) {
            return Err(Fault::StackAccessFault);
        }
        let r0: u32 = self.unstack_word(frame_ptr.wrapping_add(FRAME_R0));
        let r1: u32 = self.unstack_word(frame_ptr.wrapping_add(FRAME_R1));
        let r2: u32 = self.unstack_word(frame_ptr.wrapping_add(FRAME_R2));
        let r3: u32 = self.unstack_word(frame_ptr.wrapping_add(FRAME_R3));
        let r12: u32 = self.unstack_word(frame_ptr.wrapping_add(FRAME_R12));
        let lr: u32 = self.unstack_word(frame_ptr.wrapping_add(FRAME_LR));
        let psr: u32 = self.unstack_word(frame_ptr.wrapping_add(FRAME_PSR));
        let control = self.control();
        self.update_control(Control { spsel: stack == Stack::Process, npriv: control.npriv });
        self.update_mode(CPUMode::Thread);
        self.update_general_reg(GPR::R0, r0);
        self.update_general_reg(GPR::R1, r1);
        self.update_general_reg(GPR::R2, r2);
        self.update_general_reg(GPR::R3, r3);
        self.update_general_reg(GPR::R12, r12);
        self.update_special_reg(SpecialRegister::Lr, lr);
        self.update_special_reg(SpecialRegister::Psr, psr);
        self.update_stack_pointer(stack, frame_ptr.wrapping_add(FRAME_SIZE));
        Ok(())
    }

    /// Leaves ten in `r0` and enters a supervisor call, so that the frame
    /// holds ten in its first word.
    ///
    /// Fails with `StackAccessFault` where the frame cannot be stacked; `r0`
    /// then holds ten all the same.
    pub fn full_circle(&mut self) -> (r: Result<(), Fault>)
        ensures
            old(self)@.can_stack() ==> r is Ok && final(self)@ == old(self)@.with_gpr(
                GPR::R0,
                10,
            ).exception_entry(SVCALL) && final(self)@.mem[old(self)@.entry_frame_ptr()] == 10,
            !old(self)@.can_stack() ==> r == Err::<(), Fault>(Fault::StackAccessFault)
                && final(self)@ == old(self)@.with_gpr(GPR::R0, 10),
    {
        proof {
            old(self)@.with_gpr(GPR::R0, 10).lemma_entry_stacks_frame(SVCALL);
        }
        self.movs_imm(GPR::R0, 10);
        self.exception_entry(SVCALL)
    }

    /// The return code with which the handler of `exception_number` leaves,
    /// given the return code that entry left in the link register.
    pub fn run_isr(&self, exception_number: u8) -> (return_exec: u32)
        ensures
            return_exec == isr_return_code(exception_number, self@.lr),
            exception_number == SVCALL && self@.lr == EXC_RETURN_THREAD_MAIN ==> return_exec
                == EXC_RETURN_THREAD_PROCESS,
            exception_number != SVCALL || self@.lr != EXC_RETURN_THREAD_MAIN ==> return_exec
                == EXC_RETURN_THREAD_MAIN,
    {
        if exception_number == SVCALL && self.get_value_from_special_reg(SpecialRegister::Lr)
            == EXC_RETURN_THREAD_MAIN {
            EXC_RETURN_THREAD_PROCESS
        } else {
            EXC_RETURN_THREAD_MAIN
        }
    }

    /// Enters the exception `exception_number`, lets its handler choose the
    /// return code, and returns with it.
    ///
    /// Fails with `StackAccessFault` where the frame cannot be stacked, and
    /// then changes nothing; and where the frame that the return code points
    /// to cannot be unstacked, and then leaves the processor as exception
    /// entry left it.
    pub fn preempt(&mut self, exception_number: u8) -> (r: Result<(), Fault>)
        ensures
            r is Ok <==> old(self)@.can_preempt(exception_number),
            r is Err ==> r == Err::<(), Fault>(Fault::StackAccessFault),
            r is Ok ==> final(self)@ == old(self)@.preempt(exception_number),
            !old(self)@.can_stack() ==> final(self)@ == old(self)@,
            old(self)@.can_stack() && r is Err ==> final(self)@ == old(self)@.exception_entry(
                exception_number,
            ),
            r is Ok ==> final(self)@.mode == CPUMode::Thread && final(self)@.control.spsel == (
            exception_number == SVCALL && old(self)@.entry_return_code()
                == EXC_RETURN_THREAD_MAIN),
    {
        self.exception_entry(exception_number)?;
        let ret_value: u32 = self.run_isr(exception_number);
        self.exception_exit(ret_value)
    }
}

} // verus!
