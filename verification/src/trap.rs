//! The machine-mode trap handler's decisions.
//!
//! A trap is handled in steps: `handle_trap` looks at the cause and the
//! saved registers and says what to do; an SBI call's result goes back
//! through `complete_ecall`, a fetched instruction through
//! `emulate_instruction`; the step `SkipInstruction` moves `mepc` past the
//! trapping instruction with `skip_instruction`.
use vstd::prelude::*;

use crate::sbi::SbiRet;
use crate::sys::{mtime_reading, ClintTimer};

verus! {

/// The registers saved on trap entry.
#[derive(Debug, Clone, Copy, PartialEq, Eq, Structural)]
pub struct TrapFrame {
    pub ra: usize,
    pub t0: usize,
    pub t1: usize,
    pub t2: usize,
    pub t3: usize,
    pub t4: usize,
    pub t5: usize,
    pub t6: usize,
    pub a0: usize,
    pub a1: usize,
    pub a2: usize,
    pub a3: usize,
    pub a4: usize,
    pub a5: usize,
    pub a6: usize,
    pub a7: usize,
    pub s0: usize,
    pub s1: usize,
}

impl View for TrapFrame {
    type V = Map<u8, usize>;

    /// The saved registers by their number `x1`..`x31`.
    open spec fn view(&self) -> Map<u8, usize> {
        map![
            1u8 => self.ra,
            5u8 => self.t0,
            6u8 => self.t1,
            7u8 => self.t2,
            8u8 => self.s0,
            9u8 => self.s1,
            10u8 => self.a0,
            11u8 => self.a1,
            12u8 => self.a2,
            13u8 => self.a3,
            14u8 => self.a4,
            15u8 => self.a5,
            16u8 => self.a6,
            17u8 => self.a7,
            28u8 => self.t3,
            29u8 => self.t4,
            30u8 => self.t5,
            31u8 => self.t6,
        ]
    }
}

/// The registers `update` can write: `t0`-`t2`, `s0`, `s1`, `a0`-`a7`
/// and `t3`-`t6` (all saved registers but `ra`).
pub open spec fn is_update_target(dst: u8) -> bool {
    (5 <= dst <= 17) || (28 <= dst <= 31)
}

/// Whether `dst` can be written by `TrapFrame::update`.
pub fn is_valid_target(dst: u8) -> (b: bool)
    ensures
        b == is_update_target(dst),
{
    (5 <= dst && dst <= 17) || (28 <= dst && dst <= 31)
}

impl TrapFrame {
    /// Writes `value` into saved register number `dst`.
    pub fn update(&mut self, dst: u8, value: usize)
        requires
            is_update_target(dst),
        ensures
            final(self)@ == old(self)@.insert(dst, value),
    {
        match dst {
            8 => self.s0 = value,
            9 => self.s1 = value,
            10 => self.a0 = value,
            11 => self.a1 = value,
            12 => self.a2 = value,
            13 => self.a3 = value,
            14 => self.a4 = value,
            15 => self.a5 = value,
            16 => self.a6 = value,
            17 => self.a7 = value,
            5 => self.t0 = value,
            6 => self.t1 = value,
            7 => self.t2 = value,
            28 => self.t3 = value,
            29 => self.t4 = value,
            30 => self.t5 = value,
            _ => self.t6 = value,
        }
    }
}

/// Why the hart trapped into machine mode, as far as the handler tells
/// causes apart.
#[derive(Debug, Clone, Copy, PartialEq, Eq, Structural)]
pub enum TrapCause {
    /// `ecall` from supervisor mode.
    SupervisorEnvCall,
    /// Machine software interrupt.
    MachineSoft,
    /// Machine external interrupt.
    MachineExternal,
    /// Machine timer interrupt.
    MachineTimer,
    /// Illegal instruction.
    IllegalInstruction,
    /// Any other interrupt or exception.
    Other,
}

/// A machine interrupt handed on to supervisor mode: its machine-level
/// enable bit in `mie` is cleared and the matching supervisor-level
/// pending bit in `mip` is set.
#[derive(Debug, Clone, Copy, PartialEq, Eq, Structural)]
pub enum InterruptForward {
    /// Clear `mie.MSIE`, set `mip.SSIP`.
    Soft,
    /// Clear `mie.MEIE`, set `mip.SEIP`.
    External,
    /// Clear `mie.MTIE`, set `mip.STIP`.
    Timer,
}

/// What the trap handler does next.
#[derive(Debug, Clone, Copy, PartialEq, Eq)]
pub enum TrapStep {
    /// Make the SBI call (`extension`, `function`, `params`) and hand its
    /// result to `complete_ecall`.
    Ecall { extension: usize, function: usize, params: [usize; 4] },
    /// Fetch the instruction at `mepc` and hand it to `emulate_instruction`.
    FetchInstruction,
    /// Resume after the trapping instruction: `mepc` becomes
    /// `skip_instruction(mepc)`.
    SkipInstruction,
    /// Hand the interrupt on to supervisor mode.
    Forward(InterruptForward),
    /// Fatal: an emulated instruction names a register that cannot be
    /// written back.
    InvalidTarget(u8),
    /// Fatal: an illegal instruction that is not emulated.
    InvalidInstruction(usize),
    /// Fatal: a trap the handler does not serve.
    Unhandled,
}

/// The first step for a trap with `cause` and saved registers `frame`.
pub open spec fn trap_step(frame: TrapFrame, cause: TrapCause) -> TrapStep {
    match cause {
        TrapCause::SupervisorEnvCall => TrapStep::Ecall {
            extension: frame.a7,
            function: frame.a6,
            params: [frame.a0, frame.a1, frame.a2, frame.a3],
        },
        TrapCause::MachineSoft => TrapStep::Forward(InterruptForward::Soft),
        TrapCause::MachineExternal => TrapStep::Forward(InterruptForward::External),
        TrapCause::MachineTimer => TrapStep::Forward(InterruptForward::Timer),
        TrapCause::IllegalInstruction => TrapStep::FetchInstruction,
        TrapCause::Other => TrapStep::Unhandled,
    }
}

/// A supervisor `ecall` becomes the SBI call whose extension is the saved
/// `a7`, whose function is the saved `a6`, and whose parameters are the
/// saved `a0`, `a1`, `a2`, `a3`, each the full word.
pub proof fn law_ecall_step(frame: TrapFrame)
    ensures
        trap_step(frame, TrapCause::SupervisorEnvCall) matches TrapStep::Ecall { extension, function, params }
            && extension == frame.a7 && function == frame.a6 && params[0] == frame.a0
            && params[1] == frame.a1 && params[2] == frame.a2 && params[3] == frame.a3,
{
}

/// Decides how to handle a trap with `cause`: a supervisor `ecall` becomes
/// an SBI call with extension `a7`, function `a6` and parameters
/// `a0`-`a3`; machine software, external and timer interrupts are handed
/// on to supervisor mode; an illegal instruction is fetched for emulation;
/// anything else is unhandled.
pub fn handle_trap(frame: &TrapFrame, cause: TrapCause) -> (step: TrapStep)
    ensures
        step == trap_step(*frame, cause),
        cause == TrapCause::SupervisorEnvCall ==> (step matches TrapStep::Ecall { extension, function, params }
            && extension == frame.a7 && function == frame.a6 && params@ == seq![frame.a0, frame.a1, frame.a2, frame.a3]),
{
    match cause {
        TrapCause::SupervisorEnvCall => {
            let params: [usize; 4] = [frame.a0, frame.a1, frame.a2, frame.a3];
            TrapStep::Ecall { extension: frame.a7, function: frame.a6, params }
        },
        TrapCause::MachineSoft => TrapStep::Forward(InterruptForward::Soft),
        TrapCause::MachineExternal => TrapStep::Forward(InterruptForward::External),
        TrapCause::MachineTimer => TrapStep::Forward(InterruptForward::Timer),
        TrapCause::IllegalInstruction => TrapStep::FetchInstruction,
        TrapCause::Other => TrapStep::Unhandled,
    }
}

/// Returns the SBI call's result to the supervisor: `error` in `a0`,
/// `value` in `a1`; then the `ecall` is skipped.
pub fn complete_ecall(frame: &mut TrapFrame, ret: SbiRet) -> (step: TrapStep)
    ensures
        final(frame)@ == old(frame)@.insert(10, ret.error).insert(11, ret.value),
        step == TrapStep::SkipInstruction,
{
    frame.a0 = ret.error;
    frame.a1 = ret.value;
    TrapStep::SkipInstruction
}

/// Opcode field (bits 0-6) of an instruction word.
pub open spec fn opcode(insn: usize) -> usize {
    insn & 0x7f
}

/// Destination register field (bits 7-11).
pub open spec fn rd_field(insn: usize) -> usize {
    (insn >> 7usize) & 0x1f
}

/// `funct3` field (bits 12-14).
pub open spec fn funct3(insn: usize) -> usize {
    (insn >> 12usize) & 0x7
}

/// First source register field (bits 15-19).
pub open spec fn rs1_field(insn: usize) -> usize {
    (insn >> 15usize) & 0x1f
}

/// CSR number field (bits 20-31).
pub open spec fn csr_field(insn: usize) -> usize {
    (insn >> 20usize) & 0xfff
}

/// `insn` is `rdtime rd`, that is `csrrs rd, time, x0`: opcode SYSTEM
/// (0x73), `funct3` 2 (CSRRS), source `x0` and CSR 0xC01 (`time`); bits
/// above the 32-bit encoding are not looked at.
pub open spec fn is_rdtime(insn: usize) -> bool {
    &&& opcode(insn) == 0x73
    &&& funct3(insn) == 2
    &&& rs1_field(insn) == 0
    &&& csr_field(insn) == 0xC01
}

/// An instruction word matches the `rdtime` pattern under the mask
/// `0xFFFFF07F` (all bits but the destination register) exactly when it is
/// `rdtime rd` for some `rd`.
pub proof fn lemma_rdtime_mask(insn: usize)
    ensures
        (insn & 0xFFFFF07F == 0xC0102073) == is_rdtime(insn),
{
    assert((insn & 0xFFFFF07F == 0xC0102073) ==> insn & 0x7f == 0x73) by (bit_vector);
    assert((insn & 0xFFFFF07F == 0xC0102073) ==> (insn >> 12usize) & 0x7 == 2) by (bit_vector);
    assert((insn & 0xFFFFF07F == 0xC0102073) ==> (insn >> 15usize) & 0x1f == 0) by (bit_vector);
    assert((insn & 0xFFFFF07F == 0xC0102073) ==> (insn >> 20usize) & 0xfff == 0xC01) by (bit_vector);
    assert((insn & 0x7f == 0x73 && (insn >> 12usize) & 0x7 == 2 && (insn >> 15usize) & 0x1f == 0
        && (insn >> 20usize) & 0xfff == 0xC01) ==> (insn & 0xFFFFF07F == 0xC0102073)) by (bit_vector);
}

/// Emulates the illegal instruction `insn`. `rdtime rd` writes the timer
/// reading (`ClintTimer::get_time`) into `rd` and is skipped; if `rd` is a
/// register that cannot be written back, that is fatal. Any other
/// instruction is fatal too. Only `rd` changes, and only on success.
pub fn emulate_instruction(frame: &mut TrapFrame, insn: usize) -> (step: TrapStep)
    ensures
        is_rdtime(insn) && is_update_target(rd_field(insn) as u8) ==> {
            &&& final(frame)@ == old(frame)@.insert(rd_field(insn) as u8, mtime_reading() as usize)
            &&& step == TrapStep::SkipInstruction
        },
        is_rdtime(insn) && !is_update_target(rd_field(insn) as u8) ==> {
            &&& *final(frame) == *old(frame)
            &&& step == TrapStep::InvalidTarget(rd_field(insn) as u8)
        },
        !is_rdtime(insn) ==> {
            &&& *final(frame) == *old(frame)
            &&& step == TrapStep::InvalidInstruction(insn)
        },
{
    proof {
        lemma_rdtime_mask(insn);
    }
    if insn & 0xFFFFF07F == 0xC0102073 {
        let rd: u8 = ((insn >> 7) & 0b1_1111) as u8;
        let time_usize: usize = ClintTimer.get_time() as usize;
        if is_valid_target(rd) {
            frame.update(rd, time_usize);
            TrapStep::SkipInstruction
        } else {
            TrapStep::InvalidTarget(rd)
        }
    } else {
        TrapStep::InvalidInstruction(insn)
    }
}

/// The value an emulated `rdtime` writes into its destination register is
/// exactly the reading `ClintTimer::get_time` returns: the conversion to a
/// register word loses nothing.
pub proof fn lemma_rdtime_reads_timer()
    ensures
        (mtime_reading() as usize) as u64 == mtime_reading(),
        mtime_reading() as usize == mtime_reading(),
{
}

/// The `mepc` that resumes after the 4-byte instruction at `mepc`
/// (wrapping at the top of the address space).
pub fn skip_instruction(mepc: usize) -> (next: usize)
    ensures
        next == (if mepc + 4 <= usize::MAX { mepc + 4 } else { mepc + 4 - usize::MAX - 1 }),
{
    mepc.wrapping_add(4)
}

} // verus!
