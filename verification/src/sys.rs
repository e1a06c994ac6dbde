//! The SBI back ends of the boot loader (inter-processor interrupts and
//! the timer, both on the CLINT), its console helpers and its PMP set-up.
use vstd::prelude::*;

use crate::hal::clint::{Clint, ClintStore32, ClintStore64, MTIME_OFF, TIMER_OFF};
use crate::hal::htif::{htif_command, HtifWrite, HTIFConsole, HTIF_CONSOLE_PUTCHAR};

verus! {

/// Base address of the CLINT.
pub const CLINT_BASE: usize = 0x02000000;

/// What the CLINT's `get_mtime` returns: the `mtime` address as a word.
pub open spec fn mtime_reading() -> u64 {
    (CLINT_BASE + MTIME_OFF) as u64
}

/// Inter-processor interrupts through the CLINT.
#[derive(Debug, Clone, Copy, PartialEq, Eq, Structural)]
pub struct ClintIpi;

impl ClintIpi {
    /// The highest hart id served: this loader runs on hart 0 only.
    pub fn max_hart_id(&self) -> (r: usize)
        ensures
            r == 0,
    {
        0
    }

    /// For every hart `i` from 0 to `max_hart_id()` whose entry in
    /// `hart_mask` is set, calls the CLINT's `send_soft(i)`, and returns the
    /// stores made, in hart order.
    ///
    /// `hart_mask[i]` tells whether hart `i` is in the supervisor's hart
    /// mask. With `max_hart_id()` 0 that is hart 0 alone: when its entry is
    /// set, one store of 1 to its `msip` register at `CLINT_BASE`, else none.
    pub fn send_ipi_many(&mut self, hart_mask: &[bool]) -> (stores: Vec<ClintStore32>)
        requires
            hart_mask@.len() > 0,
        ensures
            stores@.len() == (if hart_mask@[0] { 1int } else { 0int }),
            forall|k: int| 0 <= k < stores@.len() ==> stores@[k].addr == CLINT_BASE && stores@[k].value == 1,
    {
        let clint: Clint = Clint::new(CLINT_BASE);
        let max: usize = self.max_hart_id();
        let mut stores: Vec<ClintStore32> = Vec::new();
        let mut i: usize = 0;
        while i <= max
            invariant
                max == 0,
                i <= max + 1,
                hart_mask@.len() > max,
                clint@ == CLINT_BASE,
                stores@.len() == (if i == 1 && hart_mask@[0] { 1int } else { 0int }),
                forall|k: int| 0 <= k < stores@.len() ==> stores@[k].addr == CLINT_BASE && stores@[k].value == 1,
            decreases max + 1 - i,
        {
            if hart_mask[i] {
                assert(i == 0);
                assert(0usize << 2usize == 0usize) by (bit_vector);
                let s: ClintStore32 = clint.send_soft(i);
                stores.push(s);
            }
            i = i + 1;
        }
        stores
    }
}

/// The SBI timer on the CLINT.
#[derive(Debug, Clone, Copy, PartialEq, Eq, Structural)]
pub struct ClintTimer;

impl ClintTimer {
    /// The CLINT's `get_mtime` reading, which is the constant
    /// `CLINT_BASE + MTIME_OFF`.
    pub fn get_time(&self) -> (t: u64)
        ensures
            t == mtime_reading(),
    {
        let clint: Clint = Clint::new(CLINT_BASE);
        clint.get_mtime()
    }

    /// The CLINT side of setting the timer of hart `hart_id` to
    /// `time_value`: calls the CLINT's `set_timer`, and returns its store of
    /// `time_value` for the hart's timer compare register at
    /// `CLINT_BASE + TIMER_OFF + hart_id * 8`. The address must not overflow.
    pub fn set_timer(&mut self, hart_id: usize, time_value: u64) -> (s: ClintStore64)
        requires
            CLINT_BASE + TIMER_OFF + (hart_id << 3usize) <= usize::MAX,
        ensures
            s.addr == CLINT_BASE + TIMER_OFF + (hart_id << 3usize),
            s.value == time_value,
    {
        let clint: Clint = Clint::new(CLINT_BASE);
        clint.set_timer(hart_id, time_value)
    }
}

/// The console stores that print the decimal digit character of `num`
/// (the byte `b'0' + num`).
pub fn print_num(num: u8) -> (w: [HtifWrite; 3])
    requires
        num <= 207,
    ensures
        w@ == htif_command(HTIF_CONSOLE_PUTCHAR, (48 + num) as u32),
        w@[1].value == 0x0101_0000,
        w@[2].value == 48 + num,
{
    let mut stdio: HTIFConsole = HTIFConsole;
    stdio.try_write('0' as u8 + num)
}

/// PMP permission bit: read.
pub const PMP_R: usize = 0x01;
/// PMP permission bit: write.
pub const PMP_W: usize = 0x02;
/// PMP permission bit: execute.
pub const PMP_X: usize = 0x04;
/// PMP address-matching field.
pub const PMP_A: usize = 0x18;
/// PMP lock bit.
pub const PMP_L: usize = 0x80;
/// Address matching: top of range.
pub const PMP_TOR: usize = 0x08;
/// Address matching: naturally aligned four bytes.
pub const PMP_NA4: usize = 0x10;
/// Address matching: naturally aligned power of two.
pub const PMP_NAPOT: usize = 0x18;

/// The values for PMP entry 0: `pmpaddr0` and `pmpcfg0`.
#[derive(Debug, Clone, Copy, PartialEq, Eq, Structural)]
pub struct PmpSetting {
    pub pmpaddr0: usize,
    pub pmpcfg0: usize,
}

/// PMP entry 0 covering the whole address space (`pmpaddr0` all ones,
/// matched as NAPOT) with read, write and execute granted and the entry
/// left unlocked.
pub fn init_pmp() -> (p: PmpSetting)
    ensures
        p.pmpaddr0 == usize::MAX,
        p.pmpcfg0 == 0x1f,
        p.pmpcfg0 & PMP_A == PMP_NAPOT,
        p.pmpcfg0 & PMP_R == PMP_R,
        p.pmpcfg0 & PMP_W == PMP_W,
        p.pmpcfg0 & PMP_X == PMP_X,
        p.pmpcfg0 & PMP_L == 0,
{
    let cfg: usize = PMP_NAPOT | PMP_R | PMP_W | PMP_X;
    assert(cfg == 0x1f) by (bit_vector)
        requires
            cfg == 0x18usize | 0x01usize | 0x02usize | 0x04usize,
    ;
    assert(cfg & 0x18 == 0x18 && cfg & 0x01 == 0x01 && cfg & 0x02 == 0x02 && cfg & 0x04 == 0x04
        && cfg & 0x80 == 0) by (bit_vector)
        requires
            cfg == 0x1fusize,
    ;
    PmpSetting { pmpaddr0: usize::MAX, pmpcfg0: cfg }
}

} // verus!
