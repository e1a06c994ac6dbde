//! The core-local interruptor (CLINT) of one hart group.
use vstd::prelude::*;

use crate::hal::io_access::{io_read64, io_write32, io_write64};

verus! {

/// Offset of the `mtime` register from the CLINT base.
pub const MTIME_OFF: usize = 0xbff8;

/// Offset of the first timer compare register from the CLINT base.
pub const TIMER_OFF: usize = 0x4000;

/// A 32-bit store the CLINT driver makes: the register address it names
/// and the value stored.
#[derive(Debug, Clone, Copy, PartialEq, Eq, Structural)]
pub struct ClintStore32 {
    pub addr: usize,
    pub value: u32,
}

/// A 64-bit store the CLINT driver makes: the register address it names
/// and the value stored.
#[derive(Debug, Clone, Copy, PartialEq, Eq, Structural)]
pub struct ClintStore64 {
    pub addr: usize,
    pub value: u64,
}

/// A CLINT mapped at a fixed base address.
pub struct Clint {
    base: usize,
}

impl View for Clint {
    type V = usize;

    /// The base address the CLINT was made with.
    closed spec fn view(&self) -> usize {
        self.base
    }
}

impl Clint {
    /// Address of the `mtime` register.
    pub open spec fn mtime_addr(self) -> int {
        self@ + MTIME_OFF
    }

    /// Address of the timer compare register of `hart_id` (8 bytes per hart).
    pub open spec fn timer_addr(self, hart_id: usize) -> int {
        self@ + TIMER_OFF + (hart_id << 3usize)
    }

    /// Address of the `msip` register of `hart_id` (4 bytes per hart).
    pub open spec fn msip_addr(self, hart_id: usize) -> int {
        self@ + (hart_id << 2usize)
    }

    /// Register layout: for every hart id that `<< 3` keeps whole, its
    /// `msip` register lies `4 * hart_id` bytes above the base and its timer
    /// compare register `8 * hart_id` bytes above `base + TIMER_OFF`; so
    /// different harts never share either register.
    pub proof fn law_register_layout(self, h1: usize, h2: usize)
        requires
            (h1 << 3usize) >> 3usize == h1,
            (h2 << 3usize) >> 3usize == h2,
        ensures
            self.msip_addr(h1) == self@ + 4 * h1,
            self.timer_addr(h1) == self@ + TIMER_OFF + 8 * h1,
            h1 != h2 ==> self.msip_addr(h1) != self.msip_addr(h2),
            h1 != h2 ==> self.timer_addr(h1) != self.timer_addr(h2),
    {
        assert((h1 << 3usize) >> 3usize == h1 ==> (h1 << 3usize) == h1 * 8 && (h1 << 2usize) == h1
            * 4) by (bit_vector);
        assert((h2 << 3usize) >> 3usize == h2 ==> (h2 << 3usize) == h2 * 8 && (h2 << 2usize) == h2
            * 4) by (bit_vector);
    }

    /// A CLINT at `base`.
    pub fn new(base: usize) -> (c: Clint)
        ensures
            c@ == base,
    {
        Clint { base: base }
    }

    /// Reads the 64-bit word that `io_read64` is handed here.
    ///
    /// That word is a fresh one holding the `mtime` register's address
    /// (computed as `base + MTIME_OFF` and converted to `u64`), not the
    /// register itself; so the value read, and returned, is that address.
    pub fn get_mtime(&self) -> (t: u64)
        requires
            self.mtime_addr() <= usize::MAX,
        ensures
            t == self.mtime_addr(),
    {
        io_read64(&((self.base + MTIME_OFF) as u64))
    }

    /// Stores `instant` for the timer compare register of `hart_id`, and
    /// returns that store: the register address `base + TIMER_OFF +
    /// hart_id * 8` (the shift keeping the low bits of `hart_id`) and the
    /// value `instant`.
    ///
    /// The word `io_write64` is handed is a fresh one initialised with that
    /// address, so memory outside this call is left as it was; the address
    /// computation must not overflow.
    pub fn set_timer(&self, hart_id: usize, instant: u64) -> (s: ClintStore64)
        requires
            self.timer_addr(hart_id) <= usize::MAX,
        ensures
            s.addr == self@ + TIMER_OFF + (hart_id << 3usize),
            s.value == instant,
    {
        let addr: usize = self.base + TIMER_OFF + (hart_id << 3);
        io_write64(&mut (addr as u64), instant);
        ClintStore64 { addr, value: instant }
    }

    /// Stores 1 for the `msip` register of `hart_id`, raising its software
    /// interrupt, and returns that store: the register address `base +
    /// hart_id * 4` and the value 1.
    ///
    /// The word `io_write32` is handed is a fresh one initialised with that
    /// address truncated to 32 bits, so memory outside this call is left as
    /// it was; the address computation must not overflow.
    pub fn send_soft(&self, hart_id: usize) -> (s: ClintStore32)
        requires
            self.msip_addr(hart_id) <= usize::MAX,
        ensures
            s.addr == self@ + (hart_id << 2usize),
            s.value == 1,
    {
        let addr: usize = self.base + (hart_id << 2);
        io_write32(&mut (addr as u32), 1);
        ClintStore32 { addr, value: 1 }
    }

    /// Stores 0 for the `msip` register of `hart_id`, clearing its software
    /// interrupt, and returns that store: the register address `base +
    /// hart_id * 4` and the value 0.
    ///
    /// As for `send_soft`, the word handed to `io_write32` is a fresh one
    /// holding the truncated address, so memory outside is left as it was.
    pub fn clear_soft(&self, hart_id: usize) -> (s: ClintStore32)
        requires
            self.msip_addr(hart_id) <= usize::MAX,
        ensures
            s.addr == self@ + (hart_id << 2usize),
            s.value == 0,
    {
        let addr: usize = self.base + (hart_id << 2);
        io_write32(&mut (addr as u32), 0);
        ClintStore32 { addr, value: 0 }
    }
}

} // verus!
