//! The host-target interface (HTIF): a console and a power switch, both
//! driven through the `tohost` command and data words.
use vstd::prelude::*;

use crate::sbi::SbiRet;

verus! {

/// Value stored in the command word before each command is posted.
pub const HTIF_CMD_PREFIX: u32 = 0x100 << 16;

/// Command that puts one character on the host console.
pub const HTIF_CONSOLE_PUTCHAR: u32 = 0x101 << 16;

/// Command that powers the target down.
pub const HTIF_POWER_DOWN: u32 = 0;

/// The two `tohost` words.
#[derive(Debug, Clone, Copy, PartialEq, Eq, Structural)]
pub enum HtifReg {
    /// `to_host_cmd`: the command word, non-zero while the host is busy.
    ToHostCmd,
    /// `to_host_data`: the payload word.
    ToHostData,
}

/// One store into a `tohost` word.
#[derive(Debug, Clone, Copy, PartialEq, Eq, Structural)]
pub struct HtifWrite {
    pub reg: HtifReg,
    pub value: u32,
}

/// The host has not yet taken the last command.
#[derive(Debug, Clone, Copy, PartialEq, Eq, Structural)]
pub struct WouldBlock;

/// The stores that post command `cmd` with payload `data`, in order.
pub open spec fn htif_command(cmd: u32, data: u32) -> Seq<HtifWrite> {
    seq![
        HtifWrite { reg: HtifReg::ToHostCmd, value: HTIF_CMD_PREFIX },
        HtifWrite { reg: HtifReg::ToHostCmd, value: cmd },
        HtifWrite { reg: HtifReg::ToHostData, value: data },
    ]
}

/// The command values written as shifts, as plain numbers.
pub proof fn lemma_htif_constants()
    ensures
        HTIF_CMD_PREFIX == 0x0100_0000,
        HTIF_CONSOLE_PUTCHAR == 0x0101_0000,
{
    assert((0x100u32 << 16u32) == 0x0100_0000u32) by (bit_vector);
    assert((0x101u32 << 16u32) == 0x0101_0000u32) by (bit_vector);
}

/// Every command is posted as exactly three stores: the prefix
/// `0x100 << 16` into the command word, then the command itself into the
/// command word, then the payload, unchanged, into the data word.
pub proof fn law_htif_command(cmd: u32, data: u32)
    ensures
        htif_command(cmd, data).len() == 3,
        htif_command(cmd, data)[0].reg == HtifReg::ToHostCmd,
        htif_command(cmd, data)[0].value == 0x0100_0000,
        htif_command(cmd, data)[1].reg == HtifReg::ToHostCmd,
        htif_command(cmd, data)[1].value == cmd,
        htif_command(cmd, data)[2].reg == HtifReg::ToHostData,
        htif_command(cmd, data)[2].value == data,
{
    lemma_htif_constants();
}

/// Posts `cmd` with payload `data`: the prefix goes to the command word,
/// then the command, then the payload to the data word.
pub fn htif_write32(cmd: u32, data: u32) -> (w: [HtifWrite; 3])
    ensures
        w@ == htif_command(cmd, data),
        w@[0] == (HtifWrite { reg: HtifReg::ToHostCmd, value: 0x0100_0000 }),
        w@[1] == (HtifWrite { reg: HtifReg::ToHostCmd, value: cmd }),
        w@[2] == (HtifWrite { reg: HtifReg::ToHostData, value: data }),
{
    let w: [HtifWrite; 3] = [
        HtifWrite { reg: HtifReg::ToHostCmd, value: HTIF_CMD_PREFIX },
        HtifWrite { reg: HtifReg::ToHostCmd, value: cmd },
        HtifWrite { reg: HtifReg::ToHostData, value: data },
    ];
    assert(w@ =~= htif_command(cmd, data));
    proof {
        lemma_htif_constants();
    }
    w
}

/// Decides from the command word read back whether the host has taken the
/// last command: ready when the word is zero, busy otherwise.
pub fn htif_wait32(to_host_cmd: u32) -> (r: Result<(), WouldBlock>)
    ensures
        r == (if to_host_cmd == 0 { Ok::<(), WouldBlock>(()) } else { Err(WouldBlock) }),
{
    let busy: bool = to_host_cmd != 0;
    if !busy {
        Ok(())
    } else {
        Err(WouldBlock)
    }
}

/// The HTIF console.
#[derive(Debug, Clone, Copy, PartialEq, Eq, Structural)]
pub struct HTIFConsole;

impl HTIFConsole {
    /// Reading gives a zero byte at once: the console has no input.
    pub fn try_read(&mut self) -> (r: Result<u8, WouldBlock>)
        ensures
            r == Ok::<u8, WouldBlock>(0),
    {
        Ok(0)
    }

    /// The stores that put `word` on the host console.
    pub fn try_write(&mut self, word: u8) -> (w: [HtifWrite; 3])
        ensures
            w@ == htif_command(HTIF_CONSOLE_PUTCHAR, word as u32),
            w@[1] == (HtifWrite { reg: HtifReg::ToHostCmd, value: 0x0101_0000 }),
            w@[2] == (HtifWrite { reg: HtifReg::ToHostData, value: word as u32 }),
    {
        proof {
            lemma_htif_constants();
        }
        htif_write32(0x101 << 16, word as u32)
    }

    /// Whether the console has taken the last character, from the command
    /// word read back.
    pub fn try_flush(&mut self, to_host_cmd: u32) -> (r: Result<(), WouldBlock>)
        ensures
            r == (if to_host_cmd == 0 { Ok::<(), WouldBlock>(()) } else { Err(WouldBlock) }),
    {
        htif_wait32(to_host_cmd)
    }
}

/// Payload of the power-down command for `reset_reason`: the reason's low
/// 16 bits in the upper half, and the low bit set.
pub open spec fn power_down_payload(reset_reason: usize) -> u32 {
    ((reset_reason % 0x10000) * 0x10000 + 1) as u32
}

/// The HTIF power switch.
#[derive(Debug, Clone, Copy, PartialEq, Eq, Structural)]
pub struct HTIFPowerDown;

impl HTIFPowerDown {
    /// The stores that power the target down with `reset_reason`, whatever
    /// the reset type, and the success result reported for the request.
    pub fn system_reset(&self, _reset_type: usize, reset_reason: usize) -> (r: ([HtifWrite; 3], SbiRet))
        ensures
            r.0@ == htif_command(HTIF_POWER_DOWN, power_down_payload(reset_reason)),
            r.0@[1] == (HtifWrite { reg: HtifReg::ToHostCmd, value: 0 }),
            r.0@[2].reg == HtifReg::ToHostData,
            r.0@[2].value == (reset_reason % 0x10000) * 0x10000 + 1,
            r.1 == (SbiRet { error: 0, value: 0 }),
    {
        let data: u32 = (reset_reason as u32) << 16 | 1;
        proof {
            lemma_power_down_payload(reset_reason);
        }
        (htif_write32(0, data), SbiRet { error: 0, value: 0 })
    }
}

proof fn lemma_power_down_payload(reset_reason: usize)
    ensures
        ((reset_reason as u32) << 16u32 | 1u32) == power_down_payload(reset_reason),
{
    assert(((reset_reason as u32) << 16u32 | 1u32) == ((reset_reason % 0x10000) * 0x10000 + 1) as u32)
        by (bit_vector);
}

} // verus!
