use terminus_bl::hal::clint::{Clint, MTIME_OFF, TIMER_OFF};
use terminus_bl::hal::htif::{
    htif_wait32, htif_write32, HtifReg, HtifWrite, WouldBlock, HTIFConsole, HTIFPowerDown,
    HTIF_CMD_PREFIX, HTIF_CONSOLE_PUTCHAR,
};
use terminus_bl::hal::io_access::{io_read32, io_read64, io_write32, io_write64};
use terminus_bl::sbi::SbiRet;

#[test]
fn io_access_round_trip() {
    let mut w32: u32 = 7;
    io_write32(&mut w32, 0xdead_beef);
    assert_eq!(w32, 0xdead_beef);
    assert_eq!(io_read32(&w32), 0xdead_beef);
    let mut w64: u64 = 1;
    io_write64(&mut w64, 0x0123_4567_89ab_cdef);
    assert_eq!(io_read64(&w64), 0x0123_4567_89ab_cdef);
}

#[test]
fn clint_offsets() {
    assert_eq!(MTIME_OFF, 0xbff8);
    assert_eq!(TIMER_OFF, 0x4000);
}

#[test]
fn clint_get_mtime_reads_the_mtime_address() {
    let c = Clint::new(0x0200_0000);
    assert_eq!(c.get_mtime(), 0x0200_bff8);
    assert_eq!(c.get_mtime(), 0x0200_bff8);
    let c0 = Clint::new(0);
    assert_eq!(c0.get_mtime(), 0xbff8);
}

#[test]
fn clint_stores_leave_the_device_unchanged() {
    let c = Clint::new(0x0200_0000);
    c.set_timer(0, 12345);
    c.set_timer(3, u64::MAX);
    c.send_soft(0);
    c.send_soft(5);
    c.clear_soft(0);
    c.clear_soft(5);
    assert_eq!(c.get_mtime(), 0x0200_bff8);
}

fn cmd_seq(cmd: u32, data: u32) -> [HtifWrite; 3] {
    [
        HtifWrite { reg: HtifReg::ToHostCmd, value: 0x0100_0000 },
        HtifWrite { reg: HtifReg::ToHostCmd, value: cmd },
        HtifWrite { reg: HtifReg::ToHostData, value: data },
    ]
}

#[test]
fn htif_constants() {
    assert_eq!(HTIF_CMD_PREFIX, 0x0100_0000);
    assert_eq!(HTIF_CONSOLE_PUTCHAR, 0x0101_0000);
}

#[test]
fn htif_write32_posts_prefix_command_payload() {
    assert_eq!(htif_write32(0x0101_0000, 0x41), cmd_seq(0x0101_0000, 0x41));
    assert_eq!(htif_write32(0, 0), cmd_seq(0, 0));
}

#[test]
fn htif_wait32_ready_only_on_zero() {
    assert_eq!(htif_wait32(0), Ok(()));
    assert_eq!(htif_wait32(1), Err(WouldBlock));
    assert_eq!(htif_wait32(0x0101_0000), Err(WouldBlock));
}

#[test]
fn console_read_gives_zero() {
    let mut c = HTIFConsole;
    assert_eq!(c.try_read(), Ok(0));
}

#[test]
fn console_write_puts_character() {
    let mut c = HTIFConsole;
    assert_eq!(c.try_write(b'A'), cmd_seq(0x0101_0000, 0x41));
    assert_eq!(c.try_write(0xff), cmd_seq(0x0101_0000, 0xff));
}

#[test]
fn console_flush_follows_command_word() {
    let mut c = HTIFConsole;
    assert_eq!(c.try_flush(0), Ok(()));
    assert_eq!(c.try_flush(0x0100_0000), Err(WouldBlock));
}

#[test]
fn power_down_payload_and_result() {
    let p = HTIFPowerDown;
    let (w, ret) = p.system_reset(0, 1);
    assert_eq!(w, cmd_seq(0, 0x0001_0001));
    assert_eq!(ret, SbiRet { error: 0, value: 0 });
    let (w, _) = p.system_reset(2, 0x1_2345);
    assert_eq!(w, cmd_seq(0, 0x2345_0001));
    let (w, _) = p.system_reset(0, 0);
    assert_eq!(w, cmd_seq(0, 1));
}
