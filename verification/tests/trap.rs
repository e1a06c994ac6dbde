use terminus_bl::sbi::SbiRet;
use terminus_bl::trap::{
    complete_ecall, emulate_instruction, handle_trap, is_valid_target, skip_instruction,
    InterruptForward, TrapCause, TrapFrame, TrapStep,
};

fn frame() -> TrapFrame {
    TrapFrame {
        ra: 1,
        t0: 5,
        t1: 6,
        t2: 7,
        t3: 28,
        t4: 29,
        t5: 30,
        t6: 31,
        a0: 10,
        a1: 11,
        a2: 12,
        a3: 13,
        a4: 14,
        a5: 15,
        a6: 16,
        a7: 17,
        s0: 8,
        s1: 9,
    }
}

fn reg(f: &TrapFrame, n: u8) -> usize {
    match n {
        1 => f.ra,
        5 => f.t0,
        6 => f.t1,
        7 => f.t2,
        8 => f.s0,
        9 => f.s1,
        10 => f.a0,
        11 => f.a1,
        12 => f.a2,
        13 => f.a3,
        14 => f.a4,
        15 => f.a5,
        16 => f.a6,
        17 => f.a7,
        28 => f.t3,
        29 => f.t4,
        30 => f.t5,
        31 => f.t6,
        _ => panic!("no such register"),
    }
}

const SAVED: [u8; 18] = [1, 5, 6, 7, 8, 9, 10, 11, 12, 13, 14, 15, 16, 17, 28, 29, 30, 31];

#[test]
fn update_writes_only_its_target() {
    for dst in SAVED.iter().copied().filter(|d| *d != 1) {
        let mut f = frame();
        f.update(dst, 0xabcd);
        for n in SAVED {
            let want = if n == dst { 0xabcd } else { n as usize };
            assert_eq!(reg(&f, n), want, "dst {} reg {}", dst, n);
        }
    }
}

#[test]
fn valid_targets() {
    let valid: Vec<u8> = (0u8..=255).filter(|d| is_valid_target(*d)).collect();
    let want: Vec<u8> = (5u8..=17).chain(28..=31).collect();
    assert_eq!(valid, want);
}

#[test]
fn ecall_step_carries_the_sbi_arguments() {
    let f = frame();
    assert_eq!(
        handle_trap(&f, TrapCause::SupervisorEnvCall),
        TrapStep::Ecall { extension: 17, function: 16, params: [10, 11, 12, 13] }
    );
}

#[test]
fn interrupts_are_forwarded() {
    let f = frame();
    assert_eq!(handle_trap(&f, TrapCause::MachineSoft), TrapStep::Forward(InterruptForward::Soft));
    assert_eq!(
        handle_trap(&f, TrapCause::MachineExternal),
        TrapStep::Forward(InterruptForward::External)
    );
    assert_eq!(handle_trap(&f, TrapCause::MachineTimer), TrapStep::Forward(InterruptForward::Timer));
}

#[test]
fn illegal_instruction_is_fetched_and_others_unhandled() {
    let f = frame();
    assert_eq!(handle_trap(&f, TrapCause::IllegalInstruction), TrapStep::FetchInstruction);
    assert_eq!(handle_trap(&f, TrapCause::Other), TrapStep::Unhandled);
}

#[test]
fn ecall_result_lands_in_a0_a1() {
    let mut f = frame();
    let step = complete_ecall(&mut f, SbiRet { error: usize::MAX - 1, value: 42 });
    assert_eq!(step, TrapStep::SkipInstruction);
    let mut want = frame();
    want.a0 = usize::MAX - 1;
    want.a1 = 42;
    assert_eq!(f, want);
}

// csrrs a0, time, x0
const RDTIME_A0: usize = 0xC010_2573;

#[test]
fn rdtime_into_a0_is_emulated() {
    let mut f = frame();
    assert_eq!(emulate_instruction(&mut f, RDTIME_A0), TrapStep::SkipInstruction);
    let mut want = frame();
    want.a0 = 0x0200_bff8;
    assert_eq!(f, want);
}

#[test]
fn rdtime_into_t6_is_emulated() {
    let mut f = frame();
    let insn = 0xC010_2073 | (31 << 7);
    assert_eq!(emulate_instruction(&mut f, insn), TrapStep::SkipInstruction);
    assert_eq!(f.t6, 0x0200_bff8);
    assert_eq!(f.a0, 10);
}

#[test]
fn rdtime_into_unsaved_register_is_fatal() {
    for rd in [0usize, 1, 2, 3, 4, 18, 27] {
        let mut f = frame();
        let insn = 0xC010_2073 | (rd << 7);
        assert_eq!(emulate_instruction(&mut f, insn), TrapStep::InvalidTarget(rd as u8));
        assert_eq!(f, frame());
    }
}

#[test]
fn other_illegal_instructions_are_fatal() {
    for insn in [0x0000_0013usize, 0xC000_2573, 0xC010_1573, 0xC010_A573, 0xC020_2573, 0] {
        let mut f = frame();
        assert_eq!(emulate_instruction(&mut f, insn), TrapStep::InvalidInstruction(insn));
        assert_eq!(f, frame());
    }
}

#[test]
fn rdtime_ignores_bits_above_the_encoding() {
    let mut f = frame();
    let insn = RDTIME_A0 | (1usize << 40);
    assert_eq!(emulate_instruction(&mut f, insn), TrapStep::SkipInstruction);
    assert_eq!(f.a0, 0x0200_bff8);
}

#[test]
fn skip_moves_past_four_bytes() {
    assert_eq!(skip_instruction(0x8020_0000), 0x8020_0004);
    assert_eq!(skip_instruction(usize::MAX - 1), 2);
    assert_eq!(skip_instruction(usize::MAX - 3), 0);
}
