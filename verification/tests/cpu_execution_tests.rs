//! Basic processor state tests.

use pixel_model2_rust::cpu::NecV60;
use pixel_model2_rust::cpu::ProcessorStatusWord;

#[test]
fn test_cpu_initialization() {
    let cpu = NecV60::new();

    assert_eq!(cpu.registers.pc, 0);
    assert_eq!(cpu.cycle_count, 0);
    assert!(!cpu.halted);

    for i in 0..32 {
        assert_eq!(cpu.registers.get_gpr(i), 0);
    }
}

#[test]
fn test_cpu_reset() {
    let mut cpu = NecV60::new();

    cpu.registers.set_gpr(5, 0xDEADBEEF);
    cpu.registers.pc = 0x1000;
    cpu.cycle_count = 1000;

    cpu.reset();

    assert_eq!(cpu.registers.pc, 0);
    assert_eq!(cpu.cycle_count, 0);
    assert_eq!(cpu.registers.get_gpr(5), 0);
}

#[test]
fn test_register_operations() {
    let mut cpu = NecV60::new();

    cpu.registers.set_gpr(10, 0x12345678);
    assert_eq!(cpu.registers.get_gpr(10), 0x12345678);

    cpu.registers.set_pc(0xABCD1234);
    assert_eq!(cpu.registers.get_pc(), 0xABCD1234);

    cpu.registers.psw.set_zero_flag(true);
    assert!(cpu.registers.psw.contains(ProcessorStatusWord::ZERO));

    cpu.registers.psw.set_carry_flag(true);
    assert!(cpu.registers.psw.contains(ProcessorStatusWord::CARRY));

    cpu.registers.psw.set_overflow_flag(true);
    assert!(cpu.registers.psw.contains(ProcessorStatusWord::OVERFLOW));

    cpu.registers.psw.set_negative_flag(true);
    assert!(cpu.registers.psw.contains(ProcessorStatusWord::SIGN));
}

#[test]
fn test_cpu_halt_state() {
    let cpu = NecV60::new();

    assert!(!cpu.halted);
}

#[test]
fn test_psw_bits_round_trip() {
    let mut psw = ProcessorStatusWord::empty();
    psw.set_carry_flag(true);
    psw.set_zero_flag(true);
    assert_eq!(psw.bits(), 3);

    let restored = ProcessorStatusWord::from_bits_truncate(3);
    assert!(restored.carry);
    assert!(restored.zero);
    assert!(!restored.sign);

    let truncated = ProcessorStatusWord::from_bits_truncate(0xFFFF_FFFF);
    assert!(truncated.carry && truncated.debug && truncated.supervisor);
    assert_eq!(
        truncated.bits(),
        ProcessorStatusWord::CARRY
            | ProcessorStatusWord::ZERO
            | ProcessorStatusWord::SIGN
            | ProcessorStatusWord::OVERFLOW
            | ProcessorStatusWord::PARITY
            | ProcessorStatusWord::INTERRUPT_ENABLE
            | ProcessorStatusWord::SUPERVISOR
            | ProcessorStatusWord::DEBUG
    );
}

#[test]
fn test_control_registers() {
    let mut cpu = NecV60::new();
    cpu.registers.write_control(3, 0xCAFE);
    assert_eq!(cpu.registers.read_control(3), 0xCAFE);
    cpu.registers.write_control(16, 0xCAFE);
    assert_eq!(cpu.registers.read_control(16), 0);
}

#[test]
fn test_debug_state_snapshot() {
    let mut cpu = NecV60::new();
    cpu.registers.set_gpr(1, 42);
    cpu.cycle_count = 7;
    let state = cpu.get_debug_state();
    assert_eq!(state.registers.get_gpr(1), 42);
    assert_eq!(state.cycle_count, 7);
    assert!(!state.halted);
}
