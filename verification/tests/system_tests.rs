//! Whole-processor scenarios: stepping, interrupts and cycle accounting.

use pixel_model2_rust::cpu::Interrupt;
use pixel_model2_rust::cpu::NecV60;
use pixel_model2_rust::memory::MemoryInterface;
use pixel_model2_rust::memory::Ram;

#[test]
fn test_nop_step_advances_pc_only() {
    let mut cpu = NecV60::new();
    let mut memory = Ram::new(0x1000);

    // A system-format NOP: opcode 0x38, function 0, encoded size two bytes.
    let word: u16 = 0x38 << 10;
    memory.write_u16(0, word).unwrap();
    cpu.registers.set_pc(0);
    let before = cpu.get_debug_state();

    let cycles = cpu.step(&mut memory).unwrap();

    assert_eq!(cycles, 1);
    assert_eq!(cpu.registers.pc, before.registers.pc + 2);
    for i in 0..32 {
        assert_eq!(cpu.registers.get_gpr(i), before.registers.get_gpr(i));
    }
    assert_eq!(cpu.registers.sp, before.registers.sp);
    assert_eq!(cpu.registers.fp, before.registers.fp);
    assert_eq!(cpu.registers.psw, before.registers.psw);
    assert!(!cpu.halted);
    assert_eq!(cpu.cycle_count, 1);
    assert_eq!(cpu.stats.instructions_executed, 1);
}

#[test]
fn test_queue_interrupt_deduplicates() {
    let mut cpu = NecV60::new();
    cpu.queue_interrupt(Interrupt::VBlank);
    cpu.queue_interrupt(Interrupt::VBlank);
    assert_eq!(cpu.pending_interrupts.len(), 1);
    assert_eq!(cpu.pending_interrupts[0], Interrupt::VBlank);

    cpu.queue_interrupt(Interrupt::TimerMain);
    cpu.queue_interrupt(Interrupt::VBlank);
    assert_eq!(cpu.pending_interrupts.len(), 2);
    assert_eq!(cpu.pending_interrupts[1], Interrupt::TimerMain);
}

#[test]
fn test_vector_addresses() {
    assert_eq!(Interrupt::VBlank.vector_address(), 0x40);
    assert_eq!(Interrupt::TimerMain.vector_address(), 0x44);
    assert_eq!(Interrupt::TimerSub.vector_address(), 0x48);
    assert_eq!(Interrupt::Gpu.vector_address(), 0x4C);
    assert_eq!(Interrupt::Audio.vector_address(), 0x50);
    assert_eq!(Interrupt::Input.vector_address(), 0x54);
    assert_eq!(Interrupt::External(0).vector_address(), 0x58);
    assert_eq!(Interrupt::External(3).vector_address(), 0x64);
}

#[test]
fn test_interrupt_dispatch_and_return() {
    let mut cpu = NecV60::new();
    let mut memory = Ram::new(0x1000);

    // Handler for VBlank lives at 0x200; the stack grows down from 0x800.
    memory.write_u32(0x40, 0x200).unwrap();
    cpu.registers.set_pc(0x100);
    cpu.registers.sp = 0x800;
    cpu.registers.psw.set_carry_flag(true);
    cpu.queue_interrupt(Interrupt::VBlank);

    let handled = cpu.process_interrupts(&mut memory).unwrap();
    assert!(handled);
    assert_eq!(cpu.registers.pc, 0x200);
    assert_eq!(cpu.registers.sp, 0x7F8);
    assert!(cpu.pending_interrupts.is_empty());
    // The return address and the packed flags sit on the stack.
    assert_eq!(memory.read_u32(0x7FC).unwrap(), 0x100);
    assert_eq!(memory.read_u32(0x7F8).unwrap(), 1);

    cpu.registers.psw.set_carry_flag(false);
    cpu.return_from_interrupt(&mut memory).unwrap();
    assert_eq!(cpu.registers.pc, 0x100);
    assert_eq!(cpu.registers.sp, 0x800);
    assert!(cpu.registers.psw.carry);
    assert!(cpu.interrupts_enabled);
}

#[test]
fn test_step_dispatches_pending_interrupt_first() {
    let mut cpu = NecV60::new();
    let mut memory = Ram::new(0x1000);
    memory.write_u32(0x40, 0x300).unwrap();
    cpu.registers.set_pc(0x100);
    cpu.registers.sp = 0x800;
    cpu.queue_interrupt(Interrupt::VBlank);

    let cycles = cpu.step(&mut memory).unwrap();
    assert_eq!(cycles, 10);
    assert_eq!(cpu.registers.pc, 0x300);
    assert_eq!(cpu.stats.instructions_executed, 0);
}

#[test]
fn test_halted_step_is_one_idle_cycle() {
    let mut cpu = NecV60::new();
    let mut memory = Ram::new(0x100);
    cpu.halted = true;
    let cycles = cpu.step(&mut memory).unwrap();
    assert_eq!(cycles, 1);
    assert_eq!(cpu.cycle_count, 0);
    assert_eq!(cpu.stats.instructions_executed, 0);
}

#[test]
fn test_run_cycles_until_halt() {
    let mut cpu = NecV60::new();
    let mut memory = Ram::new(0x1000);

    // NOP at 0, NOP at 2, then HALT (system format, function 1) at 4.
    let nop: u16 = 0x38 << 10;
    let halt: u16 = (0x38 << 10) | (1 << 5);
    memory.write_u16(0, nop).unwrap();
    memory.write_u16(2, nop).unwrap();
    memory.write_u16(4, halt).unwrap();

    let executed = cpu.run_cycles(100, &mut memory).unwrap();
    assert_eq!(executed, 3);
    assert!(cpu.halted);
    assert_eq!(cpu.registers.pc, 6);
    assert_eq!(cpu.stats.instructions_executed, 3);
}

#[test]
fn test_run_cycles_reaches_target() {
    let mut cpu = NecV60::new();
    let mut memory = Ram::new(0x1000);
    // A ring of NOPs: the fetch always finds zeroed memory past them, and
    // opcode zero decodes as a register move, so fill a stretch of NOPs.
    let nop: u16 = 0x38 << 10;
    for i in 0..64 {
        memory.write_u16(i * 2, nop).unwrap();
    }
    let executed = cpu.run_cycles(10, &mut memory).unwrap();
    assert!(executed >= 10);
    assert!(!cpu.halted);
}

#[test]
fn test_step_propagates_fetch_failure() {
    let mut cpu = NecV60::new();
    let mut memory = Ram::new(4);
    let result = cpu.step(&mut memory);
    assert!(result.is_err());
}

#[test]
fn test_software_interrupt_queues_external() {
    let mut cpu = NecV60::new();
    let mut memory = Ram::new(0x100);
    let instruction = pixel_model2_rust::cpu::DecodedInstruction {
        address: 0x10,
        instruction: pixel_model2_rust::cpu::Instruction::SoftwareInterrupt { vector: 7 },
        size: 2,
        cycles: 20,
    };
    cpu.interrupts_enabled = false;
    cpu.execute_instruction(&instruction, &mut memory).unwrap();
    assert_eq!(cpu.pending_interrupts.len(), 1);
    assert_eq!(cpu.pending_interrupts[0], Interrupt::External(7));
    assert_eq!(cpu.registers.pc, 0x12);
}

#[test]
fn test_disabled_interrupts_are_not_dispatched() {
    let mut cpu = NecV60::new();
    let mut memory = Ram::new(0x100);
    cpu.interrupts_enabled = false;
    cpu.queue_interrupt(Interrupt::Gpu);
    let handled = cpu.process_interrupts(&mut memory).unwrap();
    assert!(!handled);
    assert_eq!(cpu.pending_interrupts.len(), 1);
}
