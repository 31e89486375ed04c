//! Instruction execution tests, run against a RAM.

use pixel_model2_rust::cpu::ConditionCode;
use pixel_model2_rust::cpu::DataSize;
use pixel_model2_rust::cpu::DecodedInstruction;
use pixel_model2_rust::cpu::Instruction;
use pixel_model2_rust::cpu::NecV60;
use pixel_model2_rust::cpu::Operand;
use pixel_model2_rust::cpu::ProcessorStatusWord;
use pixel_model2_rust::memory::MemoryInterface;
use pixel_model2_rust::memory::Ram;

#[test]
fn test_arithmetic_instruction_execution() {
    let mut cpu = NecV60::new();
    let mut memory = Ram::new(0x10000);

    cpu.registers.write_general(0, 10);
    cpu.registers.write_general(2, 20);

    let instruction = DecodedInstruction {
        address: 0x1000,
        instruction: Instruction::Add {
            dest: Operand::Register(1),
            src1: Operand::Register(0),
            src2: Operand::Register(2),
        },
        size: 2,
        cycles: 1,
    };

    let result = cpu.execute_instruction(&instruction, &mut memory);
    assert!(result.is_ok());

    assert_eq!(cpu.registers.read_general(1), 30);
    assert_eq!(cpu.registers.pc, 0x1000 + 2);
    assert!(!cpu.registers.psw.contains(ProcessorStatusWord::ZERO));
    assert!(!cpu.registers.psw.contains(ProcessorStatusWord::CARRY));
    assert!(!cpu.registers.psw.contains(ProcessorStatusWord::OVERFLOW));

    assert_eq!(cpu.stats.instructions_executed, 1);
    assert_eq!(cpu.stats.cycles_executed, 1);
}

#[test]
fn test_arithmetic_overflow() {
    let mut cpu = NecV60::new();
    let mut memory = Ram::new(0x10000);

    cpu.registers.write_general(0, u32::MAX);
    cpu.registers.write_general(2, 1);

    let instruction = DecodedInstruction {
        address: 0x1000,
        instruction: Instruction::Add {
            dest: Operand::Register(1),
            src1: Operand::Register(0),
            src2: Operand::Register(2),
        },
        size: 2,
        cycles: 1,
    };

    let result = cpu.execute_instruction(&instruction, &mut memory);
    assert!(result.is_ok());

    assert_eq!(cpu.registers.read_general(1), 0);
    assert!(cpu.registers.psw.contains(ProcessorStatusWord::ZERO));
    assert!(cpu.registers.psw.contains(ProcessorStatusWord::CARRY));
    assert_eq!(cpu.stats.exceptions_raised, 1);
}

#[test]
fn test_logical_instruction_execution() {
    let mut cpu = NecV60::new();
    let mut memory = Ram::new(0x10000);

    cpu.registers.write_general(0, 0xFF00FF00);
    cpu.registers.write_general(2, 0x00FF00FF);

    let instruction = DecodedInstruction {
        address: 0x2000,
        instruction: Instruction::And {
            dest: Operand::Register(1),
            src1: Operand::Register(0),
            src2: Operand::Register(2),
        },
        size: 2,
        cycles: 1,
    };

    let result = cpu.execute_instruction(&instruction, &mut memory);
    assert!(result.is_ok());

    assert_eq!(cpu.registers.read_general(1), 0x00000000);
    assert!(cpu.registers.psw.contains(ProcessorStatusWord::ZERO));
    assert!(cpu.registers.psw.contains(ProcessorStatusWord::PARITY));
}

#[test]
fn test_shift_instruction_execution() {
    let mut cpu = NecV60::new();
    let mut memory = Ram::new(0x10000);

    cpu.registers.write_general(0, 0x12345678);

    let instruction = DecodedInstruction {
        address: 0x3000,
        instruction: Instruction::Shl {
            dest: Operand::Register(1),
            src: Operand::Register(0),
            shift: Operand::Immediate(4),
        },
        size: 2,
        cycles: 1,
    };

    let result = cpu.execute_instruction(&instruction, &mut memory);
    assert!(result.is_ok());

    assert_eq!(cpu.registers.read_general(1), 0x23456780);
    assert!(cpu.registers.psw.contains(ProcessorStatusWord::CARRY));
}

#[test]
fn test_division_by_zero() {
    let mut cpu = NecV60::new();
    let mut memory = Ram::new(0x10000);

    cpu.registers.write_general(0, 42);
    cpu.registers.write_general(2, 0);

    let instruction = DecodedInstruction {
        address: 0x4000,
        instruction: Instruction::Div {
            dest: Operand::Register(1),
            src1: Operand::Register(0),
            src2: Operand::Register(2),
        },
        size: 2,
        cycles: 1,
    };

    let result = cpu.execute_instruction(&instruction, &mut memory);
    assert!(result.is_err());
    assert_eq!(cpu.stats.exceptions_raised, 1);
    assert_eq!(cpu.registers.read_general(1), 0);
}

#[test]
fn test_memory_operations() {
    let mut cpu = NecV60::new();
    let mut memory = Ram::new(0x10000);

    memory.write_u32(0x5000, 0xDEADBEEF).unwrap();

    let instruction = DecodedInstruction {
        address: 0x6000,
        instruction: Instruction::Load {
            dest: Operand::Register(1),
            address: Operand::Direct(0x5000),
            size: DataSize::DWord,
        },
        size: 6,
        cycles: 3,
    };

    let result = cpu.execute_instruction(&instruction, &mut memory);
    assert!(result.is_ok());

    assert_eq!(cpu.registers.read_general(1), 0xDEADBEEF);
    assert_eq!(cpu.stats.memory_accesses, 1);

    let store_instruction = DecodedInstruction {
        address: 0x6006,
        instruction: Instruction::Store {
            src: Operand::Register(1),
            address: Operand::Direct(0x6000),
            size: DataSize::DWord,
        },
        size: 6,
        cycles: 3,
    };

    let result = cpu.execute_instruction(&store_instruction, &mut memory);
    assert!(result.is_ok());

    assert_eq!(memory.read_u32(0x6000).unwrap(), 0xDEADBEEF);
    assert_eq!(cpu.stats.memory_accesses, 2);
}

#[test]
fn test_branch_instructions() {
    let mut cpu = NecV60::new();
    let mut memory = Ram::new(0x10000);

    let instruction = DecodedInstruction {
        address: 0x7000,
        instruction: Instruction::Jump {
            target: Operand::Direct(0x8000),
        },
        size: 4,
        cycles: 2,
    };

    let result = cpu.execute_instruction(&instruction, &mut memory);
    assert!(result.is_ok());

    assert_eq!(cpu.registers.pc, 0x8000);
    assert_eq!(cpu.stats.branches_taken, 1);
}

#[test]
fn test_conditional_branch() {
    let mut cpu = NecV60::new();
    let mut memory = Ram::new(0x10000);

    cpu.registers.psw.insert(ProcessorStatusWord::ZERO);

    let instruction = DecodedInstruction {
        address: 0x9000,
        instruction: Instruction::JumpConditional {
            condition: ConditionCode::Equal,
            target: Operand::Direct(0xA000),
        },
        size: 4,
        cycles: 2,
    };

    let result = cpu.execute_instruction(&instruction, &mut memory);
    assert!(result.is_ok());

    assert_eq!(cpu.registers.pc, 0xA000);
    assert_eq!(cpu.stats.branches_taken, 1);
}

#[test]
fn test_performance_statistics() {
    let mut cpu = NecV60::new();
    let mut memory = Ram::new(0x10000);

    let instructions = vec![
        DecodedInstruction {
            address: 0x1000,
            instruction: Instruction::Add {
                dest: Operand::Register(1),
                src1: Operand::Register(0),
                src2: Operand::Register(2),
            },
            size: 2,
            cycles: 1,
        },
        DecodedInstruction {
            address: 0x1002,
            instruction: Instruction::Mov {
                dest: Operand::Register(3),
                src: Operand::Immediate(42),
            },
            size: 4,
            cycles: 1,
        },
        DecodedInstruction {
            address: 0x1006,
            instruction: Instruction::Jump {
                target: Operand::Direct(0x2000),
            },
            size: 4,
            cycles: 2,
        },
    ];

    for instruction in instructions {
        let _ = cpu.execute_instruction(&instruction, &mut memory);
    }

    assert_eq!(cpu.stats.instructions_executed, 3);
    assert_eq!(cpu.stats.cycles_executed, 4);
    assert_eq!(cpu.stats.branches_taken, 1);
}

#[test]
fn test_store_to_immediate_rejected() {
    let mut cpu = NecV60::new();
    let mut memory = Ram::new(0x100);
    let instruction = DecodedInstruction {
        address: 0x10,
        instruction: Instruction::Mov {
            dest: Operand::Immediate(5),
            src: Operand::Register(0),
        },
        size: 2,
        cycles: 1,
    };
    let result = cpu.execute_instruction(&instruction, &mut memory);
    assert!(result.is_err());
}

#[test]
fn test_unknown_instruction_rejected() {
    let mut cpu = NecV60::new();
    let mut memory = Ram::new(0x100);
    let instruction = DecodedInstruction {
        address: 0x10,
        instruction: Instruction::Unknown { opcode: 0x3F1234 },
        size: 2,
        cycles: 1,
    };
    let result = cpu.execute_instruction(&instruction, &mut memory);
    assert!(result.is_err());
}

#[test]
fn test_halt_instruction_stops_cpu() {
    let mut cpu = NecV60::new();
    let mut memory = Ram::new(0x100);
    let instruction = DecodedInstruction {
        address: 0x10,
        instruction: Instruction::Halt,
        size: 2,
        cycles: 1,
    };
    cpu.execute_instruction(&instruction, &mut memory).unwrap();
    assert!(cpu.halted);
    assert_eq!(cpu.registers.pc, 0x12);
}
