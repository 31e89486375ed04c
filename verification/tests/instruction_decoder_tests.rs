//! Tests of the multi-format instruction decoder.

use pixel_model2_rust::cpu::Instruction;
use pixel_model2_rust::cpu::NecV60;
use pixel_model2_rust::cpu::Operand;
use pixel_model2_rust::cpu::V60InstructionDecoder;

fn make_word(opcode: u8, r2: u8, r1: u8) -> [u8; 2] {
    let word: u16 = ((opcode as u16) << 10) | ((r2 as u16) << 5) | (r1 as u16);
    word.to_le_bytes()
}

#[test]
fn test_instruction_decoder_format1() {
    let mut decoder = V60InstructionDecoder::new();

    let instruction_data = make_word(0x00, 2, 1);

    let result = decoder.decode(&instruction_data, 0x1000).unwrap();

    assert_eq!(result.address, 0x1000);
    assert_eq!(result.size, 2);

    match result.instruction {
        Instruction::Mov { dest, src } => {
            assert_eq!(dest, Operand::Register(2));
            assert_eq!(src, Operand::Register(1));
        }
        _ => panic!(
            "unexpected decoded instruction: {:?}",
            result.instruction
        ),
    }
}

#[test]
fn test_instruction_decoder_format2() {
    let mut decoder = V60InstructionDecoder::new();
    let mut instruction_data = Vec::new();
    instruction_data.extend_from_slice(&make_word(0x11, 2, 1));
    instruction_data.extend_from_slice(&100u16.to_le_bytes());

    let result = decoder.decode(&instruction_data, 0x2000).unwrap();

    assert_eq!(result.address, 0x2000);
    assert_eq!(result.size, 4);

    match result.instruction {
        Instruction::Add { dest, src1, src2 } => {
            assert_eq!(dest, Operand::Register(2));
            assert_eq!(src1, Operand::Register(2));
            assert_eq!(src2, Operand::Immediate(100));
        }
        _ => panic!(
            "unexpected decoded instruction: {:?}",
            result.instruction
        ),
    }
}

#[test]
fn test_instruction_decoder_format4_branch() {
    let mut decoder = V60InstructionDecoder::new();
    let mut instruction_data = Vec::new();
    instruction_data.extend_from_slice(&make_word(0x30, 0, 0));
    instruction_data.extend_from_slice(&200u16.to_le_bytes());

    let result = decoder.decode(&instruction_data, 0x3000).unwrap();

    assert_eq!(result.address, 0x3000);
    assert_eq!(result.size, 4);

    match result.instruction {
        Instruction::Jump { .. } => {}
        _ => panic!(
            "unexpected decoded instruction: {:?}",
            result.instruction
        ),
    }
}

#[test]
fn test_instruction_decoder_format5_system() {
    let mut decoder = V60InstructionDecoder::new();
    let instruction_data = make_word(0x38, 0, 0);

    let result = decoder.decode(&instruction_data, 0x4000).unwrap();

    assert_eq!(result.address, 0x4000);
    assert_eq!(result.size, 2);

    match result.instruction {
        Instruction::Nop => {}
        _ => panic!(
            "unexpected decoded instruction: {:?}",
            result.instruction
        ),
    }
}

#[test]
fn test_instruction_cache() {
    let mut decoder = V60InstructionDecoder::new();

    let instruction_data = make_word(0x38, 0, 0);

    let result1 = decoder.decode(&instruction_data, 0x5000).unwrap();
    let result2 = decoder.decode(&instruction_data, 0x5000).unwrap();

    assert_eq!(result1.address, result2.address);
    assert_eq!(result1.size, result2.size);

    match (&result1.instruction, &result2.instruction) {
        (Instruction::Nop, Instruction::Nop) => {}
        _ => panic!("cache returned a different instruction"),
    }
}

#[test]
fn test_cpu_with_new_decoder() {
    let mut cpu = NecV60::new();

    assert_eq!(cpu.cycle_count, 0);
    assert!(!cpu.halted);

    cpu.decoder.clear_cache();

    cpu.registers.set_gpr(1, 0x12345678);
    assert_eq!(cpu.registers.get_gpr(1), 0x12345678);

    cpu.registers.set_pc(0x1000);
    assert_eq!(cpu.registers.get_pc(), 0x1000);
}

#[test]
fn test_operand_extraction() {
    let mut decoder = V60InstructionDecoder::new();

    let test_cases = vec![
        (
            make_word(0x02, 1, 0),
            Instruction::Sub {
                dest: Operand::Register(1),
                src1: Operand::Register(1),
                src2: Operand::Register(0),
            },
        ),
        (
            make_word(0x01, 2, 0),
            Instruction::Add {
                dest: Operand::Register(2),
                src1: Operand::Register(2),
                src2: Operand::Register(0),
            },
        ),
    ];

    for (i, (data, expected)) in test_cases.iter().enumerate() {
        let result = decoder.decode(data, 0x6000 + i as u32 * 0x10);
        assert!(result.is_ok(), "test case {} failed to decode", i);

        let decoded = result.unwrap();
        match (&decoded.instruction, expected) {
            (
                Instruction::Sub {
                    dest: d1,
                    src1: s1,
                    src2: s2,
                },
                Instruction::Sub {
                    dest: d2,
                    src1: s3,
                    src2: s4,
                },
            ) => {
                assert_eq!(d1, d2);
                assert_eq!(s1, s3);
                assert_eq!(s2, s4);
            }
            (
                Instruction::Add {
                    dest: d1,
                    src1: s1,
                    src2: s2,
                },
                Instruction::Add {
                    dest: d2,
                    src1: s3,
                    src2: s4,
                },
            ) => {
                assert_eq!(d1, d2);
                assert_eq!(s1, s3);
                assert_eq!(s2, s4);
            }
            (Instruction::Mov { dest: d1, src: s1 }, Instruction::Mov { dest: d2, src: s2 }) => {
                assert_eq!(d1, d2);
                assert_eq!(s1, s2);
            }
            _ => panic!("test case {} instruction mismatch", i),
        }
    }
}

#[test]
fn test_decode_insufficient_bytes() {
    let mut decoder = V60InstructionDecoder::new();

    assert!(decoder.decode(&[0x00], 0x100).is_err());
    assert!(decoder.decode(&[], 0x104).is_err());

    let format2_word = make_word(0x11, 2, 1);
    assert!(decoder.decode(&format2_word, 0x108).is_err());

    let mut format3_short = Vec::new();
    format3_short.extend_from_slice(&make_word(0x20, 2, 1));
    format3_short.extend_from_slice(&[0xAA, 0xBB]);
    assert!(decoder.decode(&format3_short, 0x10C).is_err());
}

#[test]
fn test_decode_never_fails_on_eight_bytes() {
    let mut decoder = V60InstructionDecoder::new();
    let mut address = 0u32;
    for opcode in 0..=0x3Fu8 {
        let word = make_word(opcode, 3, 4);
        let data = [word[0], word[1], 0x10, 0x20, 0x30, 0x40, 0x50, 0x60];
        let decoded = decoder.decode(&data, address).unwrap();
        assert!(decoded.size == 2 || decoded.size == 4 || decoded.size == 6);
        assert!(decoded.cycles >= 1);
        address += 0x10;
    }
}

#[test]
fn test_decode_format3_load_store() {
    let mut decoder = V60InstructionDecoder::new();
    let mut data = Vec::new();
    data.extend_from_slice(&make_word(0x20, 5, 6));
    data.extend_from_slice(&0x1234_5678u32.to_le_bytes());
    let decoded = decoder.decode(&data, 0x9000).unwrap();
    assert_eq!(decoded.size, 6);
    match decoded.instruction {
        Instruction::Load { dest, address, .. } => {
            assert_eq!(dest, Operand::Register(5));
            assert_eq!(address, Operand::IndirectOffset(6, 0x1234_5678));
        }
        _ => panic!("unexpected decoded instruction: {:?}", decoded.instruction),
    }
}
