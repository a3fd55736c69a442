use emu6502::cpu::{ExecutionFinished, CPU};
use emu6502::instructions::{decode, parse_opcode, run_instruction, Dialect, ExecutionError, Instruction};
use emu6502::utils::{combine, from_bcd, to_bcd};

fn blank() -> CPU {
    CPU::new(vec![0u8; 0x10000])
}

fn place(cpu: &mut CPU, at: u16, bytes: &[u8]) {
    for (k, b) in bytes.iter().enumerate() {
        cpu.memory.set16(at.wrapping_add(k as u16), *b);
    }
}

fn steps(cpu: &mut CPU, k: usize) {
    for _ in 0..k {
        assert_eq!(cpu.execute(0xFFFF), Ok(ExecutionFinished::NO));
    }
}

#[test]
fn status_pack_unpack_round_trip() {
    let mut cpu = blank();
    for b in 0..=255u8 {
        cpu.set_sr(b);
        let packed = cpu.get_sr();
        assert_eq!(packed, b | 0x20);
        cpu.set_sr(packed);
        assert_eq!(cpu.get_sr(), b | 0x20);
    }
}

#[test]
fn load_immediate_sets_n_and_z() {
    let mut cpu = blank();
    for v in 0..=255u8 {
        cpu.pc = 0x0400;
        place(&mut cpu, 0x0400, &[0xA9, v]);
        steps(&mut cpu, 1);
        assert_eq!(cpu.a, v);
        assert_eq!(cpu.n, v & 0x80 != 0);
        assert_eq!(cpu.z, v == 0);
    }
}

#[test]
fn binary_addition_of_all_pairs() {
    let mut cpu = blank();
    for m in 0..=255u8 {
        for n in 0..=255u8 {
            cpu.pc = 0x0400;
            cpu.instruction_count = 0;
            cpu.d = false;
            cpu.c = true;
            place(&mut cpu, 0x0400, &[0xA9, m, 0x18, 0x69, n]);
            steps(&mut cpu, 3);
            let sum = m as u16 + n as u16;
            assert_eq!(cpu.a, (sum % 256) as u8);
            assert_eq!(cpu.c, sum >= 256);
        }
    }
}

#[test]
fn decimal_addition_of_all_digit_pairs() {
    let mut cpu = blank();
    for m in 0..100u8 {
        for n in 0..100u8 {
            let pm = (m / 10) * 16 + m % 10;
            let pn = (n / 10) * 16 + n % 10;
            cpu.pc = 0x0400;
            cpu.d = true;
            cpu.c = false;
            cpu.a = pm;
            place(&mut cpu, 0x0400, &[0x69, pn]);
            steps(&mut cpu, 1);
            let expected = (m as u16 + n as u16) % 100;
            assert_eq!(cpu.a, ((expected / 10) * 16 + expected % 10) as u8);
            assert_eq!(cpu.c, m as u16 + n as u16 >= 100);
        }
    }
}

#[test]
fn pushes_and_pulls_come_back_reversed() {
    let mut cpu = blank();
    cpu.sp = 0x10;
    let values: Vec<u8> = (0..256u32).map(|k| (k * 7 + 3) as u8).collect();
    let mut program = Vec::new();
    for v in &values {
        program.extend_from_slice(&[0xA9, *v, 0x48]);
    }
    // Each pulled byte is stored at the next address from 0x8000 on.
    for k in 0..values.len() {
        let address = 0x8000 + k;
        program.extend_from_slice(&[0x68, 0x8D, (address % 256) as u8, (address / 256) as u8]);
    }
    place(&mut cpu, 0x0400, &program);
    steps(&mut cpu, values.len() * 2);
    assert_eq!(cpu.sp, 0x10);
    steps(&mut cpu, values.len() * 2);
    assert_eq!(cpu.sp, 0x10);
    for k in 0..values.len() {
        assert_eq!(cpu.memory.get16((0x8000 + k) as u16), values[values.len() - 1 - k]);
    }
}

#[test]
fn jsr_then_rts_returns_after_the_call() {
    let mut cpu = blank();
    place(&mut cpu, 0x1FFE, &[0x20, 0x00, 0x30]);
    place(&mut cpu, 0x3000, &[0xE8, 0xC8, 0x48, 0x68, 0x60]);
    cpu.pc = 0x1FFE;
    steps(&mut cpu, 6);
    assert_eq!(cpu.pc, 0x2001);
    assert_eq!(cpu.sp, 0xFF);
    assert_eq!((cpu.x, cpu.y), (1, 1));
}

#[test]
fn rol_then_ror_gives_back_the_byte() {
    let mut cpu = blank();
    for v in 0..=255u8 {
        for carry in [false, true] {
            cpu.pc = 0x0400;
            cpu.a = v;
            cpu.c = carry;
            place(&mut cpu, 0x0400, &[0x2A, 0x6A]);
            steps(&mut cpu, 2);
            assert_eq!(cpu.a, v);
            assert_eq!(cpu.c, carry);
        }
    }
}

#[test]
fn bit_reads_bits_seven_and_six() {
    let mut cpu = blank();
    for m in [0x00u8, 0x40, 0x80, 0xC0, 0x3F, 0xFF] {
        for a in [0x00u8, 0x01, 0xC0, 0xFF] {
            cpu.pc = 0x0400;
            cpu.a = a;
            place(&mut cpu, 0x0400, &[0x24, 0x70]);
            place(&mut cpu, 0x0070, &[m]);
            steps(&mut cpu, 1);
            assert_eq!(cpu.n, m & 0x80 != 0);
            assert_eq!(cpu.v, m & 0x40 != 0);
            assert_eq!(cpu.z, a & m == 0);
            assert_eq!(cpu.a, a);
        }
    }
}

#[test]
fn txs_copies_x_and_keeps_flags() {
    let mut cpu = blank();
    for v in 0..=255u8 {
        cpu.pc = 0x0400;
        place(&mut cpu, 0x0400, &[0xA2, v, 0x9A]);
        steps(&mut cpu, 1);
        let flags = cpu.get_sr();
        steps(&mut cpu, 1);
        assert_eq!(cpu.sp, v as u16);
        assert_eq!(cpu.get_sr(), flags);
    }
}

#[test]
fn every_opcode_decodes() {
    for op in 0..=255u8 {
        assert!(parse_opcode(op).is_ok());
    }
    assert_eq!(parse_opcode(0xA9), Ok(Instruction::LDA_IMM));
    assert_eq!(parse_opcode(0xEA), Ok(Instruction::NOP { byte_size: 1 }));
    assert_eq!(parse_opcode(0x44), Ok(Instruction::NOP { byte_size: 2 }));
    assert_eq!(parse_opcode(0xDC), Ok(Instruction::NOP { byte_size: 3 }));
    assert_eq!(parse_opcode(0xFB), Ok(Instruction::NOP { byte_size: 1 }));
    assert_eq!(parse_opcode(0x07), Ok(Instruction::RMB0));
    assert_eq!(parse_opcode(0xFF), Ok(Instruction::BBS7));
}

#[test]
fn combine_wraps_at_the_top() {
    assert_eq!(combine(0x34, 0x12, 0), 0x1234);
    assert_eq!(combine(0xFF, 0x00, 1), 0x0100);
    assert_eq!(combine(0xFF, 0xFF, 2), 0x0001);
}

#[test]
fn bcd_conversions() {
    assert_eq!(from_bcd(0x42), 42);
    assert_eq!(from_bcd(0x99), 99);
    assert_eq!(from_bcd(0xFF), 165);
    assert_eq!(to_bcd(42), 0x42);
    assert_eq!(to_bcd(0), 0x00);
    assert_eq!(to_bcd(99), 0x99);
}

#[test]
fn memory_get_and_set_with_offset() {
    let mut cpu = blank();
    cpu.memory.set(0xFE, 0x12, 3, 0x5A);
    assert_eq!(cpu.memory.get16(0x1301), 0x5A);
    assert_eq!(cpu.memory.get(0x00, 0x13, 1), 0x5A);
    cpu.memory.set(0xFF, 0xFF, 1, 0x11);
    assert_eq!(cpu.memory.get16(0x0000), 0x11);
}

#[test]
fn nmos_decoder_has_the_legal_opcodes() {
    let legal = (0..=255u8).filter(|op| decode(Dialect::Nmos, *op).is_ok()).count();
    assert_eq!(legal, 151);
    assert_eq!(decode(Dialect::Nmos, 0xEA), Ok(Instruction::NOP { byte_size: 1 }));
    assert_eq!(decode(Dialect::Nmos, 0x02), Err(ExecutionError::UnknownOpcode(0x02)));
    assert_eq!(decode(Dialect::Nmos, 0x64), Err(ExecutionError::UnknownOpcode(0x64)));
    assert_eq!(decode(Dialect::Nmos, 0xB2), Err(ExecutionError::UnknownOpcode(0xB2)));
    assert_eq!(decode(Dialect::Nmos, 0x6C), Ok(Instruction::JMP_IND));
    assert_eq!(decode(Dialect::Cmos, 0x64), Ok(Instruction::STZ_ZP));
}

#[test]
fn run_instruction_carries_out_a_decoded_instruction() {
    let mut cpu = blank();
    cpu.x = 0xFF;
    assert_eq!(run_instruction(&Instruction::INX, &mut cpu), Ok(()));
    assert_eq!(cpu.x, 0x00);
    assert!(cpu.z);
    place(&mut cpu, 0x0400, &[0x10, 0x20]);
    cpu.pc = 0x0400;
    cpu.a = 0x3C;
    assert_eq!(run_instruction(&Instruction::STA_ABS, &mut cpu), Ok(()));
    assert_eq!(cpu.memory.get16(0x2010), 0x3C);
    assert_eq!(cpu.pc, 0x0402);
    place(&mut cpu, 0x0402, &[0xFE]);
    assert_eq!(run_instruction(&Instruction::BRA, &mut cpu), Err(ExecutionError::InfiniteLoop));
    assert_eq!(cpu.pc, 0x0401);
}
