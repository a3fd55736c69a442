use emu6502::cpu::{ExecutionFinished, CPU};
use emu6502::instructions::{Dialect, ExecutionError};

fn load(parts: &[(usize, &[u8])]) -> CPU {
    let mut image = vec![0u8; 0x10000];
    for (start, bytes) in parts {
        image[*start..*start + bytes.len()].copy_from_slice(bytes);
    }
    CPU::new(image)
}

fn run(cpu: &mut CPU, steps: usize) {
    for _ in 0..steps {
        assert_eq!(cpu.execute(0xFFFF), Ok(ExecutionFinished::NO));
    }
}

#[test]
fn immediate_load_and_store() {
    let mut cpu = load(&[(0x0400, &[0xA9, 0x42, 0x85, 0x10])]);
    run(&mut cpu, 2);
    assert_eq!(cpu.a, 0x42);
    assert_eq!(cpu.memory.get16(0x10), 0x42);
    assert!(!cpu.n);
    assert!(!cpu.z);
    assert_eq!(cpu.pc, 0x0404);
}

#[test]
fn binary_adc_with_carry_out() {
    let mut cpu = load(&[(0x0400, &[0xA9, 0x80, 0x18, 0x69, 0x80])]);
    run(&mut cpu, 3);
    assert_eq!(cpu.a, 0x00);
    assert!(cpu.c);
    assert!(cpu.v);
    assert!(cpu.z);
    assert!(!cpu.n);
}

#[test]
fn decimal_adc() {
    let mut cpu = load(&[(0x0400, &[0xF8, 0xA9, 0x15, 0x18, 0x69, 0x27])]);
    run(&mut cpu, 4);
    assert_eq!(cpu.a, 0x42);
    assert!(cpu.d);
    assert!(!cpu.c);
}

#[test]
fn branch_taken_forward() {
    let mut cpu = load(&[(0x0400, &[0xA9, 0x00, 0xF0, 0x02, 0xA9, 0xFF, 0xEA, 0xEA])]);
    run(&mut cpu, 4);
    assert_eq!(cpu.a, 0x00);
    assert_eq!(cpu.pc, 0x0408);
}

#[test]
fn jsr_and_rts() {
    let mut cpu = load(&[
        (0x0400, &[0x20, 0x10, 0x04, 0xA9, 0xAA, 0x00]),
        (0x0410, &[0xA9, 0x55, 0x60]),
    ]);
    run(&mut cpu, 1);
    assert_eq!(cpu.pc, 0x0410);
    run(&mut cpu, 1);
    assert_eq!(cpu.a, 0x55);
    run(&mut cpu, 1);
    assert_eq!(cpu.pc, 0x0403);
    run(&mut cpu, 1);
    assert_eq!(cpu.a, 0xAA);
    assert_eq!(cpu.memory.get16(cpu.pc), 0x00);
    assert_eq!(cpu.sp, 0xFF);
}

#[test]
fn infinite_loop_detection() {
    let mut cpu = load(&[(0x0400, &[0x4C, 0x00, 0x04])]);
    assert_eq!(cpu.execute(0xFFFF), Err(ExecutionError::InfiniteLoop));
    assert_eq!(cpu.instruction_count, 0);
    assert_eq!(cpu.pc, 0x0400);
}

#[test]
fn branch_onto_itself_is_an_infinite_loop() {
    let mut cpu = load(&[(0x0400, &[0xA9, 0x00, 0xF0, 0xFE])]);
    run(&mut cpu, 1);
    assert_eq!(cpu.execute(0xFFFF), Err(ExecutionError::InfiniteLoop));
    assert_eq!(cpu.pc, 0x0402);
}

#[test]
fn branch_onto_itself_not_taken_continues() {
    let mut cpu = load(&[(0x0400, &[0xA9, 0x01, 0xF0, 0xFE, 0xEA])]);
    run(&mut cpu, 2);
    assert_eq!(cpu.pc, 0x0404);
}

#[test]
fn jump_indexed_indirect_onto_itself_is_no_error() {
    let mut cpu = load(&[(0x0400, &[0x7C, 0x00, 0x20]), (0x2000, &[0x00, 0x04])]);
    assert_eq!(cpu.execute(0xFFFF), Ok(ExecutionFinished::NO));
    assert_eq!(cpu.pc, 0x0400);
}

#[test]
fn jump_indexed_indirect_adds_x() {
    let mut cpu = load(&[(0x0400, &[0xA2, 0x02, 0x7C, 0x00, 0x20]), (0x2002, &[0x34, 0x12])]);
    run(&mut cpu, 2);
    assert_eq!(cpu.pc, 0x1234);
}

#[test]
fn finishes_at_the_success_count() {
    let mut cpu = load(&[(0x0400, &[0xEA, 0xEA, 0xEA])]);
    assert_eq!(cpu.execute(2), Ok(ExecutionFinished::NO));
    assert_eq!(cpu.execute(2), Ok(ExecutionFinished::YES));
    assert_eq!(cpu.instruction_count, 2);
}

#[test]
fn new_zero_fills_a_short_image() {
    let cpu = CPU::new(vec![1, 2, 3]);
    assert_eq!(cpu.memory.get16(0), 1);
    assert_eq!(cpu.memory.get16(2), 3);
    assert_eq!(cpu.memory.get16(3), 0);
    assert_eq!(cpu.memory.get16(0xFFFF), 0);
    assert_eq!(cpu.pc, 0x0400);
    assert_eq!(cpu.sp, 0xFF);
    assert_eq!((cpu.a, cpu.x, cpu.y), (0, 0, 0));
    assert_eq!(cpu.get_sr(), 0x20);
}

#[test]
fn brk_pushes_return_address_and_status() {
    let mut cpu = load(&[(0x0400, &[0xF8, 0x00, 0x99]), (0xFFFE, &[0x00, 0x30])]);
    run(&mut cpu, 2);
    assert_eq!(cpu.pc, 0x3000);
    assert_eq!(cpu.memory.get16(0x01FF), 0x04);
    assert_eq!(cpu.memory.get16(0x01FE), 0x03);
    // D and B set, bit 5 always set
    assert_eq!(cpu.memory.get16(0x01FD), 0x38);
    assert_eq!(cpu.sp, 0xFC);
    assert!(cpu.i);
    assert!(!cpu.d);
    assert!(cpu.b);
}

#[test]
fn rti_restores_status_and_address() {
    let mut cpu = load(&[(0x0400, &[0x40]), (0x01FD, &[0xC3, 0x34, 0x12])]);
    cpu.sp = 0xFC;
    run(&mut cpu, 1);
    assert_eq!(cpu.pc, 0x1234);
    assert_eq!(cpu.sp, 0xFF);
    assert!(cpu.n && cpu.v && cpu.z && cpu.c);
    assert!(!cpu.b && !cpu.d && !cpu.i);
}

#[test]
fn php_sets_b_in_pushed_byte_only() {
    let mut cpu = load(&[(0x0400, &[0x38, 0x08])]);
    run(&mut cpu, 2);
    assert_eq!(cpu.memory.get16(0x01FF), 0x31);
    assert!(!cpu.b);
}

#[test]
fn plp_keeps_b() {
    let mut cpu = load(&[(0x0400, &[0xA9, 0xFF, 0x48, 0x28])]);
    run(&mut cpu, 3);
    assert!(!cpu.b);
    assert_eq!(cpu.get_sr(), 0xEF);
}

#[test]
fn push_wraps_the_stack_pointer() {
    let mut cpu = load(&[(0x0400, &[0xA9, 0x77, 0x48, 0x68])]);
    cpu.sp = 0x00;
    run(&mut cpu, 2);
    assert_eq!(cpu.memory.get16(0x0100), 0x77);
    assert_eq!(cpu.sp, 0xFF);
    run(&mut cpu, 1);
    assert_eq!(cpu.sp, 0x00);
    assert_eq!(cpu.a, 0x77);
}

#[test]
fn indirect_y_pointer_wraps_in_zero_page() {
    let mut cpu = load(&[(0x0400, &[0xA0, 0x01, 0xB1, 0xFF]), (0x0000, &[0x12]), (0x00FF, &[0x34]), (0x1235, &[0x99])]);
    run(&mut cpu, 2);
    assert_eq!(cpu.a, 0x99);
}

#[test]
fn indirect_x_pointer_wraps_in_zero_page() {
    let mut cpu = load(&[(0x0400, &[0xA2, 0x01, 0xA1, 0xFE]), (0x0000, &[0x20]), (0x00FF, &[0x00]), (0x2000, &[0x5A])]);
    run(&mut cpu, 2);
    assert_eq!(cpu.a, 0x5A);
}

#[test]
fn zero_page_x_wraps() {
    let mut cpu = load(&[(0x0400, &[0xA2, 0x10, 0xB5, 0xF8]), (0x0008, &[0x66])]);
    run(&mut cpu, 2);
    assert_eq!(cpu.a, 0x66);
}

#[test]
fn absolute_x_wraps_at_the_top_of_memory() {
    let mut cpu = load(&[(0x0400, &[0xA2, 0x02, 0xBD, 0xFF, 0xFF]), (0x0001, &[0x44])]);
    run(&mut cpu, 2);
    assert_eq!(cpu.a, 0x44);
}

#[test]
fn fetch_wraps_the_program_counter() {
    let mut cpu = load(&[(0xFFFF, &[0xAB])]);
    cpu.pc = 0xFFFF;
    assert_eq!(cpu.fetch(), 0xAB);
    assert_eq!(cpu.pc, 0x0000);
}

#[test]
fn branch_backward() {
    let mut cpu = load(&[(0x0400, &[0xA2, 0x03, 0xCA, 0xD0, 0xFD, 0xEA])]);
    run(&mut cpu, 1 + 3 * 2);
    assert_eq!(cpu.x, 0);
    assert_eq!(cpu.pc, 0x0405);
}

#[test]
fn compare_sets_carry_unsigned() {
    let mut cpu = load(&[(0x0400, &[0xA9, 0x00, 0xC9, 0x90, 0xA9, 0x90, 0xC9, 0x10, 0xC9, 0x90])]);
    run(&mut cpu, 2);
    assert!(!cpu.c);
    assert!(!cpu.n);
    assert!(!cpu.z);
    run(&mut cpu, 2);
    assert!(cpu.c);
    assert!(cpu.n);
    run(&mut cpu, 1);
    assert!(cpu.c);
    assert!(cpu.z);
    assert_eq!(cpu.a, 0x90);
}

#[test]
fn binary_sbc() {
    let mut cpu = load(&[(0x0400, &[0x38, 0xA9, 0x50, 0xE9, 0xF0, 0x38, 0xA9, 0x50, 0xE9, 0xB0])]);
    run(&mut cpu, 3);
    assert_eq!(cpu.a, 0x60);
    assert!(!cpu.c);
    assert!(!cpu.v);
    run(&mut cpu, 3);
    assert_eq!(cpu.a, 0xA0);
    assert!(!cpu.c);
    assert!(cpu.v);
    assert!(cpu.n);
}

#[test]
fn decimal_sbc_with_borrow() {
    let mut cpu = load(&[(0x0400, &[0xF8, 0x18, 0xA9, 0x12, 0xE9, 0x21])]);
    run(&mut cpu, 4);
    assert_eq!(cpu.a, 0x90);
    assert!(!cpu.c);
}

#[test]
fn decimal_adc_carry_out() {
    let mut cpu = load(&[(0x0400, &[0xF8, 0x38, 0xA9, 0x58, 0x69, 0x46])]);
    run(&mut cpu, 4);
    assert_eq!(cpu.a, 0x05);
    assert!(cpu.c);
}

#[test]
fn shifts_and_rotates_on_memory() {
    let mut cpu = load(&[(0x0400, &[0x06, 0x20, 0x26, 0x20, 0x46, 0x21, 0x66, 0x21]), (0x0020, &[0x81, 0x03])]);
    run(&mut cpu, 1);
    assert_eq!(cpu.memory.get16(0x20), 0x02);
    assert!(cpu.c);
    run(&mut cpu, 1);
    assert_eq!(cpu.memory.get16(0x20), 0x05);
    assert!(!cpu.c);
    run(&mut cpu, 1);
    assert_eq!(cpu.memory.get16(0x21), 0x01);
    assert!(cpu.c);
    run(&mut cpu, 1);
    assert_eq!(cpu.memory.get16(0x21), 0x80);
    assert!(cpu.c);
    assert!(cpu.n);
}

#[test]
fn increments_wrap() {
    let mut cpu = load(&[(0x0400, &[0xE6, 0x30, 0xA2, 0x00, 0xCA, 0x1A]), (0x0030, &[0xFF])]);
    run(&mut cpu, 1);
    assert_eq!(cpu.memory.get16(0x30), 0x00);
    assert!(cpu.z);
    run(&mut cpu, 2);
    assert_eq!(cpu.x, 0xFF);
    assert!(cpu.n);
    run(&mut cpu, 1);
    assert_eq!(cpu.a, 0x01);
}

#[test]
fn cmos_bit_instructions() {
    let mut cpu = load(&[
        (0x0400, &[0x97, 0x40, 0x07, 0x41, 0xA9, 0x0F, 0x14, 0x42, 0x04, 0x43, 0x9F, 0x40, 0x02, 0xEA, 0xEA]),
        (0x0040, &[0x00, 0xFF, 0xF3, 0x30]),
    ]);
    run(&mut cpu, 1);
    assert_eq!(cpu.memory.get16(0x40), 0x02);
    run(&mut cpu, 1);
    assert_eq!(cpu.memory.get16(0x41), 0xFE);
    run(&mut cpu, 2);
    assert_eq!(cpu.memory.get16(0x42), 0xF0);
    assert!(!cpu.z);
    run(&mut cpu, 1);
    assert_eq!(cpu.memory.get16(0x43), 0x3F);
    assert!(cpu.z);
    run(&mut cpu, 1);
    assert_eq!(cpu.pc, 0x040F);
}

#[test]
fn stz_and_bit_immediate() {
    let mut cpu = load(&[(0x0400, &[0xA9, 0xF0, 0x64, 0x50, 0x89, 0x0F]), (0x0050, &[0x77])]);
    cpu.n = false;
    run(&mut cpu, 2);
    assert_eq!(cpu.memory.get16(0x50), 0x00);
    assert!(cpu.n);
    run(&mut cpu, 1);
    assert!(cpu.z);
    assert!(cpu.n);
}

#[test]
fn jump_indirect_reads_the_target() {
    let mut cpu = load(&[(0x0400, &[0x6C, 0xFF, 0x10]), (0x10FF, &[0x34, 0x12])]);
    run(&mut cpu, 1);
    assert_eq!(cpu.pc, 0x1234);
}

#[test]
fn nop_widths() {
    let mut cpu = load(&[(0x0400, &[0x02, 0xFF, 0x5C, 0xFF, 0xFF, 0x03, 0xEA])]);
    run(&mut cpu, 1);
    assert_eq!(cpu.pc, 0x0402);
    run(&mut cpu, 1);
    assert_eq!(cpu.pc, 0x0405);
    run(&mut cpu, 1);
    assert_eq!(cpu.pc, 0x0406);
    run(&mut cpu, 1);
    assert_eq!(cpu.pc, 0x0407);
}

#[test]
fn transfers_set_flags_except_txs() {
    let mut cpu = load(&[(0x0400, &[0xA9, 0x80, 0xAA, 0xA8, 0xA2, 0x00, 0x9A, 0xBA, 0x8A, 0x98])]);
    run(&mut cpu, 3);
    assert_eq!((cpu.x, cpu.y), (0x80, 0x80));
    assert!(cpu.n);
    run(&mut cpu, 2);
    assert_eq!(cpu.sp, 0x00);
    assert!(cpu.z);
    run(&mut cpu, 1);
    assert_eq!(cpu.x, 0x00);
    run(&mut cpu, 2);
    assert_eq!(cpu.a, 0x80);
    assert!(cpu.n);
}

#[test]
fn nmos_rejects_cmos_opcodes() {
    let mut image = vec![0u8; 0x10000];
    image[0x0400] = 0x80;
    let mut cpu = CPU::new_with_dialect(image, Dialect::Nmos);
    assert_eq!(cpu.execute(0xFFFF), Err(ExecutionError::UnknownOpcode(0x80)));
    assert_eq!(cpu.pc, 0x0401);
    assert_eq!(cpu.instruction_count, 0);
}

#[test]
fn nmos_runs_shared_opcodes() {
    let mut image = vec![0u8; 0x10000];
    image[0x0400..0x0405].copy_from_slice(&[0xA9, 0x80, 0x18, 0x69, 0x80]);
    let mut cpu = CPU::new_with_dialect(image, Dialect::Nmos);
    run(&mut cpu, 3);
    assert_eq!(cpu.a, 0x00);
    assert!(cpu.c && cpu.v && cpu.z);
}

#[test]
fn nmos_brk_keeps_decimal_flag() {
    let mut image = vec![0u8; 0x10000];
    image[0x0400..0x0402].copy_from_slice(&[0xF8, 0x00]);
    let mut cpu = CPU::new_with_dialect(image, Dialect::Nmos);
    run(&mut cpu, 2);
    assert!(cpu.d);
    assert!(cpu.i);
    assert_eq!(cpu.pc, 0x0000);
}
