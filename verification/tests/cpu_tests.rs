use nes_core::bus::Bus;
use nes_core::cartridge::Rom;
use nes_core::cpu::{Mem, CPU};

fn test_rom() -> Rom {
    let mut raw: Vec<u8> = vec![0x4e, 0x45, 0x53, 0x1a, 2, 1, 0, 0];
    raw.resize(16 + 2 * 0x4000 + 0x2000, 0);
    Rom::new(&raw).unwrap()
}

fn test_cpu() -> CPU {
    CPU::new(Bus::new(test_rom()))
}

#[test]
fn test_0xa9_lda_immediate_load_data() {
    let mut cpu = test_cpu();
    cpu.load_and_run(vec![0xa9, 0x05, 0x00]);
    assert_eq!(cpu.register_a, 5);
    assert!(cpu.status & 0b0000_0010 == 0b00);
    assert!(cpu.status & 0b1000_0000 == 0);
}

#[test]
fn test_0xaa_tax_move_a_to_x() {
    let mut cpu = test_cpu();
    cpu.register_a = 10;
    cpu.load_and_run(vec![0xa9, 0x0a, 0xaa, 0x00]);
    assert_eq!(cpu.register_x, 10)
}

#[test]
fn test_5_ops_working_together() {
    let mut cpu = test_cpu();
    cpu.load_and_run(vec![0xa9, 0xc0, 0xaa, 0xe8, 0x00]);
    assert_eq!(cpu.register_x, 0xc1)
}

#[test]
fn test_inx_overflow() {
    let mut cpu = test_cpu();
    cpu.load_and_run(vec![0xa2, 0xff, 0xe8, 0xe8, 0x00]);
    assert_eq!(cpu.register_x, 1)
}

#[test]
fn test_lda_from_memory() {
    let mut cpu = test_cpu();
    cpu.mem_write(0x10, 0x55);
    cpu.load_and_run(vec![0xa5, 0x10, 0x00]);
    assert_eq!(cpu.register_a, 0x55);
}

#[test]
fn test_lda_zero_sets_z() {
    let mut cpu = test_cpu();
    cpu.load_and_run(vec![0xa9, 0x00, 0x00]);
    assert_eq!(cpu.register_a, 0);
    assert!(cpu.status & 0b0000_0010 != 0);
}

#[test]
fn test_adc_carry_and_overflow() {
    // A = 0x50, C = 0, operand 0x50: result 0xa0, V set, N set, C clear.
    let mut cpu = test_cpu();
    cpu.load_and_run(vec![0xa9, 0x50, 0x69, 0x50, 0x00]);
    assert_eq!(cpu.register_a, 0xa0);
    assert!(cpu.status & 0b0100_0000 != 0);
    assert!(cpu.status & 0b1000_0000 != 0);
    assert!(cpu.status & 0b0000_0001 == 0);
    assert!(cpu.status & 0b0000_0010 == 0);
}

#[test]
fn test_adc_carry_out() {
    let mut cpu = test_cpu();
    cpu.load_and_run(vec![0xa9, 0xff, 0x69, 0x02, 0x00]);
    assert_eq!(cpu.register_a, 0x01);
    assert!(cpu.status & 0b0000_0001 != 0);
    assert!(cpu.status & 0b0100_0000 == 0);
}

#[test]
fn test_sbc_with_carry_set() {
    let mut cpu = test_cpu();
    cpu.load_and_run(vec![0xa9, 0x50, 0x38, 0xe9, 0x10, 0x00]);
    assert_eq!(cpu.register_a, 0x40);
    assert!(cpu.status & 0b0000_0001 != 0);
}

#[test]
fn test_branch_taken_page_cross_cycles() {
    // LDA #1 (2 cycles) then BNE with a negative offset whose target sits on
    // the previous page: 2 base + 1 taken + 1 page-cross = 4; total 6.
    let mut cpu = test_cpu();
    cpu.load_and_run(vec![0xa9, 0x01, 0xd0, 0xfa, 0x00]);
    assert_eq!(cpu.bus.cycles, 6);
}

#[test]
fn test_branch_taken_same_page_cycles() {
    // Offset 0 stays on the same page: 2 base + 1 taken = 3; total 5.
    let mut cpu = test_cpu();
    cpu.load_and_run(vec![0xa9, 0x01, 0xd0, 0x00, 0x00]);
    assert_eq!(cpu.bus.cycles, 5);
}

#[test]
fn test_branch_not_taken_cycles() {
    // LDA #0 sets Z, so BNE falls through: 2 + 2 = 4 cycles.
    let mut cpu = test_cpu();
    cpu.load_and_run(vec![0xa9, 0x00, 0xd0, 0x02, 0x00]);
    assert_eq!(cpu.bus.cycles, 4);
}

#[test]
fn test_nop_advances_pc_by_length() {
    let mut cpu = test_cpu();
    cpu.load_and_run(vec![0xea, 0x00]);
    // NOP advances from 0x0600 to 0x0601; the BRK fetch leaves 0x0602.
    assert_eq!(cpu.program_counter, 0x0602);
    assert_eq!(cpu.bus.cycles, 2);
}

#[test]
fn test_opcode_table_covers_every_byte() {
    for code in 0..=255u8 {
        let op = nes_core::opcodes::opcode_lookup(code);
        assert!(1 <= op.len && op.len <= 3);
        assert!(op.cycles >= 2);
    }
}

#[test]
fn test_asl_memory_sets_carry() {
    let mut cpu = test_cpu();
    cpu.mem_write(0x10, 0x81);
    cpu.load_and_run(vec![0x06, 0x10, 0x00]);
    assert_eq!(cpu.mem_read(0x10), 0x02);
    assert!(cpu.status & 0b0000_0001 != 0);
}

#[test]
fn test_jsr_and_rts() {
    let mut cpu = test_cpu();
    cpu.load_and_run(vec![0x20, 0x05, 0x06, 0x00, 0x00, 0xa9, 0x07, 0x60]);
    assert_eq!(cpu.register_a, 0x07);
    assert_eq!(cpu.program_counter, 0x0604);
}

#[test]
fn test_status_unused_bit_always_set() {
    let mut cpu = test_cpu();
    assert!(cpu.status & 0b0010_0000 != 0);
    // PLP pulls a status byte with every bit clear; bit 5 still reads 1.
    cpu.load_and_run(vec![0xa9, 0x00, 0x48, 0x28, 0x00]);
    assert!(cpu.status & 0b0010_0000 != 0);
}

#[test]
fn test_compare_sets_carry_and_zero() {
    let mut cpu = test_cpu();
    cpu.load_and_run(vec![0xa9, 0x10, 0xc9, 0x10, 0x00]);
    assert!(cpu.status & 0b0000_0001 != 0);
    assert!(cpu.status & 0b0000_0010 != 0);
}

#[test]
fn test_lax_loads_a_and_x() {
    let mut cpu = test_cpu();
    cpu.mem_write(0x0020, 0x3c);
    cpu.load_and_run(vec![0xa7, 0x20, 0x00]);
    assert_eq!(cpu.register_a, 0x3c);
    assert_eq!(cpu.register_x, 0x3c);
}

#[test]
fn test_dcp_decrements_and_compares() {
    let mut cpu = test_cpu();
    cpu.mem_write(0x0020, 0x03);
    cpu.load_and_run(vec![0xa9, 0x02, 0xc7, 0x20, 0x00]);
    assert_eq!(cpu.mem_read(0x0020), 0x02);
    // A (2) equals the decremented operand: carry and zero both set.
    assert!(cpu.status & 0b0000_0001 != 0);
    assert!(cpu.status & 0b0000_0010 != 0);
}
