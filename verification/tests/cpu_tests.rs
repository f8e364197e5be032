use nes_cpu::cpu::CPU;

#[test]
fn test_0xa9_lda_immediate_load_data() {
    let mut cpu = CPU::new();
    cpu.load_and_run(vec![0xa9, 0x05, 0x00]);
    assert_eq!(cpu.register_a, 0x05);
    assert!(cpu.status & 0b0000_0010 == 0b00);
    assert!(cpu.status & 0b1000_0000 == 0);
}

#[test]
fn test_0xa9_lda_zero_flag() {
    let mut cpu = CPU::new();
    cpu.load_and_run(vec![0xa9, 0x00, 0x00]);
    assert!(cpu.status & 0b0000_0010 == 0b10);
}

#[test]
fn test_0xaa_tax_move_a_to_x() {
    let mut cpu = CPU::new();

    cpu.load_and_run(vec![
        0xa9, 0x0a, // LDA #$0A
        0xaa, // TAX
        0x00, // BRK
    ]);
    assert_eq!(cpu.register_x, 10)
}

#[test]
fn test_5_ops_working_together() {
    let mut cpu = CPU::new();
    cpu.load_and_run(vec![0xa9, 0xc0, 0xaa, 0xe8, 0x00]);

    assert_eq!(cpu.register_x, 0xc1)
}

#[test]
fn test_inx_overflow() {
    let mut cpu = CPU::new();

    cpu.load_and_run(vec![
        0xa2, 0xff, // LDX #$FF
        0xe8, // INX -> $00
        0xe8, // INX -> $01
        0x00, // BRK
    ]);

    assert_eq!(cpu.register_x, 1)
}

#[test]
fn test_lda_from_memory() {
    let mut cpu = CPU::new();
    cpu.mem_write(0x10, 0x55);

    cpu.load_and_run(vec![0xa5, 0x10, 0x00]);

    assert_eq!(cpu.register_a, 0x55);
}

#[test]
fn test_sta_zero_page() {
    let mut cpu = CPU::new();

    cpu.load_and_run(vec![
        0xa9, 0x55, // LDA #$55
        0x85, 0x10, // STA $10
        0x00, // BRK
    ]);

    assert_eq!(cpu.mem_read(0x10), 0x55);
}

#[test]
fn test_sta_indirect_x() {
    let mut cpu = CPU::new();

    // The pointer at zero page $0F..$10 is $8000; X = 1, so it is read from ($0E+1).
    cpu.mem_write(0x0f, 0x00);
    cpu.mem_write(0x10, 0x80);

    cpu.load_and_run(vec![
        0xa2, 0x01, // LDX #$01
        0xa9, 0x55, // LDA #$55
        0x81, 0x0e, // STA ($0E,X)
        0x00, // BRK
    ]);

    assert_eq!(cpu.mem_read(0x8000), 0x55);
}

// --- LDA addressing modes ---

#[test]
fn test_lda_zero_page_x() {
    let mut cpu = CPU::new();
    cpu.mem_write(0x12, 0x55);

    cpu.load_and_run(vec![
        0xa2, 0x02, // LDX #$02
        0xb5, 0x10, // LDA $10,X -> $12
        0x00, // BRK
    ]);

    assert_eq!(cpu.register_a, 0x55);
}

#[test]
fn test_lda_zero_page_x_wraps() {
    let mut cpu = CPU::new();
    cpu.mem_write(0x00, 0x44);

    cpu.load_and_run(vec![
        0xa2, 0x02, // LDX #$02
        0xb5, 0xfe, // LDA $FE,X -> wraps within page zero to $00
        0x00, // BRK
    ]);

    assert_eq!(cpu.register_a, 0x44);
}

#[test]
fn test_lda_absolute() {
    let mut cpu = CPU::new();
    cpu.mem_write(0x1234, 0x55);

    cpu.load_and_run(vec![
        0xad, 0x34, 0x12, // LDA $1234
        0x00, // BRK
    ]);

    assert_eq!(cpu.register_a, 0x55);
}

#[test]
fn test_lda_absolute_x() {
    let mut cpu = CPU::new();
    cpu.mem_write(0x1236, 0x55);

    cpu.load_and_run(vec![
        0xa2, 0x02, // LDX #$02
        0xbd, 0x34, 0x12, // LDA $1234,X -> $1236
        0x00, // BRK
    ]);

    assert_eq!(cpu.register_a, 0x55);
}

#[test]
fn test_lda_absolute_y() {
    let mut cpu = CPU::new();
    cpu.mem_write(0x1236, 0x55);

    cpu.load_and_run(vec![
        0xa0, 0x02, // LDY #$02
        0xb9, 0x34, 0x12, // LDA $1234,Y -> $1236
        0x00, // BRK
    ]);

    assert_eq!(cpu.register_a, 0x55);
}

#[test]
fn test_lda_indirect_x() {
    let mut cpu = CPU::new();
    cpu.mem_write(0x12, 0x34); // pointer low byte ($10 + X)
    cpu.mem_write(0x13, 0x12); // pointer high byte -> $1234
    cpu.mem_write(0x1234, 0x55);

    cpu.load_and_run(vec![
        0xa2, 0x02, // LDX #$02
        0xa1, 0x10, // LDA ($10,X) -> pointer read from $12
        0x00, // BRK
    ]);

    assert_eq!(cpu.register_a, 0x55);
}

#[test]
fn test_lda_indirect_x_wraps() {
    let mut cpu = CPU::new();
    cpu.mem_write(0x01, 0x34); // pointer low byte ($FF + 2 wraps to $01)
    cpu.mem_write(0x02, 0x12); // pointer high byte -> $1234
    cpu.mem_write(0x1234, 0x55);

    cpu.load_and_run(vec![
        0xa2, 0x02, // LDX #$02
        0xa1, 0xff, // LDA ($FF,X) -> pointer location wraps
        0x00, // BRK
    ]);

    assert_eq!(cpu.register_a, 0x55);
}

#[test]
fn test_lda_indirect_y() {
    let mut cpu = CPU::new();
    cpu.mem_write(0x10, 0x34); // pointer low byte
    cpu.mem_write(0x11, 0x12); // pointer high byte -> $1234
    cpu.mem_write(0x1236, 0x55);

    cpu.load_and_run(vec![
        0xa0, 0x02, // LDY #$02
        0xb1, 0x10, // LDA ($10),Y -> $1234 + Y = $1236
        0x00, // BRK
    ]);

    assert_eq!(cpu.register_a, 0x55);
}

// --- STA addressing modes ---

#[test]
fn test_sta_absolute() {
    let mut cpu = CPU::new();

    cpu.load_and_run(vec![
        0xa9, 0x55, // LDA #$55
        0x8d, 0x34, 0x12, // STA $1234
        0x00, // BRK
    ]);

    assert_eq!(cpu.mem_read(0x1234), 0x55);
}

#[test]
fn test_sta_zero_page_x() {
    let mut cpu = CPU::new();

    cpu.load_and_run(vec![
        0xa9, 0x55, // LDA #$55
        0xa2, 0x02, // LDX #$02
        0x95, 0x10, // STA $10,X -> $12
        0x00, // BRK
    ]);

    assert_eq!(cpu.mem_read(0x12), 0x55);
}

#[test]
fn test_sta_absolute_x() {
    let mut cpu = CPU::new();

    cpu.load_and_run(vec![
        0xa9, 0x55, // LDA #$55
        0xa2, 0x02, // LDX #$02
        0x9d, 0x34, 0x12, // STA $1234,X -> $1236
        0x00, // BRK
    ]);

    assert_eq!(cpu.mem_read(0x1236), 0x55);
}

#[test]
fn test_sta_absolute_y() {
    let mut cpu = CPU::new();

    cpu.load_and_run(vec![
        0xa9, 0x55, // LDA #$55
        0xa0, 0x02, // LDY #$02
        0x99, 0x34, 0x12, // STA $1234,Y -> $1236
        0x00, // BRK
    ]);

    assert_eq!(cpu.mem_read(0x1236), 0x55);
}

#[test]
fn test_sta_indirect_y() {
    let mut cpu = CPU::new();
    cpu.mem_write(0x10, 0x34); // pointer low byte
    cpu.mem_write(0x11, 0x12); // pointer high byte -> $1234

    cpu.load_and_run(vec![
        0xa9, 0x55, // LDA #$55
        0xa0, 0x02, // LDY #$02
        0x91, 0x10, // STA ($10),Y -> $1236
        0x00, // BRK
    ]);

    assert_eq!(cpu.mem_read(0x1236), 0x55);
}

#[test]
fn new_cpu_is_all_zero() {
    let cpu = CPU::new();
    assert_eq!(cpu.register_a, 0);
    assert_eq!(cpu.register_x, 0);
    assert_eq!(cpu.register_y, 0);
    assert_eq!(cpu.status, 0);
    assert_eq!(cpu.pc, 0);
    assert_eq!(cpu.mem_read(0x0000), 0);
    assert_eq!(cpu.mem_read(0x8000), 0);
    assert_eq!(cpu.mem_read(0xFFFF), 0);
}

#[test]
fn mem_read_gives_back_mem_write_and_nothing_else_changes() {
    let mut cpu = CPU::new();
    cpu.mem_write(0x1234, 0xAB);
    assert_eq!(cpu.mem_read(0x1234), 0xAB);
    assert_eq!(cpu.mem_read(0x1233), 0);
    assert_eq!(cpu.mem_read(0x1235), 0);
    cpu.mem_write(0x1234, 0xCD);
    assert_eq!(cpu.mem_read(0x1234), 0xCD);
    cpu.mem_write(0xFFFF, 0x01);
    assert_eq!(cpu.mem_read(0xFFFF), 0x01);
    assert_eq!(cpu.mem_read(0x0000), 0);
}

#[test]
fn reset_takes_pc_from_the_little_endian_vector() {
    let mut cpu = CPU::new();
    cpu.register_a = 7;
    cpu.register_x = 8;
    cpu.register_y = 9;
    cpu.status = 0xFF;
    cpu.mem_write(0xFFFC, 0x34);
    cpu.mem_write(0xFFFD, 0x12);
    cpu.reset();
    assert_eq!(cpu.pc, 0x1234);
    assert_eq!(cpu.register_a, 0);
    assert_eq!(cpu.register_x, 0);
    assert_eq!(cpu.register_y, 0);
    assert_eq!(cpu.status, 0);
    assert_eq!(cpu.mem_read(0xFFFC), 0x34);
}

#[test]
fn empty_program_stops_on_the_first_byte() {
    let mut cpu = CPU::new();
    cpu.load_and_run(vec![]);
    assert_eq!(cpu.pc, 0x8001);
    assert_eq!(cpu.mem_read(0xFFFC), 0x00);
    assert_eq!(cpu.mem_read(0xFFFD), 0x80);
    assert_eq!(cpu.register_a, 0);
}

#[test]
fn program_is_copied_to_0x8000() {
    let mut cpu = CPU::new();
    cpu.load_and_run(vec![0xa9, 0x07, 0x00, 0x42]);
    assert_eq!(cpu.mem_read(0x8000), 0xa9);
    assert_eq!(cpu.mem_read(0x8001), 0x07);
    assert_eq!(cpu.mem_read(0x8002), 0x00);
    assert_eq!(cpu.mem_read(0x8003), 0x42);
    assert_eq!(cpu.mem_read(0x8004), 0x00);
    assert_eq!(cpu.pc, 0x8003);
}

#[test]
fn unknown_opcode_stops_like_brk() {
    let mut cpu = CPU::new();
    cpu.load_and_run(vec![0xa9, 0x01, 0x02, 0xa9, 0x09, 0x00]);
    assert_eq!(cpu.register_a, 0x01);
    assert_eq!(cpu.pc, 0x8003);
}

#[test]
fn lda_sets_the_negative_flag_from_bit_7() {
    let mut cpu = CPU::new();
    cpu.load_and_run(vec![0xa9, 0x80, 0x00]);
    assert_eq!(cpu.register_a, 0x80);
    assert_eq!(cpu.status & 0b1000_0000, 0b1000_0000);
    assert_eq!(cpu.status & 0b0000_0010, 0);

    let mut cpu = CPU::new();
    cpu.load_and_run(vec![0xa9, 0x7F, 0x00]);
    assert_eq!(cpu.status & 0b1000_0000, 0);
}

#[test]
fn later_load_clears_the_zero_flag() {
    let mut cpu = CPU::new();
    cpu.load_and_run(vec![0xa9, 0x00, 0xa9, 0x01, 0x00]);
    assert_eq!(cpu.register_a, 0x01);
    assert_eq!(cpu.status, 0);
}

#[test]
fn ldy_and_ldx_set_the_flags() {
    let mut cpu = CPU::new();
    cpu.load_and_run(vec![0xa0, 0x00, 0x00]);
    assert_eq!(cpu.register_y, 0);
    assert_eq!(cpu.status, 0b0000_0010);

    let mut cpu = CPU::new();
    cpu.load_and_run(vec![0xa2, 0xF0, 0x00]);
    assert_eq!(cpu.register_x, 0xF0);
    assert_eq!(cpu.status, 0b1000_0000);
}

#[test]
fn inx_to_zero_sets_the_zero_flag() {
    let mut cpu = CPU::new();
    cpu.load_and_run(vec![0xa2, 0xff, 0xe8, 0x00]);
    assert_eq!(cpu.register_x, 0);
    assert_eq!(cpu.status, 0b0000_0010);
}

#[test]
fn tax_copies_zero_and_sets_the_zero_flag() {
    let mut cpu = CPU::new();
    cpu.load_and_run(vec![0xa2, 0x05, 0xa9, 0x00, 0xaa, 0x00]);
    assert_eq!(cpu.register_x, 0);
    assert_eq!(cpu.status, 0b0000_0010);
}

#[test]
fn lda_indirect_y_pointer_wraps_within_page_zero() {
    let mut cpu = CPU::new();
    cpu.mem_write(0xff, 0x34);
    cpu.mem_write(0x00, 0x12);
    cpu.mem_write(0x1235, 0x66);
    cpu.load_and_run(vec![0xa0, 0x01, 0xb1, 0xff, 0x00]);
    assert_eq!(cpu.register_a, 0x66);
}

#[test]
fn lda_absolute_x_wraps_around_the_address_space() {
    let mut cpu = CPU::new();
    cpu.mem_write(0x0001, 0x77);
    cpu.load_and_run(vec![0xa2, 0x02, 0xbd, 0xff, 0xff, 0x00]);
    assert_eq!(cpu.register_a, 0x77);
}

#[test]
fn sta_zero_page_x_wraps_within_page_zero() {
    let mut cpu = CPU::new();
    cpu.load_and_run(vec![0xa9, 0x55, 0xa2, 0x03, 0x95, 0xfe, 0x00]);
    assert_eq!(cpu.mem_read(0x01), 0x55);
    assert_eq!(cpu.mem_read(0x101), 0x00);
}

#[test]
fn sta_leaves_flags_and_registers_alone() {
    let mut cpu = CPU::new();
    cpu.load_and_run(vec![0xa9, 0x00, 0x85, 0x10, 0x00]);
    assert_eq!(cpu.status, 0b0000_0010);
    assert_eq!(cpu.mem_read(0x10), 0x00);
    assert_eq!(cpu.pc, 0x8005);
}

#[test]
fn longest_program_fits() {
    let mut cpu = CPU::new();
    let mut program = vec![0xa9u8; 0x8000];
    program[2] = 0x00;
    cpu.load_and_run(program);
    assert_eq!(cpu.register_a, 0xa9);
    assert_eq!(cpu.pc, 0x8003);
    assert_eq!(cpu.mem_read(0xFFFB), 0xa9);
    assert_eq!(cpu.mem_read(0xFFFC), 0x00);
    assert_eq!(cpu.mem_read(0xFFFD), 0x80);
}
