use nintendrust::bus::Bus;
use nintendrust::cpu::Cpu;
use nintendrust::fault::Fault;
use nintendrust::rom::Rom;

/// A bus whose 32KB program bank holds `program` at 0x8000, with the reset
/// vector pointing at 0x8000 and the break vector at 0x9000.
fn machine(program: &[u8]) -> (Cpu, Bus) {
    let mut bytes = vec![0x4E, 0x45, 0x53, 0x1A, 2, 0, 0, 0, 0, 0, 0, 0, 0, 0, 0, 0];
    let mut prg = vec![0u8; 32768];
    prg[..program.len()].copy_from_slice(program);
    prg[0x7FFC] = 0x00;
    prg[0x7FFD] = 0x80;
    prg[0x7FFE] = 0x00;
    prg[0x7FFF] = 0x90;
    bytes.extend(prg);
    let bus = Bus::new(Rom::new(&bytes).unwrap());
    let mut cpu = Cpu::new();
    cpu.reset(&bus).unwrap();
    (cpu, bus)
}

#[test]
fn end_to_end_store_load_increment_break() {
    // LDA #$05; STA $10; LDX $10; INX; BRK
    let (mut cpu, mut bus) = machine(&[0xA9, 0x05, 0x85, 0x10, 0xA6, 0x10, 0xE8, 0x00]);
    assert_eq!(cpu.program_counter, 0x8000);
    for _ in 0..4 {
        cpu.emulate_cpu(&mut bus).unwrap();
    }
    assert_eq!(cpu.x, 6);
    assert!(!cpu.flag_zero);
    assert!(!cpu.flag_negative);
    let cycles = cpu.emulate_cpu(&mut bus).unwrap();
    assert_eq!(cycles, 7);
    assert_eq!(cpu.program_counter, 0x9000);
    assert!(cpu.flag_interrupt_disable);
}

#[test]
fn pc_advances_by_instruction_length() {
    // NOP; LDA #$01; LDA $1234
    let (mut cpu, mut bus) = machine(&[0xEA, 0xA9, 0x01, 0xAD, 0x34, 0x12]);
    assert_eq!(cpu.emulate_cpu(&mut bus).unwrap(), 2);
    assert_eq!(cpu.program_counter, 0x8001);
    assert_eq!(cpu.emulate_cpu(&mut bus).unwrap(), 2);
    assert_eq!(cpu.program_counter, 0x8003);
    assert_eq!(cpu.emulate_cpu(&mut bus).unwrap(), 4);
    assert_eq!(cpu.program_counter, 0x8006);
}

#[test]
fn instruction_length_table() {
    let cpu = Cpu::new();
    assert_eq!(cpu.get_operand_mode(0xEA), 1);
    assert_eq!(cpu.get_operand_mode(0x0A), 1);
    assert_eq!(cpu.get_operand_mode(0xA9), 2);
    assert_eq!(cpu.get_operand_mode(0xD0), 2);
    assert_eq!(cpu.get_operand_mode(0x4C), 3);
    assert_eq!(cpu.get_operand_mode(0x6C), 3);
    assert_eq!(cpu.get_operand_mode(0x02), 1);
    // An undecodable byte counts as one byte.
    assert_eq!(cpu.get_operand_mode(0xFF), 1);
}

#[test]
fn php_plp_restores_the_six_flags() {
    // PHP; CLC; CLV; PLP
    let (mut cpu, mut bus) = machine(&[0x08, 0x18, 0xB8, 0x28]);
    cpu.flag_carry = true;
    cpu.flag_zero = false;
    cpu.flag_interrupt_disable = true;
    cpu.flag_decimal = true;
    cpu.flag_overflow = true;
    cpu.flag_negative = false;
    let sp_before = cpu.stack_pointer;
    for _ in 0..4 {
        cpu.emulate_cpu(&mut bus).unwrap();
    }
    assert!(cpu.flag_carry);
    assert!(!cpu.flag_zero);
    assert!(cpu.flag_interrupt_disable);
    assert!(cpu.flag_decimal);
    assert!(cpu.flag_overflow);
    assert!(!cpu.flag_negative);
    assert_eq!(cpu.stack_pointer, sp_before);
}

#[test]
fn balanced_pushes_and_pulls_restore_sp() {
    // PHA; PHA; PLA; PLA
    let (mut cpu, mut bus) = machine(&[0x48, 0x48, 0x68, 0x68]);
    let sp_before = cpu.stack_pointer;
    cpu.a = 0x11;
    cpu.emulate_cpu(&mut bus).unwrap();
    assert_eq!(cpu.stack_pointer, sp_before.wrapping_sub(1));
    cpu.a = 0x22;
    cpu.emulate_cpu(&mut bus).unwrap();
    cpu.emulate_cpu(&mut bus).unwrap();
    assert_eq!(cpu.a, 0x22);
    cpu.emulate_cpu(&mut bus).unwrap();
    assert_eq!(cpu.a, 0x11);
    assert_eq!(cpu.stack_pointer, sp_before);
}

#[test]
fn stack_pointer_wraps_modulo_256() {
    // PHA; PLA
    let (mut cpu, mut bus) = machine(&[0x48, 0x68]);
    cpu.stack_pointer = 0x00;
    cpu.emulate_cpu(&mut bus).unwrap();
    assert_eq!(cpu.stack_pointer, 0xFF);
    cpu.emulate_cpu(&mut bus).unwrap();
    assert_eq!(cpu.stack_pointer, 0x00);
}

#[test]
fn adc_and_sbc_match_the_truth_table_exhaustively() {
    let (mut cpu, mut bus) = machine(&[]);
    for a in 0..=255u16 {
        for b in 0..=255u16 {
            for carry in 0..=1u16 {
                // ADC immediate, run from RAM.
                bus.ram[0] = 0x69;
                bus.ram[1] = b as u8;
                cpu.program_counter = 0;
                cpu.a = a as u8;
                cpu.flag_carry = carry == 1;
                cpu.emulate_cpu(&mut bus).unwrap();
                let sum = a + b + carry;
                let result = (sum % 256) as u8;
                let signed = (a as u8 as i8 as i16) + (b as u8 as i8 as i16) + carry as i16;
                assert_eq!(cpu.a, result);
                assert_eq!(cpu.flag_carry, sum > 0xFF, "adc carry {} {} {}", a, b, carry);
                assert_eq!(cpu.flag_zero, result == 0);
                assert_eq!(cpu.flag_negative, result >= 0x80);
                assert_eq!(
                    cpu.flag_overflow,
                    signed < -128 || signed > 127,
                    "adc overflow {} {} {}",
                    a,
                    b,
                    carry
                );

                // SBC immediate.
                bus.ram[0] = 0xE9;
                cpu.program_counter = 0;
                cpu.a = a as u8;
                cpu.flag_carry = carry == 1;
                cpu.emulate_cpu(&mut bus).unwrap();
                let borrow = 1 - carry as i32;
                let diff = a as i32 - b as i32 - borrow;
                let result = (diff.rem_euclid(256)) as u8;
                let signed = (a as u8 as i8 as i16) - (b as u8 as i8 as i16) - borrow as i16;
                assert_eq!(cpu.a, result);
                assert_eq!(cpu.flag_carry, diff >= 0, "sbc carry {} {} {}", a, b, carry);
                assert_eq!(cpu.flag_zero, result == 0);
                assert_eq!(cpu.flag_negative, result >= 0x80);
                assert_eq!(
                    cpu.flag_overflow,
                    signed < -128 || signed > 127,
                    "sbc overflow {} {} {}",
                    a,
                    b,
                    carry
                );
            }
        }
    }
}

#[test]
fn branch_timing_untaken_taken_page_cross() {
    let (mut cpu, mut bus) = machine(&[]);
    // Untaken: BNE with the zero flag set costs 2 cycles.
    bus.ram[0x10] = 0xD0;
    bus.ram[0x11] = 0x20;
    cpu.program_counter = 0x10;
    cpu.flag_zero = true;
    assert_eq!(cpu.emulate_cpu(&mut bus).unwrap(), 2);
    assert_eq!(cpu.program_counter, 0x12);
    // Taken within the page: 3 cycles.
    cpu.program_counter = 0x10;
    cpu.flag_zero = false;
    assert_eq!(cpu.emulate_cpu(&mut bus).unwrap(), 3);
    assert_eq!(cpu.program_counter, 0x32);
    // Taken across a page: 4 cycles.
    bus.ram[0xF0] = 0xD0;
    bus.ram[0xF1] = 0x20;
    cpu.program_counter = 0xF0;
    assert_eq!(cpu.emulate_cpu(&mut bus).unwrap(), 4);
    assert_eq!(cpu.program_counter, 0x112);
    // Taken backwards.
    bus.ram[0x40] = 0xD0;
    bus.ram[0x41] = 0xF0;
    cpu.program_counter = 0x40;
    assert_eq!(cpu.emulate_cpu(&mut bus).unwrap(), 3);
    assert_eq!(cpu.program_counter, 0x32);
}

#[test]
fn jmp_indirect_reproduces_page_wrap_quirk() {
    let (mut cpu, mut bus) = machine(&[]);
    bus.ram[0] = 0x6C;
    bus.ram[1] = 0xFF;
    bus.ram[2] = 0x02;
    bus.ram[0x02FF] = 0x34;
    bus.ram[0x0200] = 0x12;
    bus.ram[0x0300] = 0x99;
    cpu.program_counter = 0;
    assert_eq!(cpu.emulate_cpu(&mut bus).unwrap(), 5);
    assert_eq!(cpu.program_counter, 0x1234);
}

#[test]
fn zero_page_indexing_wraps_in_page_zero() {
    let (mut cpu, mut bus) = machine(&[]);
    // LDA $FF,X with X = 1 reads 0x0000, not 0x0100.
    bus.ram[0x200] = 0xB5;
    bus.ram[0x201] = 0xFF;
    bus.ram[0x0000] = 0x77;
    bus.ram[0x0100] = 0x55;
    cpu.program_counter = 0x200;
    cpu.x = 1;
    assert_eq!(cpu.emulate_cpu(&mut bus).unwrap(), 4);
    assert_eq!(cpu.a, 0x77);
}

#[test]
fn indirect_post_indexed_adds_y_after_dereference() {
    let (mut cpu, mut bus) = machine(&[]);
    // LDA ($40),Y with Y = 2.
    bus.ram[0x200] = 0xB1;
    bus.ram[0x201] = 0x40;
    bus.ram[0x40] = 0x00;
    bus.ram[0x41] = 0x03;
    bus.ram[0x302] = 0x66;
    cpu.program_counter = 0x200;
    cpu.y = 2;
    assert_eq!(cpu.emulate_cpu(&mut bus).unwrap(), 5);
    assert_eq!(cpu.a, 0x66);
}

#[test]
fn shift_in_memory_sets_carry_from_bit_seven() {
    let (mut cpu, mut bus) = machine(&[]);
    // ASL $10 on 0x81: result 0x02, carry set.
    bus.ram[0x200] = 0x06;
    bus.ram[0x201] = 0x10;
    bus.ram[0x10] = 0x81;
    cpu.program_counter = 0x200;
    assert_eq!(cpu.emulate_cpu(&mut bus).unwrap(), 5);
    assert_eq!(bus.ram[0x10], 0x02);
    assert!(cpu.flag_carry);
    assert!(!cpu.flag_zero);
    assert!(!cpu.flag_negative);
}

#[test]
fn compare_sets_borrow_and_sign_flags() {
    let (mut cpu, mut bus) = machine(&[0xC9, 0x20]);
    cpu.a = 0x10;
    cpu.emulate_cpu(&mut bus).unwrap();
    assert!(!cpu.flag_carry);
    assert!(!cpu.flag_zero);
    assert!(cpu.flag_negative);
}

#[test]
fn illegal_opcode_is_a_typed_fault_without_effect() {
    let (mut cpu, mut bus) = machine(&[]);
    bus.ram[0x30] = 0xFF;
    cpu.program_counter = 0x30;
    cpu.a = 0x42;
    let before = cpu;
    assert_eq!(cpu.emulate_cpu(&mut bus), Err(Fault::IllegalOpcode(0xFF)));
    assert_eq!(cpu, before);
    assert_eq!(bus.ram[0x30], 0xFF);
}

#[test]
fn unmapped_data_access_is_a_typed_fault_without_effect() {
    // LDA $4020 touches the gap between the stub and program ROM.
    let (mut cpu, mut bus) = machine(&[0xAD, 0x20, 0x40]);
    let before = cpu;
    assert_eq!(cpu.emulate_cpu(&mut bus), Err(Fault::UnmappedAccess(0x4020)));
    assert_eq!(cpu, before);
}

#[test]
fn halt_opcode_latches_halted() {
    let (mut cpu, mut bus) = machine(&[]);
    bus.ram[0] = 0x02;
    cpu.program_counter = 0;
    assert!(!cpu.halted);
    assert_eq!(cpu.emulate_cpu(&mut bus).unwrap(), 0);
    assert!(cpu.halted);
    assert_eq!(cpu.program_counter, 1);
}

#[test]
fn jsr_and_rts_round_trip() {
    // JSR $8010; ...; target: RTS
    let mut program = vec![0u8; 0x20];
    program[0] = 0x20;
    program[1] = 0x10;
    program[2] = 0x80;
    program[0x10] = 0x60;
    let (mut cpu, mut bus) = machine(&program);
    let sp_before = cpu.stack_pointer;
    assert_eq!(cpu.emulate_cpu(&mut bus).unwrap(), 6);
    assert_eq!(cpu.program_counter, 0x8010);
    assert_eq!(cpu.emulate_cpu(&mut bus).unwrap(), 6);
    assert_eq!(cpu.program_counter, 0x8003);
    assert_eq!(cpu.stack_pointer, sp_before);
}

#[test]
fn reset_faults_when_the_vector_is_unreachable() {
    // A single 16KB bank leaves the vectors out of range.
    let mut bytes = vec![0x4E, 0x45, 0x53, 0x1A, 1, 0, 0, 0, 0, 0, 0, 0, 0, 0, 0, 0];
    bytes.extend(vec![0u8; 16384]);
    let bus = Bus::new(Rom::new(&bytes).unwrap());
    let mut cpu = Cpu::new();
    assert_eq!(cpu.reset(&bus), Err(Fault::OutOfBoundsRom(0xFFFC)));
    assert_eq!(cpu.program_counter, 0);
}

#[test]
fn trace_formats_the_fixed_width_line() {
    let (cpu, bus) = machine(&[0xA9, 0x05]);
    let line = cpu.trace(&bus).unwrap();
    assert_eq!(line, "8000  A9 05     LDA A:00 X:00 Y:00 P:34 SP:FD");
}

#[test]
fn trace_shows_placeholder_for_undecodable_bytes() {
    let (mut cpu, mut bus) = machine(&[]);
    bus.ram[0x40] = 0xFF;
    cpu.program_counter = 0x40;
    let line = cpu.trace(&bus).unwrap();
    assert_eq!(line, "0040  FF        ??? A:00 X:00 Y:00 P:34 SP:FD");
}

#[test]
fn rotate_accumulator_through_carry() {
    // ROL A then ROR A with the carry threading through.
    let (mut cpu, mut bus) = machine(&[0x2A, 0x6A]);
    cpu.a = 0x81;
    cpu.flag_carry = false;
    cpu.emulate_cpu(&mut bus).unwrap();
    assert_eq!(cpu.a, 0x02);
    assert!(cpu.flag_carry);
    cpu.emulate_cpu(&mut bus).unwrap();
    assert_eq!(cpu.a, 0x81);
    assert!(!cpu.flag_carry);
}

#[test]
fn rti_restores_status_and_return_address() {
    // BRK pushes the padded return address and the status, RTI undoes it.
    let (mut cpu, mut bus) = machine(&[0x00]);
    // The break handler at 0x9000 returns immediately.
    bus.rom.prg_rom[0x1000] = 0x40;
    cpu.flag_carry = true;
    cpu.flag_negative = true;
    let sp_before = cpu.stack_pointer;
    cpu.emulate_cpu(&mut bus).unwrap();
    assert_eq!(cpu.program_counter, 0x9000);
    cpu.flag_carry = false;
    cpu.flag_negative = false;
    assert_eq!(cpu.emulate_cpu(&mut bus).unwrap(), 6);
    // RTI returns to the byte after the break's padding byte.
    assert_eq!(cpu.program_counter, 0x8002);
    assert!(cpu.flag_carry);
    assert!(cpu.flag_negative);
    assert_eq!(cpu.stack_pointer, sp_before);
}

#[test]
fn store_reaches_the_ppu_address_latch() {
    // LDA #$21; STA $2006; LDA #$08; STA $2006
    let (mut cpu, mut bus) = machine(&[0xA9, 0x21, 0x8D, 0x06, 0x20, 0xA9, 0x08, 0x8D, 0x06, 0x20]);
    for _ in 0..4 {
        cpu.emulate_cpu(&mut bus).unwrap();
    }
    assert_eq!(bus.ppu.vram_address, 0x2108);
}

#[test]
fn increment_memory_wraps_modulo_256() {
    // INC $10 twice starting from 0xFF.
    let (mut cpu, mut bus) = machine(&[0xE6, 0x10, 0xE6, 0x10]);
    bus.ram[0x10] = 0xFF;
    cpu.emulate_cpu(&mut bus).unwrap();
    assert_eq!(bus.ram[0x10], 0x00);
    assert!(cpu.flag_zero);
    cpu.emulate_cpu(&mut bus).unwrap();
    assert_eq!(bus.ram[0x10], 0x01);
    assert!(!cpu.flag_zero);
}

#[test]
fn bit_test_reports_bits_six_and_seven() {
    // BIT $10 with a masked-out accumulator.
    let (mut cpu, mut bus) = machine(&[0x24, 0x10]);
    bus.ram[0x10] = 0xC0;
    cpu.a = 0x0F;
    cpu.emulate_cpu(&mut bus).unwrap();
    assert!(cpu.flag_zero);
    assert!(cpu.flag_negative);
    assert!(cpu.flag_overflow);
}

#[test]
fn signed_overflow_on_like_signs() {
    // 0x50 + 0x50 overflows into the negative range.
    let (mut cpu, mut bus) = machine(&[0x69, 0x50]);
    cpu.a = 0x50;
    cpu.emulate_cpu(&mut bus).unwrap();
    assert_eq!(cpu.a, 0xA0);
    assert!(cpu.flag_overflow);
    assert!(!cpu.flag_carry);
    assert!(cpu.flag_negative);
}
