use c64core::memory::{Bus, ReadView, WriteView};
use c64core::mos6510::{CpuError, Effect, Mode, Mos6510, Op};

fn load(bus: &mut Bus, addr: usize, bytes: &[u8]) {
    for (i, b) in bytes.iter().enumerate() {
        bus.ram[addr + i] = *b;
    }
}

#[test]
fn lda_immediate_then_sta_zero_page() {
    let mut bus = Bus::new();
    let mut cpu = Mos6510::new();
    load(&mut bus, 0x8000, &[0xA9, 0x42, 0x85, 0x10, 0x00]);
    cpu.program_counter = 0x8000;
    let mut cycles: i32 = 0;
    let (first, effect) = cpu.run_instruction(&mut bus).unwrap();
    assert_eq!(first.op, Op::Lda);
    assert_eq!(first.mode, Mode::Immediate);
    assert_eq!(first.operand, 0x42);
    assert_eq!(effect, None);
    cycles += cpu.wait_cycles as i32;
    let (second, effect) = cpu.run_instruction(&mut bus).unwrap();
    assert_eq!(second.op, Op::Sta);
    assert_eq!(effect, Some(Effect::WriteMem { addr: 0x10, value: 0x42 }));
    cycles += cpu.wait_cycles as i32;
    assert_eq!(cpu.accumulator, 0x42);
    assert_eq!(bus.ram[0x10], 0x42);
    assert!(!cpu.status.zero_flag);
    assert!(!cpu.status.negative_flag);
    assert_eq!(cpu.program_counter, 0x8004);
    assert_eq!(cycles, 5);
}

#[test]
fn taken_branch_crossing_a_page() {
    let mut bus = Bus::new();
    let mut cpu = Mos6510::new();
    load(&mut bus, 0x80FD, &[0xD0, 0x05]);
    cpu.program_counter = 0x80FD;
    cpu.status.zero_flag = false;
    let (i, _) = cpu.run_instruction(&mut bus).unwrap();
    assert_eq!(i.op, Op::Bne);
    assert_eq!(i.operand, 0x8104);
    assert_eq!(cpu.program_counter, 0x8104);
    assert_eq!(cpu.wait_cycles, 4);
}

#[test]
fn branch_not_taken() {
    let mut bus = Bus::new();
    let mut cpu = Mos6510::new();
    load(&mut bus, 0x80FD, &[0xD0, 0x05]);
    cpu.program_counter = 0x80FD;
    cpu.status.zero_flag = true;
    cpu.run_instruction(&mut bus).unwrap();
    assert_eq!(cpu.program_counter, 0x80FF);
    assert_eq!(cpu.wait_cycles, 2);
}

#[test]
fn taken_branch_within_page_and_backwards() {
    let mut bus = Bus::new();
    let mut cpu = Mos6510::new();
    load(&mut bus, 0x8010, &[0xF0, 0xFC]);
    cpu.program_counter = 0x8010;
    cpu.status.zero_flag = true;
    cpu.run_instruction(&mut bus).unwrap();
    assert_eq!(cpu.program_counter, 0x800E);
    assert_eq!(cpu.wait_cycles, 3);
}

#[test]
fn adc_signed_overflow() {
    let mut bus = Bus::new();
    let mut cpu = Mos6510::new();
    load(&mut bus, 0x8000, &[0x69, 0x50]);
    cpu.program_counter = 0x8000;
    cpu.accumulator = 0x50;
    cpu.status.carry_flag = false;
    cpu.run_instruction(&mut bus).unwrap();
    assert_eq!(cpu.accumulator, 0xA0);
    assert!(cpu.status.negative_flag);
    assert!(cpu.status.overflow_flag);
    assert!(!cpu.status.carry_flag);
    assert!(!cpu.status.zero_flag);
    assert_eq!(cpu.wait_cycles, 2);
}

#[test]
fn adc_carry_out_of_negative_operands() {
    let mut bus = Bus::new();
    let mut cpu = Mos6510::new();
    load(&mut bus, 0x8000, &[0x69, 0x90]);
    cpu.program_counter = 0x8000;
    cpu.accumulator = 0x90;
    cpu.status.carry_flag = true;
    cpu.run_instruction(&mut bus).unwrap();
    assert_eq!(cpu.accumulator, 0x21);
    assert!(cpu.status.carry_flag);
    assert!(cpu.status.overflow_flag);
    assert!(!cpu.status.negative_flag);
}

#[test]
fn sbc_with_and_without_overflow() {
    let mut bus = Bus::new();
    let mut cpu = Mos6510::new();
    load(&mut bus, 0x8000, &[0xE9, 0xB0, 0xE9, 0x10]);
    cpu.program_counter = 0x8000;
    cpu.accumulator = 0x50;
    cpu.status.carry_flag = true;
    cpu.run_instruction(&mut bus).unwrap();
    assert_eq!(cpu.accumulator, 0xA0);
    assert!(cpu.status.overflow_flag);
    assert!(!cpu.status.carry_flag);
    assert!(cpu.status.negative_flag);
    cpu.run_instruction(&mut bus).unwrap();
    assert_eq!(cpu.accumulator, 0x8F);
    assert!(!cpu.status.overflow_flag);
    assert!(cpu.status.carry_flag);
}

#[test]
fn load_flags_follow_result_byte() {
    let mut bus = Bus::new();
    let mut cpu = Mos6510::new();
    load(&mut bus, 0x8000, &[0xA9, 0x00, 0xA2, 0x80, 0xA0, 0x7F]);
    cpu.program_counter = 0x8000;
    cpu.run_instruction(&mut bus).unwrap();
    assert!(cpu.status.zero_flag);
    assert!(!cpu.status.negative_flag);
    cpu.run_instruction(&mut bus).unwrap();
    assert_eq!(cpu.index_x, 0x80);
    assert!(!cpu.status.zero_flag);
    assert!(cpu.status.negative_flag);
    cpu.run_instruction(&mut bus).unwrap();
    assert_eq!(cpu.index_y, 0x7F);
    assert!(!cpu.status.zero_flag);
    assert!(!cpu.status.negative_flag);
}

#[test]
fn indexed_load_page_cross_costs_a_cycle() {
    let mut bus = Bus::new();
    let mut cpu = Mos6510::new();
    load(&mut bus, 0x8000, &[0xBD, 0xFF, 0x80, 0xBD, 0x00, 0x81]);
    bus.ram[0x8100] = 0x33;
    bus.ram[0x8101] = 0x44;
    cpu.program_counter = 0x8000;
    cpu.index_x = 1;
    cpu.run_instruction(&mut bus).unwrap();
    assert_eq!(cpu.accumulator, 0x33);
    assert_eq!(cpu.wait_cycles, 5);
    cpu.run_instruction(&mut bus).unwrap();
    assert_eq!(cpu.accumulator, 0x44);
    assert_eq!(cpu.wait_cycles, 4);
}

#[test]
fn indirect_indexed_load_and_store() {
    let mut bus = Bus::new();
    let mut cpu = Mos6510::new();
    load(&mut bus, 0x8000, &[0xB1, 0x20, 0x91, 0x22]);
    bus.ram[0x20] = 0xF0;
    bus.ram[0x21] = 0x40;
    bus.ram[0x22] = 0x00;
    bus.ram[0x23] = 0x50;
    bus.ram[0x4110] = 0x99;
    cpu.program_counter = 0x8000;
    cpu.index_y = 0x20;
    let (i, _) = cpu.run_instruction(&mut bus).unwrap();
    assert_eq!(i.operand, 0x20);
    assert_eq!(cpu.accumulator, 0x99);
    assert_eq!(cpu.wait_cycles, 6);
    let (_, effect) = cpu.run_instruction(&mut bus).unwrap();
    assert_eq!(effect, Some(Effect::WriteMem { addr: 0x5020, value: 0x99 }));
    assert_eq!(bus.ram[0x5020], 0x99);
    assert_eq!(cpu.wait_cycles, 6);
}

#[test]
fn push_and_pull_restore_stack_pointer() {
    let mut bus = Bus::new();
    let mut cpu = Mos6510::new();
    load(&mut bus, 0x8000, &[0x48, 0x08, 0xA9, 0x00, 0x28, 0x68]);
    bus.ram[0x01F0] = 0xEE;
    cpu.program_counter = 0x8000;
    cpu.stack_pointer = 0xF2;
    cpu.accumulator = 0x81;
    cpu.status.carry_flag = true;
    cpu.run_instruction(&mut bus).unwrap();
    cpu.run_instruction(&mut bus).unwrap();
    assert_eq!(cpu.stack_pointer, 0xF0);
    assert_eq!(bus.ram[0x01F2], 0x81);
    assert_eq!(bus.ram[0x01F1], 0x01);
    cpu.run_instruction(&mut bus).unwrap();
    assert!(cpu.status.zero_flag);
    cpu.run_instruction(&mut bus).unwrap();
    assert!(cpu.status.carry_flag);
    assert!(!cpu.status.zero_flag);
    cpu.run_instruction(&mut bus).unwrap();
    assert_eq!(cpu.accumulator, 0x81);
    assert!(cpu.status.negative_flag);
    assert_eq!(cpu.stack_pointer, 0xF2);
    assert_eq!(bus.ram[0x01F0], 0xEE);
}

#[test]
fn jsr_then_rts_returns_after_call() {
    let mut bus = Bus::new();
    let mut cpu = Mos6510::new();
    load(&mut bus, 0x8000, &[0x20, 0x00, 0x90]);
    load(&mut bus, 0x9000, &[0xE8, 0x60]);
    cpu.program_counter = 0x8000;
    cpu.stack_pointer = 0xFF;
    let (i, _) = cpu.run_instruction(&mut bus).unwrap();
    assert_eq!(i.op, Op::Jsr);
    assert_eq!(cpu.program_counter, 0x9000);
    assert_eq!(cpu.stack_pointer, 0xFD);
    assert_eq!(bus.ram[0x01FF], 0x80);
    assert_eq!(bus.ram[0x01FE], 0x02);
    assert_eq!(cpu.wait_cycles, 6);
    cpu.run_instruction(&mut bus).unwrap();
    cpu.run_instruction(&mut bus).unwrap();
    assert_eq!(cpu.program_counter, 0x8003);
    assert_eq!(cpu.stack_pointer, 0xFF);
    assert_eq!(cpu.index_x, 1);
}

#[test]
fn jmp_indirect_and_rti() {
    let mut bus = Bus::new();
    let mut cpu = Mos6510::new();
    load(&mut bus, 0x8000, &[0x6C, 0x00, 0x30]);
    load(&mut bus, 0x3000, &[0x34, 0x12]);
    load(&mut bus, 0x1234, &[0x40]);
    load(&mut bus, 0x01FD, &[0x01, 0x78, 0x56]);
    cpu.program_counter = 0x8000;
    cpu.stack_pointer = 0xFC;
    cpu.run_instruction(&mut bus).unwrap();
    assert_eq!(cpu.program_counter, 0x1234);
    assert_eq!(cpu.wait_cycles, 5);
    cpu.run_instruction(&mut bus).unwrap();
    assert_eq!(cpu.program_counter, 0x5678);
    assert!(cpu.status.carry_flag);
    assert_eq!(cpu.stack_pointer, 0xFF);
}

#[test]
fn shifts_and_rotates_move_carry() {
    let mut bus = Bus::new();
    let mut cpu = Mos6510::new();
    load(&mut bus, 0x8000, &[0x0A, 0x6A, 0x2A, 0x46, 0x40, 0x66, 0x40]);
    bus.ram[0x40] = 0x03;
    cpu.program_counter = 0x8000;
    cpu.accumulator = 0x81;
    cpu.run_instruction(&mut bus).unwrap();
    assert_eq!(cpu.accumulator, 0x02);
    assert!(cpu.status.carry_flag);
    cpu.run_instruction(&mut bus).unwrap();
    assert_eq!(cpu.accumulator, 0x81);
    assert!(!cpu.status.carry_flag);
    cpu.run_instruction(&mut bus).unwrap();
    assert_eq!(cpu.accumulator, 0x02);
    assert!(cpu.status.carry_flag);
    let (_, effect) = cpu.run_instruction(&mut bus).unwrap();
    assert_eq!(effect, Some(Effect::WriteMem { addr: 0x40, value: 0x01 }));
    assert!(cpu.status.carry_flag);
    assert_eq!(cpu.wait_cycles, 5);
    cpu.run_instruction(&mut bus).unwrap();
    assert_eq!(bus.ram[0x40], 0x80);
    assert!(cpu.status.carry_flag);
    assert!(cpu.status.negative_flag);
}

#[test]
fn compare_and_bit_test() {
    let mut bus = Bus::new();
    let mut cpu = Mos6510::new();
    load(&mut bus, 0x8000, &[0xC9, 0x10, 0xE0, 0x20, 0x24, 0x30]);
    bus.ram[0x30] = 0xC0;
    cpu.program_counter = 0x8000;
    cpu.accumulator = 0x10;
    cpu.index_x = 0x10;
    cpu.run_instruction(&mut bus).unwrap();
    assert!(cpu.status.carry_flag);
    assert!(cpu.status.zero_flag);
    cpu.run_instruction(&mut bus).unwrap();
    assert!(!cpu.status.carry_flag);
    assert!(cpu.status.negative_flag);
    cpu.run_instruction(&mut bus).unwrap();
    assert!(cpu.status.zero_flag);
    assert!(cpu.status.negative_flag);
    assert!(cpu.status.overflow_flag);
}

#[test]
fn increments_wrap_around() {
    let mut bus = Bus::new();
    let mut cpu = Mos6510::new();
    load(&mut bus, 0x8000, &[0xE6, 0x50, 0xC6, 0x51, 0xE8, 0x88]);
    bus.ram[0x50] = 0xFF;
    bus.ram[0x51] = 0x00;
    cpu.program_counter = 0x8000;
    cpu.index_x = 0xFF;
    cpu.index_y = 0x00;
    cpu.run_instruction(&mut bus).unwrap();
    assert_eq!(bus.ram[0x50], 0x00);
    assert!(cpu.status.zero_flag);
    cpu.run_instruction(&mut bus).unwrap();
    assert_eq!(bus.ram[0x51], 0xFF);
    assert!(cpu.status.negative_flag);
    cpu.run_instruction(&mut bus).unwrap();
    assert_eq!(cpu.index_x, 0x00);
    cpu.run_instruction(&mut bus).unwrap();
    assert_eq!(cpu.index_y, 0xFF);
}

#[test]
fn unknown_opcode_is_reported() {
    let mut bus = Bus::new();
    let mut cpu = Mos6510::new();
    load(&mut bus, 0x8000, &[0x02]);
    cpu.program_counter = 0x8000;
    let r = cpu.run_instruction(&mut bus);
    assert_eq!(r, Err(CpuError::UnknownOpcode { opcode: 0x02, pc: 0x8000 }));
    assert_eq!(cpu.program_counter, 0x8000);
}

#[test]
fn reset_loads_vector() {
    let mut bus = Bus::new();
    let mut cpu = Mos6510::new();
    bus.ram[0xFFFC] = 0xE2;
    bus.ram[0xFFFD] = 0xFC;
    cpu.wait_cycles = 3;
    cpu.reset(&mut bus);
    assert_eq!(cpu.get_pc(), 0xFCE2);
    assert_eq!(cpu.wait_cycles, 0);
}

#[test]
fn tick_waits_out_cycles() {
    let mut bus = Bus::new();
    let mut cpu = Mos6510::new();
    load(&mut bus, 0x8000, &[0xA9, 0x42, 0x85, 0x10]);
    cpu.program_counter = 0x8000;
    let r = cpu.tick(&mut bus, false).unwrap();
    assert_eq!(r.0.map(|i| i.op), Some(Op::Lda));
    assert_eq!(cpu.tick(&mut bus, false).unwrap(), (None, None));
    let r = cpu.tick(&mut bus, false).unwrap();
    assert_eq!(r.0.map(|i| i.op), Some(Op::Sta));
    assert_eq!(r.1, Some(Effect::WriteMem { addr: 0x10, value: 0x42 }));
}

#[test]
fn irq_entry_pushes_state_and_jumps_to_vector() {
    let mut bus = Bus::new();
    let mut cpu = Mos6510::new();
    bus.ram[0xFFFE] = 0x48;
    bus.ram[0xFFFF] = 0xFF;
    cpu.program_counter = 0x8123;
    cpu.stack_pointer = 0xFF;
    cpu.status.carry_flag = true;
    cpu.status.break_flag = true;
    let r = cpu.tick(&mut bus, true).unwrap();
    assert_eq!(r, (None, None));
    assert_eq!(cpu.program_counter, 0xFF48);
    assert_eq!(bus.ram[0x01FF], 0x81);
    assert_eq!(bus.ram[0x01FE], 0x23);
    assert_eq!(bus.ram[0x01FD], 0x01);
    assert_eq!(cpu.stack_pointer, 0xFC);
    assert!(cpu.status.interrupt_disable_flag);
    assert!(cpu.irq);
}

#[test]
fn irq_ignored_while_disabled() {
    let mut bus = Bus::new();
    let mut cpu = Mos6510::new();
    load(&mut bus, 0x8001, &[0xE8]);
    cpu.program_counter = 0x8001;
    cpu.status.interrupt_disable_flag = true;
    let r = cpu.tick(&mut bus, true).unwrap();
    assert_eq!(r.0.map(|i| i.op), Some(Op::Inx));
    assert_eq!(cpu.program_counter, 0x8002);
}

#[test]
fn bus_view_reads_through_trait() {
    let mut bus = Bus::new();
    bus.write(0x1234, 0x56);
    assert_eq!(bus.read(0x1234), 0x56);
}
