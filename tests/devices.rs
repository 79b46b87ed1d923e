use c64core::cia1::{Cia1, Effect};
use c64core::machine::{Machine, MemoryRegion};
use c64core::memory::{Bus, ReadView, WriteView};
use c64core::mos6510::{Mos6510, Op};
use c64core::vic_ii::{palette_color, VicII};

#[test]
fn cia_underflow_raises_irq_and_cpu_takes_it() {
    let mut bus = Bus::new();
    bus.write(0xDC04, 0x02);
    bus.write(0xDC05, 0x00);
    bus.write(0xDC0D, 0x81);
    bus.write(0xDC0E, 0x01);
    for _ in 0..3 {
        bus.cia.tick();
    }
    assert_ne!(bus.cia.interrupt_status & 0x01, 0);
    assert!(bus.cia.irq_asserted());
    bus.ram[0xFFFE] = 0x00;
    bus.ram[0xFFFF] = 0xC0;
    let mut cpu = Mos6510::new();
    cpu.program_counter = 0x0810;
    cpu.stack_pointer = 0xFF;
    let irq = bus.cia.irq_asserted();
    cpu.tick(&mut bus, irq).unwrap();
    assert_eq!(cpu.program_counter, 0xC000);
    assert_eq!(bus.ram[0x01FF], 0x08);
    assert_eq!(bus.ram[0x01FE], 0x10);
    assert_eq!(cpu.stack_pointer, 0xFC);
}

#[test]
fn cia_status_read_clears_it() {
    let mut bus = Bus::new();
    bus.write(0xDC04, 0x01);
    bus.write(0xDC0D, 0x81);
    bus.write(0xDC0E, 0x11);
    assert_eq!(bus.cia.timer_a, 1);
    assert_eq!(bus.cia.tick(), None);
    assert_eq!(bus.cia.tick(), Some(Effect::IRQ));
    assert_eq!(bus.read(0xDC0D), 0x01);
    assert_eq!(bus.read(0xDC0D), 0x00);
    assert!(!bus.cia.irq_asserted());
    assert_eq!(bus.read(0xDC04), 0x01);
}

#[test]
fn cia_reload_after_latch_plus_one_ticks() {
    for mask in [0x00u8, 0x81u8] {
        let mut cia = Cia1::new();
        cia.write(0xDC04, 0x05);
        cia.write(0xDC05, 0x00);
        cia.write(0xDC0D, mask);
        cia.write(0xDC0E, 0x11);
        for _ in 0..6 {
            cia.tick();
        }
        assert_eq!(cia.interrupt_status & 0x01, 0x01);
        assert_eq!(cia.timer_a, 5);
        assert_eq!(cia.irq, mask != 0);
    }
}

#[test]
fn cia_one_shot_stops() {
    let mut cia = Cia1::new();
    cia.write(0xDC04, 0x01);
    cia.write(0xDC0E, 0x19);
    cia.tick();
    cia.tick();
    assert_eq!(cia.control_a & 0x01, 0);
    assert_eq!(cia.timer_a, 0xFFFF);
    assert_eq!(cia.read(0xDC0E), 0x08);
    assert_eq!(cia.interrupt_status, 0x01);
    assert!(!cia.irq);
}

#[test]
fn cia_stopped_timer_holds() {
    let mut cia = Cia1::new();
    cia.write(0xDC04, 0x07);
    cia.write(0xDC0E, 0x10);
    assert_eq!(cia.tick(), None);
    assert_eq!(cia.timer_a, 7);
    assert_eq!(cia.read(0xDC05), 0);
    assert_eq!(cia.read(0xDC00), 0);
}

#[test]
fn cia_mask_clear_direction() {
    let mut cia = Cia1::new();
    cia.write(0xDC0D, 0x83);
    assert_eq!(cia.interrupt_mask, 0x03);
    cia.write(0xDC0D, 0x01);
    assert_eq!(cia.interrupt_mask, 0x02);
}

fn run_vic(vic: &mut VicII, bus: &Bus, ticks: usize) {
    for _ in 0..ticks {
        vic.tick(bus);
    }
}

#[test]
fn vic_paints_border_color() {
    let mut bus = Bus::new();
    let mut vic = VicII::new();
    bus.write(0xD020, 0x06);
    run_vic(&mut vic, &bus, 9 * 63 + 13);
    assert_eq!(vic.get_raster_position(), (9, 104));
    assert_eq!(vic.pixel(100, 9), 6);
    assert_eq!(palette_color(vic.pixel(100, 9)), (0x2e, 0x2c, 0x9b));
    assert_eq!(vic.pixel(0, 9), 0);
}

#[test]
fn vic_raster_returns_to_origin() {
    let bus = Bus::new();
    let mut vic = VicII::new();
    run_vic(&mut vic, &bus, 19656);
    assert_eq!(vic.get_raster_position(), (0, 0));
    run_vic(&mut vic, &bus, 157248 - 19656);
    assert_eq!(vic.get_raster_position(), (0, 0));
    run_vic(&mut vic, &bus, 63);
    assert_eq!(vic.get_raster_position(), (1, 0));
}

#[test]
fn vic_paints_character_from_screen_matrix() {
    let mut bus = Bus::new();
    let mut vic = VicII::new();
    bus.write(0xDD00, 0x03);
    bus.ram[0x0400] = 0x01;
    bus.char_rom[8] = 0b1010_0001;
    run_vic(&mut vic, &bus, 51 * 63 + 13);
    for (i, expected) in [1u8, 0, 1, 0, 0, 0, 0, 1].iter().enumerate() {
        assert_eq!(vic.pixel(96 + i as u16, 51), *expected);
    }
}

#[test]
fn bank_switch_and_char_rom_overlay() {
    let mut bus = Bus::new();
    bus.char_rom[0] = 0x3C;
    bus.ram[0x1000] = 0x11;
    bus.ram[0x5000] = 0x22;
    bus.write(0xDD00, 0x03);
    assert_eq!(bus.vic_bank_start, 0x0000);
    assert!(bus.char_rom_enabled);
    assert_eq!(bus.vic_read(0x1000), 0x3C);
    bus.write(0xDD00, 0x02);
    assert_eq!(bus.vic_bank_start, 0x4000);
    assert!(!bus.char_rom_enabled);
    assert_eq!(bus.vic_read(0x1000), 0x22);
    bus.write(0xDD00, 0x00);
    assert_eq!(bus.vic_bank_start, 0xC000);
}

#[test]
fn bus_write_then_read_by_region() {
    let mut bus = Bus::new();
    for addr in [0x0002u16, 0x9FFF, 0xC000, 0xD400, 0xD800, 0xDBFF, 0xDD01, 0xDFFF] {
        bus.write(addr, 0x5A);
        assert_eq!(bus.read(addr), 0x5A);
    }
    bus.ram[0xA000] = 0x77;
    bus.write(0xA000, 0x5A);
    assert_eq!(bus.read(0xA000), 0x77);
    bus.write(0xE123, 0x5A);
    assert_eq!(bus.read(0xE123), 0x00);
    bus.write(0xDC0E, 0x10);
    assert_ne!(bus.read(0xDC0E), 0x10);
    bus.write(0xD020, 0x0E);
    assert_eq!(bus.read(0xD020), 0x0E);
    assert_eq!(bus.read(0xD060), 0x0E);
    bus.write(0xD030, 0x12);
    assert_eq!(bus.read(0xD030), 0x00);
}

#[test]
fn machine_boots_from_rom_and_runs() {
    let mut machine = Machine::new();
    let mut kernal = vec![0u8; 0x2000];
    kernal[0] = 0xA9;
    kernal[1] = 0x07;
    kernal[2] = 0x8D;
    kernal[3] = 0x20;
    kernal[4] = 0xD0;
    kernal[0x1FFC] = 0x00;
    kernal[0x1FFD] = 0xE0;
    machine.load(MemoryRegion::Rom, 0xE000, &kernal);
    machine.load(MemoryRegion::CharRom, 0, &[0xFF; 5000]);
    assert_eq!(machine.bus.char_rom[4095], 0xFF);
    machine.reset();
    assert_eq!(machine.mos6510.get_pc(), 0xE000);
    let first = machine.tick().unwrap();
    assert_eq!(first.0.map(|i| i.op), Some(Op::Lda));
    let mut effects = Vec::new();
    for _ in 0..5 {
        if let (_, Some(e)) = machine.tick().unwrap() {
            effects.push(e);
        }
    }
    assert_eq!(effects.len(), 1);
    assert_eq!(machine.inspect(0xD020), 0x07);
    assert_eq!(machine.vic.get_raster_position(), (0, 48));
}

#[test]
fn machine_rom_load_truncates() {
    let mut machine = Machine::new();
    machine.load(MemoryRegion::Rom, 0xFFFE, &[1, 2, 3, 4]);
    assert_eq!(machine.bus.ram[0xFFFE], 1);
    assert_eq!(machine.bus.ram[0xFFFF], 2);
    assert_eq!(machine.bus.ram[0x0000], 0);
}

#[test]
fn machine_delivers_timer_interrupt() {
    let mut machine = Machine::new();
    let mut program = vec![0xE8u8; 0x10];
    program[0] = 0x58;
    machine.load(MemoryRegion::Rom, 0x0800, &program);
    machine.load(MemoryRegion::Rom, 0xFFFE, &[0x00, 0xC0]);
    machine.bus.write(0xDC04, 0x04);
    machine.bus.write(0xDC05, 0x00);
    machine.bus.write(0xDC0D, 0x81);
    machine.bus.write(0xDC0E, 0x11);
    machine.mos6510.program_counter = 0x0800;
    machine.mos6510.stack_pointer = 0xFF;
    machine.mos6510.status.interrupt_disable_flag = true;
    for _ in 0..5 {
        machine.tick().unwrap();
    }
    assert!(machine.bus.cia.irq_asserted());
    assert_eq!(machine.mos6510.program_counter, 0xC000);
    assert!(machine.mos6510.status.interrupt_disable_flag);
    assert_eq!(machine.bus.ram[0x01FF], 0x08);
    assert_eq!(machine.inspect(0xDC0D), 0x01);
    assert!(!machine.bus.cia.irq_asserted());
}
