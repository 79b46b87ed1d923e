use vstd::prelude::*;

use crate::cia1;
use crate::cia1::Cia1;
use crate::vic_ii::{register_value, registers_after_write, Registers};

verus! {

/// Bank-switch register of the second interface chip.
pub const BANK_SELECT: u16 = 0xDD00;

/// Reading side of a memory view: the byte an access returns, and the state
/// the view is left in (a read may have side effects).
pub trait ReadView: View {
    spec fn read_value(m: Self::V, addr: u16) -> u8;

    spec fn after_read(m: Self::V, addr: u16) -> Self::V;

    fn read(&mut self, addr: u16) -> (r: u8)
        ensures
            r == Self::read_value(old(self)@, addr),
            final(self)@ == Self::after_read(old(self)@, addr),
    ;
}

/// Writing side of a memory view.
pub trait WriteView: View {
    spec fn after_write(m: Self::V, addr: u16, value: u8) -> Self::V;

    fn write(&mut self, addr: u16, value: u8)
        ensures
            final(self)@ == Self::after_write(old(self)@, addr, value),
    ;
}

/// Mathematical model of the whole address space behind the CPU and the
/// video chip.
pub struct BusModel {
    pub ram: Seq<u8>,
    pub io: Seq<u8>,
    pub color_ram: Seq<u8>,
    pub char_rom: Seq<u8>,
    pub vic_registers: Seq<u8>,
    pub cia: Cia1,
    pub vic_bank_start: u16,
    pub char_rom_enabled: bool,
}

pub open spec fn is_rom(addr: u16) -> bool {
    (0xA000 <= addr < 0xC000) || 0xE000 <= addr
}

pub open spec fn is_vic_register(addr: u16) -> bool {
    0xD000 <= addr < 0xD400
}

pub open spec fn is_io_shadow(addr: u16) -> bool {
    (0xD400 <= addr < 0xD800) || (0xDD00 <= addr < 0xE000)
}

pub open spec fn is_color_ram(addr: u16) -> bool {
    0xD800 <= addr < 0xDC00
}

pub open spec fn is_cia(addr: u16) -> bool {
    0xDC00 <= addr < 0xDD00
}

/// Plain RAM as the CPU sees it: neither ROM nor I/O.
pub open spec fn is_ram(addr: u16) -> bool {
    addr < 0xA000 || (0xC000 <= addr < 0xD000)
}

/// Base of the video bank selected by a write to the bank-switch register.
pub open spec fn bank_base(value: u8) -> u16 {
    (0x4000 * (3 - (value & 3))) as u16
}

/// The byte a CPU read of `addr` returns.
pub open spec fn bus_read_value(m: BusModel, addr: u16) -> u8 {
    if is_vic_register(addr) {
        register_value(m.vic_registers, addr)
    } else if is_io_shadow(addr) {
        m.io[addr as int]
    } else if is_color_ram(addr) {
        m.color_ram[addr - 0xD800]
    } else if is_cia(addr) {
        cia1::read_value(m.cia, addr)
    } else {
        m.ram[addr as int]
    }
}

/// The bus after a CPU read of `addr`: only the timer chip reacts to reads.
pub open spec fn bus_after_read(m: BusModel, addr: u16) -> BusModel {
    if is_cia(addr) {
        BusModel { cia: cia1::after_read(m.cia, addr), ..m }
    } else {
        m
    }
}

/// The bus after a CPU write of `value` to `addr`.
pub open spec fn bus_after_write(m: BusModel, addr: u16, value: u8) -> BusModel {
    if is_rom(addr) {
        m
    } else if is_vic_register(addr) {
        BusModel { vic_registers: registers_after_write(m.vic_registers, addr, value), ..m }
    } else if is_color_ram(addr) {
        BusModel { color_ram: m.color_ram.update(addr - 0xD800, value), ..m }
    } else if is_io_shadow(addr) {
        if addr == BANK_SELECT {
            BusModel {
                io: m.io.update(addr as int, value),
                vic_bank_start: bank_base(value),
                char_rom_enabled: value & 1 != 0,
                ..m
            }
        } else {
            BusModel { io: m.io.update(addr as int, value), ..m }
        }
    } else if is_cia(addr) {
        BusModel { cia: cia1::after_write(m.cia, addr, value), ..m }
    } else {
        BusModel { ram: m.ram.update(addr as int, value), ..m }
    }
}

/// The byte the video chip fetches at the 14-bit address `addr` of its bank.
pub open spec fn vic_read(m: BusModel, addr: u16) -> u8 {
    let offset = addr & 0x3FFF;
    if m.char_rom_enabled && 0x1000 <= offset < 0x2000 {
        m.char_rom[offset - 0x1000]
    } else {
        m.ram[(m.vic_bank_start | offset) as int]
    }
}

/// Whether a write to `addr` is read back unchanged: plain RAM, color RAM and
/// the I/O shadow.
pub open spec fn is_read_back(addr: u16) -> bool {
    is_ram(addr) || is_color_ram(addr) || is_io_shadow(addr)
}

/// Bus decoding law: a write of `v` followed by a read of the same address
/// returns `v` at every address of RAM, color RAM or the I/O shadow, while at
/// a ROM address the read still returns the old content and at a timer-chip
/// register some value written is not the value read back.
pub proof fn lemma_write_then_read(m: BusModel, addr: u16, v: u8)
    requires
        m.ram.len() == 65536,
        m.io.len() == 65536,
        m.color_ram.len() == 1024,
    ensures
        is_read_back(addr) ==> bus_read_value(bus_after_write(m, addr, v), addr) == v,
        is_rom(addr) ==> bus_read_value(bus_after_write(m, addr, v), addr) == m.ram[addr as int],
        (is_rom(addr) || is_cia(addr)) ==> exists|w: u8|
            #[trigger] bus_read_value(bus_after_write(m, addr, w), addr) != w,
{
    if is_rom(addr) {
        let w: u8 = if m.ram[addr as int] == 0 { 1 } else { 0 };
        assert(bus_read_value(bus_after_write(m, addr, w), addr) != w);
    } else if is_cia(addr) {
        if addr == cia1::CONTROL_A {
            let w: u8 = cia1::LOAD_START_VALUE;
            assert(w & !cia1::LOAD_START_VALUE == 0) by (bit_vector)
                requires
                    w == 0x10u8,
            ;
            assert(bus_read_value(bus_after_write(m, addr, w), addr) != w);
        } else {
            let r0 = cia1::read_value(m.cia, addr);
            let w: u8 = if r0 == 0 { 1 } else { 0 };
            assert(bus_read_value(bus_after_write(m, addr, w), addr) == r0);
            assert(bus_read_value(bus_after_write(m, addr, w), addr) != w);
        }
    }
}

/// The stores that the address decoder routes accesses to.
pub struct Bus {
    pub ram: [u8; 65536],
    pub io: [u8; 65536],
    pub color_ram: [u8; 1024],
    pub char_rom: [u8; 4096],
    pub vic_registers: Registers,
    pub cia: Cia1,
    pub vic_bank_start: u16,
    pub char_rom_enabled: bool,
}

impl View for Bus {
    type V = BusModel;

    open spec fn view(&self) -> BusModel {
        BusModel {
            ram: self.ram@,
            io: self.io@,
            color_ram: self.color_ram@,
            char_rom: self.char_rom@,
            vic_registers: self.vic_registers@,
            cia: self.cia,
            vic_bank_start: self.vic_bank_start,
            char_rom_enabled: self.char_rom_enabled,
        }
    }
}

impl ReadView for Bus {
    open spec fn read_value(m: BusModel, addr: u16) -> u8 {
        bus_read_value(m, addr)
    }

    open spec fn after_read(m: BusModel, addr: u16) -> BusModel {
        bus_after_read(m, addr)
    }

    fn read(&mut self, addr: u16) -> (r: u8) {
        if 0xD000 <= addr && addr < 0xD400 {
            self.vic_registers.read(addr)
        } else if (0xD400 <= addr && addr < 0xD800) || (0xDD00 <= addr && addr < 0xE000) {
            self.io[addr as usize]
        } else if 0xD800 <= addr && addr < 0xDC00 {
            self.color_ram[(addr - 0xD800) as usize]
        } else if 0xDC00 <= addr && addr < 0xDD00 {
            self.cia.read(addr)
        } else {
            self.ram[addr as usize]
        }
    }
}

impl WriteView for Bus {
    open spec fn after_write(m: BusModel, addr: u16, value: u8) -> BusModel {
        bus_after_write(m, addr, value)
    }

    fn write(&mut self, addr: u16, value: u8) {
        if (0xA000 <= addr && addr < 0xC000) || 0xE000 <= addr {
        } else if 0xD000 <= addr && addr < 0xD400 {
            self.vic_registers.write(addr, value);
        } else if 0xD800 <= addr && addr < 0xDC00 {
            self.color_ram[(addr - 0xD800) as usize] = value;
        } else if (0xD400 <= addr && addr < 0xD800) || (0xDD00 <= addr && addr < 0xE000) {
            self.io[addr as usize] = value;
            if addr == BANK_SELECT {
                let select: u8 = value & 3;
                assert(select <= 3) by (bit_vector)
                    requires
                        select == value & 3,
                ;
                self.vic_bank_start = 0x4000 * (3 - select as u16);
                self.char_rom_enabled = value & 1 != 0;
            }
        } else if 0xDC00 <= addr && addr < 0xDD00 {
            self.cia.write(addr, value);
        } else {
            self.ram[addr as usize] = value;
        }
    }
}

impl Bus {
    /// A bus with all stores zeroed, the video bank at 0xC000 and the
    /// character ROM overlay off.
    pub fn new() -> (r: Bus)
        ensures
            r@.ram == Seq::new(65536, |i: int| 0u8),
            r@.io == Seq::new(65536, |i: int| 0u8),
            r@.color_ram == Seq::new(1024, |i: int| 0u8),
            r@.char_rom == Seq::new(4096, |i: int| 0u8),
            r@.vic_registers == Seq::new(47, |i: int| 0u8),
            r@.cia == cia1::power_on(),
            r@.vic_bank_start == 0xC000,
            !r@.char_rom_enabled,
    {
        let r = Bus {
            ram: [0u8; 65536],
            io: [0u8; 65536],
            color_ram: [0u8; 1024],
            char_rom: [0u8; 4096],
            vic_registers: Registers::new(),
            cia: Cia1::new(),
            vic_bank_start: 0xC000,
            char_rom_enabled: false,
        };
        assert(r@.ram =~= Seq::new(65536, |i: int| 0u8));
        assert(r@.io =~= Seq::new(65536, |i: int| 0u8));
        assert(r@.color_ram =~= Seq::new(1024, |i: int| 0u8));
        assert(r@.char_rom =~= Seq::new(4096, |i: int| 0u8));
        r
    }

    /// A fetch of the video chip at the 14-bit address `addr` of its bank.
    pub fn vic_read(&self, addr: u16) -> (r: u8)
        ensures
            r == vic_read(self@, addr),
    {
        let offset = addr & 0x3FFF;
        if self.char_rom_enabled && 0x1000 <= offset && offset < 0x2000 {
            self.char_rom[(offset - 0x1000) as usize]
        } else {
            self.ram[(self.vic_bank_start | offset) as usize]
        }
    }
}

} // verus!
