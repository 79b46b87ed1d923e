use vstd::prelude::*;

use crate::cia1;
use crate::memory::{Bus, BusModel, ReadView};
use crate::mos6510::{reset_spec, tick_spec, CpuError, Effect, Instruction, Mos6510};
use crate::vic_ii::{advance, painted, VicII};

verus! {

/// Where loaded bytes go: the 64 KiB RAM (which holds the ROM images) or the
/// character generator.
#[derive(Clone, Copy, PartialEq, Eq, Structural, Debug)]
pub enum MemoryRegion {
    Rom,
    CharRom,
}

/// The whole computer: the bus with its stores and register files, the
/// processor and the raster engine.
pub struct Machine {
    pub bus: Bus,
    pub mos6510: Mos6510,
    pub vic: VicII,
}

/// A store after `data` is copied into it from `offset` on; what does not fit
/// is dropped.
pub open spec fn loaded(store: Seq<u8>, offset: int, data: Seq<u8>) -> Seq<u8> {
    Seq::new(
        store.len(),
        |i: int|
            if offset <= i < offset + data.len() {
                data[i - offset]
            } else {
                store[i]
            },
    )
}

/// The bus after the timer chip's tick.
pub open spec fn with_cia_ticked(m: BusModel) -> BusModel {
    BusModel { cia: cia1::ticked(m.cia), ..m }
}

impl Machine {
    pub open spec fn wf(&self) -> bool {
        self.vic.wf()
    }

    /// A powered-on machine with zeroed memory.
    pub fn new() -> (r: Machine)
        ensures
            r.wf(),
            r.mos6510 == crate::mos6510::power_on(),
            r.vic.raster_line == 0,
            r.vic.x_coord == 0,
            r.vic.frame@ == Seq::new(crate::vic_ii::FRAME_PIXELS as nat, |i: int| crate::vic_ii::BLACK),
            r.bus@.ram == Seq::new(65536, |i: int| 0u8),
            r.bus@.io == Seq::new(65536, |i: int| 0u8),
            r.bus@.color_ram == Seq::new(1024, |i: int| 0u8),
            r.bus@.char_rom == Seq::new(4096, |i: int| 0u8),
            r.bus@.vic_registers == Seq::new(47, |i: int| 0u8),
            r.bus@.cia == cia1::power_on(),
            r.bus@.vic_bank_start == 0xC000,
            !r.bus@.char_rom_enabled,
    {
        Machine { bus: Bus::new(), mos6510: Mos6510::new(), vic: VicII::new() }
    }

    /// Copies `data` into a region from `offset` on, past the write
    /// protection of the ROM windows; bytes beyond the region's end are
    /// dropped.
    pub fn load(&mut self, region: MemoryRegion, offset: usize, data: &[u8])
        requires
            old(self).wf(),
        ensures
            final(self).wf(),
            final(self).mos6510 == old(self).mos6510,
            region == MemoryRegion::Rom ==> final(self).bus@ == (BusModel {
                ram: loaded(old(self).bus@.ram, offset as int, data@),
                ..old(self).bus@
            }),
            region == MemoryRegion::CharRom ==> final(self).bus@ == (BusModel {
                char_rom: loaded(old(self).bus@.char_rom, offset as int, data@),
                ..old(self).bus@
            }),
    {
        let ghost old_bus = self.bus@;
        let mut i: usize = 0;
        match region {
            MemoryRegion::Rom => {
                while i < data.len()
                    invariant
                        i <= data@.len(),
                        self.vic.wf(),
                        self.mos6510 == old(self).mos6510,
                        self.bus@ == (BusModel { ram: self.bus@.ram, ..old_bus }),
                        self.bus@.ram.len() == 65536,
                        forall|j: int|
                            0 <= j < 65536 ==> self.bus@.ram[j] == if offset <= j < offset + i {
                                data@[j - offset]
                            } else {
                                old_bus.ram[j]
                            },
                    decreases data@.len() - i,
                {
                    if offset < 65536 && i < 65536 - offset {
                        self.bus.ram[offset + i] = data[i];
                    }
                    i = i + 1;
                }
                assert(self.bus@.ram =~= loaded(old_bus.ram, offset as int, data@));
            },
            MemoryRegion::CharRom => {
                while i < data.len()
                    invariant
                        i <= data@.len(),
                        self.vic.wf(),
                        self.mos6510 == old(self).mos6510,
                        self.bus@ == (BusModel { char_rom: self.bus@.char_rom, ..old_bus }),
                        self.bus@.char_rom.len() == 4096,
                        forall|j: int|
                            0 <= j < 4096 ==> self.bus@.char_rom[j] == if offset <= j < offset + i {
                                data@[j - offset]
                            } else {
                                old_bus.char_rom[j]
                            },
                    decreases data@.len() - i,
                {
                    if offset < 4096 && i < 4096 - offset {
                        self.bus.char_rom[offset + i] = data[i];
                    }
                    i = i + 1;
                }
                assert(self.bus@.char_rom =~= loaded(old_bus.char_rom, offset as int, data@));
            },
        }
    }

    /// Has the processor read the reset vector through the bus.
    pub fn reset(&mut self)
        requires
            old(self).wf(),
        ensures
            final(self).wf(),
            final(self).vic == old(self).vic,
            (final(self).mos6510, final(self).bus@) == reset_spec(old(self).mos6510, old(self).bus@),
    {
        self.mos6510.reset(&mut self.bus);
    }

    /// A CPU read of `addr` through the bus, as the debugger inspects memory.
    pub fn inspect(&mut self, addr: u16) -> (r: u8)
        requires
            old(self).wf(),
        ensures
            final(self).wf(),
            final(self).mos6510 == old(self).mos6510,
            r == crate::memory::bus_read_value(old(self).bus@, addr),
            final(self).bus@ == crate::memory::bus_after_read(old(self).bus@, addr),
    {
        self.bus.read(addr)
    }

    /// One system cycle: the raster engine, then the timer chip, then the
    /// processor with the IRQ line the timer chip drives.
    pub fn tick(&mut self) -> (r: Result<(Option<Instruction>, Option<Effect>), CpuError>)
        requires
            old(self).wf(),
        ensures
            final(self).wf(),
            (final(self).vic.raster_line, final(self).vic.x_coord) == advance(
                old(self).vic.raster_line,
                old(self).vic.x_coord,
            ),
            final(self).vic.frame@ == painted(
                old(self).vic.frame@,
                old(self).bus@,
                old(self).vic.raster_line,
                old(self).vic.x_coord,
            ),
            (final(self).mos6510, final(self).bus@, r) == tick_spec(
                old(self).mos6510,
                with_cia_ticked(old(self).bus@),
                cia1::ticked(old(self).bus@.cia).irq,
            ),
    {
        self.vic.tick(&self.bus);
        self.bus.cia.tick();
        let irq = self.bus.cia.irq_asserted();
        self.mos6510.tick(&mut self.bus, irq)
    }
}

} // verus!
