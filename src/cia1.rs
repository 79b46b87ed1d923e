use vstd::prelude::*;

verus! {

/// Interrupt status / mask bit raised when timer A underflows.
pub const TIMER_A_UNDERFLOW_INTERRUPT: u8 = 0x01;

/// Control register A: the timer counts down while this bit is set.
pub const START_TIMER: u8 = 0x01;

/// Control register A: stop the timer when it underflows (one-shot mode).
pub const STOP_ON_UNDERFLOW: u8 = 0x08;

/// Control register A: strobe that copies the latch into the counter.
pub const LOAD_START_VALUE: u8 = 0x10;

/// Register addresses of the timer/interrupt chip.
pub const TIMER_A_LO: u16 = 0xDC04;
pub const TIMER_A_HI: u16 = 0xDC05;
pub const INTERRUPT_CONTROL: u16 = 0xDC0D;
pub const CONTROL_A: u16 = 0xDC0E;

/// The first timer/interrupt chip: timer A with its latch, the control
/// register, the interrupt mask and status, and the IRQ line it drives.
#[derive(Clone, Copy, PartialEq, Eq, Structural, Debug)]
pub struct Cia1 {
    /// Current counter value.
    pub timer_a: u16,
    /// Latch reloaded into the counter on underflow in continuous mode.
    pub timer_a_start: u16,
    pub control_a: u8,
    pub interrupt_mask: u8,
    pub interrupt_status: u8,
    /// IRQ line level, held until the interrupt status is read.
    pub irq: bool,
}

#[derive(Clone, Copy, PartialEq, Eq, Structural, Debug)]
pub enum Effect {
    IRQ,
}

/// The chip after one system cycle: a running counter counts down; when it
/// wraps below zero it stops (one-shot mode) or reloads the latch, and the
/// underflow raises its status bit and, if enabled, the IRQ line.
pub open spec fn ticked(c: Cia1) -> Cia1 {
    if c.control_a & START_TIMER == 0 {
        c
    } else if c.timer_a > 0 {
        Cia1 { timer_a: (c.timer_a - 1) as u16, ..c }
    } else {
        let stopped = c.control_a & STOP_ON_UNDERFLOW != 0;
        Cia1 {
            timer_a: if stopped { 0xFFFF } else { c.timer_a_start },
            control_a: if stopped { c.control_a & !START_TIMER } else { c.control_a },
            interrupt_status: c.interrupt_status | TIMER_A_UNDERFLOW_INTERRUPT,
            irq: c.irq || c.interrupt_mask & TIMER_A_UNDERFLOW_INTERRUPT != 0,
            ..c
        }
    }
}

/// Whether the next tick underflows the counter with its interrupt enabled.
pub open spec fn signals_irq(c: Cia1) -> bool {
    &&& c.control_a & START_TIMER != 0
    &&& c.timer_a == 0
    &&& c.interrupt_mask & TIMER_A_UNDERFLOW_INTERRUPT != 0
}

/// The chip after `n` system cycles.
pub open spec fn ticked_n(c: Cia1, n: nat) -> Cia1
    decreases n,
{
    if n == 0 {
        c
    } else {
        ticked(ticked_n(c, (n - 1) as nat))
    }
}

/// The byte a read of `addr` returns.
pub open spec fn read_value(c: Cia1, addr: u16) -> u8 {
    if addr == TIMER_A_LO {
        (c.timer_a & 0xFF) as u8
    } else if addr == TIMER_A_HI {
        (c.timer_a >> 8) as u8
    } else if addr == INTERRUPT_CONTROL {
        c.interrupt_status
    } else if addr == CONTROL_A {
        c.control_a
    } else {
        0
    }
}

/// The chip after a read of `addr`: reading the interrupt status clears it
/// and releases the IRQ line.
pub open spec fn after_read(c: Cia1, addr: u16) -> Cia1 {
    if addr == INTERRUPT_CONTROL {
        Cia1 { interrupt_status: 0, irq: false, ..c }
    } else {
        c
    }
}

/// The chip after `value` is written to `addr`.
pub open spec fn after_write(c: Cia1, addr: u16, value: u8) -> Cia1 {
    if addr == TIMER_A_LO {
        Cia1 { timer_a_start: (c.timer_a_start & 0xFF00) | (value as u16), ..c }
    } else if addr == TIMER_A_HI {
        Cia1 { timer_a_start: (c.timer_a_start & 0x00FF) | ((value as u16) << 8), ..c }
    } else if addr == INTERRUPT_CONTROL {
        Cia1 {
            interrupt_mask: if value & 0x80 != 0 {
                c.interrupt_mask | (value & 0x1F)
            } else {
                c.interrupt_mask & !(value & 0x1F)
            },
            ..c
        }
    } else if addr == CONTROL_A {
        Cia1 {
            control_a: value & !LOAD_START_VALUE,
            timer_a: if value & LOAD_START_VALUE != 0 { c.timer_a_start } else { c.timer_a },
            ..c
        }
    } else {
        c
    }
}

/// While the counter stays above zero, each running tick lowers it by one
/// and leaves the rest of the chip alone.
proof fn lemma_countdown(c: Cia1, k: nat)
    requires
        c.control_a & START_TIMER != 0,
        k <= c.timer_a,
    ensures
        ticked_n(c, k) == (Cia1 { timer_a: (c.timer_a - k) as u16, ..c }),
    decreases k,
{
    if k > 0 {
        lemma_countdown(c, (k - 1) as nat);
    }
}

/// Underflow law: a running timer in continuous mode whose counter and latch
/// both hold `L > 0` has, after `L + 1` ticks, raised its underflow status bit,
/// reloaded `L`, and asserted the IRQ line exactly when the underflow
/// interrupt is enabled.
pub proof fn lemma_underflow_reload(c: Cia1)
    requires
        c.control_a & START_TIMER != 0,
        c.control_a & STOP_ON_UNDERFLOW == 0,
        c.timer_a_start > 0,
        c.timer_a == c.timer_a_start,
        !c.irq,
    ensures
        ticked_n(c, (c.timer_a_start + 1) as nat).interrupt_status & TIMER_A_UNDERFLOW_INTERRUPT != 0,
        ticked_n(c, (c.timer_a_start + 1) as nat).timer_a == c.timer_a_start,
        ticked_n(c, (c.timer_a_start + 1) as nat).irq
            <==> c.interrupt_mask & TIMER_A_UNDERFLOW_INTERRUPT != 0,
{
    lemma_countdown(c, c.timer_a as nat);
    let s = c.interrupt_status;
    assert((s | TIMER_A_UNDERFLOW_INTERRUPT) & TIMER_A_UNDERFLOW_INTERRUPT != 0) by (bit_vector);
}

/// The chip at power-on: everything zero, timer stopped, IRQ line released.
pub open spec fn power_on() -> Cia1 {
    Cia1 {
        timer_a: 0,
        timer_a_start: 0,
        control_a: 0,
        interrupt_mask: 0,
        interrupt_status: 0,
        irq: false,
    }
}

impl Cia1 {
    pub fn new() -> (r: Cia1)
        ensures
            r == power_on(),
    {
        Cia1 {
            timer_a: 0,
            timer_a_start: 0,
            control_a: 0,
            interrupt_mask: 0,
            interrupt_status: 0,
            irq: false,
        }
    }

    /// Stores `value` into the register at `addr`; other addresses are ignored.
    pub fn write(&mut self, addr: u16, value: u8)
        ensures
            *final(self) == after_write(*old(self), addr, value),
    {
        if addr == TIMER_A_LO {
            self.timer_a_start = (self.timer_a_start & 0xFF00) | (value as u16);
        } else if addr == TIMER_A_HI {
            self.timer_a_start = (self.timer_a_start & 0x00FF) | ((value as u16) << 8);
        } else if addr == INTERRUPT_CONTROL {
            if value & 0x80 != 0 {
                self.interrupt_mask = self.interrupt_mask | (value & 0x1F);
            } else {
                self.interrupt_mask = self.interrupt_mask & !(value & 0x1F);
            }
        } else if addr == CONTROL_A {
            self.control_a = value & !LOAD_START_VALUE;
            if value & LOAD_START_VALUE != 0 {
                self.timer_a = self.timer_a_start;
            }
        }
    }

    /// Reads the register at `addr`; unknown registers read as 0.
    pub fn read(&mut self, addr: u16) -> (r: u8)
        ensures
            r == read_value(*old(self), addr),
            *final(self) == after_read(*old(self), addr),
    {
        if addr == TIMER_A_LO {
            (self.timer_a & 0xFF) as u8
        } else if addr == TIMER_A_HI {
            (self.timer_a >> 8) as u8
        } else if addr == INTERRUPT_CONTROL {
            let result = self.interrupt_status;
            self.interrupt_status = 0;
            self.irq = false;
            result
        } else if addr == CONTROL_A {
            self.control_a
        } else {
            0
        }
    }

    fn timer_a_underflow(&mut self) -> (r: Option<Effect>)
        requires
            old(self).control_a & START_TIMER != 0,
            old(self).timer_a == 0,
        ensures
            *final(self) == ticked(*old(self)),
            r == (if signals_irq(*old(self)) { Some(Effect::IRQ) } else { None }),
    {
        if self.control_a & STOP_ON_UNDERFLOW != 0 {
            self.timer_a = 0xFFFF;
            self.control_a = self.control_a & !START_TIMER;
        } else {
            self.timer_a = self.timer_a_start;
        }
        self.interrupt_status = self.interrupt_status | TIMER_A_UNDERFLOW_INTERRUPT;
        if self.interrupt_mask & TIMER_A_UNDERFLOW_INTERRUPT != 0 {
            self.irq = true;
            Some(Effect::IRQ)
        } else {
            None
        }
    }

    /// Advances the chip by one system cycle; returns `Some(IRQ)` when the
    /// timer underflows with its interrupt enabled.
    pub fn tick(&mut self) -> (r: Option<Effect>)
        ensures
            *final(self) == ticked(*old(self)),
            r == (if signals_irq(*old(self)) { Some(Effect::IRQ) } else { None }),
    {
        if self.control_a & START_TIMER != 0 {
            if self.timer_a > 0 {
                self.timer_a = self.timer_a - 1;
                None
            } else {
                self.timer_a_underflow()
            }
        } else {
            None
        }
    }

    /// The level of the IRQ line this chip drives.
    pub fn irq_asserted(&self) -> (r: bool)
        ensures
            r == self.irq,
    {
        self.irq
    }
}

} // verus!
