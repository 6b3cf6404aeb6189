//! The timer registers DIV, TIMA, TMA and TAC.
use vstd::prelude::*;

use crate::bits::lemma_byte_bits;
use crate::{hex_message, hex_text, GbError};

verus! {

/// The frequency at which TIMA counts, as a divider of the CPU clock.
#[derive(Copy, Clone, Debug, PartialEq, Eq, Structural)]
pub enum ClockSelect {
    OneTo1024,
    OneTo16,
    OneTo64,
    OneTo256,
}

/// The clock selected by the two low bits of TAC.
pub open spec fn clock_of(value: u8) -> ClockSelect {
    let v = value % 4;
    if v == 0 {
        ClockSelect::OneTo1024
    } else if v == 1 {
        ClockSelect::OneTo16
    } else if v == 2 {
        ClockSelect::OneTo64
    } else {
        ClockSelect::OneTo256
    }
}

/// The two-bit code of a clock.
pub open spec fn clock_code(c: ClockSelect) -> u8 {
    match c {
        ClockSelect::OneTo1024 => 0,
        ClockSelect::OneTo16 => 1,
        ClockSelect::OneTo64 => 2,
        ClockSelect::OneTo256 => 3,
    }
}

/// A clock written as its code reads back as itself, and a byte selects
/// the clock of its two low bits.
pub proof fn law_clock_select_round_trip(c: ClockSelect, value: u8)
    ensures
        clock_of(clock_code(c)) == c,
        clock_code(clock_of(value)) == value % 4,
{
}

impl ClockSelect {
    /// The clock that the two low bits of `value` select.
    pub fn from_bits(value: u8) -> (r: Self)
        ensures
            r == clock_of(value),
    {
        proof {
            lemma_byte_bits(value);
        }
        match value & 0b00000011 {
            0 => ClockSelect::OneTo1024,
            1 => ClockSelect::OneTo16,
            2 => ClockSelect::OneTo64,
            _ => ClockSelect::OneTo256,
        }
    }

    /// The two-bit code of the clock.
    pub fn bits(&self) -> (r: u8)
        ensures
            r == clock_code(*self),
    {
        match self {
            ClockSelect::OneTo1024 => 0,
            ClockSelect::OneTo16 => 1,
            ClockSelect::OneTo64 => 2,
            ClockSelect::OneTo256 => 3,
        }
    }
}

/// The timer's registers.
pub struct Timer {
    divider: u8,
    counter: u8,
    modulo: u8,
    clock_select: ClockSelect,
    enable: bool,
}

/// What the timer holds.
pub struct TimerView {
    pub divider: u8,
    pub counter: u8,
    pub modulo: u8,
    pub clock_select: ClockSelect,
    pub enable: bool,
}

impl View for Timer {
    type V = TimerView;

    closed spec fn view(&self) -> TimerView {
        TimerView {
            divider: self.divider,
            counter: self.counter,
            modulo: self.modulo,
            clock_select: self.clock_select,
            enable: self.enable,
        }
    }
}

/// What reading the timer register at `addr` returns. The registers answer
/// at the offsets 4 to 7 (not at their bus addresses 0xFF04 to 0xFF07);
/// TAC reads the enable flag back at bit 3.
pub open spec fn timer_read(t: TimerView, addr: u16) -> Option<u8> {
    if addr == 4 {
        Some(t.divider)
    } else if addr == 5 {
        Some(t.counter)
    } else if addr == 6 {
        Some(t.modulo)
    } else if addr == 7 {
        Some(((if t.enable { 8int } else { 0 }) + clock_code(t.clock_select)) as u8)
    } else {
        None
    }
}

/// The timer after writing `value` at `addr` (None: no such register).
/// Writing DIV resets it; TAC takes its enable flag from bit 2.
pub open spec fn timer_write(t: TimerView, addr: u16, value: u8) -> Option<TimerView> {
    if addr == 4 {
        Some(TimerView { divider: 0, ..t })
    } else if addr == 5 {
        Some(TimerView { counter: value, ..t })
    } else if addr == 6 {
        Some(TimerView { modulo: value, ..t })
    } else if addr == 7 {
        Some(TimerView { enable: value & 4 != 0, clock_select: clock_of(value), ..t })
    } else {
        None
    }
}

impl Default for ClockSelect {
    /// The 1:1024 clock.
    fn default() -> (r: Self)
        ensures
            r == ClockSelect::OneTo1024,
    {
        ClockSelect::OneTo1024
    }
}

impl Default for Timer {
    /// The timer `new` gives: every register cleared, the 1:1024 clock.
    fn default() -> (r: Self)
        ensures
            r@ == (TimerView { divider: 0, counter: 0, modulo: 0, clock_select: ClockSelect::OneTo1024, enable: false }),
    {
        Timer::new()
    }
}

impl Timer {
    /// A timer with every register cleared and the 1:1024 clock.
    pub fn new() -> (r: Self)
        ensures
            r@ == (TimerView { divider: 0, counter: 0, modulo: 0, clock_select: ClockSelect::OneTo1024, enable: false }),
    {
        Timer { divider: 0, counter: 0, modulo: 0, clock_select: ClockSelect::OneTo1024, enable: false }
    }

    /// Writes a timer register; an address that is none is an illegal
    /// operation, and the timer is unchanged.
    pub fn write_reg(&mut self, addr: u16, value: u8) -> (r: Result<(), GbError>)
        ensures
            match timer_write(old(self)@, addr, value) {
                Some(t) => r is Ok && final(self)@ == t,
                None => (r matches Err(GbError::IllegalOp(m)) && m@ == hex_text("Write to timer reg"@, addr))
                    && final(self)@ == old(self)@,
            },
    {
        match addr {
            0x0004 => self.divider = 0,
            0x0005 => self.counter = value,
            0x0006 => self.modulo = value,
            0x0007 => {
                self.enable = (value & 0b00000100) != 0;
                self.clock_select = ClockSelect::from_bits(value & 0b00000011);
                proof {
                    lemma_byte_bits(value);
                }
            },
            _ => {
                return Err(GbError::IllegalOp(hex_message("Write to timer reg", addr)));
            },
        }
        Ok(())
    }

    /// Reads a timer register; an address that is none is an illegal
    /// operation.
    pub fn read_reg(&self, addr: u16) -> (r: Result<u8, GbError>)
        ensures
            match timer_read(self@, addr) {
                Some(v) => r == Ok::<u8, GbError>(v),
                None => r matches Err(GbError::IllegalOp(m)) && m@ == hex_text("Read from timer reg"@, addr),
            },
    {
        match addr {
            0x0004 => Ok(self.divider),
            0x0005 => Ok(self.counter),
            0x0006 => Ok(self.modulo),
            0x0007 => {
                let e: u8 = if self.enable { 1 } else { 0 };
                let c: u8 = self.clock_select.bits();
                proof {
                    assert(e << 3u8 | c == e * 8 + c) by (bit_vector)
                        requires
                            e <= 1,
                            c <= 3,
                    ;
                }
                Ok(e << 3u8 | c)
            },
            _ => Err(GbError::IllegalOp(hex_message("Read from timer reg", addr))),
        }
    }
}

} // verus!
