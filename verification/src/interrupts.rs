//! The interrupt controller: the IF (requested) and IE (enabled) registers
//! of the five interrupt sources, and the master enable flag (IME).
use vstd::prelude::*;

verus! {

/// One interrupt source: whether it is enabled (IE) and requested (IF).
#[derive(Default, Copy, Clone, Debug, PartialEq, Eq, Structural)]
pub struct Interrupt {
    pub enabled: bool,
    pub set: bool,
}

/// The five interrupt sources, in priority order.
#[derive(Copy, Clone, Debug, PartialEq, Eq, Structural)]
pub enum InterruptType {
    VBlank,
    LcdStat,
    Timer,
    Serial,
    Joypad,
}

/// A snapshot of the five interrupt sources.
#[derive(Default, Clone, Copy, Debug, PartialEq, Eq, Structural)]
pub struct InterruptHandlerState {
    pub vblank: Interrupt,
    pub lcd_stat: Interrupt,
    pub timer: Interrupt,
    pub serial: Interrupt,
    pub joypad: Interrupt,
}

/// The interrupt controller.
#[derive(Default, Clone, Copy, Debug)]
pub struct InterruptHandler {
    vblank: Interrupt,
    lcd_stat: Interrupt,
    timer: Interrupt,
    serial: Interrupt,
    joypad: Interrupt,
    ime: bool,
}

/// What the interrupt controller holds: its five sources and the master
/// enable flag.
#[derive(Clone, Copy, Debug, PartialEq, Eq, Structural)]
pub struct IrqView {
    pub lines: InterruptHandlerState,
    pub ime: bool,
}

pub open spec fn b2u(b: bool) -> u8 {
    if b { 1 } else { 0 }
}

/// The source `ir` of a snapshot.
pub open spec fn line(s: InterruptHandlerState, ir: InterruptType) -> Interrupt {
    match ir {
        InterruptType::VBlank => s.vblank,
        InterruptType::LcdStat => s.lcd_stat,
        InterruptType::Timer => s.timer,
        InterruptType::Serial => s.serial,
        InterruptType::Joypad => s.joypad,
    }
}

/// The snapshot with source `ir` replaced by `i`.
pub open spec fn with_line(s: InterruptHandlerState, ir: InterruptType, i: Interrupt) -> InterruptHandlerState {
    match ir {
        InterruptType::VBlank => InterruptHandlerState { vblank: i, ..s },
        InterruptType::LcdStat => InterruptHandlerState { lcd_stat: i, ..s },
        InterruptType::Timer => InterruptHandlerState { timer: i, ..s },
        InterruptType::Serial => InterruptHandlerState { serial: i, ..s },
        InterruptType::Joypad => InterruptHandlerState { joypad: i, ..s },
    }
}

/// The controller with interrupt `ir` requested.
pub open spec fn raised(v: IrqView, ir: InterruptType) -> IrqView {
    IrqView { lines: with_line(v.lines, ir, Interrupt { set: true, ..line(v.lines, ir) }), ..v }
}

/// An interrupt fires when it is both requested and enabled.
pub open spec fn pending(s: InterruptHandlerState, ir: InterruptType) -> bool {
    line(s, ir).enabled && line(s, ir).set
}

pub open spec fn any_pending(s: InterruptHandlerState) -> bool {
    pending(s, InterruptType::VBlank) || pending(s, InterruptType::LcdStat) || pending(
        s,
        InterruptType::Timer,
    ) || pending(s, InterruptType::Serial) || pending(s, InterruptType::Joypad)
}

/// The IF register: bit i is the request flag of source i.
pub open spec fn if_bits(s: InterruptHandlerState) -> u8 {
    (b2u(s.vblank.set) + 2 * b2u(s.lcd_stat.set) + 4 * b2u(s.timer.set) + 8 * b2u(s.serial.set)
        + 16 * b2u(s.joypad.set)) as u8
}

/// The IE register: bit i is the enable flag of source i.
pub open spec fn ie_bits(s: InterruptHandlerState) -> u8 {
    (b2u(s.vblank.enabled) + 2 * b2u(s.lcd_stat.enabled) + 4 * b2u(s.timer.enabled) + 8 * b2u(
        s.serial.enabled,
    ) + 16 * b2u(s.joypad.enabled)) as u8
}

proof fn lemma_pack5(a: bool, b: bool, c: bool, d: bool, e: bool)
    ensures
        ((if a { 1u8 } else { 0u8 }) | (if b { 1u8 } else { 0u8 }) << 1u8 | (if c { 1u8 } else { 0u8 }) << 2u8
            | (if d { 1u8 } else { 0u8 }) << 3u8 | (if e { 1u8 } else { 0u8 }) << 4u8) == (b2u(a) + 2 * b2u(b)
            + 4 * b2u(c) + 8 * b2u(d) + 16 * b2u(e)) as u8,
{
    let (x, y, z, u, w) = (b2u(a), b2u(b), b2u(c), b2u(d), b2u(e));
    assert(x <= 1 && y <= 1 && z <= 1 && u <= 1 && w <= 1);
    assert((x | y << 1u8 | z << 2u8 | u << 3u8 | w << 4u8) == (x + 2 * y + 4 * z + 8 * u + 16 * w) as u8)
        by (bit_vector)
        requires
            x <= 1 && y <= 1 && z <= 1 && u <= 1 && w <= 1,
    ;
}

proof fn lemma_unpack5(v: u8)
    ensures
        (b2u(v & 1u8 != 0) + 2 * b2u(v & 2u8 != 0) + 4 * b2u(v & 4u8 != 0) + 8 * b2u(v & 8u8 != 0) + 16
            * b2u(v & 16u8 != 0)) as u8 == v & 0x1Fu8,
{
    let x = b2u(v & 1u8 != 0);
    let y = b2u(v & 2u8 != 0);
    let z = b2u(v & 4u8 != 0);
    let u = b2u(v & 8u8 != 0);
    let w = b2u(v & 16u8 != 0);
    assert((x + 2 * y + 4 * z + 8 * u + 16 * w) as u8 == v & 0x1Fu8) by (bit_vector)
        requires
            x == (if v & 1u8 != 0 { 1u8 } else { 0u8 }),
            y == (if v & 2u8 != 0 { 1u8 } else { 0u8 }),
            z == (if v & 4u8 != 0 { 1u8 } else { 0u8 }),
            u == (if v & 8u8 != 0 { 1u8 } else { 0u8 }),
            w == (if v & 16u8 != 0 { 1u8 } else { 0u8 }),
    ;
}

impl View for InterruptHandler {
    type V = IrqView;

    closed spec fn view(&self) -> IrqView {
        IrqView {
            lines: InterruptHandlerState {
                vblank: self.vblank,
                lcd_stat: self.lcd_stat,
                timer: self.timer,
                serial: self.serial,
                joypad: self.joypad,
            },
            ime: self.ime,
        }
    }
}

impl InterruptHandler {
    /// A controller with every source disabled and cleared and IME off.
    pub fn new() -> (r: Self)
        ensures
            r@ == (IrqView { lines: InterruptHandlerState::default_spec(), ime: false }),
    {
        let i = Interrupt { enabled: false, set: false };
        InterruptHandler { vblank: i, lcd_stat: i, timer: i, serial: i, joypad: i, ime: false }
    }

    /// Writes the IF register: bit i requests source i.
    pub fn write_if(&mut self, value: u8)
        ensures
            final(self)@ == (IrqView { lines: if_written(old(self)@.lines, value), ..old(self)@ }),
    {
        self.vblank.set = value & 0b00000001 != 0;
        self.lcd_stat.set = value & 0b00000010 != 0;
        self.timer.set = value & 0b00000100 != 0;
        self.serial.set = value & 0b00001000 != 0;
        self.joypad.set = value & 0b00010000 != 0;
    }

    /// Reads the IF register.
    pub fn read_if(&self) -> (r: u8)
        ensures
            r == if_bits(self@.lines),
    {
        proof {
            lemma_pack5(self.vblank.set, self.lcd_stat.set, self.timer.set, self.serial.set, self.joypad.set);
        }
        (if self.vblank.set { 1u8 } else { 0u8 }) | (if self.lcd_stat.set { 1u8 } else { 0u8 }) << 1u8 | (
        if self.timer.set { 1u8 } else { 0u8 }) << 2u8 | (if self.serial.set { 1u8 } else { 0u8 }) << 3u8 | (
        if self.joypad.set { 1u8 } else { 0u8 }) << 4u8
    }

    /// Writes the IE register: bit i enables source i.
    pub fn write_ie(&mut self, value: u8)
        ensures
            final(self)@ == (IrqView { lines: ie_written(old(self)@.lines, value), ..old(self)@ }),
    {
        self.vblank.enabled = value & 0b00000001 != 0;
        self.lcd_stat.enabled = value & 0b00000010 != 0;
        self.timer.enabled = value & 0b00000100 != 0;
        self.serial.enabled = value & 0b00001000 != 0;
        self.joypad.enabled = value & 0b00010000 != 0;
    }

    /// Reads the IE register.
    pub fn read_ie(&self) -> (r: u8)
        ensures
            r == ie_bits(self@.lines),
    {
        proof {
            lemma_pack5(
                self.vblank.enabled,
                self.lcd_stat.enabled,
                self.timer.enabled,
                self.serial.enabled,
                self.joypad.enabled,
            );
        }
        (if self.vblank.enabled { 1u8 } else { 0u8 }) | (if self.lcd_stat.enabled { 1u8 } else { 0u8 }) << 1u8 | (
        if self.timer.enabled { 1u8 } else { 0u8 }) << 2u8 | (if self.serial.enabled { 1u8 } else { 0u8 }) << 3u8
            | (if self.joypad.enabled { 1u8 } else { 0u8 }) << 4u8
    }

    /// Requests interrupt `ir`.
    pub fn set(&mut self, ir: InterruptType)
        ensures
            final(self)@ == (IrqView {
                lines: with_line(old(self)@.lines, ir, Interrupt { set: true, ..line(old(self)@.lines, ir) }),
                ..old(self)@
            }),
    {
        match ir {
            InterruptType::VBlank => self.vblank.set = true,
            InterruptType::LcdStat => self.lcd_stat.set = true,
            InterruptType::Timer => self.timer.set = true,
            InterruptType::Serial => self.serial.set = true,
            InterruptType::Joypad => self.joypad.set = true,
        }
    }

    /// Withdraws the request of interrupt `ir`.
    pub fn clear(&mut self, ir: InterruptType)
        ensures
            final(self)@ == (IrqView {
                lines: with_line(old(self)@.lines, ir, Interrupt { set: false, ..line(old(self)@.lines, ir) }),
                ..old(self)@
            }),
    {
        match ir {
            InterruptType::VBlank => self.vblank.set = false,
            InterruptType::LcdStat => self.lcd_stat.set = false,
            InterruptType::Timer => self.timer.set = false,
            InterruptType::Serial => self.serial.set = false,
            InterruptType::Joypad => self.joypad.set = false,
        }
    }

    /// Whether interrupt `ir` is both requested and enabled.
    pub fn test(&self, ir: InterruptType) -> (r: bool)
        ensures
            r == pending(self@.lines, ir),
    {
        match ir {
            InterruptType::VBlank => self.vblank.enabled && self.vblank.set,
            InterruptType::LcdStat => self.lcd_stat.enabled && self.lcd_stat.set,
            InterruptType::Timer => self.timer.enabled && self.timer.set,
            InterruptType::Serial => self.serial.enabled && self.serial.set,
            InterruptType::Joypad => self.joypad.enabled && self.joypad.set,
        }
    }

    /// Whether any interrupt is both requested and enabled.
    pub fn any_pending_interrupt(&self) -> (r: bool)
        ensures
            r == any_pending(self@.lines),
    {
        self.test(InterruptType::VBlank) || self.test(InterruptType::LcdStat) || self.test(
            InterruptType::Timer,
        ) || self.test(InterruptType::Serial) || self.test(InterruptType::Joypad)
    }

    /// The interrupt master enable flag.
    pub fn ime(&self) -> (r: bool)
        ensures
            r == self@.ime,
    {
        self.ime
    }

    /// Sets the interrupt master enable flag.
    pub fn set_ime(&mut self, enable: bool)
        ensures
            final(self)@ == (IrqView { ime: enable, ..old(self)@ }),
    {
        self.ime = enable;
    }

    /// A snapshot of the five sources.
    pub fn state(&self) -> (r: InterruptHandlerState)
        ensures
            r == self@.lines,
    {
        InterruptHandlerState {
            vblank: self.vblank,
            lcd_stat: self.lcd_stat,
            timer: self.timer,
            serial: self.serial,
            joypad: self.joypad,
        }
    }
}

impl InterruptHandlerState {
    pub open spec fn default_spec() -> InterruptHandlerState {
        let i = Interrupt { enabled: false, set: false };
        InterruptHandlerState { vblank: i, lcd_stat: i, timer: i, serial: i, joypad: i }
    }
}

/// Writing IF and reading it back gives the five low bits written, and
/// leaves IE as it was; the same holds of IE with respect to IF.
pub proof fn law_interrupt_registers_round_trip(s: InterruptHandlerState, value: u8)
    ensures
        if_bits(if_written(s, value)) == value & 0x1F,
        ie_bits(if_written(s, value)) == ie_bits(s),
        ie_bits(ie_written(s, value)) == value & 0x1F,
        if_bits(ie_written(s, value)) == if_bits(s),
{
    lemma_unpack5(value);
}

/// The sources after IF is written with `value`.
pub open spec fn if_written(s: InterruptHandlerState, value: u8) -> InterruptHandlerState {
    InterruptHandlerState {
        vblank: Interrupt { set: value & 1 != 0, ..s.vblank },
        lcd_stat: Interrupt { set: value & 2 != 0, ..s.lcd_stat },
        timer: Interrupt { set: value & 4 != 0, ..s.timer },
        serial: Interrupt { set: value & 8 != 0, ..s.serial },
        joypad: Interrupt { set: value & 16 != 0, ..s.joypad },
    }
}

/// The sources after IE is written with `value`.
pub open spec fn ie_written(s: InterruptHandlerState, value: u8) -> InterruptHandlerState {
    InterruptHandlerState {
        vblank: Interrupt { enabled: value & 1 != 0, ..s.vblank },
        lcd_stat: Interrupt { enabled: value & 2 != 0, ..s.lcd_stat },
        timer: Interrupt { enabled: value & 4 != 0, ..s.timer },
        serial: Interrupt { enabled: value & 8 != 0, ..s.serial },
        joypad: Interrupt { enabled: value & 16 != 0, ..s.joypad },
    }
}

} // verus!
