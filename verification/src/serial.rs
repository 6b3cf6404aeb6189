//! The serial port: the data register SB and the control register SC.
use vstd::prelude::*;

use crate::interrupts::{line, with_line, Interrupt, InterruptHandler, InterruptType, IrqView};
use crate::{hex_message, hex_text, GbError};

verus! {

pub const SERIAL_TRANSFER_DATA_REG_ADDR: u16 = 0xFF01;
pub const SERIAL_TRANSFER_CTRL_REG_ADDR: u16 = 0xFF02;

/// Which side drives the serial clock.
#[derive(PartialEq, Eq, Structural, Clone, Copy, Debug)]
pub enum ShiftClock {
    External,
    Internal,
}

/// The serial port. Bytes sent are gathered in a line buffer; at each
/// newline the line is set aside with the finished lines, which wait there
/// until they are taken (to be shown).
pub struct Serial {
    shift_clock: ShiftClock,
    transfer_start: bool,
    data: u8,
    out_buffer: Vec<u8>,
    finished_lines: Vec<Vec<u8>>,
}

/// What the serial port holds.
pub struct SerialView {
    pub shift_clock: ShiftClock,
    pub transfer_start: bool,
    pub data: u8,
    pub out_buffer: Seq<u8>,
    pub finished_lines: Seq<Seq<u8>>,
}

impl View for Serial {
    type V = SerialView;

    closed spec fn view(&self) -> SerialView {
        SerialView {
            shift_clock: self.shift_clock,
            transfer_start: self.transfer_start,
            data: self.data,
            out_buffer: self.out_buffer@,
            finished_lines: self.finished_lines@.map_values(|l: Vec<u8>| l@),
        }
    }
}

/// What reading the serial register at `addr` returns (None: no such
/// register): SB, or SC with the transfer flag at bit 7 and the clock at
/// bit 0.
pub open spec fn serial_read(s: SerialView, addr: u16) -> Option<u8> {
    if addr == 0xFF01 {
        Some(s.data)
    } else if addr == 0xFF02 {
        Some(((if s.transfer_start { 128int } else { 0 }) + (if s.shift_clock == ShiftClock::Internal { 1int } else { 0 })) as u8)
    } else {
        None
    }
}

/// The serial port after writing `value` at `addr` (None: no such
/// register).
pub open spec fn serial_write(s: SerialView, addr: u16, value: u8) -> Option<SerialView> {
    if addr == 0xFF01 {
        Some(SerialView { data: value, ..s })
    } else if addr == 0xFF02 {
        Some(SerialView {
            transfer_start: value & 0x80 != 0,
            shift_clock: if value & 1 != 0 { ShiftClock::Internal } else { ShiftClock::External },
            ..s
        })
    } else {
        None
    }
}

/// SB reads back as written.
pub proof fn law_serial_data_round_trip(s: SerialView, value: u8)
    ensures
        serial_write(s, 0xFF01, value) is Some,
        serial_read(serial_write(s, 0xFF01, value)->Some_0, 0xFF01) == Some(value),
{
}

/// One serial step: a started transfer sends SB at once into the line
/// buffer, ends and requests the serial interrupt; a line that ends in a
/// newline is then set aside with the finished lines, and the buffer
/// emptied.
pub open spec fn serial_step(s: SerialView, h: IrqView) -> (SerialView, IrqView) {
    let (s1, h1) = if s.transfer_start {
        (
            SerialView { out_buffer: s.out_buffer.push(s.data), transfer_start: false, ..s },
            IrqView {
                lines: with_line(h.lines, InterruptType::Serial, Interrupt { set: true, ..line(h.lines, InterruptType::Serial) }),
                ..h
            },
        )
    } else {
        (s, h)
    };
    if s1.out_buffer.len() > 0 && s1.out_buffer.last() == 10 {
        (SerialView { out_buffer: Seq::empty(), finished_lines: s1.finished_lines.push(s1.out_buffer), ..s1 }, h1)
    } else {
        (s1, h1)
    }
}

impl Serial {
    /// An idle port with an empty line buffer.
    pub fn new() -> (r: Self)
        ensures
            r@ == (SerialView {
                shift_clock: ShiftClock::External,
                transfer_start: false,
                data: 0,
                out_buffer: Seq::empty(),
                finished_lines: Seq::empty(),
            }),
    {
        let r = Serial {
            shift_clock: ShiftClock::External,
            transfer_start: false,
            data: 0,
            out_buffer: Vec::new(),
            finished_lines: Vec::new(),
        };
        proof {
            assert(r@.finished_lines =~= Seq::empty());
        }
        r
    }

    /// Writes SB or SC; another address is an illegal operation.
    pub fn write(&mut self, addr: u16, value: u8) -> (r: Result<(), GbError>)
        ensures
            match serial_write(old(self)@, addr, value) {
                Some(s) => r is Ok && final(self)@ == s,
                None => (r matches Err(GbError::IllegalOp(m)) && m@ == hex_text("Write to unknown serial register"@, addr))
                    && final(self)@ == old(self)@,
            },
    {
        match addr {
            SERIAL_TRANSFER_DATA_REG_ADDR => self.data = value,
            SERIAL_TRANSFER_CTRL_REG_ADDR => {
                self.transfer_start = (value & 0b10000000) != 0;
                self.shift_clock = if (value & 0b0000001) != 0 {
                    ShiftClock::Internal
                } else {
                    ShiftClock::External
                }
            },
            _ => {
                return Err(GbError::IllegalOp(hex_message("Write to unknown serial register", addr)));
            },
        }
        Ok(())
    }

    /// Reads SB or SC; another address is an illegal operation.
    pub fn read(&self, addr: u16) -> (r: Result<u8, GbError>)
        ensures
            match serial_read(self@, addr) {
                Some(v) => r == Ok::<u8, GbError>(v),
                None => r matches Err(GbError::IllegalOp(m)) && m@ == hex_text("Read from unknown serial register"@, addr),
            },
    {
        match addr {
            SERIAL_TRANSFER_DATA_REG_ADDR => Ok(self.data),
            SERIAL_TRANSFER_CTRL_REG_ADDR => {
                let mut val: u8 = if self.transfer_start { 128 } else { 0 };
                if self.shift_clock == ShiftClock::Internal {
                    val += 1;
                }
                Ok(val)
            },
            _ => Err(GbError::IllegalOp(hex_message("Read from unknown serial register", addr))),
        }
    }

    /// Advances the port; the transfer completes at once.
    pub fn step(&mut self, _cycles: u8, ir_handler: &mut InterruptHandler)
        ensures
            (final(self)@, final(ir_handler)@) == serial_step(old(self)@, old(ir_handler)@),
    {
        if self.transfer_start {
            self.out_buffer.push(self.data);
            self.transfer_start = false;
            ir_handler.set(InterruptType::Serial);
        }
        let n = self.out_buffer.len();
        if n > 0 && self.out_buffer[n - 1] == 10 {
            let mut line: Vec<u8> = Vec::new();
            std::mem::swap(&mut line, &mut self.out_buffer);
            let ghost before = self.finished_lines@;
            self.finished_lines.push(line);
            proof {
                assert(self.finished_lines@.map_values(|l: Vec<u8>| l@) =~= before.map_values(|l: Vec<u8>| l@).push(
                    line@,
                ));
            }
        }
    }

    /// Hands out the finished lines, oldest first, and forgets them.
    pub fn take_finished_lines(&mut self) -> (r: Vec<Vec<u8>>)
        ensures
            r@.map_values(|l: Vec<u8>| l@) == old(self)@.finished_lines,
            final(self)@ == (SerialView { finished_lines: Seq::empty(), ..old(self)@ }),
    {
        let mut r: Vec<Vec<u8>> = Vec::new();
        std::mem::swap(&mut r, &mut self.finished_lines);
        proof {
            assert(self@.finished_lines =~= Seq::empty());
        }
        r
    }

    /// The bytes sent since the last newline.
    pub fn pending_line(&self) -> (r: &Vec<u8>)
        ensures
            r@ == self@.out_buffer,
    {
        &self.out_buffer
    }
}

} // verus!
