//! The Sharp LR35902 CPU: its registers, flags, and the execution of one
//! instruction per step.
use vstd::prelude::*;
use vstd::string::*;

use crate::alu::{alu_is, alu_op_ok, alu_spec, ALU};
use crate::bus::{BusAccess, BusModel};
use crate::endian::le_word;
use crate::instruction::opcode::{cb_cycles_of, cycles_of, is_opcode, length_of};
use crate::instruction::{
    cb_decode_spec, decode_result, ArithmeticType, decode_spec, decoded_instr, holds_instruction, operand_byte,
    operand_word, Dest, DoubleRegType, GenericRegType, Instruction, InstructionType, JumpCondition,
    JumpType, PostLoad, SingleRegType, Source,
};
use crate::interrupts::{any_pending, pending, with_line, line, Interrupt, InterruptType, IrqView};
use crate::text::{bool_text, hex16_text, push_bool, push_hex16};
use crate::{ErrorView, GbError, same_result};

verus! {

pub const VBLANK_IR_ADDRESS: u16 = 0x0040;
pub const LCD_STAT_IR_ADDRESS: u16 = 0x0048;
pub const TIMER_IR_ADDRESS: u16 = 0x0050;
pub const SERIAL_IR_ADDRESS: u16 = 0x0058;
pub const JOYPAD_IR_ADDRESS: u16 = 0x0060;

/// A snapshot of the registers and flags, for display.
#[derive(Default, Clone, Copy, Debug)]
pub struct CpuState {
    pub af: u16,
    pub bc: u16,
    pub de: u16,
    pub hl: u16,
    pub pc: u16,
    pub sp: u16,
    pub zero: bool,
    pub carry: bool,
    pub bcd_n: bool,
    pub bcd_h: bool,
    pub halted: bool,
}

/// The CPU: seven 8-bit registers, the flag register F, the program
/// counter and stack pointer, and the low-power and halted states.
pub struct CPU {
    reg_a: u8,
    reg_b: u8,
    reg_c: u8,
    reg_d: u8,
    reg_e: u8,
    reg_h: u8,
    reg_l: u8,
    reg_f: u8,
    reg_pc: u16,
    reg_sp: u16,
    low_power_mode: bool,
    halted: bool,
}

/// What the CPU holds.
#[derive(Clone, Copy, Debug, PartialEq, Eq, Structural)]
pub struct CpuView {
    pub a: u8,
    pub b: u8,
    pub c: u8,
    pub d: u8,
    pub e: u8,
    pub h: u8,
    pub l: u8,
    pub f: u8,
    pub pc: u16,
    pub sp: u16,
    pub low_power_mode: bool,
    pub halted: bool,
}

/// The CPU at power-on: every register cleared, running.
pub open spec fn cpu_power_on() -> CpuView {
    CpuView {
        a: 0,
        b: 0,
        c: 0,
        d: 0,
        e: 0,
        h: 0,
        l: 0,
        f: 0,
        pc: 0,
        sp: 0,
        low_power_mode: false,
        halted: false,
    }
}

impl View for CPU {
    type V = CpuView;

    closed spec fn view(&self) -> CpuView {
        CpuView {
            a: self.reg_a,
            b: self.reg_b,
            c: self.reg_c,
            d: self.reg_d,
            e: self.reg_e,
            h: self.reg_h,
            l: self.reg_l,
            f: self.reg_f,
            pc: self.reg_pc,
            sp: self.reg_sp,
            low_power_mode: self.low_power_mode,
            halted: self.halted,
        }
    }
}

/// The 16-bit value whose high byte is `hi` and low byte `lo`.
pub open spec fn join(hi: u8, lo: u8) -> u16 {
    le_word(lo, hi)
}

/// The 8-bit register `r`.
pub open spec fn reg_val(c: CpuView, r: SingleRegType) -> u8 {
    match r {
        SingleRegType::A => c.a,
        SingleRegType::B => c.b,
        SingleRegType::C => c.c,
        SingleRegType::D => c.d,
        SingleRegType::E => c.e,
        SingleRegType::H => c.h,
        SingleRegType::L => c.l,
    }
}

/// The CPU with register `r` set to `v`.
pub open spec fn with_reg(c: CpuView, r: SingleRegType, v: u8) -> CpuView {
    match r {
        SingleRegType::A => CpuView { a: v, ..c },
        SingleRegType::B => CpuView { b: v, ..c },
        SingleRegType::C => CpuView { c: v, ..c },
        SingleRegType::D => CpuView { d: v, ..c },
        SingleRegType::E => CpuView { e: v, ..c },
        SingleRegType::H => CpuView { h: v, ..c },
        SingleRegType::L => CpuView { l: v, ..c },
    }
}

/// The register pair (or SP) `r` as a 16-bit value.
pub open spec fn pair(c: CpuView, r: DoubleRegType) -> u16 {
    match r {
        DoubleRegType::AF => join(c.a, c.f),
        DoubleRegType::BC => join(c.b, c.c),
        DoubleRegType::DE => join(c.d, c.e),
        DoubleRegType::HL => join(c.h, c.l),
        DoubleRegType::SP => c.sp,
    }
}

pub open spec fn hi(v: u16) -> u8 {
    (v / 256) as u8
}

pub open spec fn lo(v: u16) -> u8 {
    (v % 256) as u8
}

/// The CPU with the register pair (or SP) `r` set to `v`.
pub open spec fn with_pair(c: CpuView, r: DoubleRegType, v: u16) -> CpuView {
    match r {
        DoubleRegType::AF => CpuView { a: hi(v), f: lo(v), ..c },
        DoubleRegType::BC => CpuView { b: hi(v), c: lo(v), ..c },
        DoubleRegType::DE => CpuView { d: hi(v), e: lo(v), ..c },
        DoubleRegType::HL => CpuView { h: hi(v), l: lo(v), ..c },
        DoubleRegType::SP => CpuView { sp: v, ..c },
    }
}

/// The zero flag (bit 7 of F).
pub open spec fn zf(c: CpuView) -> bool {
    c.f & 0x80 != 0
}

/// The subtract flag N (bit 6 of F).
pub open spec fn nf(c: CpuView) -> bool {
    c.f & 0x40 != 0
}

/// The half-carry flag H (bit 5 of F).
pub open spec fn hf(c: CpuView) -> bool {
    c.f & 0x20 != 0
}

/// The carry flag (bit 4 of F).
pub open spec fn cf(c: CpuView) -> bool {
    c.f & 0x10 != 0
}

pub open spec fn with_z(c: CpuView, b: bool) -> CpuView {
    CpuView { f: if b { c.f | 0x80 } else { c.f & 0x7F }, ..c }
}

pub open spec fn with_n(c: CpuView, b: bool) -> CpuView {
    CpuView { f: if b { c.f | 0x40 } else { c.f & 0xBF }, ..c }
}

pub open spec fn with_h(c: CpuView, b: bool) -> CpuView {
    CpuView { f: if b { c.f | 0x20 } else { c.f & 0xDF }, ..c }
}

pub open spec fn with_c(c: CpuView, b: bool) -> CpuView {
    CpuView { f: if b { c.f | 0x10 } else { c.f & 0xEF }, ..c }
}

/// The CPU with the four flags set to `z`, `n`, `h` and `cy`; the low
/// nibble of F is kept.
pub open spec fn with_flags(c: CpuView, z: bool, n: bool, h: bool, cy: bool) -> CpuView {
    with_c(with_h(with_n(with_z(c, z), n), h), cy)
}

proof fn lemma_join_bits(hi: u8, lo: u8)
    ensures
        ((hi as u16) << 8u16 | (lo as u16)) == join(hi, lo),
{
    assert(((hi as u16) << 8u16 | (lo as u16)) == (hi as u16) * 256 + (lo as u16)) by (bit_vector);
}

proof fn lemma_split_bits(v: u16)
    ensures
        ((v >> 8u16) as u8) == hi(v),
        (v as u8) == lo(v),
        join(hi(v), lo(v)) == v,
{
    assert(((v >> 8u16) as u8) == v / 256) by (bit_vector);
    assert((v as u8) == v % 256) by (bit_vector);
}

/// The flags read back after they are written: each of the four flags
/// holds what was set, and the low nibble of F is unchanged.
pub proof fn law_flags_read_back(c: CpuView, z: bool, n: bool, h: bool, cy: bool)
    ensures
        zf(with_flags(c, z, n, h, cy)) == z,
        nf(with_flags(c, z, n, h, cy)) == n,
        hf(with_flags(c, z, n, h, cy)) == h,
        cf(with_flags(c, z, n, h, cy)) == cy,
        with_flags(c, z, n, h, cy).f & 0x0F == c.f & 0x0F,
{
    let f = c.f;
    let f1 = if z { f | 0x80 } else { f & 0x7F };
    let f2 = if n { f1 | 0x40 } else { f1 & 0xBF };
    let f3 = if h { f2 | 0x20 } else { f2 & 0xDF };
    let f4 = if cy { f3 | 0x10 } else { f3 & 0xEF };
    assert(f4 & 0x80 != 0 <==> z) by (bit_vector)
        requires
            f1 == (if z { f | 0x80 } else { f & 0x7F }),
            f2 == (if n { f1 | 0x40 } else { f1 & 0xBF }),
            f3 == (if h { f2 | 0x20 } else { f2 & 0xDF }),
            f4 == (if cy { f3 | 0x10 } else { f3 & 0xEF }),
    ;
    assert(f4 & 0x40 != 0 <==> n) by (bit_vector)
        requires
            f2 == (if n { f1 | 0x40 } else { f1 & 0xBF }),
            f3 == (if h { f2 | 0x20 } else { f2 & 0xDF }),
            f4 == (if cy { f3 | 0x10 } else { f3 & 0xEF }),
    ;
    assert(f4 & 0x20 != 0 <==> h) by (bit_vector)
        requires
            f3 == (if h { f2 | 0x20 } else { f2 & 0xDF }),
            f4 == (if cy { f3 | 0x10 } else { f3 & 0xEF }),
    ;
    assert(f4 & 0x10 != 0 <==> cy) by (bit_vector)
        requires
            f4 == (if cy { f3 | 0x10 } else { f3 & 0xEF }),
    ;
    assert(f4 & 0x0F == f & 0x0F) by (bit_vector)
        requires
            f1 == (if z { f | 0x80 } else { f & 0x7F }),
            f2 == (if n { f1 | 0x40 } else { f1 & 0xBF }),
            f3 == (if h { f2 | 0x20 } else { f2 & 0xDF }),
            f4 == (if cy { f3 | 0x10 } else { f3 & 0xEF }),
    ;
}

/// Writing a register and reading it back gives the value written, and
/// leaves every other register as it was; the same holds of register
/// pairs.
pub proof fn law_register_read_back(c: CpuView, r: SingleRegType, s: SingleRegType, v: u8, p: DoubleRegType, w: u16)
    ensures
        reg_val(with_reg(c, r, v), r) == v,
        s != r ==> reg_val(with_reg(c, r, v), s) == reg_val(c, s),
        pair(with_pair(c, p, w), p) == w,
{
    lemma_split_bits(w);
}

impl CPU {
    /// A CPU with every register and flag cleared, running.
    pub fn new() -> (r: Self)
        ensures
            r@ == cpu_power_on(),
    {
        CPU {
            reg_a: 0,
            reg_b: 0,
            reg_c: 0,
            reg_d: 0,
            reg_e: 0,
            reg_h: 0,
            reg_l: 0,
            reg_f: 0,
            reg_pc: 0,
            reg_sp: 0,
            low_power_mode: false,
            halted: false,
        }
    }

    pub fn read_af(&self) -> (r: u16)
        ensures
            r == pair(self@, DoubleRegType::AF),
    {
        proof {
            lemma_join_bits(self.reg_a, self.reg_f);
        }
        (self.reg_a as u16) << 8u16 | self.reg_f as u16
    }

    pub fn write_af(&mut self, value: u16)
        ensures
            final(self)@ == with_pair(old(self)@, DoubleRegType::AF, value),
    {
        proof {
            lemma_split_bits(value);
        }
        self.reg_a = (value >> 8u16) as u8;
        self.reg_f = value as u8;
    }

    pub fn read_bc(&self) -> (r: u16)
        ensures
            r == pair(self@, DoubleRegType::BC),
    {
        proof {
            lemma_join_bits(self.reg_b, self.reg_c);
        }
        (self.reg_b as u16) << 8u16 | self.reg_c as u16
    }

    pub fn write_bc(&mut self, value: u16)
        ensures
            final(self)@ == with_pair(old(self)@, DoubleRegType::BC, value),
    {
        proof {
            lemma_split_bits(value);
        }
        self.reg_b = (value >> 8u16) as u8;
        self.reg_c = value as u8;
    }

    pub fn read_de(&self) -> (r: u16)
        ensures
            r == pair(self@, DoubleRegType::DE),
    {
        proof {
            lemma_join_bits(self.reg_d, self.reg_e);
        }
        (self.reg_d as u16) << 8u16 | self.reg_e as u16
    }

    pub fn write_de(&mut self, value: u16)
        ensures
            final(self)@ == with_pair(old(self)@, DoubleRegType::DE, value),
    {
        proof {
            lemma_split_bits(value);
        }
        self.reg_d = (value >> 8u16) as u8;
        self.reg_e = value as u8;
    }

    pub fn read_hl(&self) -> (r: u16)
        ensures
            r == pair(self@, DoubleRegType::HL),
    {
        proof {
            lemma_join_bits(self.reg_h, self.reg_l);
        }
        (self.reg_h as u16) << 8u16 | self.reg_l as u16
    }

    pub fn write_hl(&mut self, value: u16)
        ensures
            final(self)@ == with_pair(old(self)@, DoubleRegType::HL, value),
    {
        proof {
            lemma_split_bits(value);
        }
        self.reg_h = (value >> 8u16) as u8;
        self.reg_l = value as u8;
    }

    pub fn read_single_reg(&self, reg: &SingleRegType) -> (r: u8)
        ensures
            r == reg_val(self@, *reg),
    {
        match reg {
            SingleRegType::A => self.reg_a,
            SingleRegType::B => self.reg_b,
            SingleRegType::C => self.reg_c,
            SingleRegType::D => self.reg_d,
            SingleRegType::E => self.reg_e,
            SingleRegType::H => self.reg_h,
            SingleRegType::L => self.reg_l,
        }
    }

    pub fn write_single_reg(&mut self, reg: &SingleRegType, value: u8)
        ensures
            final(self)@ == with_reg(old(self)@, *reg, value),
    {
        match reg {
            SingleRegType::A => self.reg_a = value,
            SingleRegType::B => self.reg_b = value,
            SingleRegType::C => self.reg_c = value,
            SingleRegType::D => self.reg_d = value,
            SingleRegType::E => self.reg_e = value,
            SingleRegType::H => self.reg_h = value,
            SingleRegType::L => self.reg_l = value,
        }
    }

    pub fn read_double_reg(&self, reg: &DoubleRegType) -> (r: u16)
        ensures
            r == pair(self@, *reg),
    {
        match reg {
            DoubleRegType::AF => self.read_af(),
            DoubleRegType::BC => self.read_bc(),
            DoubleRegType::DE => self.read_de(),
            DoubleRegType::HL => self.read_hl(),
            DoubleRegType::SP => self.reg_sp,
        }
    }

    pub fn write_double_reg(&mut self, reg: &DoubleRegType, value: u16)
        ensures
            final(self)@ == with_pair(old(self)@, *reg, value),
    {
        match reg {
            DoubleRegType::AF => self.write_af(value),
            DoubleRegType::BC => self.write_bc(value),
            DoubleRegType::DE => self.write_de(value),
            DoubleRegType::HL => self.write_hl(value),
            DoubleRegType::SP => self.reg_sp = value,
        }
    }

    pub fn read_pc(&self) -> (r: u16)
        ensures
            r == self@.pc,
    {
        self.reg_pc
    }

    pub fn read_sp(&self) -> (r: u16)
        ensures
            r == self@.sp,
    {
        self.reg_sp
    }

    pub fn write_sp(&mut self, value: u16)
        ensures
            final(self)@ == (CpuView { sp: value, ..old(self)@ }),
    {
        self.reg_sp = value;
    }

    /// Whether the CPU is in the low-power mode that STOP enters.
    pub fn low_power_mode(&self) -> (r: bool)
        ensures
            r == self@.low_power_mode,
    {
        self.low_power_mode
    }

    /// Reads an 8-bit register, or the byte that a register pair points at.
    pub fn read_from_reg_or_addr<B: BusAccess>(&self, bus: &B, src: &GenericRegType) -> (r: Result<u8, GbError>)
        requires
            bus.inv(),
        ensures
            same_result(r, target_value(*src, self@, bus.model())),
    {
        let val = match src {
            GenericRegType::Single(reg) => self.read_single_reg(reg),
            GenericRegType::Double(reg_addr) => bus.read_byte(self.read_double_reg(reg_addr))?,
        };
        Ok(val)
    }

    /// Writes an 8-bit register, or the byte that a register pair points at.
    pub fn write_to_reg_or_addr<B: BusAccess>(&mut self, bus: &mut B, src: &GenericRegType, value: u8) -> (r: Result<(), GbError>)
        requires
            old(bus).inv(),
        ensures
            final(bus).inv(),
            alu_is(final(self)@, final(bus).model(), r, store_target(*src, old(self)@, old(bus).model(), value)),
    {
        match src {
            GenericRegType::Single(reg) => self.write_single_reg(reg, value),
            GenericRegType::Double(reg_addr) => {
                let addr = self.read_double_reg(reg_addr);
                bus.write_byte(addr, value)?
            },
        }
        Ok(())
    }

    pub fn get_zero_flag(&self) -> (r: bool)
        ensures
            r == zf(self@),
    {
        self.reg_f & 0b10000000 != 0
    }

    pub fn set_zero_flag(&mut self, set: bool)
        ensures
            final(self)@ == with_z(old(self)@, set),
    {
        if set {
            self.reg_f = self.reg_f | 0b10000000
        } else {
            self.reg_f = self.reg_f & 0b01111111;
        }
    }

    pub fn get_carry_flag(&self) -> (r: bool)
        ensures
            r == cf(self@),
    {
        self.reg_f & 0b00010000 != 0
    }

    pub fn set_carry_flag(&mut self, set: bool)
        ensures
            final(self)@ == with_c(old(self)@, set),
    {
        if set {
            self.reg_f = self.reg_f | 0b00010000
        } else {
            self.reg_f = self.reg_f & 0b11101111;
        }
    }

    pub fn get_bcd_n_flag(&self) -> (r: bool)
        ensures
            r == nf(self@),
    {
        self.reg_f & 0b01000000 != 0
    }

    pub fn set_bcd_n_flag(&mut self, set: bool)
        ensures
            final(self)@ == with_n(old(self)@, set),
    {
        if set {
            self.reg_f = self.reg_f | 0b01000000
        } else {
            self.reg_f = self.reg_f & 0b10111111;
        }
    }

    pub fn get_bcd_h_flag(&self) -> (r: bool)
        ensures
            r == hf(self@),
    {
        self.reg_f & 0b00100000 != 0
    }

    pub fn set_bcd_h_flag(&mut self, set: bool)
        ensures
            final(self)@ == with_h(old(self)@, set),
    {
        if set {
            self.reg_f = self.reg_f | 0b00100000
        } else {
            self.reg_f = self.reg_f & 0b11011111;
        }
    }

    pub fn set_flags(&mut self, z: bool, n: bool, h: bool, c: bool)
        ensures
            final(self)@ == with_flags(old(self)@, z, n, h, c),
    {
        self.set_zero_flag(z);
        self.set_bcd_n_flag(n);
        self.set_bcd_h_flag(h);
        self.set_carry_flag(c);
    }
}

/// The value of an 8-bit register, or of the byte a register pair points
/// at.
pub open spec fn target_value<B: BusModel>(t: GenericRegType, c: CpuView, bus: B) -> Result<u8, ErrorView> {
    match t {
        GenericRegType::Single(r) => Ok(reg_val(c, r)),
        GenericRegType::Double(p) => bus.byte_at(pair(c, p)),
    }
}

/// Storing `v` in an 8-bit register, or in the byte a register pair points
/// at: the CPU and bus afterwards, and the result.
pub open spec fn store_target<B: BusModel>(t: GenericRegType, c: CpuView, bus: B, v: u8) -> (CpuView, B, Result<(), ErrorView>) {
    match t {
        GenericRegType::Single(r) => (with_reg(c, r, v), bus, Ok(())),
        GenericRegType::Double(p) => (
            c,
            bus.after_write(pair(c, p), v),
            bus.write_result(pair(c, p), v),
        ),
    }
}

/// Why a step failed: an error from the bus or the decoder, or an
/// operand that the instruction cannot take (reported as `IllegalOp`).
pub enum Fault {
    Bus(ErrorView),
    IllegalOp,
}

/// The CPU and the bus after an operation, and its result.
pub type Outcome<B, T> = (CpuView, B, Result<T, Fault>);

/// `r` is the result that `o` describes; an `IllegalOp` fault stands for
/// any `GbError::IllegalOp`, whatever its message.
pub open spec fn result_is<T>(r: Result<T, GbError>, o: Result<T, Fault>) -> bool {
    match o {
        Ok(v) => r == Ok::<T, GbError>(v),
        Err(Fault::Bus(e)) => match r {
            Err(x) => x@ == e,
            Ok(_) => false,
        },
        Err(Fault::IllegalOp) => match r {
            Err(GbError::IllegalOp(_)) => true,
            _ => false,
        },
    }
}

/// The CPU `c`, the bus `bus` and the result `r` are those `o` describes.
pub open spec fn outcome_is<B, T>(c: CpuView, bus: B, r: Result<T, GbError>, o: Outcome<B, T>) -> bool {
    c == o.0 && bus == o.1 && result_is(r, o.2)
}

pub open spec fn lift<T>(r: Result<T, ErrorView>) -> Result<T, Fault> {
    match r {
        Ok(v) => Ok(v),
        Err(e) => Err(Fault::Bus(e)),
    }
}

pub open spec fn wrap_add(a: u16, b: int) -> u16 {
    ((a + b + 65536) % 65536) as u16
}

/// PUSH: the high byte at SP-1, the low byte at SP-2, then SP -= 2.
pub open spec fn push_spec<B: BusModel>(c: CpuView, bus: B, value: u16) -> Outcome<B, ()> {
    let a1 = wrap_add(c.sp, -1);
    let b1 = bus.after_write(a1, hi(value));
    match bus.write_result(a1, hi(value)) {
        Err(e) => (c, b1, Err(Fault::Bus(e))),
        Ok(_) => {
            let a2 = wrap_add(c.sp, -2);
            let b2 = b1.after_write(a2, lo(value));
            match b1.write_result(a2, lo(value)) {
                Err(e) => (c, b2, Err(Fault::Bus(e))),
                Ok(_) => (CpuView { sp: a2, ..c }, b2, Ok(())),
            }
        },
    }
}

/// POP: the word at SP, then SP += 2.
pub open spec fn pop_spec<B: BusModel>(c: CpuView, bus: B) -> Outcome<B, u16> {
    match bus.word_at(c.sp) {
        Err(e) => (c, bus, Err(Fault::Bus(e))),
        Ok(v) => (CpuView { sp: wrap_add(c.sp, 2), ..c }, bus, Ok(v)),
    }
}

/// Whether a jump condition holds.
pub open spec fn condition_holds(c: CpuView, cond: JumpCondition) -> bool {
    match cond {
        JumpCondition::Always => true,
        JumpCondition::Carry => cf(c),
        JumpCondition::NotCarry => !cf(c),
        JumpCondition::Zero => zf(c),
        JumpCondition::NotZero => !zf(c),
    }
}

/// Where a jump leads. A relative jump adds the offset to PC (which already
/// points past the instruction), modulo 2^16; an offset of -128, whose
/// magnitude an `i8` cannot hold, moves PC 128 forward.
pub open spec fn jump_target(c: CpuView, jt: JumpType) -> u16 {
    match jt {
        JumpType::Offset(o) => if o == -128 { wrap_add(c.pc, 128) } else { wrap_add(c.pc, o as int) },
        JumpType::Addr(a) => a,
        JumpType::RegAddr(r) => pair(c, r),
    }
}

/// SP plus an 8-bit offset as LD HL, SP+offset computes it: a negative
/// offset is subtracted after conversion to `u16`, so its magnitude is
/// added.
pub open spec fn sp_offset(sp: u16, o: i8) -> u16 {
    if o < 0 { wrap_add(sp, -(o + 65536)) } else { wrap_add(sp, o as int) }
}

/// The byte that a load or store reads from its source.
pub open spec fn source_value<B: BusModel>(c: CpuView, bus: B, src: Source) -> Result<u8, Fault> {
    match src {
        Source::Addr(a) => lift(bus.byte_at(a)),
        Source::Imm8(v) => Ok(v),
        Source::Imm16(_) => Err(Fault::IllegalOp),
        Source::SpWithOffset(_) => Err(Fault::IllegalOp),
        Source::RegImm(r) => Ok(reg_val(c, r)),
        Source::RegAddr(p) => lift(bus.byte_at(pair(c, p))),
        Source::IoPortImm(i) => lift(bus.byte_at((0xFF00 + i) as u16)),
        Source::IoPortReg(r) => lift(bus.byte_at((0xFF00 + reg_val(c, r)) as u16)),
    }
}

/// LD into a register pair: only a 16-bit immediate or SP plus an offset.
pub open spec fn load_double_spec(c: CpuView, r: DoubleRegType, src: Source) -> (CpuView, Result<(), Fault>) {
    match src {
        Source::Imm16(v) => (with_pair(c, r, v), Ok(())),
        Source::SpWithOffset(o) => (with_pair(c, r, sp_offset(c.sp, o)), Ok(())),
        _ => (c, Err(Fault::IllegalOp)),
    }
}

/// LD into a register or register pair.
pub open spec fn load_spec<B: BusModel>(c: CpuView, bus: B, target: GenericRegType, src: Source) -> Outcome<B, ()> {
    match target {
        GenericRegType::Double(r) => {
            let d = load_double_spec(c, r, src);
            (d.0, bus, d.1)
        },
        GenericRegType::Single(r) => match source_value(c, bus, src) {
            Err(f) => (c, bus, Err(f)),
            Ok(v) => (with_reg(c, r, v), bus, Ok(())),
        },
    }
}

/// The address a store writes.
pub open spec fn dest_addr(c: CpuView, dest: Dest) -> u16 {
    match dest {
        Dest::Addr(a) => a,
        Dest::RegAddr(p) => pair(c, p),
        Dest::IoPort(o) => (0xFF00 + o) as u16,
        Dest::IoPortReg(r) => (0xFF00 + reg_val(c, r)) as u16,
    }
}

/// LD into memory.
pub open spec fn store_spec<B: BusModel>(c: CpuView, bus: B, dest: Dest, src: Source) -> Outcome<B, ()> {
    let addr = dest_addr(c, dest);
    match source_value(c, bus, src) {
        Err(f) => (c, bus, Err(f)),
        Ok(v) => (c, bus.after_write(addr, v), lift(bus.write_result(addr, v))),
    }
}

/// HL+ and HL-: HL moves by one, modulo 2^16.
pub open spec fn post_op_spec(c: CpuView, op: PostLoad) -> CpuView {
    match op {
        PostLoad::Inc => with_pair(c, DoubleRegType::HL, wrap_add(pair(c, DoubleRegType::HL), 1)),
        PostLoad::Dec => with_pair(c, DoubleRegType::HL, wrap_add(pair(c, DoubleRegType::HL), -1)),
    }
}

/// Entering an interrupt: its request is cleared, IME is cleared, PC is
/// pushed and PC jumps to the vector.
pub open spec fn service_spec<B: BusModel>(c: CpuView, bus: B, ir: InterruptType, vector: u16) -> Outcome<B, bool> {
    let h = bus.irq();
    let b1 = bus.with_irq(IrqView { lines: with_line(h.lines, ir, Interrupt { set: false, ..line(h.lines, ir) }), ..h });
    let b2 = b1.with_irq(IrqView { ime: false, ..b1.irq() });
    let p = push_spec(c, b2, c.pc);
    match p.2 {
        Err(f) => (p.0, p.1, Err(f)),
        Ok(_) => (CpuView { pc: vector, ..p.0 }, p.1, Ok(true)),
    }
}

/// With IME set, the pending interrupt of highest priority (V-Blank, LCD
/// status, timer, serial, joypad) is entered; the result says whether one
/// was.
#[verifier::opaque]
pub open spec fn check_interrupts_spec<B: BusModel>(c: CpuView, bus: B) -> Outcome<B, bool> {
    let h = bus.irq();
    if !h.ime {
        (c, bus, Ok(false))
    } else if pending(h.lines, InterruptType::VBlank) {
        service_spec(c, bus, InterruptType::VBlank, 0x40)
    } else if pending(h.lines, InterruptType::LcdStat) {
        service_spec(c, bus, InterruptType::LcdStat, 0x48)
    } else if pending(h.lines, InterruptType::Timer) {
        service_spec(c, bus, InterruptType::Timer, 0x50)
    } else if pending(h.lines, InterruptType::Serial) {
        service_spec(c, bus, InterruptType::Serial, 0x58)
    } else if pending(h.lines, InterruptType::Joypad) {
        service_spec(c, bus, InterruptType::Joypad, 0x60)
    } else {
        (c, bus, Ok(false))
    }
}

/// HALT: the CPU halts when IME is set or no interrupt is pending.
pub open spec fn halt_spec<B: BusModel>(c: CpuView, bus: B) -> CpuView {
    let h = bus.irq();
    CpuView { halted: h.ime || !any_pending(h.lines), ..c }
}

/// A call: when the condition holds, PC is pushed and PC jumps to `addr`.
pub open spec fn call_spec<B: BusModel>(c: CpuView, bus: B, addr: u16, cond: JumpCondition) -> Outcome<B, bool> {
    if condition_holds(c, cond) {
        let p = push_spec(c, bus, c.pc);
        match p.2 {
            Err(f) => (p.0, p.1, Err(f)),
            Ok(_) => (CpuView { pc: addr, ..p.0 }, p.1, Ok(true)),
        }
    } else {
        (c, bus, Ok(false))
    }
}

/// A return: when the condition holds, PC is popped.
pub open spec fn ret_spec<B: BusModel>(c: CpuView, bus: B, cond: JumpCondition) -> Outcome<B, bool> {
    if condition_holds(c, cond) {
        let p = pop_spec(c, bus);
        match p.2 {
            Err(f) => (p.0, p.1, Err(f)),
            Ok(v) => (CpuView { pc: v, ..p.0 }, p.1, Ok(true)),
        }
    } else {
        (c, bus, Ok(false))
    }
}

/// The instructions that can be carried out without panicking: bit
/// operations name a bit below 8.
pub open spec fn instr_ok(i: InstructionType) -> bool {
    match i {
        InstructionType::Arithmetic(op) => alu_op_ok(op),
        _ => true,
    }
}

/// The instructions that touch only the CPU, the ALU or IME.
pub open spec fn is_register_instr(i: InstructionType) -> bool {
    match i {
        InstructionType::Nop | InstructionType::Stop | InstructionType::Halt | InstructionType::FlipCarry
        | InstructionType::ClearCarry | InstructionType::MasterInterrupt(_) | InstructionType::Arithmetic(_)
        | InstructionType::Jump(_, _) | InstructionType::LoadSP(_) => true,
        _ => false,
    }
}

pub open spec fn unit_outcome<B>(o: Outcome<B, ()>, jumped: bool) -> Outcome<B, bool> {
    match o.2 {
        Ok(_) => (o.0, o.1, Ok(jumped)),
        Err(f) => (o.0, o.1, Err(f)),
    }
}

/// What an instruction does to the CPU (whose PC already points past it)
/// and the bus; the result says whether a branch was taken.
#[verifier::opaque]
pub open spec fn exec_instr_spec<B: BusModel>(instr: InstructionType, c: CpuView, bus: B) -> Outcome<B, bool> {
    match instr {
        InstructionType::Nop => (c, bus, Ok(false)),
        InstructionType::Stop => (CpuView { low_power_mode: true, ..c }, bus, Ok(false)),
        InstructionType::Halt => (halt_spec(c, bus), bus, Ok(false)),
        InstructionType::FlipCarry => (with_c(c, !cf(c)), bus, Ok(false)),
        InstructionType::ClearCarry => (with_c(c, false), bus, Ok(false)),
        InstructionType::MasterInterrupt(enable) => (c, bus.with_irq(IrqView { ime: enable, ..bus.irq() }), Ok(false)),
        InstructionType::Arithmetic(op) => {
            let a = alu_spec(op, c, bus);
            (a.0, a.1, match a.2 {
                Ok(_) => Ok(false),
                Err(e) => Err(Fault::Bus(e)),
            })
        },
        InstructionType::Jump(cond, jt) => if condition_holds(c, cond) {
            (CpuView { pc: jump_target(c, jt), ..c }, bus, Ok(true))
        } else {
            (c, bus, Ok(false))
        },
        InstructionType::Load(r, src) => unit_outcome(load_spec(c, bus, r, src), false),
        InstructionType::LoadWithOp(r, src, op) => {
            let l = load_spec(c, bus, r, src);
            match l.2 {
                Ok(_) => (post_op_spec(l.0, op), l.1, Ok(false)),
                Err(f) => (l.0, l.1, Err(f)),
            }
        },
        InstructionType::LoadSP(r) => (CpuView { sp: pair(c, r), ..c }, bus, Ok(false)),
        InstructionType::Store(dest, src) => unit_outcome(store_spec(c, bus, dest, src), false),
        InstructionType::StoreWithOp(dest, src, op) => {
            let st = store_spec(c, bus, dest, src);
            match st.2 {
                Ok(_) => (post_op_spec(st.0, op), st.1, Ok(false)),
                Err(f) => (st.0, st.1, Err(f)),
            }
        },
        InstructionType::StoreSP(addr) => {
            let b1 = bus.after_write(addr, lo(c.sp));
            match bus.write_result(addr, lo(c.sp)) {
                Err(e) => (c, b1, Err(Fault::Bus(e))),
                Ok(_) => {
                    let a2 = wrap_add(addr, 1);
                    (c, b1.after_write(a2, hi(c.sp)), match b1.write_result(a2, hi(c.sp)) {
                        Ok(_) => Ok(false),
                        Err(e) => Err(Fault::Bus(e)),
                    })
                },
            }
        },
        InstructionType::Push(r) => unit_outcome(push_spec(c, bus, pair(c, r)), false),
        InstructionType::Pop(r) => {
            let p = pop_spec(c, bus);
            match p.2 {
                Ok(v) => (with_pair(p.0, r, v), p.1, Ok(false)),
                Err(f) => (p.0, p.1, Err(f)),
            }
        },
        InstructionType::Call(addr, cond) => call_spec(c, bus, addr, cond),
        InstructionType::Ret(cond) => ret_spec(c, bus, cond),
        InstructionType::RetI => ret_spec(c, bus.with_irq(IrqView { ime: true, ..bus.irq() }), JumpCondition::Always),
    }
}

/// The bytes of the instruction at `pc`: the opcode, then as many operand
/// bytes as its length asks for (addresses wrap around at 2^16).
pub open spec fn fetch_bytes<B: BusModel>(bus: B, pc: u16) -> Result<Seq<u8>, ErrorView> {
    match bus.byte_at(pc) {
        Err(e) => Err(e),
        Ok(b0) => if !is_opcode(b0) {
            Err(ErrorView::UnknownInstruction(b0))
        } else if length_of(b0) == 1 {
            Ok(seq![b0])
        } else {
            match bus.byte_at(wrap_add(pc, 1)) {
                Err(e) => Err(e),
                Ok(b1) => if length_of(b0) == 2 {
                    Ok(seq![b0, b1])
                } else {
                    match bus.byte_at(wrap_add(pc, 2)) {
                        Err(e) => Err(e),
                        Ok(b2) => Ok(seq![b0, b1, b2]),
                    }
                },
            }
        },
    }
}

/// The machine cycles of the instruction whose bytes are `m`.
pub open spec fn cycles_from(m: Seq<u8>, jumped: bool) -> u8 {
    if m[0] == 0xCB { cb_cycles_of(m[1]) } else { cycles_of(m[0], jumped) }
}

/// One step of the CPU: a halted CPU wakes when IME is set and an
/// interrupt is pending and takes 1 cycle; otherwise a pending interrupt
/// is entered (5 cycles), or the instruction at PC is fetched, PC moves
/// past it and it is carried out. The result is the cycles taken.
pub open spec fn step_spec<B: BusModel>(c: CpuView, bus: B) -> Outcome<B, u8> {
    if c.halted {
        let h = bus.irq();
        (CpuView { halted: !(h.ime && any_pending(h.lines)), ..c }, bus, Ok(1))
    } else {
        let ci = check_interrupts_spec(c, bus);
        match ci.2 {
            Err(f) => (ci.0, ci.1, Err(f)),
            Ok(true) => (ci.0, ci.1, Ok(5)),
            Ok(false) => match fetch_bytes(ci.1, ci.0.pc) {
                Err(e) => (ci.0, ci.1, Err(Fault::Bus(e))),
                Ok(m) => {
                    let c2 = CpuView { pc: wrap_add(ci.0.pc, length_of(m[0]) as int), ..ci.0 };
                    let x = exec_instr_spec(decoded_instr(m), c2, ci.1);
                    match x.2 {
                        Err(f) => (x.0, x.1, Err(f)),
                        Ok(j) => (x.0, x.1, Ok(cycles_from(m, j))),
                    }
                },
            },
        }
    }
}

/// The snapshot of a CPU: its register pairs, PC, SP, flags and halt.
pub open spec fn cpu_state_of(c: CpuView) -> CpuState {
    CpuState {
        af: pair(c, DoubleRegType::AF),
        bc: pair(c, DoubleRegType::BC),
        de: pair(c, DoubleRegType::DE),
        hl: pair(c, DoubleRegType::HL),
        pc: c.pc,
        sp: c.sp,
        zero: zf(c),
        carry: cf(c),
        bcd_n: nf(c),
        bcd_h: hf(c),
        halted: c.halted,
    }
}

/// The text of a CPU snapshot, as the debugger shows it: the register
/// pairs, PC and SP in hexadecimal, the flags, and whether it is halted.
pub open spec fn cpu_state_text(s: CpuState) -> Seq<char> {
    "Regsisters:\n\n            AF "@ + hex16_text(s.af) + ", BC "@ + hex16_text(s.bc) + ", DE "@ + hex16_text(s.de)
        + ", HL "@ + hex16_text(s.hl) + ", PC "@ + hex16_text(s.pc) + ", SP "@ + hex16_text(s.sp)
        + "\n\n            Flags:\n\n            Z "@ + bool_text(s.zero) + ", C "@ + bool_text(s.carry)
        + ", BCD-N "@ + bool_text(s.bcd_n) + ", BCD-H "@ + bool_text(s.bcd_h) + "\n\n            Halted: "@
        + bool_text(s.halted)
}

impl CpuState {
    /// The text of the snapshot, as the debugger shows it.
    pub fn to_text(&self) -> (r: String)
        ensures
            r@ == cpu_state_text(*self),
    {
        let mut s = String::new();
        s.append("Regsisters:\n\n            AF ");
        push_hex16(&mut s, self.af);
        s.append(", BC ");
        push_hex16(&mut s, self.bc);
        s.append(", DE ");
        push_hex16(&mut s, self.de);
        s.append(", HL ");
        push_hex16(&mut s, self.hl);
        s.append(", PC ");
        push_hex16(&mut s, self.pc);
        s.append(", SP ");
        push_hex16(&mut s, self.sp);
        s.append("\n\n            Flags:\n\n            Z ");
        push_bool(&mut s, self.zero);
        s.append(", C ");
        push_bool(&mut s, self.carry);
        s.append(", BCD-N ");
        push_bool(&mut s, self.bcd_n);
        s.append(", BCD-H ");
        push_bool(&mut s, self.bcd_h);
        s.append("\n\n            Halted: ");
        push_bool(&mut s, self.halted);
        proof {
            assert(s@ =~= cpu_state_text(*self));
        }
        s
    }
}

/// Whether an instruction may change PC: a jump, a call or a return.
pub open spec fn changes_flow(instr: InstructionType) -> bool {
    instr is Jump || instr is Call || instr is Ret || instr is RetI
}

proof fn lemma_alu_keeps_pc<B: BusModel>(op: ArithmeticType, c: CpuView, bus: B)
    ensures
        alu_spec(op, c, bus).0.pc == c.pc,
{
    match op {
        ArithmeticType::Inc(_) => {},
        ArithmeticType::IncAddr(_) => {},
        ArithmeticType::Dec(_) => {},
        ArithmeticType::DecAddr(_) => {},
        ArithmeticType::Add(_, _) => {},
        ArithmeticType::Adc(_, _) => {},
        ArithmeticType::Add16(_, _) => {},
        ArithmeticType::AddSP(_) => {},
        ArithmeticType::Sub(_, _) => {},
        ArithmeticType::Sbc(_, _) => {},
        ArithmeticType::Cmp(_, _) => {},
        ArithmeticType::Rl(_, _) => {},
        ArithmeticType::Rlc(_, _) => {},
        ArithmeticType::Rr(_, _) => {},
        ArithmeticType::Rrc(_, _) => {},
        ArithmeticType::Sla(_) => {},
        ArithmeticType::Sra(_) => {},
        ArithmeticType::Srl(_) => {},
        ArithmeticType::And(_, _) => {},
        ArithmeticType::Or(_, _) => {},
        ArithmeticType::Xor(_, _) => {},
        ArithmeticType::Cpl(_) => {},
        ArithmeticType::TestBit(_, _) => {},
        ArithmeticType::SetBit(_, _) => {},
        ArithmeticType::ResetBit(_, _) => {},
        ArithmeticType::Swap(_) => {},
        ArithmeticType::Da(_) => {},
    }
}

proof fn lemma_exec_keeps_pc<B: BusModel>(instr: InstructionType, c: CpuView, bus: B)
    requires
        !changes_flow(instr),
    ensures
        exec_instr_spec(instr, c, bus).0.pc == c.pc,
{
    reveal(exec_instr_spec);
    if let InstructionType::Arithmetic(op) = instr {
        lemma_alu_keeps_pc(op, c, bus);
    }
}

/// With interrupts off, a running CPU that carries out an instruction other
/// than a jump, a call or a return leaves PC just past that instruction.
pub proof fn law_step_advances_pc<B: BusModel>(c: CpuView, bus: B)
    requires
        !c.halted,
        !bus.irq().ime,
        fetch_bytes(bus, c.pc) is Ok,
        !changes_flow(decoded_instr(fetch_bytes(bus, c.pc)->Ok_0)),
    ensures
        step_spec(c, bus).0.pc == wrap_add(c.pc, length_of(fetch_bytes(bus, c.pc)->Ok_0[0]) as int),
{
    reveal(check_interrupts_spec);
    let m = fetch_bytes(bus, c.pc)->Ok_0;
    let c2 = CpuView { pc: wrap_add(c.pc, length_of(m[0]) as int), ..c };
    lemma_exec_keeps_pc(decoded_instr(m), c2, bus);
}

/// A step takes at most 6 machine cycles.
pub proof fn lemma_step_cycles<B: BusModel>(c: CpuView, bus: B)
    ensures
        step_spec(c, bus).2 matches Ok(n) ==> n <= 6,
{
    assert forall|m: Seq<u8>, j: bool| #[trigger] cycles_from(m, j) <= 6 by {
        if m[0] != 0xCB {
            assert(cycles_of(m[0], j) <= 6);
        }
    }
}

/// What the decoder yields never asks for a bit beyond 7.
pub proof fn lemma_decoded_ok(m: Seq<u8>)
    requires
        m.len() >= 1,
    ensures
        instr_ok(decoded_instr(m)),
{
    let b = operand_byte(m);
    if m[0] == 0xCB {
        assert(instr_ok(cb_decode_spec(b)));
    } else {
        assert(instr_ok(decode_spec(m[0], b, operand_word(m))));
    }
}

impl CPU {
    fn push_stack<B: BusAccess>(&mut self, bus: &mut B, value: u16) -> (r: Result<(), GbError>)
        requires
            old(bus).inv(),
        ensures
            final(bus).inv(),
            outcome_is(final(self)@, final(bus).model(), r, push_spec(old(self)@, old(bus).model(), value)),
    {
        proof {
            lemma_split_bits(value);
        }
        bus.write_byte(self.reg_sp.wrapping_sub(1), (value >> 8u16) as u8)?;
        bus.write_byte(self.reg_sp.wrapping_sub(2), value as u8)?;
        self.reg_sp = self.reg_sp.wrapping_sub(2);
        Ok(())
    }

    fn pop_stack<B: BusAccess>(&mut self, bus: &B) -> (r: Result<u16, GbError>)
        requires
            bus.inv(),
        ensures
            outcome_is(final(self)@, bus.model(), r, pop_spec(old(self)@, bus.model())),
    {
        let value = bus.read_word(self.reg_sp)?;
        self.reg_sp = self.reg_sp.wrapping_add(2);
        Ok(value)
    }

    fn test_condition(&self, condition: &JumpCondition) -> (r: bool)
        ensures
            r == condition_holds(self@, *condition),
    {
        match condition {
            JumpCondition::Always => true,
            JumpCondition::Carry => self.get_carry_flag() == true,
            JumpCondition::NotCarry => self.get_carry_flag() == false,
            JumpCondition::Zero => self.get_zero_flag() == true,
            JumpCondition::NotZero => self.get_zero_flag() == false,
        }
    }

    fn jump(&mut self, condition: &JumpCondition, jump_type: &JumpType) -> (r: bool)
        ensures
            r == condition_holds(old(self)@, *condition),
            final(self)@ == (if r {
                CpuView { pc: jump_target(old(self)@, *jump_type), ..old(self)@ }
            } else {
                old(self)@
            }),
    {
        if self.test_condition(condition) {
            match jump_type {
                JumpType::Offset(offset) => {
                    if *offset < 0 {
                        // the magnitude as `offset.abs() as u16` yields it
                        let magnitude: u16 = if *offset == -128 { 0xFF80 } else { (-*offset) as u16 };
                        self.reg_pc = self.reg_pc.wrapping_sub(magnitude);
                    } else {
                        self.reg_pc = self.reg_pc.wrapping_add(*offset as u16);
                    }
                },
                JumpType::Addr(addr) => self.reg_pc = *addr,
                JumpType::RegAddr(reg) => self.reg_pc = self.read_double_reg(reg),
            }
            return true;
        }
        false
    }

    fn call<B: BusAccess>(&mut self, bus: &mut B, addr: u16, cond: &JumpCondition) -> (r: Result<bool, GbError>)
        requires
            old(bus).inv(),
        ensures
            final(bus).inv(),
            outcome_is(final(self)@, final(bus).model(), r, call_spec(old(self)@, old(bus).model(), addr, *cond)),
    {
        if self.test_condition(cond) {
            let pc = self.reg_pc;
            self.push_stack(bus, pc)?;
            self.reg_pc = addr;
            return Ok(true);
        }
        Ok(false)
    }

    fn ret<B: BusAccess>(&mut self, bus: &mut B, cond: &JumpCondition) -> (r: Result<bool, GbError>)
        requires
            old(bus).inv(),
        ensures
            final(bus).inv(),
            outcome_is(final(self)@, final(bus).model(), r, ret_spec(old(self)@, old(bus).model(), *cond)),
    {
        if self.test_condition(cond) {
            self.reg_pc = self.pop_stack(bus)?;
            return Ok(true);
        }
        Ok(false)
    }

    fn source_byte<B: BusAccess>(&self, bus: &B, source: &Source) -> (r: Result<u8, GbError>)
        requires
            bus.inv(),
        ensures
            result_is(r, source_value(self@, bus.model(), *source)),
    {
        let val = match source {
            Source::Addr(addr) => bus.read_byte(*addr)?,
            Source::Imm8(imm) => *imm,
            Source::Imm16(_) | Source::SpWithOffset(_) => {
                return Err(GbError::IllegalOp("load imm16 into 8bit register".to_owned()));
            },
            Source::RegImm(src_reg) => self.read_single_reg(src_reg),
            Source::RegAddr(src_reg) => bus.read_byte(self.read_double_reg(src_reg))?,
            Source::IoPortImm(imm) => bus.read_byte(0xFF00 + *imm as u16)?,
            Source::IoPortReg(src_reg) => bus.read_byte(0xFF00 + self.read_single_reg(src_reg) as u16)?,
        };
        Ok(val)
    }

    fn load_double(&mut self, reg: &DoubleRegType, source: &Source) -> (r: Result<(), GbError>)
        ensures
            final(self)@ == load_double_spec(old(self)@, *reg, *source).0,
            result_is(r, load_double_spec(old(self)@, *reg, *source).1),
    {
        match source {
            Source::Imm16(val) => self.write_double_reg(reg, *val),
            Source::SpWithOffset(offset) => {
                let sp = self.reg_sp;
                let v = if *offset < 0 {
                    let m = (*offset as i32 + 65536) as u16;
                    assert(m == *offset + 65536);
                    let v = sp.wrapping_sub(m);
                    assert(v == sp_offset(sp, *offset));
                    v
                } else {
                    let v = sp.wrapping_add(*offset as u16);
                    assert(v == sp_offset(sp, *offset));
                    v
                };
                self.write_double_reg(reg, v);
            },
            _ => {
                return Err(GbError::IllegalOp("load u8 into double register".to_owned()));
            },
        }
        Ok(())
    }

    /// LD: loads a register or register pair from a source.
    pub fn load<B: BusAccess>(&mut self, bus: &B, reg: &GenericRegType, source: &Source) -> (r: Result<(), GbError>)
        requires
            bus.inv(),
        ensures
            outcome_is(final(self)@, bus.model(), r, load_spec(old(self)@, bus.model(), *reg, *source)),
    {
        match reg {
            GenericRegType::Double(reg) => self.load_double(reg, source)?,
            GenericRegType::Single(reg) => {
                let val = self.source_byte(bus, source)?;
                self.write_single_reg(reg, val);
            },
        }
        Ok(())
    }

    fn store<B: BusAccess>(&mut self, bus: &mut B, dest: &Dest, src: &Source) -> (r: Result<(), GbError>)
        requires
            old(bus).inv(),
        ensures
            final(bus).inv(),
            outcome_is(final(self)@, final(bus).model(), r, store_spec(old(self)@, old(bus).model(), *dest, *src)),
    {
        let addr = match dest {
            Dest::Addr(addr) => *addr,
            Dest::RegAddr(reg_addr) => self.read_double_reg(reg_addr),
            Dest::IoPort(offset) => 0xFF00 + *offset as u16,
            Dest::IoPortReg(reg_offset) => 0xFF00 + self.read_single_reg(reg_offset) as u16,
        };
        let val = match src {
            Source::Imm16(_) | Source::SpWithOffset(_) => {
                return Err(GbError::IllegalOp("store from imm16 source".to_owned()));
            },
            _ => self.source_byte(bus, src)?,
        };
        bus.write_byte(addr, val)?;
        Ok(())
    }

    fn post_op(&mut self, post_op: &PostLoad)
        ensures
            final(self)@ == post_op_spec(old(self)@, *post_op),
    {
        match post_op {
            PostLoad::Inc => {
                let v = self.read_hl().wrapping_add(1);
                self.write_hl(v)
            },
            PostLoad::Dec => {
                let v = self.read_hl().wrapping_sub(1);
                self.write_hl(v)
            },
        }
    }

    fn goto_interrupt<B: BusAccess>(&mut self, bus: &mut B, ir_addr: u16) -> (r: Result<(), GbError>)
        requires
            old(bus).inv(),
        ensures
            final(bus).inv(),
            ({
                let b2 = old(bus).model().with_irq(IrqView { ime: false, ..old(bus).model().irq() });
                let p = push_spec(old(self)@, b2, old(self)@.pc);
                final(self)@ == (match p.2 {
                    Ok(_) => CpuView { pc: ir_addr, ..p.0 },
                    Err(_) => p.0,
                }) && final(bus).model() == p.1 && result_is(r, p.2)
            }),
    {
        bus.ir_handler_mut().set_ime(false);
        let pc = self.reg_pc;
        self.push_stack(bus, pc)?;
        self.reg_pc = ir_addr;
        Ok(())
    }

    fn check_wakeup<B: BusAccess>(&mut self, bus: &mut B) -> (r: Result<(), GbError>)
        requires
            old(bus).inv(),
        ensures
            final(bus).inv(),
            r is Ok,
            final(bus).model() == old(bus).model(),
            final(self)@ == (if old(bus).model().irq().ime && any_pending(old(bus).model().irq().lines) {
                CpuView { halted: false, ..old(self)@ }
            } else {
                old(self)@
            }),
    {
        let ir_handler = bus.ir_handler();
        if ir_handler.ime() && ir_handler.any_pending_interrupt() {
            self.halted = false;
        }
        Ok(())
    }

    fn service<B: BusAccess>(&mut self, bus: &mut B, ir: InterruptType, vector: u16) -> (r: Result<bool, GbError>)
        requires
            old(bus).inv(),
        ensures
            final(bus).inv(),
            outcome_is(final(self)@, final(bus).model(), r, service_spec(old(self)@, old(bus).model(), ir, vector)),
    {
        bus.ir_handler_mut().clear(ir);
        self.goto_interrupt(bus, vector)?;
        Ok(true)
    }

    fn check_interrupts<B: BusAccess>(&mut self, bus: &mut B) -> (r: Result<bool, GbError>)
        requires
            old(bus).inv(),
        ensures
            final(bus).inv(),
            outcome_is(final(self)@, final(bus).model(), r, check_interrupts_spec(old(self)@, old(bus).model())),
    {
        reveal(check_interrupts_spec);
        let ir_handler = bus.ir_handler();
        if ir_handler.ime() {
            if ir_handler.test(InterruptType::VBlank) {
                return self.service(bus, InterruptType::VBlank, VBLANK_IR_ADDRESS);
            }
            if ir_handler.test(InterruptType::LcdStat) {
                return self.service(bus, InterruptType::LcdStat, LCD_STAT_IR_ADDRESS);
            }
            if ir_handler.test(InterruptType::Timer) {
                return self.service(bus, InterruptType::Timer, TIMER_IR_ADDRESS);
            }
            if ir_handler.test(InterruptType::Serial) {
                return self.service(bus, InterruptType::Serial, SERIAL_IR_ADDRESS);
            }
            if ir_handler.test(InterruptType::Joypad) {
                return self.service(bus, InterruptType::Joypad, JOYPAD_IR_ADDRESS);
            }
        }
        Ok(false)
    }

    fn halt<B: BusAccess>(&mut self, bus: &mut B)
        requires
            old(bus).inv(),
        ensures
            final(bus).inv(),
            final(self)@ == halt_spec(old(self)@, old(bus).model()),
            final(bus).model() == old(bus).model(),
    {
        let ir_handler = bus.ir_handler();
        if ir_handler.ime() {
            self.halted = true;
        } else if !ir_handler.any_pending_interrupt() {
            self.halted = true;
        } else {
            // the HALT bug is not emulated
            self.halted = false;
        }
    }

    /// Reads the bytes of the instruction at `pc` and decodes them.
    pub(crate) fn fetch_instruction<B: BusAccess>(bus: &B, pc: u16) -> (r: Result<Instruction, GbError>)
        requires
            bus.inv(),
        ensures
            match fetch_bytes(bus.model(), pc) {
                Err(e) => r matches Err(x) && x@ == e,
                Ok(m) => r is Ok && decode_result(m, r),
            },
    {
        let b0 = bus.read_byte(pc)?;
        let len = Instruction::peek_len(b0)?;
        let mut bytes: Vec<u8> = Vec::new();
        bytes.push(b0);
        if len >= 2 {
            let b1 = bus.read_byte(pc.wrapping_add(1))?;
            bytes.push(b1);
        }
        if len >= 3 {
            let b2 = bus.read_byte(pc.wrapping_add(2))?;
            bytes.push(b2);
        }
        proof {
            assert(holds_instruction(bytes@));
        }
        Instruction::decode(bytes.as_slice())
    }

    /// The instructions that touch only the CPU, the ALU or IME.
    #[verifier::rlimit(60)]
    #[verifier::spinoff_prover]
    fn exec_register_instruction<B: BusAccess>(&mut self, bus: &mut B, instr: &InstructionType) -> (r: Result<bool, GbError>)
        requires
            old(bus).inv(),
            instr_ok(*instr),
            is_register_instr(*instr),
        ensures
            final(bus).inv(),
            outcome_is(final(self)@, final(bus).model(), r, exec_instr_spec(*instr, old(self)@, old(bus).model())),
    {
        reveal(exec_instr_spec);
        let mut jumped = false;
        match instr {
            InstructionType::Nop => (),
            InstructionType::Stop => self.low_power_mode = true,
            InstructionType::Halt => self.halt(bus),
            InstructionType::FlipCarry => {
                let c = self.get_carry_flag();
                self.set_carry_flag(!c)
            },
            InstructionType::ClearCarry => self.set_carry_flag(false),
            InstructionType::MasterInterrupt(enable) => bus.ir_handler_mut().set_ime(*enable),
            InstructionType::Arithmetic(ar_type) => ALU::exec(ar_type, self, bus)?,
            InstructionType::Jump(condition, jump_type) => {
                jumped = self.jump(condition, jump_type);
            },
            InstructionType::LoadSP(reg) => self.reg_sp = self.read_double_reg(reg),
            _ => (),
        }
        Ok(jumped)
    }

    /// The instructions that load, store, push, pop, call or return.
    #[verifier::rlimit(60)]
    #[verifier::spinoff_prover]
    fn exec_memory_instruction<B: BusAccess>(&mut self, bus: &mut B, instr: &InstructionType) -> (r: Result<bool, GbError>)
        requires
            old(bus).inv(),
            !is_register_instr(*instr),
        ensures
            final(bus).inv(),
            outcome_is(final(self)@, final(bus).model(), r, exec_instr_spec(*instr, old(self)@, old(bus).model())),
    {
        reveal(exec_instr_spec);
        let mut jumped = false;
        match instr {
            InstructionType::Load(reg, source) => self.load(bus, reg, source)?,
            InstructionType::LoadWithOp(reg, source, post_load) => {
                self.load(bus, reg, source)?;
                self.post_op(post_load);
            },
            InstructionType::Store(dest, src) => self.store(bus, dest, src)?,
            InstructionType::StoreWithOp(dest, src, post_store) => {
                self.store(bus, dest, src)?;
                self.post_op(post_store);
            },
            InstructionType::StoreSP(addr) => {
                proof {
                    lemma_split_bits(self.reg_sp);
                }
                bus.write_byte(*addr, self.reg_sp as u8)?;
                bus.write_byte(addr.wrapping_add(1), (self.reg_sp >> 8u16) as u8)?;
            },
            InstructionType::Push(reg_type) => {
                let v = self.read_double_reg(reg_type);
                self.push_stack(bus, v)?
            },
            InstructionType::Pop(reg) => {
                let value = self.pop_stack(bus)?;
                self.write_double_reg(reg, value);
            },
            InstructionType::Call(addr, cond) => jumped = self.call(bus, *addr, cond)?,
            InstructionType::Ret(cond) => jumped = self.ret(bus, cond)?,
            InstructionType::RetI => {
                bus.ir_handler_mut().set_ime(true);
                jumped = self.ret(bus, &JumpCondition::Always)?;
            },
            _ => (),
        }
        Ok(jumped)
    }

    fn exec_instruction<B: BusAccess>(&mut self, bus: &mut B, instr: &InstructionType) -> (r: Result<bool, GbError>)
        requires
            old(bus).inv(),
            instr_ok(*instr),
        ensures
            final(bus).inv(),
            outcome_is(final(self)@, final(bus).model(), r, exec_instr_spec(*instr, old(self)@, old(bus).model())),
    {
        match instr {
            InstructionType::Nop | InstructionType::Stop | InstructionType::Halt | InstructionType::FlipCarry
            | InstructionType::ClearCarry | InstructionType::MasterInterrupt(_) | InstructionType::Arithmetic(_)
            | InstructionType::Jump(_, _) | InstructionType::LoadSP(_) => self.exec_register_instruction(bus, instr),
            _ => self.exec_memory_instruction(bus, instr),
        }
    }

    /// Runs one step: wakes a halted CPU when it should, enters a pending
    /// interrupt, or fetches and carries out the instruction at PC. Returns
    /// the machine cycles taken.
    #[verifier::rlimit(100)]
    #[verifier::spinoff_prover]
    pub fn step<B: BusAccess>(&mut self, bus: &mut B) -> (r: Result<u8, GbError>)
        requires
            old(bus).inv(),
        ensures
            final(bus).inv(),
            outcome_is(final(self)@, final(bus).model(), r, step_spec(old(self)@, old(bus).model())),
    {
        if self.halted {
            self.check_wakeup(bus)?;
            return Ok(1);
        }
        if self.check_interrupts(bus)? {
            return Ok(5);
        }
        let ghost c1 = self@;
        let ghost b1 = bus.model();
        let instr = CPU::fetch_instruction(bus, self.reg_pc)?;
        let ghost m = fetch_bytes(b1, c1.pc)->Ok_0;
        proof {
            lemma_decoded_ok(m);
        }
        let len = instr.len();
        assert(len == length_of(m[0]));
        self.reg_pc = self.reg_pc.wrapping_add(len as u16);
        assert(self@ == CpuView { pc: wrap_add(c1.pc, length_of(m[0]) as int), ..c1 });
        let jumped = self.exec_instruction(bus, instr.instr_type())?;
        let cycles = instr.cycles(jumped);
        assert(cycles == cycles_from(m, jumped));
        Ok(cycles)
    }

    /// A snapshot of the registers and flags.
    pub fn state(&self) -> (r: CpuState)
        ensures
            r == cpu_state_of(self@),
    {
        CpuState {
            af: self.read_af(),
            bc: self.read_bc(),
            de: self.read_de(),
            hl: self.read_hl(),
            pc: self.read_pc(),
            sp: self.read_sp(),
            zero: self.get_zero_flag(),
            carry: self.get_carry_flag(),
            bcd_h: self.get_bcd_h_flag(),
            bcd_n: self.get_bcd_n_flag(),
            halted: self.halted,
        }
    }
}

} // verus!
