//! The arithmetic and logic unit: the 8- and 16-bit arithmetic, logic,
//! rotate, shift and bit operations, and the flags they set.
use vstd::prelude::*;

use crate::bits::{lemma_byte_bits, lemma_byte_carry_in, lemma_word_bits};
use crate::bus::{BusAccess, BusModel};
use crate::cpu::{
    cf, hf, nf, pair, reg_val, store_target, target_value, with_c, with_flags, with_h, with_n, with_pair,
    with_reg, with_z, zf, CpuView, CPU,
};
use crate::instruction::{ArithmeticType, DoubleRegType, GenericRegType, Operand, SingleRegType};
use crate::{ErrorView, GbError, same_result};

verus! {

/// The ALU. It holds no state: its operations act on the CPU and the bus.
pub struct ALU;

/// The CPU and bus after an ALU operation, and its result.
pub type AluOutcome<B> = (CpuView, B, Result<(), ErrorView>);

/// The CPU `c`, the bus `b` and the result `r` are those `o` describes.
pub open spec fn alu_is<B>(c: CpuView, b: B, r: Result<(), GbError>, o: AluOutcome<B>) -> bool {
    c == o.0 && b == o.1 && same_result(r, o.2)
}

/// A carry out of bit 3 when adding `l`, `r` and `carry`.
pub open spec fn half_carry(l: u8, r: u8, carry: u8) -> bool {
    (l % 16) + (r % 16) + (carry % 16) > 15
}

/// A borrow from bit 4 when subtracting `r` and `carry` from `l`.
pub open spec fn half_borrow(l: u8, r: u8, carry: u8) -> bool {
    (l % 16) - (r % 16) - (carry % 16) < 0
}

/// A carry out of bit 11 when adding two 16-bit values.
pub open spec fn half_carry16(l: u16, r: u16) -> bool {
    (l % 4096) + (r % 4096) > 4095
}

/// The second operand of an 8-bit operation.
pub open spec fn operand_value<B: BusModel>(o: Operand, c: CpuView, bus: B) -> Result<u8, ErrorView> {
    match o {
        Operand::Imm(v) => Ok(v),
        Operand::Reg(r) => Ok(reg_val(c, r)),
        Operand::RegAddr(p) => bus.byte_at(pair(c, p)),
    }
}

/// The ALU operations that would panic are the bit operations on a bit
/// number of 8 or more; the decoder yields none.
pub open spec fn alu_op_ok(op: ArithmeticType) -> bool {
    match op {
        ArithmeticType::TestBit(_, b) => b < 8,
        ArithmeticType::SetBit(_, b) => b < 8,
        ArithmeticType::ResetBit(_, b) => b < 8,
        _ => true,
    }
}

/// ADD and ADC: `dst += src (+ carry)`.
pub open spec fn add_spec<B: BusModel>(c: CpuView, bus: B, dst: SingleRegType, src: Operand, with_carry: bool) -> AluOutcome<B> {
    match operand_value(src, c, bus) {
        Err(e) => (c, bus, Err(e)),
        Ok(right) => {
            let left = reg_val(c, dst);
            let carry: u8 = if with_carry && cf(c) { 1 } else { 0 };
            let ext = left + right + carry;
            let res = (ext % 256) as u8;
            (with_reg(with_flags(c, res == 0, false, half_carry(left, right, carry), ext > 255), dst, res), bus, Ok(()))
        },
    }
}

/// SUB and SBC: `dst -= src (+ carry)`.
pub open spec fn sub_spec<B: BusModel>(c: CpuView, bus: B, dst: SingleRegType, src: Operand, with_carry: bool) -> AluOutcome<B> {
    match operand_value(src, c, bus) {
        Err(e) => (c, bus, Err(e)),
        Ok(right) => {
            let left = reg_val(c, dst);
            let carry: u8 = if with_carry && cf(c) { 1 } else { 0 };
            let diff = left - right - carry;
            let res = ((diff + 512) % 256) as u8;
            (with_reg(with_flags(c, res == 0, true, half_borrow(left, right, carry), diff < 0), dst, res), bus, Ok(()))
        },
    }
}

/// CP: the flags of `dst - src`, with `dst` kept.
pub open spec fn cp_spec<B: BusModel>(c: CpuView, bus: B, dst: SingleRegType, src: Operand) -> AluOutcome<B> {
    match operand_value(src, c, bus) {
        Err(e) => (c, bus, Err(e)),
        Ok(right) => {
            let left = reg_val(c, dst);
            let res = ((left - right + 256) % 256) as u8;
            (with_flags(c, res == 0, true, half_borrow(left, right, 0), left < right), bus, Ok(()))
        },
    }
}

/// AND, OR and XOR: `dst = dst op src`; H is set by AND only.
pub open spec fn logic_spec<B: BusModel>(c: CpuView, bus: B, dst: SingleRegType, src: Operand, kind: u8) -> AluOutcome<B> {
    match operand_value(src, c, bus) {
        Err(e) => (c, bus, Err(e)),
        Ok(right) => {
            let left = reg_val(c, dst);
            let res = if kind == 0 { left & right } else if kind == 1 { left | right } else { left ^ right };
            (with_reg(with_flags(c, res == 0, false, kind == 0, false), dst, res), bus, Ok(()))
        },
    }
}

/// The flags of an 8-bit increment of `v`; the carry flag is kept.
pub open spec fn inc8_flags(c: CpuView, v: u8) -> CpuView {
    with_flags(c, (v + 1) % 256 == 0, false, half_carry(v, 1, 0), cf(c))
}

/// The flags of an 8-bit decrement of `v`; the carry flag is kept.
pub open spec fn dec8_flags(c: CpuView, v: u8) -> CpuView {
    with_flags(c, (v + 255) % 256 == 0, true, half_borrow(v, 1, 0), cf(c))
}

/// INC: an 8-bit register (with flags) or a register pair (without).
pub open spec fn inc_spec(c: CpuView, t: GenericRegType) -> CpuView {
    match t {
        GenericRegType::Single(r) => with_reg(inc8_flags(c, reg_val(c, r)), r, ((reg_val(c, r) + 1) % 256) as u8),
        GenericRegType::Double(p) => with_pair(c, p, ((pair(c, p) + 1) % 65536) as u16),
    }
}

/// DEC: an 8-bit register (with flags) or a register pair (without).
pub open spec fn dec_spec(c: CpuView, t: GenericRegType) -> CpuView {
    match t {
        GenericRegType::Single(r) => with_reg(dec8_flags(c, reg_val(c, r)), r, ((reg_val(c, r) + 255) % 256) as u8),
        GenericRegType::Double(p) => with_pair(c, p, ((pair(c, p) + 65535) % 65536) as u16),
    }
}

/// INC and DEC of the byte a register pair points at.
pub open spec fn step_addr_spec<B: BusModel>(c: CpuView, bus: B, p: DoubleRegType, up: bool) -> AluOutcome<B> {
    let addr = pair(c, p);
    match bus.byte_at(addr) {
        Err(e) => (c, bus, Err(e)),
        Ok(v) => {
            let res: u8 = if up { ((v + 1) % 256) as u8 } else { ((v + 255) % 256) as u8 };
            let c2 = if up { inc8_flags(c, v) } else { dec8_flags(c, v) };
            (c2, bus.after_write(addr, res), bus.write_result(addr, res))
        },
    }
}

/// ADD HL-style 16-bit addition: Z is kept.
pub open spec fn add16_spec(c: CpuView, dst: DoubleRegType, src: DoubleRegType) -> CpuView {
    let l = pair(c, dst);
    let r = pair(c, src);
    with_pair(with_flags(c, zf(c), false, half_carry16(l, r), l + r > 65535), dst, ((l + r) % 65536) as u16)
}

/// An 8-bit offset sign-extended to 16 bits.
pub open spec fn sext(offset: i8) -> u16 {
    if offset < 0 { (offset + 65536) as u16 } else { offset as u16 }
}

/// ADD SP, offset: flags from the unsigned addition of the low byte.
pub open spec fn add_sp_spec(c: CpuView, offset: i8) -> CpuView {
    let a = c.sp;
    let b = sext(offset);
    CpuView {
        sp: ((a + b) % 65536) as u16,
        ..with_flags(c, false, false, (a % 16) + (b % 16) > 15, (a % 256) + (b % 256) > 255)
    }
}

/// The outcome of an operation that reads a target, computes a result and
/// flags from it, and stores the result back.
pub open spec fn rmw_spec<B: BusModel>(c: CpuView, bus: B, t: GenericRegType, res: spec_fn(u8) -> u8, flags: spec_fn(CpuView, u8) -> CpuView) -> AluOutcome<B> {
    match target_value(t, c, bus) {
        Err(e) => (c, bus, Err(e)),
        Ok(v) => store_target(t, flags(c, v), bus, res(v)),
    }
}

pub open spec fn rlc_val(v: u8) -> u8 {
    ((v * 2) % 256 + v / 128) as u8
}

pub open spec fn rrc_val(v: u8) -> u8 {
    (v / 2 + (v % 2) * 128) as u8
}

pub open spec fn swap_val(v: u8) -> u8 {
    ((v % 16) * 16 + v / 16) as u8
}

/// Z after a rotation: cleared by the one-byte rotations of A, else set
/// when the result is 0.
pub open spec fn rot_z(clear_z: bool, res: u8) -> bool {
    if clear_z { false } else { res == 0 }
}

/// Whether DAA adjusts upward by 0x60 (and sets the carry): after an
/// addition (N clear) with the carry set or a value above 0x99.
pub open spec fn da_up(v: u8, n: bool, cy: bool) -> bool {
    !n && (cy || v > 0x99)
}

/// The value DAA leaves: after an addition, +0x60 when adjusting upward
/// and then +6 when H is set or the low nibble exceeds 9; after a
/// subtraction, -0x60 when C is set and -6 when H is set; all modulo 256.
pub open spec fn da_value(v: u8, n: bool, cy: bool, h: bool) -> u8 {
    if !n {
        let v1: u8 = if da_up(v, n, cy) { ((v + 0x60) % 256) as u8 } else { v };
        if h || v1 % 16 > 9 { ((v1 + 6) % 256) as u8 } else { v1 }
    } else {
        let v1: u8 = if cy { ((v + 256 - 0x60) % 256) as u8 } else { v };
        if h { ((v1 + 256 - 6) % 256) as u8 } else { v1 }
    }
}

/// DAA: the decimal adjustment of `src` after a BCD addition or
/// subtraction; the carry is set by an upward adjustment and never
/// cleared, H is kept, N is cleared, Z tells whether the result is 0.
pub open spec fn da_spec(c: CpuView, src: SingleRegType) -> CpuView {
    let v = da_value(reg_val(c, src), nf(c), cf(c), hf(c));
    let c1 = if da_up(reg_val(c, src), nf(c), cf(c)) { with_c(c, true) } else { c };
    with_n(with_z(with_reg(c1, src, v), v == 0), false)
}

/// What an ALU operation does to the CPU and the bus, and its result.
pub open spec fn alu_spec<B: BusModel>(op: ArithmeticType, c: CpuView, bus: B) -> AluOutcome<B> {
    match op {
        ArithmeticType::Add(dst, src) => add_spec(c, bus, dst, src, false),
        ArithmeticType::Adc(dst, src) => add_spec(c, bus, dst, src, true),
        ArithmeticType::Add16(dst, src) => (add16_spec(c, dst, src), bus, Ok(())),
        ArithmeticType::AddSP(offset) => (add_sp_spec(c, offset), bus, Ok(())),
        ArithmeticType::Sub(dst, src) => sub_spec(c, bus, dst, src, false),
        ArithmeticType::Sbc(dst, src) => sub_spec(c, bus, dst, src, true),
        ArithmeticType::Inc(t) => (inc_spec(c, t), bus, Ok(())),
        ArithmeticType::IncAddr(p) => step_addr_spec(c, bus, p, true),
        ArithmeticType::DecAddr(p) => step_addr_spec(c, bus, p, false),
        ArithmeticType::Dec(t) => (dec_spec(c, t), bus, Ok(())),
        ArithmeticType::Cmp(dst, src) => cp_spec(c, bus, dst, src),
        ArithmeticType::Rlc(t, clear_z) => rmw_spec(
            c,
            bus,
            t,
            |v: u8| rlc_val(v),
            |c: CpuView, v: u8| with_flags(c, rot_z(clear_z, rlc_val(v)), false, false, v >= 128),
        ),
        ArithmeticType::Rl(t, clear_z) => {
            let cin: u8 = if cf(c) { 1 } else { 0 };
            rmw_spec(
                c,
                bus,
                t,
                |v: u8| ((v * 2) % 256 + cin) as u8,
                |c: CpuView, v: u8| with_flags(c, rot_z(clear_z, ((v * 2) % 256 + cin) as u8), false, false, v >= 128),
            )
        },
        ArithmeticType::Rrc(t, clear_z) => rmw_spec(
            c,
            bus,
            t,
            |v: u8| rrc_val(v),
            |c: CpuView, v: u8| with_flags(c, rot_z(clear_z, rrc_val(v)), false, false, v % 2 == 1),
        ),
        ArithmeticType::Rr(t, clear_z) => {
            let cin: u8 = if cf(c) { 128 } else { 0 };
            rmw_spec(
                c,
                bus,
                t,
                |v: u8| (v / 2 + cin) as u8,
                |c: CpuView, v: u8| with_flags(c, rot_z(clear_z, (v / 2 + cin) as u8), false, false, v % 2 == 1),
            )
        },
        ArithmeticType::Sla(t) => rmw_spec(
            c,
            bus,
            t,
            |v: u8| ((v * 2) % 256) as u8,
            |c: CpuView, v: u8| with_flags(c, (v * 2) % 256 == 0, false, false, v >= 128),
        ),
        ArithmeticType::Sra(t) => rmw_spec(
            c,
            bus,
            t,
            |v: u8| (v / 2 + (if v >= 128 { 128int } else { 0int })) as u8,
            |c: CpuView, v: u8| with_flags(c, v / 2 + (if v >= 128 { 128int } else { 0int }) == 0, false, false, v % 2 == 1),
        ),
        ArithmeticType::Srl(t) => rmw_spec(
            c,
            bus,
            t,
            |v: u8| (v / 2) as u8,
            |c: CpuView, v: u8| with_flags(c, v / 2 == 0, false, false, v % 2 == 1),
        ),
        ArithmeticType::TestBit(t, bit) => match target_value(t, c, bus) {
            Err(e) => (c, bus, Err(e)),
            Ok(v) => (with_flags(c, v & (1u8 << bit) == 0, false, true, cf(c)), bus, Ok(())),
        },
        ArithmeticType::ResetBit(t, bit) => rmw_spec(
            c,
            bus,
            t,
            |v: u8| v & !(1u8 << bit),
            |c: CpuView, v: u8| c,
        ),
        ArithmeticType::SetBit(t, bit) => rmw_spec(
            c,
            bus,
            t,
            |v: u8| v | (1u8 << bit),
            |c: CpuView, v: u8| c,
        ),
        ArithmeticType::And(dst, src) => logic_spec(c, bus, dst, src, 0),
        ArithmeticType::Or(dst, src) => logic_spec(c, bus, dst, src, 1),
        ArithmeticType::Xor(dst, src) => logic_spec(c, bus, dst, src, 2),
        ArithmeticType::Cpl(r) => (with_h(with_n(with_reg(c, r, !reg_val(c, r)), true), true), bus, Ok(())),
        ArithmeticType::Swap(t) => rmw_spec(
            c,
            bus,
            t,
            |v: u8| swap_val(v),
            |c: CpuView, v: u8| with_flags(c, swap_val(v) == 0, false, false, false),
        ),
        ArithmeticType::Da(r) => (da_spec(c, r), bus, Ok(())),
    }
}

proof fn lemma_low_nibble(x: u8)
    ensures
        x & 0x0F == x % 16,
        x & 0x0F <= 15,
{
    lemma_byte_bits(x);
}

proof fn lemma_low_12(x: u16)
    ensures
        x & 0x0FFF == x % 4096,
{
    lemma_word_bits(x);
}

impl ALU {
    /// Carries out an ALU operation on the CPU and the bus.
    #[verifier::rlimit(60)]
    #[verifier::spinoff_prover]
    pub fn exec<B: BusAccess>(op: &ArithmeticType, cpu: &mut CPU, bus: &mut B) -> (r: Result<(), GbError>)
        requires
            old(bus).inv(),
            alu_op_ok(*op),
        ensures
            final(bus).inv(),
            alu_is(final(cpu)@, final(bus).model(), r, alu_spec(*op, old(cpu)@, old(bus).model())),
    {
        match op {
            ArithmeticType::Add(dst, src) => ALU::add(cpu, bus, dst, src, false),
            ArithmeticType::Add16(dst, src) => {
                ALU::add16(cpu, dst, src);
                Ok(())
            },
            ArithmeticType::AddSP(offset) => {
                ALU::add_sp(cpu, *offset);
                Ok(())
            },
            ArithmeticType::Adc(dst, src) => ALU::add(cpu, bus, dst, src, true),
            ArithmeticType::Sub(dst, src) => ALU::sub(cpu, bus, dst, src, false),
            ArithmeticType::Sbc(dst, src) => ALU::sub(cpu, bus, dst, src, true),
            ArithmeticType::Inc(dst) => {
                ALU::inc(cpu, dst);
                Ok(())
            },
            ArithmeticType::IncAddr(src) => ALU::inc_addr(cpu, bus, src),
            ArithmeticType::DecAddr(src) => ALU::dec_addr(cpu, bus, src),
            ArithmeticType::Dec(dst) => {
                ALU::dec(cpu, dst);
                Ok(())
            },
            ArithmeticType::Cmp(dst, src) => ALU::cp(cpu, bus, dst, src),
            ArithmeticType::Rlc(reg, clear_z_flag) => ALU::rlc(cpu, bus, reg, *clear_z_flag),
            ArithmeticType::Rl(reg, clear_z_flag) => ALU::rl(cpu, bus, reg, *clear_z_flag),
            ArithmeticType::Rrc(reg, clear_z_flag) => ALU::rrc(cpu, bus, reg, *clear_z_flag),
            ArithmeticType::Rr(reg, clear_z_flag) => ALU::rr(cpu, bus, reg, *clear_z_flag),
            ArithmeticType::Sla(reg) => ALU::sla(cpu, bus, reg),
            ArithmeticType::Sra(reg) => ALU::sra(cpu, bus, reg),
            ArithmeticType::Srl(reg) => ALU::srl(cpu, bus, reg),
            ArithmeticType::TestBit(src, bit) => ALU::test_bit(cpu, bus, src, *bit),
            ArithmeticType::ResetBit(src, bit) => ALU::reset_bit(cpu, bus, src, *bit),
            ArithmeticType::SetBit(src, bit) => ALU::set_bit(cpu, bus, src, *bit),
            ArithmeticType::And(dst, src) => ALU::and(cpu, bus, dst, src),
            ArithmeticType::Or(dst, src) => ALU::or(cpu, bus, dst, src),
            ArithmeticType::Xor(dst, src) => ALU::xor(cpu, bus, dst, src),
            ArithmeticType::Cpl(reg) => {
                ALU::cpl(cpu, reg);
                Ok(())
            },
            ArithmeticType::Swap(reg) => ALU::swap(cpu, bus, reg),
            ArithmeticType::Da(reg) => {
                ALU::da(cpu, reg);
                Ok(())
            },
        }
    }

    fn val_from_operand<B: BusAccess>(operand_type: &Operand, cpu: &CPU, bus: &B) -> (r: Result<u8, GbError>)
        requires
            bus.inv(),
        ensures
            same_result(r, operand_value(*operand_type, cpu@, bus.model())),
    {
        let cmp_val = match operand_type {
            Operand::Imm(v) => *v,
            Operand::Reg(src) => cpu.read_single_reg(src),
            Operand::RegAddr(src) => bus.read_byte(cpu.read_double_reg(src))?,
        };
        Ok(cmp_val)
    }

    fn dec8(cpu: &mut CPU, value: u8) -> (r: u8)
        ensures
            r == (value + 255) % 256,
            final(cpu)@ == dec8_flags(old(cpu)@, value),
    {
        let result = value.wrapping_sub(1);
        let h = ALU::check_h_carry_sub(value, 1, 0);
        let c = cpu.get_carry_flag();
        cpu.set_flags(result == 0, true, h, c);
        result
    }

    fn dec(cpu: &mut CPU, reg: &GenericRegType)
        ensures
            final(cpu)@ == dec_spec(old(cpu)@, *reg),
    {
        match reg {
            GenericRegType::Single(reg) => {
                let value = cpu.read_single_reg(reg);
                let result = ALU::dec8(cpu, value);
                cpu.write_single_reg(reg, result);
            },
            GenericRegType::Double(reg) => {
                let v = cpu.read_double_reg(reg).wrapping_sub(1);
                cpu.write_double_reg(reg, v)
            },
        }
    }

    fn dec_addr<B: BusAccess>(cpu: &mut CPU, bus: &mut B, reg: &DoubleRegType) -> (r: Result<(), GbError>)
        requires
            old(bus).inv(),
        ensures
            final(bus).inv(),
            alu_is(final(cpu)@, final(bus).model(), r, step_addr_spec(old(cpu)@, old(bus).model(), *reg, false)),
    {
        let addr = cpu.read_double_reg(reg);
        let val = bus.read_byte(addr)?;
        let result = ALU::dec8(cpu, val);
        bus.write_byte(addr, result)
    }

    fn inc8(cpu: &mut CPU, value: u8) -> (r: u8)
        ensures
            r == (value + 1) % 256,
            final(cpu)@ == inc8_flags(old(cpu)@, value),
    {
        let result = value.wrapping_add(1);
        let h = ALU::check_h_carry_sum(value, 1, 0);
        let c = cpu.get_carry_flag();
        cpu.set_flags(result == 0, false, h, c);
        result
    }

    fn inc(cpu: &mut CPU, reg: &GenericRegType)
        ensures
            final(cpu)@ == inc_spec(old(cpu)@, *reg),
    {
        match reg {
            GenericRegType::Single(reg) => {
                let value = cpu.read_single_reg(reg);
                let result = ALU::inc8(cpu, value);
                cpu.write_single_reg(reg, result);
            },
            GenericRegType::Double(reg) => {
                let v = cpu.read_double_reg(reg).wrapping_add(1);
                cpu.write_double_reg(reg, v)
            },
        }
    }

    fn inc_addr<B: BusAccess>(cpu: &mut CPU, bus: &mut B, reg: &DoubleRegType) -> (r: Result<(), GbError>)
        requires
            old(bus).inv(),
        ensures
            final(bus).inv(),
            alu_is(final(cpu)@, final(bus).model(), r, step_addr_spec(old(cpu)@, old(bus).model(), *reg, true)),
    {
        let addr = cpu.read_double_reg(reg);
        let val = bus.read_byte(addr)?;
        let result = ALU::inc8(cpu, val);
        bus.write_byte(addr, result)
    }

    fn add<B: BusAccess>(cpu: &mut CPU, bus: &B, dst: &SingleRegType, src: &Operand, with_carry: bool) -> (r: Result<(), GbError>)
        requires
            bus.inv(),
        ensures
            alu_is(final(cpu)@, bus.model(), r, add_spec(old(cpu)@, bus.model(), *dst, *src, with_carry)),
    {
        let left = cpu.read_single_reg(dst);
        let right = ALU::val_from_operand(src, cpu, bus)?;
        let carry: u8 = if with_carry && cpu.get_carry_flag() { 1 } else { 0 };
        let result_ext: u16 = left as u16 + right as u16 + carry as u16;
        let result = (result_ext % 256) as u8;
        let h = ALU::check_h_carry_sum(left, right, carry);
        proof {
            assert((result_ext & 0xFF00 != 0) == (result_ext > 255)) by (bit_vector)
                requires
                    result_ext <= 511,
            ;
        }
        cpu.set_flags(result == 0, false, h, result_ext & 0xFF00 != 0);
        cpu.write_single_reg(dst, result);
        Ok(())
    }

    fn add16(cpu: &mut CPU, dst: &DoubleRegType, src: &DoubleRegType)
        ensures
            final(cpu)@ == add16_spec(old(cpu)@, *dst, *src),
    {
        let left = cpu.read_double_reg(dst);
        let right = cpu.read_double_reg(src);
        let result_ext: u32 = left as u32 + right as u32;
        let result = (result_ext % 65536) as u16;
        let z = cpu.get_zero_flag();
        let h = ALU::check_h_carry_sum16(left, right);
        proof {
            assert((result_ext & 0xFFFF0000 != 0) == (result_ext > 65535)) by (bit_vector)
                requires
                    result_ext <= 131071,
            ;
        }
        cpu.set_flags(z, false, h, result_ext & 0xFFFF0000 != 0);
        cpu.write_double_reg(dst, result);
    }

    /// ADD SP, offset: adds a sign-extended offset to the stack pointer.
    pub fn add_sp(cpu: &mut CPU, offset: i8)
        ensures
            final(cpu)@ == add_sp_spec(old(cpu)@, offset),
    {
        let a = cpu.read_sp();
        let b: u16 = if offset < 0 { (offset as i32 + 65536) as u16 } else { offset as u16 };
        proof {
            lemma_word_bits(a);
            lemma_word_bits(b);
        }
        cpu.set_flags(false, false, (a & 0x000F) + (b & 0x000F) > 0x000F, (a & 0x00FF) + (b & 0x00FF) > 0x00FF);
        cpu.write_sp(a.wrapping_add(b));
    }

    fn sub<B: BusAccess>(cpu: &mut CPU, bus: &B, dst: &SingleRegType, src: &Operand, with_carry: bool) -> (r: Result<(), GbError>)
        requires
            bus.inv(),
        ensures
            alu_is(final(cpu)@, bus.model(), r, sub_spec(old(cpu)@, bus.model(), *dst, *src, with_carry)),
    {
        let left = cpu.read_single_reg(dst);
        let right = ALU::val_from_operand(src, cpu, bus)?;
        let carry: u8 = if with_carry && cpu.get_carry_flag() { 1 } else { 0 };
        let result = left.wrapping_sub(right).wrapping_sub(carry);
        let h = ALU::check_h_carry_sub(left, right, carry);
        cpu.set_flags(result == 0, true, h, (left as i16 - right as i16 - carry as i16) < 0);
        cpu.write_single_reg(dst, result);
        Ok(())
    }

    fn and<B: BusAccess>(cpu: &mut CPU, bus: &B, left: &SingleRegType, right: &Operand) -> (r: Result<(), GbError>)
        requires
            bus.inv(),
        ensures
            alu_is(final(cpu)@, bus.model(), r, logic_spec(old(cpu)@, bus.model(), *left, *right, 0)),
    {
        let l = cpu.read_single_reg(left);
        let result = l & ALU::val_from_operand(right, cpu, bus)?;
        cpu.set_flags(result == 0, false, true, false);
        cpu.write_single_reg(left, result);
        Ok(())
    }

    fn or<B: BusAccess>(cpu: &mut CPU, bus: &B, left: &SingleRegType, right: &Operand) -> (r: Result<(), GbError>)
        requires
            bus.inv(),
        ensures
            alu_is(final(cpu)@, bus.model(), r, logic_spec(old(cpu)@, bus.model(), *left, *right, 1)),
    {
        let l = cpu.read_single_reg(left);
        let result = l | ALU::val_from_operand(right, cpu, bus)?;
        cpu.set_flags(result == 0, false, false, false);
        cpu.write_single_reg(left, result);
        Ok(())
    }

    fn xor<B: BusAccess>(cpu: &mut CPU, bus: &B, left: &SingleRegType, right: &Operand) -> (r: Result<(), GbError>)
        requires
            bus.inv(),
        ensures
            alu_is(final(cpu)@, bus.model(), r, logic_spec(old(cpu)@, bus.model(), *left, *right, 2)),
    {
        let l = cpu.read_single_reg(left);
        let result = l ^ ALU::val_from_operand(right, cpu, bus)?;
        cpu.set_flags(result == 0, false, false, false);
        cpu.write_single_reg(left, result);
        Ok(())
    }

    fn swap<B: BusAccess>(cpu: &mut CPU, bus: &mut B, src: &GenericRegType) -> (r: Result<(), GbError>)
        requires
            old(bus).inv(),
        ensures
            final(bus).inv(),
            alu_is(final(cpu)@, final(bus).model(), r, alu_spec(ArithmeticType::Swap(*src), old(cpu)@, old(bus).model())),
    {
        let value = cpu.read_from_reg_or_addr(bus, src)?;
        let high = value & 0b11110000;
        let result = value << 4u8 | high >> 4u8;
        proof {
            lemma_byte_bits(value);
            assert(result == swap_val(value));
        }
        cpu.set_flags(result == 0, false, false, false);
        cpu.write_to_reg_or_addr(bus, src, result)
    }

    #[verifier::spinoff_prover]
    fn da_adjust(v: u8, n: bool, cy: bool, h: bool) -> (r: (u8, bool))
        ensures
            r == (da_value(v, n, cy, h), da_up(v, n, cy)),
    {
        let mut val = v;
        let mut up = false;
        // BCD addition
        if !n {
            if cy || val > 0x99 {
                val = val.wrapping_add(0x60);
                up = true;
            }
            proof {
                lemma_low_nibble(val);
            }
            if h || ((val & 0x0F) > 0x09) {
                val = val.wrapping_add(0x06);
            }
        }
        // BCD subtraction
        else {
            if cy {
                val = val.wrapping_sub(0x60);
            }
            if h {
                val = val.wrapping_sub(0x06);
            }
        }
        (val, up)
    }

    // The decimal adjustment follows https://forums.nesdev.org/viewtopic.php?t=15944
    fn da(cpu: &mut CPU, src: &SingleRegType)
        ensures
            final(cpu)@ == da_spec(old(cpu)@, *src),
    {
        let v = cpu.read_single_reg(src);
        let (val, up) = ALU::da_adjust(v, cpu.get_bcd_n_flag(), cpu.get_carry_flag(), cpu.get_bcd_h_flag());
        if up {
            cpu.set_carry_flag(true);
        }
        cpu.write_single_reg(src, val);
        cpu.set_zero_flag(val == 0);
        cpu.set_bcd_n_flag(false);
    }

    fn cpl(cpu: &mut CPU, reg: &SingleRegType)
        ensures
            final(cpu)@ == with_h(with_n(with_reg(old(cpu)@, *reg, !reg_val(old(cpu)@, *reg)), true), true),
    {
        let v = !cpu.read_single_reg(reg);
        cpu.write_single_reg(reg, v);
        cpu.set_bcd_n_flag(true);
        cpu.set_bcd_h_flag(true);
    }

    fn rlc<B: BusAccess>(cpu: &mut CPU, bus: &mut B, src: &GenericRegType, clear_z_flag: bool) -> (r: Result<(), GbError>)
        requires
            old(bus).inv(),
        ensures
            final(bus).inv(),
            alu_is(final(cpu)@, final(bus).model(), r, alu_spec(ArithmeticType::Rlc(*src, clear_z_flag), old(cpu)@, old(bus).model())),
    {
        let value = cpu.read_from_reg_or_addr(bus, src)?;
        let carry_out = (value & 0b10000000) != 0;
        let result = value << 1u8 | value >> 7u8;
        proof {
            lemma_byte_bits(value);
            assert(result == rlc_val(value));
            assert(carry_out == (value >= 128));
        }
        let z_flag = if clear_z_flag { false } else { result == 0 };
        cpu.set_flags(z_flag, false, false, carry_out);
        cpu.write_to_reg_or_addr(bus, src, result)
    }

    fn rl<B: BusAccess>(cpu: &mut CPU, bus: &mut B, src: &GenericRegType, clear_z_flag: bool) -> (r: Result<(), GbError>)
        requires
            old(bus).inv(),
        ensures
            final(bus).inv(),
            alu_is(final(cpu)@, final(bus).model(), r, alu_spec(ArithmeticType::Rl(*src, clear_z_flag), old(cpu)@, old(bus).model())),
    {
        let value = cpu.read_from_reg_or_addr(bus, src)?;
        let carry_out = (value & 0b10000000) != 0;
        let cin: u8 = if cpu.get_carry_flag() { 1 } else { 0 };
        let result = value << 1u8 | cin;
        proof {
            lemma_byte_carry_in(value, cin);
            assert(result == ((value * 2) % 256 + cin) as u8);
            lemma_byte_bits(value);
            assert(carry_out == (value >= 128));
        }
        let z_flag = if clear_z_flag { false } else { result == 0 };
        cpu.set_flags(z_flag, false, false, carry_out);
        cpu.write_to_reg_or_addr(bus, src, result)
    }

    fn rrc<B: BusAccess>(cpu: &mut CPU, bus: &mut B, src: &GenericRegType, clear_z_flag: bool) -> (r: Result<(), GbError>)
        requires
            old(bus).inv(),
        ensures
            final(bus).inv(),
            alu_is(final(cpu)@, final(bus).model(), r, alu_spec(ArithmeticType::Rrc(*src, clear_z_flag), old(cpu)@, old(bus).model())),
    {
        let value = cpu.read_from_reg_or_addr(bus, src)?;
        let carry_out = (value & 0b00000001) != 0;
        let result = value >> 1u8 | value << 7u8;
        proof {
            lemma_byte_bits(value);
            assert(result == rrc_val(value));
            assert(carry_out == (value % 2 == 1));
        }
        let z_flag = if clear_z_flag { false } else { result == 0 };
        cpu.set_flags(z_flag, false, false, carry_out);
        cpu.write_to_reg_or_addr(bus, src, result)
    }

    fn rr<B: BusAccess>(cpu: &mut CPU, bus: &mut B, src: &GenericRegType, clear_z_flag: bool) -> (r: Result<(), GbError>)
        requires
            old(bus).inv(),
        ensures
            final(bus).inv(),
            alu_is(final(cpu)@, final(bus).model(), r, alu_spec(ArithmeticType::Rr(*src, clear_z_flag), old(cpu)@, old(bus).model())),
    {
        let value = cpu.read_from_reg_or_addr(bus, src)?;
        let carry_out = (value & 0b00000001) != 0;
        let cin: u8 = if cpu.get_carry_flag() { 1 } else { 0 };
        let result = value >> 1u8 | cin << 7u8;
        proof {
            lemma_byte_carry_in(value, cin);
            assert(result == (value / 2 + cin * 128) as u8);
            lemma_byte_bits(value);
            assert(carry_out == (value % 2 == 1));
        }
        let z_flag = if clear_z_flag { false } else { result == 0 };
        cpu.set_flags(z_flag, false, false, carry_out);
        cpu.write_to_reg_or_addr(bus, src, result)
    }

    fn sla<B: BusAccess>(cpu: &mut CPU, bus: &mut B, src: &GenericRegType) -> (r: Result<(), GbError>)
        requires
            old(bus).inv(),
        ensures
            final(bus).inv(),
            alu_is(final(cpu)@, final(bus).model(), r, alu_spec(ArithmeticType::Sla(*src), old(cpu)@, old(bus).model())),
    {
        let value = cpu.read_from_reg_or_addr(bus, src)?;
        let will_carry = value & 0b10000000 != 0;
        let result = value << 1u8;
        proof {
            lemma_byte_bits(value);
            assert(result == ((value * 2) % 256) as u8);
            assert(will_carry == (value >= 128));
        }
        cpu.set_flags(result == 0, false, false, will_carry);
        cpu.write_to_reg_or_addr(bus, src, result)
    }

    fn srl<B: BusAccess>(cpu: &mut CPU, bus: &mut B, src: &GenericRegType) -> (r: Result<(), GbError>)
        requires
            old(bus).inv(),
        ensures
            final(bus).inv(),
            alu_is(final(cpu)@, final(bus).model(), r, alu_spec(ArithmeticType::Srl(*src), old(cpu)@, old(bus).model())),
    {
        let value = cpu.read_from_reg_or_addr(bus, src)?;
        let will_carry = value & 0b00000001 != 0;
        let result = value >> 1u8;
        proof {
            lemma_byte_bits(value);
            assert(result == value / 2);
            assert(will_carry == (value % 2 == 1));
        }
        cpu.set_flags(result == 0, false, false, will_carry);
        cpu.write_to_reg_or_addr(bus, src, result)
    }

    fn sra<B: BusAccess>(cpu: &mut CPU, bus: &mut B, src: &GenericRegType) -> (r: Result<(), GbError>)
        requires
            old(bus).inv(),
        ensures
            final(bus).inv(),
            alu_is(final(cpu)@, final(bus).model(), r, alu_spec(ArithmeticType::Sra(*src), old(cpu)@, old(bus).model())),
    {
        let value = cpu.read_from_reg_or_addr(bus, src)?;
        let will_carry = value & 0b00000001 != 0;
        // shift right and keep bit 7 unchanged
        let result = value >> 1u8 | value & 0b10000000;
        proof {
            lemma_byte_bits(value);
            assert(result == value / 2 + (if value >= 128 { 128u8 } else { 0u8 }));
            assert(will_carry == (value % 2 == 1));
        }
        cpu.set_flags(result == 0, false, false, will_carry);
        cpu.write_to_reg_or_addr(bus, src, result)
    }

    fn test_bit<B: BusAccess>(cpu: &mut CPU, bus: &B, src: &GenericRegType, bit: u8) -> (r: Result<(), GbError>)
        requires
            bus.inv(),
            bit < 8,
        ensures
            alu_is(final(cpu)@, bus.model(), r, alu_spec(ArithmeticType::TestBit(*src, bit), old(cpu)@, bus.model())),
    {
        let value = cpu.read_from_reg_or_addr(bus, src)?;
        let mask = 0b1u8 << bit;
        let c = cpu.get_carry_flag();
        cpu.set_flags(value & mask == 0, false, true, c);
        Ok(())
    }

    fn reset_bit<B: BusAccess>(cpu: &mut CPU, bus: &mut B, src: &GenericRegType, bit: u8) -> (r: Result<(), GbError>)
        requires
            old(bus).inv(),
            bit < 8,
        ensures
            final(bus).inv(),
            alu_is(final(cpu)@, final(bus).model(), r, alu_spec(ArithmeticType::ResetBit(*src, bit), old(cpu)@, old(bus).model())),
    {
        let value = cpu.read_from_reg_or_addr(bus, src)?;
        let mask = !(0b1u8 << bit);
        cpu.write_to_reg_or_addr(bus, src, value & mask)
    }

    fn set_bit<B: BusAccess>(cpu: &mut CPU, bus: &mut B, src: &GenericRegType, bit: u8) -> (r: Result<(), GbError>)
        requires
            old(bus).inv(),
            bit < 8,
        ensures
            final(bus).inv(),
            alu_is(final(cpu)@, final(bus).model(), r, alu_spec(ArithmeticType::SetBit(*src, bit), old(cpu)@, old(bus).model())),
    {
        let value = cpu.read_from_reg_or_addr(bus, src)?;
        let mask = 0b1u8 << bit;
        cpu.write_to_reg_or_addr(bus, src, value | mask)
    }

    fn cp<B: BusAccess>(cpu: &mut CPU, bus: &B, dst: &SingleRegType, src: &Operand) -> (r: Result<(), GbError>)
        requires
            bus.inv(),
        ensures
            alu_is(final(cpu)@, bus.model(), r, cp_spec(old(cpu)@, bus.model(), *dst, *src)),
    {
        let left = cpu.read_single_reg(dst);
        let right = ALU::val_from_operand(src, cpu, bus)?;
        let result = left.wrapping_sub(right);
        let h = ALU::check_h_carry_sub(left, right, 0);
        cpu.set_flags(result == 0, true, h, (left as i16 - right as i16) < 0);
        Ok(())
    }

    /// Whether adding `lv`, `rv` and `carry` carries out of bit 3.
    pub fn check_h_carry_sum(lv: u8, rv: u8, carry: u8) -> (r: bool)
        ensures
            r == half_carry(lv, rv, carry),
    {
        proof {
            lemma_low_nibble(lv);
            lemma_low_nibble(rv);
            lemma_low_nibble(carry);
        }
        ((lv & 0x0F) + (rv & 0x0F) + (carry & 0x0F)) > 0x0F
    }

    /// Whether adding two 16-bit values carries out of bit 11.
    pub fn check_h_carry_sum16(lv: u16, rv: u16) -> (r: bool)
        ensures
            r == half_carry16(lv, rv),
    {
        proof {
            lemma_low_12(lv);
            lemma_low_12(rv);
        }
        ((lv & 0x0FFF) + (rv & 0x0FFF)) > 0x0FFF
    }

    /// Whether subtracting `rv` and `carry` from `lv` borrows from bit 4.
    pub fn check_h_carry_sub(lv: u8, rv: u8, carry: u8) -> (r: bool)
        ensures
            r == half_borrow(lv, rv, carry),
    {
        proof {
            lemma_low_nibble(lv);
            lemma_low_nibble(rv);
            lemma_low_nibble(carry);
        }
        (lv & 0x0F).wrapping_sub(rv & 0x0F).wrapping_sub(carry & 0x0F) > 0x0F
    }
}

/// Whether an operation reaches the bus: an operand read through a pair,
/// INC/DEC of the byte a pair points at, or a rotation, shift, swap or bit
/// operation on such a byte.
pub open spec fn alu_uses_bus(op: ArithmeticType) -> bool {
    match op {
        ArithmeticType::Add(_, src) => src is RegAddr,
        ArithmeticType::Adc(_, src) => src is RegAddr,
        ArithmeticType::Sub(_, src) => src is RegAddr,
        ArithmeticType::Sbc(_, src) => src is RegAddr,
        ArithmeticType::Cmp(_, src) => src is RegAddr,
        ArithmeticType::And(_, src) => src is RegAddr,
        ArithmeticType::Or(_, src) => src is RegAddr,
        ArithmeticType::Xor(_, src) => src is RegAddr,
        ArithmeticType::IncAddr(_) => true,
        ArithmeticType::DecAddr(_) => true,
        ArithmeticType::Rl(t, _) => t is Double,
        ArithmeticType::Rlc(t, _) => t is Double,
        ArithmeticType::Rr(t, _) => t is Double,
        ArithmeticType::Rrc(t, _) => t is Double,
        ArithmeticType::Sla(t) => t is Double,
        ArithmeticType::Sra(t) => t is Double,
        ArithmeticType::Srl(t) => t is Double,
        ArithmeticType::Swap(t) => t is Double,
        ArithmeticType::TestBit(t, _) => t is Double,
        ArithmeticType::SetBit(t, _) => t is Double,
        ArithmeticType::ResetBit(t, _) => t is Double,
        _ => false,
    }
}

/// Whether the 8-bit register `r` is one of the pair `p`.
pub open spec fn in_pair(p: DoubleRegType, r: SingleRegType) -> bool {
    match p {
        DoubleRegType::AF => r == SingleRegType::A,
        DoubleRegType::BC => r == SingleRegType::B || r == SingleRegType::C,
        DoubleRegType::DE => r == SingleRegType::D || r == SingleRegType::E,
        DoubleRegType::HL => r == SingleRegType::H || r == SingleRegType::L,
        DoubleRegType::SP => false,
    }
}

/// Whether an operation may write the 8-bit register `r`: its destination
/// register, or a register of its destination pair.
pub open spec fn alu_writes_reg(op: ArithmeticType, r: SingleRegType) -> bool {
    match op {
        ArithmeticType::Inc(GenericRegType::Single(s)) => s == r,
        ArithmeticType::Inc(GenericRegType::Double(p)) => in_pair(p, r),
        ArithmeticType::Dec(GenericRegType::Single(s)) => s == r,
        ArithmeticType::Dec(GenericRegType::Double(p)) => in_pair(p, r),
        ArithmeticType::Add(d, _) => d == r,
        ArithmeticType::Adc(d, _) => d == r,
        ArithmeticType::Sub(d, _) => d == r,
        ArithmeticType::Sbc(d, _) => d == r,
        ArithmeticType::And(d, _) => d == r,
        ArithmeticType::Or(d, _) => d == r,
        ArithmeticType::Xor(d, _) => d == r,
        ArithmeticType::Add16(d, _) => in_pair(d, r),
        ArithmeticType::Rl(t, _) => t == GenericRegType::Single(r),
        ArithmeticType::Rlc(t, _) => t == GenericRegType::Single(r),
        ArithmeticType::Rr(t, _) => t == GenericRegType::Single(r),
        ArithmeticType::Rrc(t, _) => t == GenericRegType::Single(r),
        ArithmeticType::Sla(t) => t == GenericRegType::Single(r),
        ArithmeticType::Sra(t) => t == GenericRegType::Single(r),
        ArithmeticType::Srl(t) => t == GenericRegType::Single(r),
        ArithmeticType::Swap(t) => t == GenericRegType::Single(r),
        ArithmeticType::SetBit(t, _) => t == GenericRegType::Single(r),
        ArithmeticType::ResetBit(t, _) => t == GenericRegType::Single(r),
        ArithmeticType::Cpl(d) => d == r,
        ArithmeticType::Da(d) => d == r,
        _ => false,
    }
}

/// Whether an operation may write SP.
pub open spec fn alu_writes_sp(op: ArithmeticType) -> bool {
    match op {
        ArithmeticType::AddSP(_) => true,
        ArithmeticType::Add16(d, _) => d == DoubleRegType::SP,
        ArithmeticType::Inc(t) => t == GenericRegType::Double(DoubleRegType::SP),
        ArithmeticType::Dec(t) => t == GenericRegType::Double(DoubleRegType::SP),
        _ => false,
    }
}

#[verifier::rlimit(60)]
#[verifier::spinoff_prover]
proof fn lemma_alu_register_op_bus<B: BusModel>(op: ArithmeticType, c: CpuView, bus: B)
    requires
        !alu_uses_bus(op),
        alu_op_ok(op),
    ensures
        alu_spec(op, c, bus).1 == bus,
        alu_spec(op, c, bus).2 is Ok,
        !alu_writes_sp(op) ==> alu_spec(op, c, bus).0.sp == c.sp,
        alu_spec(op, c, bus).0.pc == c.pc,
        alu_spec(op, c, bus).0.halted == c.halted,
        alu_spec(op, c, bus).0.low_power_mode == c.low_power_mode,
{
    match op {
        ArithmeticType::Inc(_) => {},
        ArithmeticType::IncAddr(_) => {},
        ArithmeticType::Dec(_) => {},
        ArithmeticType::DecAddr(_) => {},
        ArithmeticType::Add(_, _) => {},
        ArithmeticType::Adc(_, _) => {},
        ArithmeticType::Add16(_, _) => {},
        ArithmeticType::AddSP(_) => {},
        ArithmeticType::Sub(_, _) => {},
        ArithmeticType::Sbc(_, _) => {},
        ArithmeticType::Cmp(_, _) => {},
        ArithmeticType::Rl(_, _) => {},
        ArithmeticType::Rlc(_, _) => {},
        ArithmeticType::Rr(_, _) => {},
        ArithmeticType::Rrc(_, _) => {},
        ArithmeticType::Sla(_) => {},
        ArithmeticType::Sra(_) => {},
        ArithmeticType::Srl(_) => {},
        ArithmeticType::And(_, _) => {},
        ArithmeticType::Or(_, _) => {},
        ArithmeticType::Xor(_, _) => {},
        ArithmeticType::Cpl(_) => {},
        ArithmeticType::TestBit(_, _) => {},
        ArithmeticType::SetBit(_, _) => {},
        ArithmeticType::ResetBit(_, _) => {},
        ArithmeticType::Swap(_) => {},
        ArithmeticType::Da(_) => {},
    }
}

#[verifier::rlimit(60)]
#[verifier::spinoff_prover]
proof fn lemma_alu_regs_a<B: BusModel>(op: ArithmeticType, c: CpuView, bus: B, r: SingleRegType)
    requires
        op is Inc || op is IncAddr || op is Dec || op is DecAddr || op is Add || op is Adc || op is Add16 || op is AddSP || op is Sub,
        !alu_uses_bus(op),
        alu_op_ok(op),
        !alu_writes_reg(op, r),
    ensures
        reg_val(alu_spec(op, c, bus).0, r) == reg_val(c, r),
{
    match op {
        ArithmeticType::Inc(_) => {},
        ArithmeticType::IncAddr(_) => {},
        ArithmeticType::Dec(_) => {},
        ArithmeticType::DecAddr(_) => {},
        ArithmeticType::Add(_, _) => {},
        ArithmeticType::Adc(_, _) => {},
        ArithmeticType::Add16(_, _) => {},
        ArithmeticType::AddSP(_) => {},
        ArithmeticType::Sub(_, _) => {},
        _ => {},
    }
}

#[verifier::rlimit(60)]
#[verifier::spinoff_prover]
proof fn lemma_alu_regs_b<B: BusModel>(op: ArithmeticType, c: CpuView, bus: B, r: SingleRegType)
    requires
        op is Sbc || op is Cmp || op is And || op is Or || op is Xor || op is Cpl || op is Da,
        !alu_uses_bus(op),
        alu_op_ok(op),
        !alu_writes_reg(op, r),
    ensures
        reg_val(alu_spec(op, c, bus).0, r) == reg_val(c, r),
{
    match op {
        ArithmeticType::Sbc(_, _) => {},
        ArithmeticType::Cmp(_, _) => {},
        ArithmeticType::And(_, _) => {},
        ArithmeticType::Or(_, _) => {},
        ArithmeticType::Xor(_, _) => {},
        ArithmeticType::Cpl(_) => {},
        ArithmeticType::Da(_) => {},
        _ => {},
    }
}

#[verifier::rlimit(60)]
#[verifier::spinoff_prover]
proof fn lemma_alu_regs_c<B: BusModel>(op: ArithmeticType, c: CpuView, bus: B, r: SingleRegType)
    requires
        op is Rl || op is Rlc || op is Rr || op is Rrc || op is Sla,
        !alu_uses_bus(op),
        alu_op_ok(op),
        !alu_writes_reg(op, r),
    ensures
        reg_val(alu_spec(op, c, bus).0, r) == reg_val(c, r),
{
    match op {
        ArithmeticType::Rl(_, _) => {},
        ArithmeticType::Rlc(_, _) => {},
        ArithmeticType::Rr(_, _) => {},
        ArithmeticType::Rrc(_, _) => {},
        ArithmeticType::Sla(_) => {},
        _ => {},
    }
}

#[verifier::rlimit(60)]
#[verifier::spinoff_prover]
proof fn lemma_alu_regs_d<B: BusModel>(op: ArithmeticType, c: CpuView, bus: B, r: SingleRegType)
    requires
        op is Sra || op is Srl || op is Swap || op is TestBit || op is SetBit || op is ResetBit,
        !alu_uses_bus(op),
        alu_op_ok(op),
        !alu_writes_reg(op, r),
    ensures
        reg_val(alu_spec(op, c, bus).0, r) == reg_val(c, r),
{
    match op {
        ArithmeticType::Sra(_) => {},
        ArithmeticType::Srl(_) => {},
        ArithmeticType::Swap(_) => {},
        ArithmeticType::TestBit(_, _) => {},
        ArithmeticType::SetBit(_, _) => {},
        ArithmeticType::ResetBit(_, _) => {},
        _ => {},
    }
}

proof fn lemma_alu_register_op_regs<B: BusModel>(op: ArithmeticType, c: CpuView, bus: B, r: SingleRegType)
    requires
        !alu_uses_bus(op),
        alu_op_ok(op),
        !alu_writes_reg(op, r),
    ensures
        reg_val(alu_spec(op, c, bus).0, r) == reg_val(c, r),
{
    match op {
        ArithmeticType::Inc(_) => lemma_alu_regs_a(op, c, bus, r),
        ArithmeticType::IncAddr(_) => lemma_alu_regs_a(op, c, bus, r),
        ArithmeticType::Dec(_) => lemma_alu_regs_a(op, c, bus, r),
        ArithmeticType::DecAddr(_) => lemma_alu_regs_a(op, c, bus, r),
        ArithmeticType::Add(_, _) => lemma_alu_regs_a(op, c, bus, r),
        ArithmeticType::Adc(_, _) => lemma_alu_regs_a(op, c, bus, r),
        ArithmeticType::Add16(_, _) => lemma_alu_regs_a(op, c, bus, r),
        ArithmeticType::AddSP(_) => lemma_alu_regs_a(op, c, bus, r),
        ArithmeticType::Sub(_, _) => lemma_alu_regs_a(op, c, bus, r),
        ArithmeticType::Sbc(_, _) => lemma_alu_regs_b(op, c, bus, r),
        ArithmeticType::Cmp(_, _) => lemma_alu_regs_b(op, c, bus, r),
        ArithmeticType::And(_, _) => lemma_alu_regs_b(op, c, bus, r),
        ArithmeticType::Or(_, _) => lemma_alu_regs_b(op, c, bus, r),
        ArithmeticType::Xor(_, _) => lemma_alu_regs_b(op, c, bus, r),
        ArithmeticType::Cpl(_) => lemma_alu_regs_b(op, c, bus, r),
        ArithmeticType::Da(_) => lemma_alu_regs_b(op, c, bus, r),
        ArithmeticType::Rl(_, _) => lemma_alu_regs_c(op, c, bus, r),
        ArithmeticType::Rlc(_, _) => lemma_alu_regs_c(op, c, bus, r),
        ArithmeticType::Rr(_, _) => lemma_alu_regs_c(op, c, bus, r),
        ArithmeticType::Rrc(_, _) => lemma_alu_regs_c(op, c, bus, r),
        ArithmeticType::Sla(_) => lemma_alu_regs_c(op, c, bus, r),
        ArithmeticType::Sra(_) => lemma_alu_regs_d(op, c, bus, r),
        ArithmeticType::Srl(_) => lemma_alu_regs_d(op, c, bus, r),
        ArithmeticType::Swap(_) => lemma_alu_regs_d(op, c, bus, r),
        ArithmeticType::TestBit(_, _) => lemma_alu_regs_d(op, c, bus, r),
        ArithmeticType::SetBit(_, _) => lemma_alu_regs_d(op, c, bus, r),
        ArithmeticType::ResetBit(_, _) => lemma_alu_regs_d(op, c, bus, r),
    }
}

/// An operation that does not reach the bus succeeds, leaves the bus as it
/// was, and changes no register but its destination and F (CP and BIT
/// change F alone); PC, HALT and STOP are left as they were.
pub proof fn law_alu_register_ops<B: BusModel>(op: ArithmeticType, c: CpuView, bus: B)
    requires
        !alu_uses_bus(op),
        alu_op_ok(op),
    ensures
        alu_spec(op, c, bus).1 == bus,
        alu_spec(op, c, bus).2 is Ok,
        forall|r: SingleRegType| !alu_writes_reg(op, r) ==> #[trigger] reg_val(alu_spec(op, c, bus).0, r) == reg_val(c, r),
        !alu_writes_sp(op) ==> alu_spec(op, c, bus).0.sp == c.sp,
        alu_spec(op, c, bus).0.pc == c.pc,
        alu_spec(op, c, bus).0.halted == c.halted,
        alu_spec(op, c, bus).0.low_power_mode == c.low_power_mode,
{
    lemma_alu_register_op_bus(op, c, bus);
    assert forall|r: SingleRegType| !alu_writes_reg(op, r) implies #[trigger] reg_val(alu_spec(op, c, bus).0, r)
        == reg_val(c, r) by {
        lemma_alu_register_op_regs(op, c, bus, r);
    }
}

/// Whether a byte holds two decimal digits, one per nibble.
pub open spec fn is_bcd(x: u8) -> bool {
    x / 16 <= 9 && x % 16 <= 9
}

/// The number from 0 to 99 that a byte of two decimal digits stands for.
pub open spec fn bcd_number(x: u8) -> int {
    (x / 16) * 10 + x % 16
}

/// Z and N, written after C, leave C as it was; setting C sets it.
proof fn lemma_z_n_keep_c(f: u8)
    by (bit_vector)
    ensures
        ((f | 0x80) & 0xBF) & 0x10 == f & 0x10,
        ((f & 0x7F) & 0xBF) & 0x10 == f & 0x10,
        (f | 0x10) & 0x10 != 0,
{
}

/// A byte made of the decimal digits `x` and `y` holds two decimal digits
/// and stands for `10 * x + y`.
proof fn lemma_digits(x: int, y: int)
    requires
        0 <= x <= 9,
        0 <= y <= 9,
    ensures
        is_bcd((16 * x + y) as u8),
        bcd_number((16 * x + y) as u8) == 10 * x + y,
{
    let v = (16 * x + y) as u8;
    assert(v == 16 * x + y);
    assert(v / 16 == x);
    assert(v % 16 == y);
}

/// DAA after an addition whose low digits sum to at most 9 and high
/// digits to `h`: the byte itself below 100, else 0x60 more (modulo 256),
/// with the carry set.
proof fn lemma_da_low(res: u8, cy: bool, hc: bool, h: int, l: int)
    requires
        0 <= h <= 18,
        0 <= l <= 9,
        res as int + (if cy { 256int } else { 0 }) == 16 * h + l,
        !hc,
    ensures
        da_value(res, false, cy, hc) == 16 * (h % 10) + l,
        (da_up(res, false, cy) || cy) == (h >= 10),
{
    if h <= 9 {
        assert(res % 16 == l);
    } else {
        let v1 = ((res + 0x60) % 256) as u8;
        assert(v1 == 16 * (h - 10) + l);
        assert(v1 % 16 == l);
    }
}

/// DAA after an addition whose low digits sum to 10 to 15 (no half carry)
/// and high digits to `h`: one more in the high digit, 10 less in the low
/// one, modulo 100, with the carry set from 100 on.
proof fn lemma_da_mid(res: u8, cy: bool, hc: bool, h: int, l: int)
    requires
        0 <= h <= 18,
        10 <= l <= 15,
        res as int + (if cy { 256int } else { 0 }) == 16 * h + l,
        !hc,
    ensures
        da_value(res, false, cy, hc) == 16 * ((h + 1) % 10) + (l - 10),
        (da_up(res, false, cy) || cy) == (h + 1 >= 10),
{
    if h <= 8 {
        assert(res % 16 == l);
    } else if h == 9 {
        assert(res == 144 + l);
        let v1 = ((res + 0x60) % 256) as u8;
        assert(v1 == 240 + l);
        assert(v1 % 16 == l);
    } else {
        let v1 = ((res + 0x60) % 256) as u8;
        assert(v1 == 16 * (h - 10) + l);
        assert(v1 % 16 == l);
    }
}

/// DAA after an addition whose low digits sum to 16 to 18 (a half carry)
/// and high digits to `h`.
proof fn lemma_da_high(res: u8, cy: bool, hc: bool, h: int, l: int)
    requires
        0 <= h <= 18,
        16 <= l <= 18,
        res as int + (if cy { 256int } else { 0 }) == 16 * h + l,
        hc,
    ensures
        da_value(res, false, cy, hc) == 16 * ((h + 1) % 10) + (l - 10),
        (da_up(res, false, cy) || cy) == (h + 1 >= 10),
{
    if h <= 8 {
        assert(res == 16 * (h + 1) + (l - 16));
    } else {
        let v1 = ((res + 0x60) % 256) as u8;
        assert(v1 == 16 * (h - 9) + (l - 16));
    }
}

/// DAA after an addition whose low digits sum to `l` and high digits to
/// `h`, with the byte `res`, the carry `cy` and the half carry `hc` that
/// the addition left: the two decimal digits of `(10 * h + l) % 100`, and
/// an upward adjustment or a carry exactly when `10 * h + l` reaches 100.
proof fn lemma_da_digits(res: u8, cy: bool, hc: bool, h: int, l: int)
    requires
        0 <= h <= 18,
        0 <= l <= 18,
        res as int + (if cy { 256int } else { 0 }) == 16 * h + l,
        hc == (l > 15),
    ensures
        ({
            let v = da_value(res, false, cy, hc);
            let s = 10 * h + l;
            &&& is_bcd(v)
            &&& bcd_number(v) == s % 100
            &&& (da_up(res, false, cy) || cy) == (s >= 100)
        }),
{
    let k = h + if l >= 10 { 1int } else { 0 };
    let d = if l >= 10 { l - 10 } else { l };
    assert(10 * h + l == 10 * k + d);
    if l <= 9 {
        lemma_da_low(res, cy, hc, h, l);
    } else if l <= 15 {
        lemma_da_mid(res, cy, hc, h, l);
    } else {
        lemma_da_high(res, cy, hc, h, l);
    }
    lemma_digits(k % 10, d);
}

/// The decimal arithmetic behind DAA after an addition of two bytes of
/// decimal digits.
proof fn lemma_da_after_add(a: u8, b: u8)
    requires
        is_bcd(a),
        is_bcd(b),
    ensures
        ({
            let ext = a + b;
            let res = (ext % 256) as u8;
            let cy = ext > 255;
            let v = da_value(res, false, cy, half_carry(a, b, 0));
            let s = bcd_number(a) + bcd_number(b);
            &&& is_bcd(v)
            &&& bcd_number(v) == s % 100
            &&& (da_up(res, false, cy) || cy) == (s >= 100)
        }),
{
    let ah = a / 16;
    let al = a % 16;
    let bh = b / 16;
    let bl = b % 16;
    assert(a == 16 * ah + al);
    assert(b == 16 * bh + bl);
    let ext = a + b;
    assert(ext == 16 * (ah + bh) + (al + bl));
    assert(half_carry(a, b, 0) == (al + bl > 15));
    lemma_da_digits((ext % 256) as u8, ext > 255, half_carry(a, b, 0), ah + bh, al + bl);
}

/// BCD addition: from A holding two decimal digits, ADD A with a byte of
/// two decimal digits and then DAA leave in A the two decimal digits of
/// the sum modulo 100, and C set exactly when the sum reaches 100.
pub proof fn law_bcd_addition<B: BusModel>(c: CpuView, bus: B, b: u8)
    requires
        is_bcd(c.a),
        is_bcd(b),
    ensures
        ({
            let s = bcd_number(c.a) + bcd_number(b);
            let c1 = alu_spec(ArithmeticType::Add(SingleRegType::A, Operand::Imm(b)), c, bus).0;
            let c2 = alu_spec(ArithmeticType::Da(SingleRegType::A), c1, bus).0;
            &&& is_bcd(c2.a)
            &&& bcd_number(c2.a) == s % 100
            &&& cf(c2) == (s >= 100)
        }),
{
    let a = c.a;
    let ext = a + b;
    let res = (ext % 256) as u8;
    let c1 = alu_spec(ArithmeticType::Add(SingleRegType::A, Operand::Imm(b)), c, bus).0;
    crate::cpu::law_flags_read_back(c, res == 0, false, half_carry(a, b, 0), ext > 255);
    assert(c1.a == res);
    assert(!nf(c1) && cf(c1) == (ext > 255) && hf(c1) == half_carry(a, b, 0));
    lemma_da_after_add(a, b);
    let up = da_up(res, false, ext > 255);
    let c1b = if up { with_c(c1, true) } else { c1 };
    lemma_z_n_keep_c(c1.f);
    lemma_z_n_keep_c(c1b.f);
    assert(cf(c1b) == (up || ext > 255));
}

} // verus!
