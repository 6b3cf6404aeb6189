//! Decoding of CPU instructions from the bytes that encode them.
pub mod opcode;
pub mod text;

use vstd::prelude::*;

use crate::endian::{le_word, read_u16_le};
use crate::GbError;
use self::opcode::{
    cb_cycles_of, cb_value, cycles_of, is_opcode, length_of, opcode_value, CbOpcode, Opcode,
};

verus! {

/// What an instruction does.
#[derive(Clone, Copy, Debug, PartialEq, Eq, Structural)]
pub enum InstructionType {
    Nop,
    Stop,
    Halt,
    FlipCarry,
    ClearCarry,
    MasterInterrupt(bool),  // enable/disable
    Arithmetic(ArithmeticType),
    Jump(JumpCondition, JumpType),
    Load(GenericRegType, Source),
    LoadWithOp(GenericRegType, Source, PostLoad),
    LoadSP(DoubleRegType),
    Store(Dest, Source),
    StoreWithOp(Dest, Source, PostStore),
    StoreSP(u16),
    Push(DoubleRegType),
    Pop(DoubleRegType),
    Call(u16, JumpCondition),
    Ret(JumpCondition),
    RetI,
}

/// The target of a jump.
#[derive(Clone, Copy, Debug, PartialEq, Eq, Structural)]
pub enum JumpType {
    Offset(i8),
    Addr(u16),
    RegAddr(DoubleRegType),
}

/// An operation of the arithmetic and logic unit.
#[derive(Clone, Copy, Debug, PartialEq, Eq, Structural)]
pub enum ArithmeticType {
    Inc(GenericRegType),
    IncAddr(DoubleRegType),
    Dec(GenericRegType),
    DecAddr(DoubleRegType),
    Add(SingleRegType, Operand),
    Adc(SingleRegType, Operand),
    Add16(DoubleRegType, DoubleRegType),
    AddSP(i8),
    Sub(SingleRegType, Operand),
    Sbc(SingleRegType, Operand),
    Cmp(SingleRegType, Operand),
    Rl(GenericRegType, bool),  // target, clear_z_flag
    Rlc(GenericRegType, bool),  // target, clear_z_flag
    Rr(GenericRegType, bool),  // target, clear_z_flag
    Rrc(GenericRegType, bool),  // target, clear_z_flag
    Sla(GenericRegType),
    Sra(GenericRegType),
    Srl(GenericRegType),
    And(SingleRegType, Operand),
    Or(SingleRegType, Operand),
    Xor(SingleRegType, Operand),
    Cpl(SingleRegType),
    TestBit(GenericRegType, u8),
    SetBit(GenericRegType, u8),
    ResetBit(GenericRegType, u8),
    Swap(GenericRegType),
    Da(SingleRegType),
}

/// The second operand of an 8-bit ALU operation.
#[derive(Clone, Copy, Debug, PartialEq, Eq, Structural)]
pub enum Operand {
    Imm(u8),
    Reg(SingleRegType),
    RegAddr(DoubleRegType),
}

/// Where a load or store takes its value from.
#[derive(Clone, Copy, Debug, PartialEq, Eq, Structural)]
pub enum Source {
    RegImm(SingleRegType),
    RegAddr(DoubleRegType),
    Imm8(u8),
    Imm16(u16),
    Addr(u16),
    IoPortImm(u8),
    IoPortReg(SingleRegType),
    SpWithOffset(i8),
}

/// Where a store puts its value.
#[derive(Clone, Copy, Debug, PartialEq, Eq, Structural)]
pub enum Dest {
    Addr(u16),
    RegAddr(DoubleRegType),
    IoPort(u8),
    IoPortReg(SingleRegType),
}

/// The 8-bit registers.
#[derive(PartialEq, Eq, Structural, Clone, Copy, Debug)]
pub enum SingleRegType {
    A,
    B,
    C,
    D,
    E,
    H,
    L,
}

/// The 16-bit register pairs and the stack pointer.
#[derive(Clone, Copy, Debug, PartialEq, Eq, Structural)]
pub enum DoubleRegType {
    AF,
    BC,
    DE,
    HL,
    SP,
}

/// An 8-bit register, or the byte that a register pair points at.
#[derive(Clone, Copy, Debug, PartialEq, Eq, Structural)]
pub enum GenericRegType {
    Single(SingleRegType),
    Double(DoubleRegType),
}

/// The condition under which a jump, call or return happens.
#[derive(Clone, Copy, Debug, PartialEq, Eq, Structural)]
pub enum JumpCondition {
    Always,
    Zero,
    NotZero,
    Carry,
    NotCarry,
}

/// What happens to HL after a load or store through it.
#[derive(Clone, Copy, Debug, PartialEq, Eq, Structural)]
pub enum PostStore {
    Inc,
    Dec,
}

pub type PostLoad = PostStore;

/// The register that the three-bit field `i` of an opcode names (6 names
/// the byte at (HL) and is not a register).
pub open spec fn single_of(i: u8) -> SingleRegType {
    if i == 0 {
        SingleRegType::B
    } else if i == 1 {
        SingleRegType::C
    } else if i == 2 {
        SingleRegType::D
    } else if i == 3 {
        SingleRegType::E
    } else if i == 4 {
        SingleRegType::H
    } else if i == 5 {
        SingleRegType::L
    } else {
        SingleRegType::A
    }
}

/// The target that the three-bit field `i` names: a register, or (HL).
pub open spec fn generic_of(i: u8) -> GenericRegType {
    if i == 6 {
        GenericRegType::Double(DoubleRegType::HL)
    } else {
        GenericRegType::Single(single_of(i))
    }
}

/// The eight accumulator operations of opcodes 0x80 to 0xBF, by the
/// operation field `k` (bits 3 to 5).
pub open spec fn alu_of(k: u8, src: Operand) -> ArithmeticType {
    if k == 0 {
        ArithmeticType::Add(SingleRegType::A, src)
    } else if k == 1 {
        ArithmeticType::Adc(SingleRegType::A, src)
    } else if k == 2 {
        ArithmeticType::Sub(SingleRegType::A, src)
    } else if k == 3 {
        ArithmeticType::Sbc(SingleRegType::A, src)
    } else if k == 4 {
        ArithmeticType::And(SingleRegType::A, src)
    } else if k == 5 {
        ArithmeticType::Xor(SingleRegType::A, src)
    } else if k == 6 {
        ArithmeticType::Or(SingleRegType::A, src)
    } else {
        ArithmeticType::Cmp(SingleRegType::A, src)
    }
}

/// What the main opcode `code` does, given the byte `b` and the
/// little-endian word `w` that follow it (read only by the opcodes whose
/// length asks for them). Opcodes 0x40 to 0x7F (but 0x76) copy between
/// registers and (HL); 0x80 to 0xBF apply one of eight operations to A;
/// the others are listed one by one.
pub open spec fn decode_spec(code: u8, b: u8, w: u16) -> InstructionType {
    if 0x40 <= code <= 0x7F && code != 0x76 {
        let dst = (code / 8) % 8;
        let src = code % 8;
        if dst == 6 {
            InstructionType::Store(Dest::RegAddr(DoubleRegType::HL), Source::RegImm(single_of(src)))
        } else if src == 6 {
            InstructionType::Load(GenericRegType::Single(single_of(dst)), Source::RegAddr(DoubleRegType::HL))
        } else {
            InstructionType::Load(GenericRegType::Single(single_of(dst)), Source::RegImm(single_of(src)))
        }
    } else if 0x80 <= code <= 0xBF {
        let src = code % 8;
        InstructionType::Arithmetic(
            alu_of(
                (code / 8) % 8,
                if src == 6 { Operand::RegAddr(DoubleRegType::HL) } else { Operand::Reg(single_of(src)) },
            ),
        )
    } else {
        decode_listed(code, b, w)
    }
}

/// The opcodes outside 0x40 to 0xBF, one by one.
pub open spec fn decode_listed(code: u8, b: u8, w: u16) -> InstructionType {
    match code {
        0x00 => InstructionType::Nop,
        0x01 => InstructionType::Load(GenericRegType::Double(DoubleRegType::BC), Source::Imm16(w)),
        0x02 => InstructionType::Store(Dest::RegAddr(DoubleRegType::BC), Source::RegImm(SingleRegType::A)),
        0x03 => InstructionType::Arithmetic(ArithmeticType::Inc(GenericRegType::Double(DoubleRegType::BC))),
        0x04 => InstructionType::Arithmetic(ArithmeticType::Inc(GenericRegType::Single(SingleRegType::B))),
        0x05 => InstructionType::Arithmetic(ArithmeticType::Dec(GenericRegType::Single(SingleRegType::B))),
        0x06 => InstructionType::Load(GenericRegType::Single(SingleRegType::B), Source::Imm8(b)),
        0x07 => InstructionType::Arithmetic(ArithmeticType::Rlc(GenericRegType::Single(SingleRegType::A), true)),
        0x08 => InstructionType::StoreSP(w),
        0x09 => InstructionType::Arithmetic(ArithmeticType::Add16(DoubleRegType::HL, DoubleRegType::BC)),
        0x0A => InstructionType::Load(GenericRegType::Single(SingleRegType::A), Source::RegAddr(DoubleRegType::BC)),
        0x0B => InstructionType::Arithmetic(ArithmeticType::Dec(GenericRegType::Double(DoubleRegType::BC))),
        0x0C => InstructionType::Arithmetic(ArithmeticType::Inc(GenericRegType::Single(SingleRegType::C))),
        0x0D => InstructionType::Arithmetic(ArithmeticType::Dec(GenericRegType::Single(SingleRegType::C))),
        0x0E => InstructionType::Load(GenericRegType::Single(SingleRegType::C), Source::Imm8(b)),
        0x0F => InstructionType::Arithmetic(ArithmeticType::Rrc(GenericRegType::Single(SingleRegType::A), true)),
        0x10 => InstructionType::Stop,
        0x11 => InstructionType::Load(GenericRegType::Double(DoubleRegType::DE), Source::Imm16(w)),
        0x12 => InstructionType::Store(Dest::RegAddr(DoubleRegType::DE), Source::RegImm(SingleRegType::A)),
        0x13 => InstructionType::Arithmetic(ArithmeticType::Inc(GenericRegType::Double(DoubleRegType::DE))),
        0x14 => InstructionType::Arithmetic(ArithmeticType::Inc(GenericRegType::Single(SingleRegType::D))),
        0x15 => InstructionType::Arithmetic(ArithmeticType::Dec(GenericRegType::Single(SingleRegType::D))),
        0x16 => InstructionType::Load(GenericRegType::Single(SingleRegType::D), Source::Imm8(b)),
        0x17 => InstructionType::Arithmetic(ArithmeticType::Rl(GenericRegType::Single(SingleRegType::A), true)),
        0x18 => InstructionType::Jump(JumpCondition::Always, JumpType::Offset((b as i8))),
        0x19 => InstructionType::Arithmetic(ArithmeticType::Add16(DoubleRegType::HL, DoubleRegType::DE)),
        0x1A => InstructionType::Load(GenericRegType::Single(SingleRegType::A), Source::RegAddr(DoubleRegType::DE)),
        0x1B => InstructionType::Arithmetic(ArithmeticType::Dec(GenericRegType::Double(DoubleRegType::DE))),
        0x1C => InstructionType::Arithmetic(ArithmeticType::Inc(GenericRegType::Single(SingleRegType::E))),
        0x1D => InstructionType::Arithmetic(ArithmeticType::Dec(GenericRegType::Single(SingleRegType::E))),
        0x1E => InstructionType::Load(GenericRegType::Single(SingleRegType::E), Source::Imm8(b)),
        0x1F => InstructionType::Arithmetic(ArithmeticType::Rr(GenericRegType::Single(SingleRegType::A), true)),
        0x20 => InstructionType::Jump(JumpCondition::NotZero, JumpType::Offset((b as i8))),
        0x21 => InstructionType::Load(GenericRegType::Double(DoubleRegType::HL), Source::Imm16(w)),
        0x22 => InstructionType::StoreWithOp(Dest::RegAddr(DoubleRegType::HL), Source::RegImm(SingleRegType::A), PostStore::Inc),
        0x23 => InstructionType::Arithmetic(ArithmeticType::Inc(GenericRegType::Double(DoubleRegType::HL))),
        0x24 => InstructionType::Arithmetic(ArithmeticType::Inc(GenericRegType::Single(SingleRegType::H))),
        0x25 => InstructionType::Arithmetic(ArithmeticType::Dec(GenericRegType::Single(SingleRegType::H))),
        0x26 => InstructionType::Load(GenericRegType::Single(SingleRegType::H), Source::Imm8(b)),
        0x27 => InstructionType::Arithmetic(ArithmeticType::Da(SingleRegType::A)),
        0x28 => InstructionType::Jump(JumpCondition::Zero, JumpType::Offset((b as i8))),
        0x29 => InstructionType::Arithmetic(ArithmeticType::Add16(DoubleRegType::HL, DoubleRegType::HL)),
        0x2A => InstructionType::LoadWithOp(GenericRegType::Single(SingleRegType::A), Source::RegAddr(DoubleRegType::HL), PostStore::Inc),
        0x2B => InstructionType::Arithmetic(ArithmeticType::Dec(GenericRegType::Double(DoubleRegType::HL))),
        0x2C => InstructionType::Arithmetic(ArithmeticType::Inc(GenericRegType::Single(SingleRegType::L))),
        0x2D => InstructionType::Arithmetic(ArithmeticType::Dec(GenericRegType::Single(SingleRegType::L))),
        0x2E => InstructionType::Load(GenericRegType::Single(SingleRegType::L), Source::Imm8(b)),
        0x2F => InstructionType::Arithmetic(ArithmeticType::Cpl(SingleRegType::A)),
        0x30 => InstructionType::Jump(JumpCondition::NotCarry, JumpType::Offset((b as i8))),
        0x31 => InstructionType::Load(GenericRegType::Double(DoubleRegType::SP), Source::Imm16(w)),
        0x32 => InstructionType::StoreWithOp(Dest::RegAddr(DoubleRegType::HL), Source::RegImm(SingleRegType::A), PostStore::Dec),
        0x33 => InstructionType::Arithmetic(ArithmeticType::Inc(GenericRegType::Double(DoubleRegType::SP))),
        0x34 => InstructionType::Arithmetic(ArithmeticType::IncAddr(DoubleRegType::HL)),
        0x35 => InstructionType::Arithmetic(ArithmeticType::DecAddr(DoubleRegType::HL)),
        0x36 => InstructionType::Store(Dest::RegAddr(DoubleRegType::HL), Source::Imm8(b)),
        0x37 => InstructionType::FlipCarry,
        0x38 => InstructionType::Jump(JumpCondition::Carry, JumpType::Offset((b as i8))),
        0x39 => InstructionType::Arithmetic(ArithmeticType::Add16(DoubleRegType::HL, DoubleRegType::SP)),
        0x3A => InstructionType::LoadWithOp(GenericRegType::Single(SingleRegType::A), Source::RegAddr(DoubleRegType::HL), PostStore::Dec),
        0x3B => InstructionType::Arithmetic(ArithmeticType::Dec(GenericRegType::Double(DoubleRegType::SP))),
        0x3C => InstructionType::Arithmetic(ArithmeticType::Inc(GenericRegType::Single(SingleRegType::A))),
        0x3D => InstructionType::Arithmetic(ArithmeticType::Dec(GenericRegType::Single(SingleRegType::A))),
        0x3E => InstructionType::Load(GenericRegType::Single(SingleRegType::A), Source::Imm8(b)),
        0x3F => InstructionType::ClearCarry,
        0x76 => InstructionType::Halt,
        0xC0 => InstructionType::Ret(JumpCondition::NotZero),
        0xC1 => InstructionType::Pop(DoubleRegType::BC),
        0xC2 => InstructionType::Jump(JumpCondition::NotZero, JumpType::Addr(w)),
        0xC3 => InstructionType::Jump(JumpCondition::Always, JumpType::Addr(w)),
        0xC4 => InstructionType::Call(w, JumpCondition::NotZero),
        0xC5 => InstructionType::Push(DoubleRegType::BC),
        0xC6 => InstructionType::Arithmetic(ArithmeticType::Add(SingleRegType::A, Operand::Imm(b))),
        0xC7 => InstructionType::Call(0x0000, JumpCondition::Always),
        0xC8 => InstructionType::Ret(JumpCondition::Zero),
        0xC9 => InstructionType::Ret(JumpCondition::Always),
        0xCA => InstructionType::Jump(JumpCondition::Zero, JumpType::Addr(w)),
        0xCC => InstructionType::Call(w, JumpCondition::Zero),
        0xCD => InstructionType::Call(w, JumpCondition::Always),
        0xCE => InstructionType::Arithmetic(ArithmeticType::Adc(SingleRegType::A, Operand::Imm(b))),
        0xCF => InstructionType::Call(0x0008, JumpCondition::Always),
        0xD0 => InstructionType::Ret(JumpCondition::NotCarry),
        0xD1 => InstructionType::Pop(DoubleRegType::DE),
        0xD2 => InstructionType::Jump(JumpCondition::NotCarry, JumpType::Addr(w)),
        0xD4 => InstructionType::Call(w, JumpCondition::NotCarry),
        0xD5 => InstructionType::Push(DoubleRegType::DE),
        0xD6 => InstructionType::Arithmetic(ArithmeticType::Sub(SingleRegType::A, Operand::Imm(b))),
        0xD7 => InstructionType::Call(0x0010, JumpCondition::Always),
        0xD8 => InstructionType::Ret(JumpCondition::Carry),
        0xD9 => InstructionType::RetI,
        0xDA => InstructionType::Jump(JumpCondition::Carry, JumpType::Addr(w)),
        0xDC => InstructionType::Call(w, JumpCondition::Carry),
        0xDE => InstructionType::Arithmetic(ArithmeticType::Sbc(SingleRegType::A, Operand::Imm(b))),
        0xDF => InstructionType::Call(0x0018, JumpCondition::Always),
        0xE0 => InstructionType::Store(Dest::IoPort(b), Source::RegImm(SingleRegType::A)),
        0xE1 => InstructionType::Pop(DoubleRegType::HL),
        0xE2 => InstructionType::Store(Dest::IoPortReg(SingleRegType::C), Source::RegImm(SingleRegType::A)),
        0xE5 => InstructionType::Push(DoubleRegType::HL),
        0xE6 => InstructionType::Arithmetic(ArithmeticType::And(SingleRegType::A, Operand::Imm(b))),
        0xE7 => InstructionType::Call(0x0020, JumpCondition::Always),
        0xE8 => InstructionType::Arithmetic(ArithmeticType::AddSP((b as i8))),
        0xE9 => InstructionType::Jump(JumpCondition::Always, JumpType::RegAddr(DoubleRegType::HL)),
        0xEA => InstructionType::Store(Dest::Addr(w), Source::RegImm(SingleRegType::A)),
        0xEE => InstructionType::Arithmetic(ArithmeticType::Xor(SingleRegType::A, Operand::Imm(b))),
        0xEF => InstructionType::Call(0x0028, JumpCondition::Always),
        0xF0 => InstructionType::Load(GenericRegType::Single(SingleRegType::A), Source::IoPortImm(b)),
        0xF1 => InstructionType::Pop(DoubleRegType::AF),
        0xF2 => InstructionType::Load(GenericRegType::Single(SingleRegType::A), Source::IoPortReg(SingleRegType::C)),
        0xF3 => InstructionType::MasterInterrupt(false),
        0xF5 => InstructionType::Push(DoubleRegType::AF),
        0xF6 => InstructionType::Arithmetic(ArithmeticType::Or(SingleRegType::A, Operand::Imm(b))),
        0xF7 => InstructionType::Call(0x0030, JumpCondition::Always),
        0xF8 => InstructionType::Load(GenericRegType::Double(DoubleRegType::HL), Source::SpWithOffset((b as i8))),
        0xF9 => InstructionType::LoadSP(DoubleRegType::HL),
        0xFA => InstructionType::Load(GenericRegType::Single(SingleRegType::A), Source::Addr(w)),
        0xFB => InstructionType::MasterInterrupt(true),
        0xFE => InstructionType::Arithmetic(ArithmeticType::Cmp(SingleRegType::A, Operand::Imm(b))),
        0xFF => InstructionType::Call(0x0038, JumpCondition::Always),
        _ => InstructionType::Halt,
    }
}

/// What the CB-prefixed opcode `code` does: bits 6 and 7 choose between
/// rotations and shifts, bit test, bit reset and bit set; bits 3 to 5 the
/// rotation or the bit; bits 0 to 2 the target. The opcode 0x0E (RRC (HL))
/// is decoded as a left rotation of (HL).
pub open spec fn cb_decode_spec(code: u8) -> InstructionType {
    let r = generic_of(code % 8);
    let k = (code / 8) % 8;
    InstructionType::Arithmetic(
        if code < 0x40 {
            if k == 0 {
                ArithmeticType::Rlc(r, false)
            } else if k == 1 {
                if code == 0x0E {
                    ArithmeticType::Rlc(GenericRegType::Double(DoubleRegType::HL), false)
                } else {
                    ArithmeticType::Rrc(r, false)
                }
            } else if k == 2 {
                ArithmeticType::Rl(r, false)
            } else if k == 3 {
                ArithmeticType::Rr(r, false)
            } else if k == 4 {
                ArithmeticType::Sla(r)
            } else if k == 5 {
                ArithmeticType::Sra(r)
            } else if k == 6 {
                ArithmeticType::Swap(r)
            } else {
                ArithmeticType::Srl(r)
            }
        } else if code < 0x80 {
            ArithmeticType::TestBit(r, k)
        } else if code < 0xC0 {
            ArithmeticType::ResetBit(r, k)
        } else {
            ArithmeticType::SetBit(r, k)
        },
    )
}

/// The byte after the opcode, or 0 when there is none.
pub open spec fn operand_byte(m: Seq<u8>) -> u8 {
    if m.len() > 1 { m[1] } else { 0 }
}

/// The little-endian word after the opcode, or 0 when there is none.
pub open spec fn operand_word(m: Seq<u8>) -> u16 {
    if m.len() > 2 { le_word(m[1], m[2]) } else { 0 }
}

/// What the instruction at the start of `m` does.
pub open spec fn decoded_instr(m: Seq<u8>) -> InstructionType {
    if m[0] == 0xCB {
        cb_decode_spec(operand_byte(m))
    } else {
        decode_spec(m[0], operand_byte(m), operand_word(m))
    }
}

/// Whether `m` holds every byte of the instruction that starts it (the
/// decoder reads that many and panics on fewer).
pub open spec fn holds_instruction(m: Seq<u8>) -> bool {
    m.len() >= 1 && (is_opcode(m[0]) ==> m.len() >= length_of(m[0]))
}

/// A decoded instruction: what it does, its opcode and, after a 0xCB
/// prefix, the CB opcode.
#[derive(Clone, Copy, Debug)]
pub struct Instruction {
    instr: InstructionType,
    opcode: Opcode,
    cb_opcode: Option<CbOpcode>,
}

/// What a decoded instruction holds.
pub struct InstructionView {
    pub instr: InstructionType,
    pub opcode: Opcode,
    pub cb_opcode: Option<CbOpcode>,
}

impl View for Instruction {
    type V = InstructionView;

    closed spec fn view(&self) -> InstructionView {
        InstructionView { instr: self.instr, opcode: self.opcode, cb_opcode: self.cb_opcode }
    }
}

/// What decoding the bytes `m` yields: the instruction when the first byte
/// is an opcode, else the error that names the byte.
pub open spec fn decode_result(m: Seq<u8>, r: Result<Instruction, GbError>) -> bool {
    match r {
        Ok(i) => {
            &&& is_opcode(m[0])
            &&& opcode_value(i@.opcode) == m[0]
            &&& i@.instr == decoded_instr(m)
            &&& (i@.cb_opcode is Some <==> m[0] == 0xCB)
            &&& (i@.cb_opcode is Some ==> cb_value(i@.cb_opcode->0) == m[1])
        },
        Err(e) => !is_opcode(m[0]) && e == GbError::UnknownInstruction(m[0]),
    }
}

/// The cycles an instruction takes: those of its CB opcode after a prefix,
/// else those of its opcode.
pub open spec fn instr_cycles(i: InstructionView, jumped: bool) -> u8 {
    match i.cb_opcode {
        Some(op) => cb_cycles_of(cb_value(op)),
        None => cycles_of(opcode_value(i.opcode), jumped),
    }
}

impl Instruction {
    /// Decodes the instruction at the start of `memory`.
    pub fn decode(memory: &[u8]) -> (r: Result<Self, GbError>)
        requires
            holds_instruction(memory@),
        ensures
            decode_result(memory@, r),
    {
        let opcode = match Opcode::from_u8(memory[0]) {
            Some(op) => op,
            None => {
                return Err(GbError::UnknownInstruction(memory[0]));
            },
        };
        let code = opcode.to_u8();
        let mut cb_opcode = None;
        let instr = match opcode {
            Opcode::Prefix => {
                cb_opcode = match CbOpcode::from_u8(memory[1]) {
                    Some(op) => Some(op),
                    None => {
                        return Err(GbError::UnknownCbInstruction(memory[1]));
                    },
                };
                Instruction::decode_cb(memory[1])?
            },
            _ => {
                if code < 0x40 {
                    Self::decode_block0(opcode, memory)
                } else if code < 0x80 {
                    Self::decode_block1(opcode, memory)
                } else if code < 0xC0 {
                    Self::decode_block2(opcode, memory)
                } else {
                    Self::decode_block3(opcode, memory)
                }
            },
        };
        Ok(Self { instr, opcode, cb_opcode })
    }

    #[verifier::rlimit(100)]
    #[verifier::spinoff_prover]
    fn decode_block0(op: Opcode, memory: &[u8]) -> (r: InstructionType)
        requires
            memory@.len() >= length_of(opcode_value(op)),
            opcode_value(op) < 0x40,
            opcode_value(op) != 0xCB,
        ensures
            r == decode_spec(opcode_value(op), operand_byte(memory@), operand_word(memory@)),
    {
        match op {
            Opcode::Nop => InstructionType::Nop,
            Opcode::LdBCd16 => InstructionType::Load(GenericRegType::Double(DoubleRegType::BC), Source::Imm16(read_u16_le(&memory[1..3]))),
            Opcode::LdBCA => InstructionType::Store(Dest::RegAddr(DoubleRegType::BC), Source::RegImm(SingleRegType::A)),
            Opcode::IncBC => InstructionType::Arithmetic(ArithmeticType::Inc(GenericRegType::Double(DoubleRegType::BC))),
            Opcode::IncB => InstructionType::Arithmetic(ArithmeticType::Inc(GenericRegType::Single(SingleRegType::B))),
            Opcode::DecB => InstructionType::Arithmetic(ArithmeticType::Dec(GenericRegType::Single(SingleRegType::B))),
            Opcode::LdBd8 => InstructionType::Load(GenericRegType::Single(SingleRegType::B), Source::Imm8(memory[1])),
            Opcode::RlcA => InstructionType::Arithmetic(ArithmeticType::Rlc(GenericRegType::Single(SingleRegType::A), true)),
            Opcode::Lda16SP => InstructionType::StoreSP(read_u16_le(&memory[1..3])),
            Opcode::AddHLBC => InstructionType::Arithmetic(ArithmeticType::Add16(DoubleRegType::HL, DoubleRegType::BC)),
            Opcode::LdABC => InstructionType::Load(GenericRegType::Single(SingleRegType::A), Source::RegAddr(DoubleRegType::BC)),
            Opcode::DecBC => InstructionType::Arithmetic(ArithmeticType::Dec(GenericRegType::Double(DoubleRegType::BC))),
            Opcode::IncC => InstructionType::Arithmetic(ArithmeticType::Inc(GenericRegType::Single(SingleRegType::C))),
            Opcode::DecC => InstructionType::Arithmetic(ArithmeticType::Dec(GenericRegType::Single(SingleRegType::C))),
            Opcode::LdCd8 => InstructionType::Load(GenericRegType::Single(SingleRegType::C), Source::Imm8(memory[1])),
            Opcode::RrcA => InstructionType::Arithmetic(ArithmeticType::Rrc(GenericRegType::Single(SingleRegType::A), true)),
            Opcode::Stop => InstructionType::Stop,
            Opcode::LdDEd16 => InstructionType::Load(GenericRegType::Double(DoubleRegType::DE), Source::Imm16(read_u16_le(&memory[1..3]))),
            Opcode::LdDEA => InstructionType::Store(Dest::RegAddr(DoubleRegType::DE), Source::RegImm(SingleRegType::A)),
            Opcode::IncDE => InstructionType::Arithmetic(ArithmeticType::Inc(GenericRegType::Double(DoubleRegType::DE))),
            Opcode::IncD => InstructionType::Arithmetic(ArithmeticType::Inc(GenericRegType::Single(SingleRegType::D))),
            Opcode::DecD => InstructionType::Arithmetic(ArithmeticType::Dec(GenericRegType::Single(SingleRegType::D))),
            Opcode::LdDd8 => InstructionType::Load(GenericRegType::Single(SingleRegType::D), Source::Imm8(memory[1])),
            Opcode::RlA => InstructionType::Arithmetic(ArithmeticType::Rl(GenericRegType::Single(SingleRegType::A), true)),
            Opcode::Jr => InstructionType::Jump(JumpCondition::Always, JumpType::Offset((memory[1] as i8))),
            Opcode::AddHLDE => InstructionType::Arithmetic(ArithmeticType::Add16(DoubleRegType::HL, DoubleRegType::DE)),
            Opcode::LdADE => InstructionType::Load(GenericRegType::Single(SingleRegType::A), Source::RegAddr(DoubleRegType::DE)),
            Opcode::DecDE => InstructionType::Arithmetic(ArithmeticType::Dec(GenericRegType::Double(DoubleRegType::DE))),
            Opcode::IncE => InstructionType::Arithmetic(ArithmeticType::Inc(GenericRegType::Single(SingleRegType::E))),
            Opcode::DecE => InstructionType::Arithmetic(ArithmeticType::Dec(GenericRegType::Single(SingleRegType::E))),
            Opcode::LdEd8 => InstructionType::Load(GenericRegType::Single(SingleRegType::E), Source::Imm8(memory[1])),
            Opcode::RrA => InstructionType::Arithmetic(ArithmeticType::Rr(GenericRegType::Single(SingleRegType::A), true)),
            Opcode::JrNZ => InstructionType::Jump(JumpCondition::NotZero, JumpType::Offset((memory[1] as i8))),
            Opcode::LdHLd16 => InstructionType::Load(GenericRegType::Double(DoubleRegType::HL), Source::Imm16(read_u16_le(&memory[1..3]))),
            Opcode::LdHLincA => InstructionType::StoreWithOp(Dest::RegAddr(DoubleRegType::HL), Source::RegImm(SingleRegType::A), PostStore::Inc),
            Opcode::IncHL => InstructionType::Arithmetic(ArithmeticType::Inc(GenericRegType::Double(DoubleRegType::HL))),
            Opcode::IncH => InstructionType::Arithmetic(ArithmeticType::Inc(GenericRegType::Single(SingleRegType::H))),
            Opcode::DecH => InstructionType::Arithmetic(ArithmeticType::Dec(GenericRegType::Single(SingleRegType::H))),
            Opcode::LdHd8 => InstructionType::Load(GenericRegType::Single(SingleRegType::H), Source::Imm8(memory[1])),
            Opcode::DaA => InstructionType::Arithmetic(ArithmeticType::Da(SingleRegType::A)),
            Opcode::JrZ => InstructionType::Jump(JumpCondition::Zero, JumpType::Offset((memory[1] as i8))),
            Opcode::AddHLHL => InstructionType::Arithmetic(ArithmeticType::Add16(DoubleRegType::HL, DoubleRegType::HL)),
            Opcode::LdAHLinc => InstructionType::LoadWithOp(GenericRegType::Single(SingleRegType::A), Source::RegAddr(DoubleRegType::HL), PostStore::Inc),
            Opcode::DecHL => InstructionType::Arithmetic(ArithmeticType::Dec(GenericRegType::Double(DoubleRegType::HL))),
            Opcode::IncL => InstructionType::Arithmetic(ArithmeticType::Inc(GenericRegType::Single(SingleRegType::L))),
            Opcode::DecL => InstructionType::Arithmetic(ArithmeticType::Dec(GenericRegType::Single(SingleRegType::L))),
            Opcode::LdLd8 => InstructionType::Load(GenericRegType::Single(SingleRegType::L), Source::Imm8(memory[1])),
            Opcode::Cpl => InstructionType::Arithmetic(ArithmeticType::Cpl(SingleRegType::A)),
            Opcode::JrNC => InstructionType::Jump(JumpCondition::NotCarry, JumpType::Offset((memory[1] as i8))),
            Opcode::LdSPd16 => InstructionType::Load(GenericRegType::Double(DoubleRegType::SP), Source::Imm16(read_u16_le(&memory[1..3]))),
            Opcode::LdHLdecA => InstructionType::StoreWithOp(Dest::RegAddr(DoubleRegType::HL), Source::RegImm(SingleRegType::A), PostStore::Dec),
            Opcode::IncSP => InstructionType::Arithmetic(ArithmeticType::Inc(GenericRegType::Double(DoubleRegType::SP))),
            Opcode::Inca16HL => InstructionType::Arithmetic(ArithmeticType::IncAddr(DoubleRegType::HL)),
            Opcode::Deca16HL => InstructionType::Arithmetic(ArithmeticType::DecAddr(DoubleRegType::HL)),
            Opcode::LdHLd8 => InstructionType::Store(Dest::RegAddr(DoubleRegType::HL), Source::Imm8(memory[1])),
            Opcode::Scf => InstructionType::FlipCarry,
            Opcode::JrC => InstructionType::Jump(JumpCondition::Carry, JumpType::Offset((memory[1] as i8))),
            Opcode::AddHLSP => InstructionType::Arithmetic(ArithmeticType::Add16(DoubleRegType::HL, DoubleRegType::SP)),
            Opcode::LdAHLdec => InstructionType::LoadWithOp(GenericRegType::Single(SingleRegType::A), Source::RegAddr(DoubleRegType::HL), PostStore::Dec),
            Opcode::DecSP => InstructionType::Arithmetic(ArithmeticType::Dec(GenericRegType::Double(DoubleRegType::SP))),
            Opcode::IncA => InstructionType::Arithmetic(ArithmeticType::Inc(GenericRegType::Single(SingleRegType::A))),
            Opcode::DecA => InstructionType::Arithmetic(ArithmeticType::Dec(GenericRegType::Single(SingleRegType::A))),
            Opcode::LdAd8 => InstructionType::Load(GenericRegType::Single(SingleRegType::A), Source::Imm8(memory[1])),
            Opcode::Ccf => InstructionType::ClearCarry,
            _ => InstructionType::Nop,
        }
    }

    #[verifier::rlimit(100)]
    #[verifier::spinoff_prover]
    fn decode_block1(op: Opcode, memory: &[u8]) -> (r: InstructionType)
        requires
            memory@.len() >= length_of(opcode_value(op)),
            0x40 <= opcode_value(op) < 0x80,
            opcode_value(op) != 0xCB,
        ensures
            r == decode_spec(opcode_value(op), operand_byte(memory@), operand_word(memory@)),
    {
        match op {
            Opcode::LdBB => InstructionType::Load(GenericRegType::Single(SingleRegType::B), Source::RegImm(SingleRegType::B)),
            Opcode::LdBC => InstructionType::Load(GenericRegType::Single(SingleRegType::B), Source::RegImm(SingleRegType::C)),
            Opcode::LdBD => InstructionType::Load(GenericRegType::Single(SingleRegType::B), Source::RegImm(SingleRegType::D)),
            Opcode::LdBE => InstructionType::Load(GenericRegType::Single(SingleRegType::B), Source::RegImm(SingleRegType::E)),
            Opcode::LdBH => InstructionType::Load(GenericRegType::Single(SingleRegType::B), Source::RegImm(SingleRegType::H)),
            Opcode::LdBL => InstructionType::Load(GenericRegType::Single(SingleRegType::B), Source::RegImm(SingleRegType::L)),
            Opcode::LdBHL => InstructionType::Load(GenericRegType::Single(SingleRegType::B), Source::RegAddr(DoubleRegType::HL)),
            Opcode::LdBA => InstructionType::Load(GenericRegType::Single(SingleRegType::B), Source::RegImm(SingleRegType::A)),
            Opcode::LdCB => InstructionType::Load(GenericRegType::Single(SingleRegType::C), Source::RegImm(SingleRegType::B)),
            Opcode::LdCC => InstructionType::Load(GenericRegType::Single(SingleRegType::C), Source::RegImm(SingleRegType::C)),
            Opcode::LdCD => InstructionType::Load(GenericRegType::Single(SingleRegType::C), Source::RegImm(SingleRegType::D)),
            Opcode::LdCE => InstructionType::Load(GenericRegType::Single(SingleRegType::C), Source::RegImm(SingleRegType::E)),
            Opcode::LdCH => InstructionType::Load(GenericRegType::Single(SingleRegType::C), Source::RegImm(SingleRegType::H)),
            Opcode::LdCL => InstructionType::Load(GenericRegType::Single(SingleRegType::C), Source::RegImm(SingleRegType::L)),
            Opcode::LdCHL => InstructionType::Load(GenericRegType::Single(SingleRegType::C), Source::RegAddr(DoubleRegType::HL)),
            Opcode::LdCA => InstructionType::Load(GenericRegType::Single(SingleRegType::C), Source::RegImm(SingleRegType::A)),
            Opcode::LdDB => InstructionType::Load(GenericRegType::Single(SingleRegType::D), Source::RegImm(SingleRegType::B)),
            Opcode::LdDC => InstructionType::Load(GenericRegType::Single(SingleRegType::D), Source::RegImm(SingleRegType::C)),
            Opcode::LdDD => InstructionType::Load(GenericRegType::Single(SingleRegType::D), Source::RegImm(SingleRegType::D)),
            Opcode::LdDE => InstructionType::Load(GenericRegType::Single(SingleRegType::D), Source::RegImm(SingleRegType::E)),
            Opcode::LdDH => InstructionType::Load(GenericRegType::Single(SingleRegType::D), Source::RegImm(SingleRegType::H)),
            Opcode::LdDL => InstructionType::Load(GenericRegType::Single(SingleRegType::D), Source::RegImm(SingleRegType::L)),
            Opcode::LdDHL => InstructionType::Load(GenericRegType::Single(SingleRegType::D), Source::RegAddr(DoubleRegType::HL)),
            Opcode::LdDA => InstructionType::Load(GenericRegType::Single(SingleRegType::D), Source::RegImm(SingleRegType::A)),
            Opcode::LdEB => InstructionType::Load(GenericRegType::Single(SingleRegType::E), Source::RegImm(SingleRegType::B)),
            Opcode::LdEC => InstructionType::Load(GenericRegType::Single(SingleRegType::E), Source::RegImm(SingleRegType::C)),
            Opcode::LdED => InstructionType::Load(GenericRegType::Single(SingleRegType::E), Source::RegImm(SingleRegType::D)),
            Opcode::LdEE => InstructionType::Load(GenericRegType::Single(SingleRegType::E), Source::RegImm(SingleRegType::E)),
            Opcode::LdEH => InstructionType::Load(GenericRegType::Single(SingleRegType::E), Source::RegImm(SingleRegType::H)),
            Opcode::LdEL => InstructionType::Load(GenericRegType::Single(SingleRegType::E), Source::RegImm(SingleRegType::L)),
            Opcode::LdEHL => InstructionType::Load(GenericRegType::Single(SingleRegType::E), Source::RegAddr(DoubleRegType::HL)),
            Opcode::LdEA => InstructionType::Load(GenericRegType::Single(SingleRegType::E), Source::RegImm(SingleRegType::A)),
            Opcode::LdHB => InstructionType::Load(GenericRegType::Single(SingleRegType::H), Source::RegImm(SingleRegType::B)),
            Opcode::LdHC => InstructionType::Load(GenericRegType::Single(SingleRegType::H), Source::RegImm(SingleRegType::C)),
            Opcode::LdHD => InstructionType::Load(GenericRegType::Single(SingleRegType::H), Source::RegImm(SingleRegType::D)),
            Opcode::LdHE => InstructionType::Load(GenericRegType::Single(SingleRegType::H), Source::RegImm(SingleRegType::E)),
            Opcode::LdHH => InstructionType::Load(GenericRegType::Single(SingleRegType::H), Source::RegImm(SingleRegType::H)),
            Opcode::LdHL => InstructionType::Load(GenericRegType::Single(SingleRegType::H), Source::RegImm(SingleRegType::L)),
            Opcode::LdHHL => InstructionType::Load(GenericRegType::Single(SingleRegType::H), Source::RegAddr(DoubleRegType::HL)),
            Opcode::LdHA => InstructionType::Load(GenericRegType::Single(SingleRegType::H), Source::RegImm(SingleRegType::A)),
            Opcode::LdLB => InstructionType::Load(GenericRegType::Single(SingleRegType::L), Source::RegImm(SingleRegType::B)),
            Opcode::LdLC => InstructionType::Load(GenericRegType::Single(SingleRegType::L), Source::RegImm(SingleRegType::C)),
            Opcode::LdLD => InstructionType::Load(GenericRegType::Single(SingleRegType::L), Source::RegImm(SingleRegType::D)),
            Opcode::LdLE => InstructionType::Load(GenericRegType::Single(SingleRegType::L), Source::RegImm(SingleRegType::E)),
            Opcode::LdLH => InstructionType::Load(GenericRegType::Single(SingleRegType::L), Source::RegImm(SingleRegType::H)),
            Opcode::LdLL => InstructionType::Load(GenericRegType::Single(SingleRegType::L), Source::RegImm(SingleRegType::L)),
            Opcode::LdLHL => InstructionType::Load(GenericRegType::Single(SingleRegType::L), Source::RegAddr(DoubleRegType::HL)),
            Opcode::LdLA => InstructionType::Load(GenericRegType::Single(SingleRegType::L), Source::RegImm(SingleRegType::A)),
            Opcode::LdHLB => InstructionType::Store(Dest::RegAddr(DoubleRegType::HL), Source::RegImm(SingleRegType::B)),
            Opcode::LdHLC => InstructionType::Store(Dest::RegAddr(DoubleRegType::HL), Source::RegImm(SingleRegType::C)),
            Opcode::LdHLD => InstructionType::Store(Dest::RegAddr(DoubleRegType::HL), Source::RegImm(SingleRegType::D)),
            Opcode::LdHLE => InstructionType::Store(Dest::RegAddr(DoubleRegType::HL), Source::RegImm(SingleRegType::E)),
            Opcode::LdHLH => InstructionType::Store(Dest::RegAddr(DoubleRegType::HL), Source::RegImm(SingleRegType::H)),
            Opcode::LdHLL => InstructionType::Store(Dest::RegAddr(DoubleRegType::HL), Source::RegImm(SingleRegType::L)),
            Opcode::Halt => InstructionType::Halt,
            Opcode::LdHLA => InstructionType::Store(Dest::RegAddr(DoubleRegType::HL), Source::RegImm(SingleRegType::A)),
            Opcode::LdAB => InstructionType::Load(GenericRegType::Single(SingleRegType::A), Source::RegImm(SingleRegType::B)),
            Opcode::LdAC => InstructionType::Load(GenericRegType::Single(SingleRegType::A), Source::RegImm(SingleRegType::C)),
            Opcode::LdAD => InstructionType::Load(GenericRegType::Single(SingleRegType::A), Source::RegImm(SingleRegType::D)),
            Opcode::LdAE => InstructionType::Load(GenericRegType::Single(SingleRegType::A), Source::RegImm(SingleRegType::E)),
            Opcode::LdAH => InstructionType::Load(GenericRegType::Single(SingleRegType::A), Source::RegImm(SingleRegType::H)),
            Opcode::LdAL => InstructionType::Load(GenericRegType::Single(SingleRegType::A), Source::RegImm(SingleRegType::L)),
            Opcode::LdAHL => InstructionType::Load(GenericRegType::Single(SingleRegType::A), Source::RegAddr(DoubleRegType::HL)),
            Opcode::LdAA => InstructionType::Load(GenericRegType::Single(SingleRegType::A), Source::RegImm(SingleRegType::A)),
            _ => InstructionType::Nop,
        }
    }

    #[verifier::rlimit(100)]
    #[verifier::spinoff_prover]
    fn decode_block2(op: Opcode, memory: &[u8]) -> (r: InstructionType)
        requires
            memory@.len() >= length_of(opcode_value(op)),
            0x80 <= opcode_value(op) < 0xC0,
            opcode_value(op) != 0xCB,
        ensures
            r == decode_spec(opcode_value(op), operand_byte(memory@), operand_word(memory@)),
    {
        match op {
            Opcode::AddAB => InstructionType::Arithmetic(ArithmeticType::Add(SingleRegType::A, Operand::Reg(SingleRegType::B))),
            Opcode::AddAC => InstructionType::Arithmetic(ArithmeticType::Add(SingleRegType::A, Operand::Reg(SingleRegType::C))),
            Opcode::AddAD => InstructionType::Arithmetic(ArithmeticType::Add(SingleRegType::A, Operand::Reg(SingleRegType::D))),
            Opcode::AddAE => InstructionType::Arithmetic(ArithmeticType::Add(SingleRegType::A, Operand::Reg(SingleRegType::E))),
            Opcode::AddAH => InstructionType::Arithmetic(ArithmeticType::Add(SingleRegType::A, Operand::Reg(SingleRegType::H))),
            Opcode::AddAL => InstructionType::Arithmetic(ArithmeticType::Add(SingleRegType::A, Operand::Reg(SingleRegType::L))),
            Opcode::AddAHL => InstructionType::Arithmetic(ArithmeticType::Add(SingleRegType::A, Operand::RegAddr(DoubleRegType::HL))),
            Opcode::AddAA => InstructionType::Arithmetic(ArithmeticType::Add(SingleRegType::A, Operand::Reg(SingleRegType::A))),
            Opcode::AdcAB => InstructionType::Arithmetic(ArithmeticType::Adc(SingleRegType::A, Operand::Reg(SingleRegType::B))),
            Opcode::AdcAC => InstructionType::Arithmetic(ArithmeticType::Adc(SingleRegType::A, Operand::Reg(SingleRegType::C))),
            Opcode::AdcAD => InstructionType::Arithmetic(ArithmeticType::Adc(SingleRegType::A, Operand::Reg(SingleRegType::D))),
            Opcode::AdcAE => InstructionType::Arithmetic(ArithmeticType::Adc(SingleRegType::A, Operand::Reg(SingleRegType::E))),
            Opcode::AdcAH => InstructionType::Arithmetic(ArithmeticType::Adc(SingleRegType::A, Operand::Reg(SingleRegType::H))),
            Opcode::AdcAL => InstructionType::Arithmetic(ArithmeticType::Adc(SingleRegType::A, Operand::Reg(SingleRegType::L))),
            Opcode::AdcAHL => InstructionType::Arithmetic(ArithmeticType::Adc(SingleRegType::A, Operand::RegAddr(DoubleRegType::HL))),
            Opcode::AdcAA => InstructionType::Arithmetic(ArithmeticType::Adc(SingleRegType::A, Operand::Reg(SingleRegType::A))),
            Opcode::SubAB => InstructionType::Arithmetic(ArithmeticType::Sub(SingleRegType::A, Operand::Reg(SingleRegType::B))),
            Opcode::SubAC => InstructionType::Arithmetic(ArithmeticType::Sub(SingleRegType::A, Operand::Reg(SingleRegType::C))),
            Opcode::SubAD => InstructionType::Arithmetic(ArithmeticType::Sub(SingleRegType::A, Operand::Reg(SingleRegType::D))),
            Opcode::SubAE => InstructionType::Arithmetic(ArithmeticType::Sub(SingleRegType::A, Operand::Reg(SingleRegType::E))),
            Opcode::SubAH => InstructionType::Arithmetic(ArithmeticType::Sub(SingleRegType::A, Operand::Reg(SingleRegType::H))),
            Opcode::SubAL => InstructionType::Arithmetic(ArithmeticType::Sub(SingleRegType::A, Operand::Reg(SingleRegType::L))),
            Opcode::SubAHL => InstructionType::Arithmetic(ArithmeticType::Sub(SingleRegType::A, Operand::RegAddr(DoubleRegType::HL))),
            Opcode::SubAA => InstructionType::Arithmetic(ArithmeticType::Sub(SingleRegType::A, Operand::Reg(SingleRegType::A))),
            Opcode::SbcAB => InstructionType::Arithmetic(ArithmeticType::Sbc(SingleRegType::A, Operand::Reg(SingleRegType::B))),
            Opcode::SbcAC => InstructionType::Arithmetic(ArithmeticType::Sbc(SingleRegType::A, Operand::Reg(SingleRegType::C))),
            Opcode::SbcAD => InstructionType::Arithmetic(ArithmeticType::Sbc(SingleRegType::A, Operand::Reg(SingleRegType::D))),
            Opcode::SbcAE => InstructionType::Arithmetic(ArithmeticType::Sbc(SingleRegType::A, Operand::Reg(SingleRegType::E))),
            Opcode::SbcAH => InstructionType::Arithmetic(ArithmeticType::Sbc(SingleRegType::A, Operand::Reg(SingleRegType::H))),
            Opcode::SbcAL => InstructionType::Arithmetic(ArithmeticType::Sbc(SingleRegType::A, Operand::Reg(SingleRegType::L))),
            Opcode::SbcAHL => InstructionType::Arithmetic(ArithmeticType::Sbc(SingleRegType::A, Operand::RegAddr(DoubleRegType::HL))),
            Opcode::SbcAA => InstructionType::Arithmetic(ArithmeticType::Sbc(SingleRegType::A, Operand::Reg(SingleRegType::A))),
            Opcode::AndB => InstructionType::Arithmetic(ArithmeticType::And(SingleRegType::A, Operand::Reg(SingleRegType::B))),
            Opcode::AndC => InstructionType::Arithmetic(ArithmeticType::And(SingleRegType::A, Operand::Reg(SingleRegType::C))),
            Opcode::AndD => InstructionType::Arithmetic(ArithmeticType::And(SingleRegType::A, Operand::Reg(SingleRegType::D))),
            Opcode::AndE => InstructionType::Arithmetic(ArithmeticType::And(SingleRegType::A, Operand::Reg(SingleRegType::E))),
            Opcode::AndH => InstructionType::Arithmetic(ArithmeticType::And(SingleRegType::A, Operand::Reg(SingleRegType::H))),
            Opcode::AndL => InstructionType::Arithmetic(ArithmeticType::And(SingleRegType::A, Operand::Reg(SingleRegType::L))),
            Opcode::AndHL => InstructionType::Arithmetic(ArithmeticType::And(SingleRegType::A, Operand::RegAddr(DoubleRegType::HL))),
            Opcode::AndA => InstructionType::Arithmetic(ArithmeticType::And(SingleRegType::A, Operand::Reg(SingleRegType::A))),
            Opcode::XorB => InstructionType::Arithmetic(ArithmeticType::Xor(SingleRegType::A, Operand::Reg(SingleRegType::B))),
            Opcode::XorC => InstructionType::Arithmetic(ArithmeticType::Xor(SingleRegType::A, Operand::Reg(SingleRegType::C))),
            Opcode::XorD => InstructionType::Arithmetic(ArithmeticType::Xor(SingleRegType::A, Operand::Reg(SingleRegType::D))),
            Opcode::XorE => InstructionType::Arithmetic(ArithmeticType::Xor(SingleRegType::A, Operand::Reg(SingleRegType::E))),
            Opcode::XorH => InstructionType::Arithmetic(ArithmeticType::Xor(SingleRegType::A, Operand::Reg(SingleRegType::H))),
            Opcode::XorL => InstructionType::Arithmetic(ArithmeticType::Xor(SingleRegType::A, Operand::Reg(SingleRegType::L))),
            Opcode::XorHL => InstructionType::Arithmetic(ArithmeticType::Xor(SingleRegType::A, Operand::RegAddr(DoubleRegType::HL))),
            Opcode::XorA => InstructionType::Arithmetic(ArithmeticType::Xor(SingleRegType::A, Operand::Reg(SingleRegType::A))),
            Opcode::OrB => InstructionType::Arithmetic(ArithmeticType::Or(SingleRegType::A, Operand::Reg(SingleRegType::B))),
            Opcode::OrC => InstructionType::Arithmetic(ArithmeticType::Or(SingleRegType::A, Operand::Reg(SingleRegType::C))),
            Opcode::OrD => InstructionType::Arithmetic(ArithmeticType::Or(SingleRegType::A, Operand::Reg(SingleRegType::D))),
            Opcode::OrE => InstructionType::Arithmetic(ArithmeticType::Or(SingleRegType::A, Operand::Reg(SingleRegType::E))),
            Opcode::OrH => InstructionType::Arithmetic(ArithmeticType::Or(SingleRegType::A, Operand::Reg(SingleRegType::H))),
            Opcode::OrL => InstructionType::Arithmetic(ArithmeticType::Or(SingleRegType::A, Operand::Reg(SingleRegType::L))),
            Opcode::OrHL => InstructionType::Arithmetic(ArithmeticType::Or(SingleRegType::A, Operand::RegAddr(DoubleRegType::HL))),
            Opcode::OrA => InstructionType::Arithmetic(ArithmeticType::Or(SingleRegType::A, Operand::Reg(SingleRegType::A))),
            Opcode::CpB => InstructionType::Arithmetic(ArithmeticType::Cmp(SingleRegType::A, Operand::Reg(SingleRegType::B))),
            Opcode::CpC => InstructionType::Arithmetic(ArithmeticType::Cmp(SingleRegType::A, Operand::Reg(SingleRegType::C))),
            Opcode::CpD => InstructionType::Arithmetic(ArithmeticType::Cmp(SingleRegType::A, Operand::Reg(SingleRegType::D))),
            Opcode::CpE => InstructionType::Arithmetic(ArithmeticType::Cmp(SingleRegType::A, Operand::Reg(SingleRegType::E))),
            Opcode::CpH => InstructionType::Arithmetic(ArithmeticType::Cmp(SingleRegType::A, Operand::Reg(SingleRegType::H))),
            Opcode::CpL => InstructionType::Arithmetic(ArithmeticType::Cmp(SingleRegType::A, Operand::Reg(SingleRegType::L))),
            Opcode::CpHL => InstructionType::Arithmetic(ArithmeticType::Cmp(SingleRegType::A, Operand::RegAddr(DoubleRegType::HL))),
            Opcode::CpA => InstructionType::Arithmetic(ArithmeticType::Cmp(SingleRegType::A, Operand::Reg(SingleRegType::A))),
            _ => InstructionType::Nop,
        }
    }

    #[verifier::rlimit(100)]
    #[verifier::spinoff_prover]
    fn decode_block3(op: Opcode, memory: &[u8]) -> (r: InstructionType)
        requires
            memory@.len() >= length_of(opcode_value(op)),
            0xC0 <= opcode_value(op),
            opcode_value(op) != 0xCB,
        ensures
            r == decode_spec(opcode_value(op), operand_byte(memory@), operand_word(memory@)),
    {
        match op {
            Opcode::RetNZ => InstructionType::Ret(JumpCondition::NotZero),
            Opcode::PopBC => InstructionType::Pop(DoubleRegType::BC),
            Opcode::JpNZ => InstructionType::Jump(JumpCondition::NotZero, JumpType::Addr(read_u16_le(&memory[1..3]))),
            Opcode::Jp => InstructionType::Jump(JumpCondition::Always, JumpType::Addr(read_u16_le(&memory[1..3]))),
            Opcode::CallNZ => InstructionType::Call(read_u16_le(&memory[1..3]), JumpCondition::NotZero),
            Opcode::PushBC => InstructionType::Push(DoubleRegType::BC),
            Opcode::AddAd8 => InstructionType::Arithmetic(ArithmeticType::Add(SingleRegType::A, Operand::Imm(memory[1]))),
            Opcode::Rst0 => InstructionType::Call(0x0000, JumpCondition::Always),
            Opcode::RetZ => InstructionType::Ret(JumpCondition::Zero),
            Opcode::Ret => InstructionType::Ret(JumpCondition::Always),
            Opcode::JpZ => InstructionType::Jump(JumpCondition::Zero, JumpType::Addr(read_u16_le(&memory[1..3]))),
            Opcode::CallZ => InstructionType::Call(read_u16_le(&memory[1..3]), JumpCondition::Zero),
            Opcode::Call => InstructionType::Call(read_u16_le(&memory[1..3]), JumpCondition::Always),
            Opcode::AdcAd8 => InstructionType::Arithmetic(ArithmeticType::Adc(SingleRegType::A, Operand::Imm(memory[1]))),
            Opcode::Rst1 => InstructionType::Call(0x0008, JumpCondition::Always),
            Opcode::RetNC => InstructionType::Ret(JumpCondition::NotCarry),
            Opcode::PopDE => InstructionType::Pop(DoubleRegType::DE),
            Opcode::JpNC => InstructionType::Jump(JumpCondition::NotCarry, JumpType::Addr(read_u16_le(&memory[1..3]))),
            Opcode::CallNC => InstructionType::Call(read_u16_le(&memory[1..3]), JumpCondition::NotCarry),
            Opcode::PushDE => InstructionType::Push(DoubleRegType::DE),
            Opcode::SubAd8 => InstructionType::Arithmetic(ArithmeticType::Sub(SingleRegType::A, Operand::Imm(memory[1]))),
            Opcode::Rst2 => InstructionType::Call(0x0010, JumpCondition::Always),
            Opcode::RetC => InstructionType::Ret(JumpCondition::Carry),
            Opcode::RetI => InstructionType::RetI,
            Opcode::JpC => InstructionType::Jump(JumpCondition::Carry, JumpType::Addr(read_u16_le(&memory[1..3]))),
            Opcode::CallC => InstructionType::Call(read_u16_le(&memory[1..3]), JumpCondition::Carry),
            Opcode::SbcAd8 => InstructionType::Arithmetic(ArithmeticType::Sbc(SingleRegType::A, Operand::Imm(memory[1]))),
            Opcode::Rst3 => InstructionType::Call(0x0018, JumpCondition::Always),
            Opcode::Ldha8A => InstructionType::Store(Dest::IoPort(memory[1]), Source::RegImm(SingleRegType::A)),
            Opcode::PopHL => InstructionType::Pop(DoubleRegType::HL),
            Opcode::LdioCA => InstructionType::Store(Dest::IoPortReg(SingleRegType::C), Source::RegImm(SingleRegType::A)),
            Opcode::PushHL => InstructionType::Push(DoubleRegType::HL),
            Opcode::Andd8 => InstructionType::Arithmetic(ArithmeticType::And(SingleRegType::A, Operand::Imm(memory[1]))),
            Opcode::Rst4 => InstructionType::Call(0x0020, JumpCondition::Always),
            Opcode::AddSPs8 => InstructionType::Arithmetic(ArithmeticType::AddSP((memory[1] as i8))),
            Opcode::JpHL => InstructionType::Jump(JumpCondition::Always, JumpType::RegAddr(DoubleRegType::HL)),
            Opcode::Lda16A => InstructionType::Store(Dest::Addr(read_u16_le(&memory[1..3])), Source::RegImm(SingleRegType::A)),
            Opcode::Xord8 => InstructionType::Arithmetic(ArithmeticType::Xor(SingleRegType::A, Operand::Imm(memory[1]))),
            Opcode::Rst5 => InstructionType::Call(0x0028, JumpCondition::Always),
            Opcode::LdhAa8 => InstructionType::Load(GenericRegType::Single(SingleRegType::A), Source::IoPortImm(memory[1])),
            Opcode::PopAF => InstructionType::Pop(DoubleRegType::AF),
            Opcode::LdAioC => InstructionType::Load(GenericRegType::Single(SingleRegType::A), Source::IoPortReg(SingleRegType::C)),
            Opcode::Di => InstructionType::MasterInterrupt(false),
            Opcode::PushAF => InstructionType::Push(DoubleRegType::AF),
            Opcode::Ord8 => InstructionType::Arithmetic(ArithmeticType::Or(SingleRegType::A, Operand::Imm(memory[1]))),
            Opcode::Rst6 => InstructionType::Call(0x0030, JumpCondition::Always),
            Opcode::LdHLSPs8 => InstructionType::Load(GenericRegType::Double(DoubleRegType::HL), Source::SpWithOffset((memory[1] as i8))),
            Opcode::LdSPHL => InstructionType::LoadSP(DoubleRegType::HL),
            Opcode::LdAa16 => InstructionType::Load(GenericRegType::Single(SingleRegType::A), Source::Addr(read_u16_le(&memory[1..3]))),
            Opcode::Ei => InstructionType::MasterInterrupt(true),
            Opcode::Cpd8 => InstructionType::Arithmetic(ArithmeticType::Cmp(SingleRegType::A, Operand::Imm(memory[1]))),
            Opcode::Rst7 => InstructionType::Call(0x0038, JumpCondition::Always),
            _ => InstructionType::Nop,
        }
    }

    fn decode_cb(opcode: u8) -> (r: Result<InstructionType, GbError>)
        ensures
            r == Ok::<InstructionType, GbError>(cb_decode_spec(opcode)),
    {
        let cb = CbOpcode::from_u8(opcode);
        let op = match cb {
            Some(op) => op,
            None => {
                return Err(GbError::UnknownCbInstruction(opcode));
            },
        };
        Ok(Self::decode_cb_op(op))
    }

    #[verifier::rlimit(100)]
    #[verifier::spinoff_prover]
    fn decode_cb_op(op: CbOpcode) -> (r: InstructionType)
        ensures
            r == cb_decode_spec(cb_value(op)),
    {
        match op {
            CbOpcode::RlcB => InstructionType::Arithmetic(ArithmeticType::Rlc(GenericRegType::Single(SingleRegType::B), false)),
            CbOpcode::RlcC => InstructionType::Arithmetic(ArithmeticType::Rlc(GenericRegType::Single(SingleRegType::C), false)),
            CbOpcode::RlcD => InstructionType::Arithmetic(ArithmeticType::Rlc(GenericRegType::Single(SingleRegType::D), false)),
            CbOpcode::RlcE => InstructionType::Arithmetic(ArithmeticType::Rlc(GenericRegType::Single(SingleRegType::E), false)),
            CbOpcode::RlcH => InstructionType::Arithmetic(ArithmeticType::Rlc(GenericRegType::Single(SingleRegType::H), false)),
            CbOpcode::RlcL => InstructionType::Arithmetic(ArithmeticType::Rlc(GenericRegType::Single(SingleRegType::L), false)),
            CbOpcode::RlcHL => InstructionType::Arithmetic(ArithmeticType::Rlc(GenericRegType::Double(DoubleRegType::HL), false)),
            CbOpcode::RlcA => InstructionType::Arithmetic(ArithmeticType::Rlc(GenericRegType::Single(SingleRegType::A), false)),
            CbOpcode::RrcB => InstructionType::Arithmetic(ArithmeticType::Rrc(GenericRegType::Single(SingleRegType::B), false)),
            CbOpcode::RrcC => InstructionType::Arithmetic(ArithmeticType::Rrc(GenericRegType::Single(SingleRegType::C), false)),
            CbOpcode::RrcD => InstructionType::Arithmetic(ArithmeticType::Rrc(GenericRegType::Single(SingleRegType::D), false)),
            CbOpcode::RrcE => InstructionType::Arithmetic(ArithmeticType::Rrc(GenericRegType::Single(SingleRegType::E), false)),
            CbOpcode::RrcH => InstructionType::Arithmetic(ArithmeticType::Rrc(GenericRegType::Single(SingleRegType::H), false)),
            CbOpcode::RrcL => InstructionType::Arithmetic(ArithmeticType::Rrc(GenericRegType::Single(SingleRegType::L), false)),
            CbOpcode::RrcHL => InstructionType::Arithmetic(ArithmeticType::Rlc(GenericRegType::Double(DoubleRegType::HL), false)),
            CbOpcode::RrcA => InstructionType::Arithmetic(ArithmeticType::Rrc(GenericRegType::Single(SingleRegType::A), false)),
            CbOpcode::RlB => InstructionType::Arithmetic(ArithmeticType::Rl(GenericRegType::Single(SingleRegType::B), false)),
            CbOpcode::RlC => InstructionType::Arithmetic(ArithmeticType::Rl(GenericRegType::Single(SingleRegType::C), false)),
            CbOpcode::RlD => InstructionType::Arithmetic(ArithmeticType::Rl(GenericRegType::Single(SingleRegType::D), false)),
            CbOpcode::RlE => InstructionType::Arithmetic(ArithmeticType::Rl(GenericRegType::Single(SingleRegType::E), false)),
            CbOpcode::RlH => InstructionType::Arithmetic(ArithmeticType::Rl(GenericRegType::Single(SingleRegType::H), false)),
            CbOpcode::RlL => InstructionType::Arithmetic(ArithmeticType::Rl(GenericRegType::Single(SingleRegType::L), false)),
            CbOpcode::RlHL => InstructionType::Arithmetic(ArithmeticType::Rl(GenericRegType::Double(DoubleRegType::HL), false)),
            CbOpcode::RlA => InstructionType::Arithmetic(ArithmeticType::Rl(GenericRegType::Single(SingleRegType::A), false)),
            CbOpcode::RrB => InstructionType::Arithmetic(ArithmeticType::Rr(GenericRegType::Single(SingleRegType::B), false)),
            CbOpcode::RrC => InstructionType::Arithmetic(ArithmeticType::Rr(GenericRegType::Single(SingleRegType::C), false)),
            CbOpcode::RrD => InstructionType::Arithmetic(ArithmeticType::Rr(GenericRegType::Single(SingleRegType::D), false)),
            CbOpcode::RrE => InstructionType::Arithmetic(ArithmeticType::Rr(GenericRegType::Single(SingleRegType::E), false)),
            CbOpcode::RrH => InstructionType::Arithmetic(ArithmeticType::Rr(GenericRegType::Single(SingleRegType::H), false)),
            CbOpcode::RrL => InstructionType::Arithmetic(ArithmeticType::Rr(GenericRegType::Single(SingleRegType::L), false)),
            CbOpcode::RrHL => InstructionType::Arithmetic(ArithmeticType::Rr(GenericRegType::Double(DoubleRegType::HL), false)),
            CbOpcode::RrA => InstructionType::Arithmetic(ArithmeticType::Rr(GenericRegType::Single(SingleRegType::A), false)),
            CbOpcode::SlaB => InstructionType::Arithmetic(ArithmeticType::Sla(GenericRegType::Single(SingleRegType::B))),
            CbOpcode::SlaC => InstructionType::Arithmetic(ArithmeticType::Sla(GenericRegType::Single(SingleRegType::C))),
            CbOpcode::SlaD => InstructionType::Arithmetic(ArithmeticType::Sla(GenericRegType::Single(SingleRegType::D))),
            CbOpcode::SlaE => InstructionType::Arithmetic(ArithmeticType::Sla(GenericRegType::Single(SingleRegType::E))),
            CbOpcode::SlaH => InstructionType::Arithmetic(ArithmeticType::Sla(GenericRegType::Single(SingleRegType::H))),
            CbOpcode::SlaL => InstructionType::Arithmetic(ArithmeticType::Sla(GenericRegType::Single(SingleRegType::L))),
            CbOpcode::SlaHL => InstructionType::Arithmetic(ArithmeticType::Sla(GenericRegType::Double(DoubleRegType::HL))),
            CbOpcode::SlaA => InstructionType::Arithmetic(ArithmeticType::Sla(GenericRegType::Single(SingleRegType::A))),
            CbOpcode::SraB => InstructionType::Arithmetic(ArithmeticType::Sra(GenericRegType::Single(SingleRegType::B))),
            CbOpcode::SraC => InstructionType::Arithmetic(ArithmeticType::Sra(GenericRegType::Single(SingleRegType::C))),
            CbOpcode::SraD => InstructionType::Arithmetic(ArithmeticType::Sra(GenericRegType::Single(SingleRegType::D))),
            CbOpcode::SraE => InstructionType::Arithmetic(ArithmeticType::Sra(GenericRegType::Single(SingleRegType::E))),
            CbOpcode::SraH => InstructionType::Arithmetic(ArithmeticType::Sra(GenericRegType::Single(SingleRegType::H))),
            CbOpcode::SraL => InstructionType::Arithmetic(ArithmeticType::Sra(GenericRegType::Single(SingleRegType::L))),
            CbOpcode::SraHL => InstructionType::Arithmetic(ArithmeticType::Sra(GenericRegType::Double(DoubleRegType::HL))),
            CbOpcode::SraA => InstructionType::Arithmetic(ArithmeticType::Sra(GenericRegType::Single(SingleRegType::A))),
            CbOpcode::SwapB => InstructionType::Arithmetic(ArithmeticType::Swap(GenericRegType::Single(SingleRegType::B))),
            CbOpcode::SwapC => InstructionType::Arithmetic(ArithmeticType::Swap(GenericRegType::Single(SingleRegType::C))),
            CbOpcode::SwapD => InstructionType::Arithmetic(ArithmeticType::Swap(GenericRegType::Single(SingleRegType::D))),
            CbOpcode::SwapE => InstructionType::Arithmetic(ArithmeticType::Swap(GenericRegType::Single(SingleRegType::E))),
            CbOpcode::SwapH => InstructionType::Arithmetic(ArithmeticType::Swap(GenericRegType::Single(SingleRegType::H))),
            CbOpcode::SwapL => InstructionType::Arithmetic(ArithmeticType::Swap(GenericRegType::Single(SingleRegType::L))),
            CbOpcode::SwapHL => InstructionType::Arithmetic(ArithmeticType::Swap(GenericRegType::Double(DoubleRegType::HL))),
            CbOpcode::SwapA => InstructionType::Arithmetic(ArithmeticType::Swap(GenericRegType::Single(SingleRegType::A))),
            CbOpcode::SrlB => InstructionType::Arithmetic(ArithmeticType::Srl(GenericRegType::Single(SingleRegType::B))),
            CbOpcode::SrlC => InstructionType::Arithmetic(ArithmeticType::Srl(GenericRegType::Single(SingleRegType::C))),
            CbOpcode::SrlD => InstructionType::Arithmetic(ArithmeticType::Srl(GenericRegType::Single(SingleRegType::D))),
            CbOpcode::SrlE => InstructionType::Arithmetic(ArithmeticType::Srl(GenericRegType::Single(SingleRegType::E))),
            CbOpcode::SrlH => InstructionType::Arithmetic(ArithmeticType::Srl(GenericRegType::Single(SingleRegType::H))),
            CbOpcode::SrlL => InstructionType::Arithmetic(ArithmeticType::Srl(GenericRegType::Single(SingleRegType::L))),
            CbOpcode::SrlHL => InstructionType::Arithmetic(ArithmeticType::Srl(GenericRegType::Double(DoubleRegType::HL))),
            CbOpcode::SrlA => InstructionType::Arithmetic(ArithmeticType::Srl(GenericRegType::Single(SingleRegType::A))),
            CbOpcode::Bit0B => InstructionType::Arithmetic(ArithmeticType::TestBit(GenericRegType::Single(SingleRegType::B), 0)),
            CbOpcode::Bit0C => InstructionType::Arithmetic(ArithmeticType::TestBit(GenericRegType::Single(SingleRegType::C), 0)),
            CbOpcode::Bit0D => InstructionType::Arithmetic(ArithmeticType::TestBit(GenericRegType::Single(SingleRegType::D), 0)),
            CbOpcode::Bit0E => InstructionType::Arithmetic(ArithmeticType::TestBit(GenericRegType::Single(SingleRegType::E), 0)),
            CbOpcode::Bit0H => InstructionType::Arithmetic(ArithmeticType::TestBit(GenericRegType::Single(SingleRegType::H), 0)),
            CbOpcode::Bit0L => InstructionType::Arithmetic(ArithmeticType::TestBit(GenericRegType::Single(SingleRegType::L), 0)),
            CbOpcode::Bit0HL => InstructionType::Arithmetic(ArithmeticType::TestBit(GenericRegType::Double(DoubleRegType::HL), 0)),
            CbOpcode::Bit0A => InstructionType::Arithmetic(ArithmeticType::TestBit(GenericRegType::Single(SingleRegType::A), 0)),
            CbOpcode::Bit1B => InstructionType::Arithmetic(ArithmeticType::TestBit(GenericRegType::Single(SingleRegType::B), 1)),
            CbOpcode::Bit1C => InstructionType::Arithmetic(ArithmeticType::TestBit(GenericRegType::Single(SingleRegType::C), 1)),
            CbOpcode::Bit1D => InstructionType::Arithmetic(ArithmeticType::TestBit(GenericRegType::Single(SingleRegType::D), 1)),
            CbOpcode::Bit1E => InstructionType::Arithmetic(ArithmeticType::TestBit(GenericRegType::Single(SingleRegType::E), 1)),
            CbOpcode::Bit1H => InstructionType::Arithmetic(ArithmeticType::TestBit(GenericRegType::Single(SingleRegType::H), 1)),
            CbOpcode::Bit1L => InstructionType::Arithmetic(ArithmeticType::TestBit(GenericRegType::Single(SingleRegType::L), 1)),
            CbOpcode::Bit1HL => InstructionType::Arithmetic(ArithmeticType::TestBit(GenericRegType::Double(DoubleRegType::HL), 1)),
            CbOpcode::Bit1A => InstructionType::Arithmetic(ArithmeticType::TestBit(GenericRegType::Single(SingleRegType::A), 1)),
            CbOpcode::Bit2B => InstructionType::Arithmetic(ArithmeticType::TestBit(GenericRegType::Single(SingleRegType::B), 2)),
            CbOpcode::Bit2C => InstructionType::Arithmetic(ArithmeticType::TestBit(GenericRegType::Single(SingleRegType::C), 2)),
            CbOpcode::Bit2D => InstructionType::Arithmetic(ArithmeticType::TestBit(GenericRegType::Single(SingleRegType::D), 2)),
            CbOpcode::Bit2E => InstructionType::Arithmetic(ArithmeticType::TestBit(GenericRegType::Single(SingleRegType::E), 2)),
            CbOpcode::Bit2H => InstructionType::Arithmetic(ArithmeticType::TestBit(GenericRegType::Single(SingleRegType::H), 2)),
            CbOpcode::Bit2L => InstructionType::Arithmetic(ArithmeticType::TestBit(GenericRegType::Single(SingleRegType::L), 2)),
            CbOpcode::Bit2HL => InstructionType::Arithmetic(ArithmeticType::TestBit(GenericRegType::Double(DoubleRegType::HL), 2)),
            CbOpcode::Bit2A => InstructionType::Arithmetic(ArithmeticType::TestBit(GenericRegType::Single(SingleRegType::A), 2)),
            CbOpcode::Bit3B => InstructionType::Arithmetic(ArithmeticType::TestBit(GenericRegType::Single(SingleRegType::B), 3)),
            CbOpcode::Bit3C => InstructionType::Arithmetic(ArithmeticType::TestBit(GenericRegType::Single(SingleRegType::C), 3)),
            CbOpcode::Bit3D => InstructionType::Arithmetic(ArithmeticType::TestBit(GenericRegType::Single(SingleRegType::D), 3)),
            CbOpcode::Bit3E => InstructionType::Arithmetic(ArithmeticType::TestBit(GenericRegType::Single(SingleRegType::E), 3)),
            CbOpcode::Bit3H => InstructionType::Arithmetic(ArithmeticType::TestBit(GenericRegType::Single(SingleRegType::H), 3)),
            CbOpcode::Bit3L => InstructionType::Arithmetic(ArithmeticType::TestBit(GenericRegType::Single(SingleRegType::L), 3)),
            CbOpcode::Bit3HL => InstructionType::Arithmetic(ArithmeticType::TestBit(GenericRegType::Double(DoubleRegType::HL), 3)),
            CbOpcode::Bit3A => InstructionType::Arithmetic(ArithmeticType::TestBit(GenericRegType::Single(SingleRegType::A), 3)),
            CbOpcode::Bit4B => InstructionType::Arithmetic(ArithmeticType::TestBit(GenericRegType::Single(SingleRegType::B), 4)),
            CbOpcode::Bit4C => InstructionType::Arithmetic(ArithmeticType::TestBit(GenericRegType::Single(SingleRegType::C), 4)),
            CbOpcode::Bit4D => InstructionType::Arithmetic(ArithmeticType::TestBit(GenericRegType::Single(SingleRegType::D), 4)),
            CbOpcode::Bit4E => InstructionType::Arithmetic(ArithmeticType::TestBit(GenericRegType::Single(SingleRegType::E), 4)),
            CbOpcode::Bit4H => InstructionType::Arithmetic(ArithmeticType::TestBit(GenericRegType::Single(SingleRegType::H), 4)),
            CbOpcode::Bit4L => InstructionType::Arithmetic(ArithmeticType::TestBit(GenericRegType::Single(SingleRegType::L), 4)),
            CbOpcode::Bit4HL => InstructionType::Arithmetic(ArithmeticType::TestBit(GenericRegType::Double(DoubleRegType::HL), 4)),
            CbOpcode::Bit4A => InstructionType::Arithmetic(ArithmeticType::TestBit(GenericRegType::Single(SingleRegType::A), 4)),
            CbOpcode::Bit5B => InstructionType::Arithmetic(ArithmeticType::TestBit(GenericRegType::Single(SingleRegType::B), 5)),
            CbOpcode::Bit5C => InstructionType::Arithmetic(ArithmeticType::TestBit(GenericRegType::Single(SingleRegType::C), 5)),
            CbOpcode::Bit5D => InstructionType::Arithmetic(ArithmeticType::TestBit(GenericRegType::Single(SingleRegType::D), 5)),
            CbOpcode::Bit5E => InstructionType::Arithmetic(ArithmeticType::TestBit(GenericRegType::Single(SingleRegType::E), 5)),
            CbOpcode::Bit5H => InstructionType::Arithmetic(ArithmeticType::TestBit(GenericRegType::Single(SingleRegType::H), 5)),
            CbOpcode::Bit5L => InstructionType::Arithmetic(ArithmeticType::TestBit(GenericRegType::Single(SingleRegType::L), 5)),
            CbOpcode::Bit5HL => InstructionType::Arithmetic(ArithmeticType::TestBit(GenericRegType::Double(DoubleRegType::HL), 5)),
            CbOpcode::Bit5A => InstructionType::Arithmetic(ArithmeticType::TestBit(GenericRegType::Single(SingleRegType::A), 5)),
            CbOpcode::Bit6B => InstructionType::Arithmetic(ArithmeticType::TestBit(GenericRegType::Single(SingleRegType::B), 6)),
            CbOpcode::Bit6C => InstructionType::Arithmetic(ArithmeticType::TestBit(GenericRegType::Single(SingleRegType::C), 6)),
            CbOpcode::Bit6D => InstructionType::Arithmetic(ArithmeticType::TestBit(GenericRegType::Single(SingleRegType::D), 6)),
            CbOpcode::Bit6E => InstructionType::Arithmetic(ArithmeticType::TestBit(GenericRegType::Single(SingleRegType::E), 6)),
            CbOpcode::Bit6H => InstructionType::Arithmetic(ArithmeticType::TestBit(GenericRegType::Single(SingleRegType::H), 6)),
            CbOpcode::Bit6L => InstructionType::Arithmetic(ArithmeticType::TestBit(GenericRegType::Single(SingleRegType::L), 6)),
            CbOpcode::Bit6HL => InstructionType::Arithmetic(ArithmeticType::TestBit(GenericRegType::Double(DoubleRegType::HL), 6)),
            CbOpcode::Bit6A => InstructionType::Arithmetic(ArithmeticType::TestBit(GenericRegType::Single(SingleRegType::A), 6)),
            CbOpcode::Bit7B => InstructionType::Arithmetic(ArithmeticType::TestBit(GenericRegType::Single(SingleRegType::B), 7)),
            CbOpcode::Bit7C => InstructionType::Arithmetic(ArithmeticType::TestBit(GenericRegType::Single(SingleRegType::C), 7)),
            CbOpcode::Bit7D => InstructionType::Arithmetic(ArithmeticType::TestBit(GenericRegType::Single(SingleRegType::D), 7)),
            CbOpcode::Bit7E => InstructionType::Arithmetic(ArithmeticType::TestBit(GenericRegType::Single(SingleRegType::E), 7)),
            CbOpcode::Bit7H => InstructionType::Arithmetic(ArithmeticType::TestBit(GenericRegType::Single(SingleRegType::H), 7)),
            CbOpcode::Bit7L => InstructionType::Arithmetic(ArithmeticType::TestBit(GenericRegType::Single(SingleRegType::L), 7)),
            CbOpcode::Bit7HL => InstructionType::Arithmetic(ArithmeticType::TestBit(GenericRegType::Double(DoubleRegType::HL), 7)),
            CbOpcode::Bit7A => InstructionType::Arithmetic(ArithmeticType::TestBit(GenericRegType::Single(SingleRegType::A), 7)),
            CbOpcode::Res0B => InstructionType::Arithmetic(ArithmeticType::ResetBit(GenericRegType::Single(SingleRegType::B), 0)),
            CbOpcode::Res0C => InstructionType::Arithmetic(ArithmeticType::ResetBit(GenericRegType::Single(SingleRegType::C), 0)),
            CbOpcode::Res0D => InstructionType::Arithmetic(ArithmeticType::ResetBit(GenericRegType::Single(SingleRegType::D), 0)),
            CbOpcode::Res0E => InstructionType::Arithmetic(ArithmeticType::ResetBit(GenericRegType::Single(SingleRegType::E), 0)),
            CbOpcode::Res0H => InstructionType::Arithmetic(ArithmeticType::ResetBit(GenericRegType::Single(SingleRegType::H), 0)),
            CbOpcode::Res0L => InstructionType::Arithmetic(ArithmeticType::ResetBit(GenericRegType::Single(SingleRegType::L), 0)),
            CbOpcode::Res0HL => InstructionType::Arithmetic(ArithmeticType::ResetBit(GenericRegType::Double(DoubleRegType::HL), 0)),
            CbOpcode::Res0A => InstructionType::Arithmetic(ArithmeticType::ResetBit(GenericRegType::Single(SingleRegType::A), 0)),
            CbOpcode::Res1B => InstructionType::Arithmetic(ArithmeticType::ResetBit(GenericRegType::Single(SingleRegType::B), 1)),
            CbOpcode::Res1C => InstructionType::Arithmetic(ArithmeticType::ResetBit(GenericRegType::Single(SingleRegType::C), 1)),
            CbOpcode::Res1D => InstructionType::Arithmetic(ArithmeticType::ResetBit(GenericRegType::Single(SingleRegType::D), 1)),
            CbOpcode::Res1E => InstructionType::Arithmetic(ArithmeticType::ResetBit(GenericRegType::Single(SingleRegType::E), 1)),
            CbOpcode::Res1H => InstructionType::Arithmetic(ArithmeticType::ResetBit(GenericRegType::Single(SingleRegType::H), 1)),
            CbOpcode::Res1L => InstructionType::Arithmetic(ArithmeticType::ResetBit(GenericRegType::Single(SingleRegType::L), 1)),
            CbOpcode::Res1HL => InstructionType::Arithmetic(ArithmeticType::ResetBit(GenericRegType::Double(DoubleRegType::HL), 1)),
            CbOpcode::Res1A => InstructionType::Arithmetic(ArithmeticType::ResetBit(GenericRegType::Single(SingleRegType::A), 1)),
            CbOpcode::Res2B => InstructionType::Arithmetic(ArithmeticType::ResetBit(GenericRegType::Single(SingleRegType::B), 2)),
            CbOpcode::Res2C => InstructionType::Arithmetic(ArithmeticType::ResetBit(GenericRegType::Single(SingleRegType::C), 2)),
            CbOpcode::Res2D => InstructionType::Arithmetic(ArithmeticType::ResetBit(GenericRegType::Single(SingleRegType::D), 2)),
            CbOpcode::Res2E => InstructionType::Arithmetic(ArithmeticType::ResetBit(GenericRegType::Single(SingleRegType::E), 2)),
            CbOpcode::Res2H => InstructionType::Arithmetic(ArithmeticType::ResetBit(GenericRegType::Single(SingleRegType::H), 2)),
            CbOpcode::Res2L => InstructionType::Arithmetic(ArithmeticType::ResetBit(GenericRegType::Single(SingleRegType::L), 2)),
            CbOpcode::Res2HL => InstructionType::Arithmetic(ArithmeticType::ResetBit(GenericRegType::Double(DoubleRegType::HL), 2)),
            CbOpcode::Res2A => InstructionType::Arithmetic(ArithmeticType::ResetBit(GenericRegType::Single(SingleRegType::A), 2)),
            CbOpcode::Res3B => InstructionType::Arithmetic(ArithmeticType::ResetBit(GenericRegType::Single(SingleRegType::B), 3)),
            CbOpcode::Res3C => InstructionType::Arithmetic(ArithmeticType::ResetBit(GenericRegType::Single(SingleRegType::C), 3)),
            CbOpcode::Res3D => InstructionType::Arithmetic(ArithmeticType::ResetBit(GenericRegType::Single(SingleRegType::D), 3)),
            CbOpcode::Res3E => InstructionType::Arithmetic(ArithmeticType::ResetBit(GenericRegType::Single(SingleRegType::E), 3)),
            CbOpcode::Res3H => InstructionType::Arithmetic(ArithmeticType::ResetBit(GenericRegType::Single(SingleRegType::H), 3)),
            CbOpcode::Res3L => InstructionType::Arithmetic(ArithmeticType::ResetBit(GenericRegType::Single(SingleRegType::L), 3)),
            CbOpcode::Res3HL => InstructionType::Arithmetic(ArithmeticType::ResetBit(GenericRegType::Double(DoubleRegType::HL), 3)),
            CbOpcode::Res3A => InstructionType::Arithmetic(ArithmeticType::ResetBit(GenericRegType::Single(SingleRegType::A), 3)),
            CbOpcode::Res4B => InstructionType::Arithmetic(ArithmeticType::ResetBit(GenericRegType::Single(SingleRegType::B), 4)),
            CbOpcode::Res4C => InstructionType::Arithmetic(ArithmeticType::ResetBit(GenericRegType::Single(SingleRegType::C), 4)),
            CbOpcode::Res4D => InstructionType::Arithmetic(ArithmeticType::ResetBit(GenericRegType::Single(SingleRegType::D), 4)),
            CbOpcode::Res4E => InstructionType::Arithmetic(ArithmeticType::ResetBit(GenericRegType::Single(SingleRegType::E), 4)),
            CbOpcode::Res4H => InstructionType::Arithmetic(ArithmeticType::ResetBit(GenericRegType::Single(SingleRegType::H), 4)),
            CbOpcode::Res4L => InstructionType::Arithmetic(ArithmeticType::ResetBit(GenericRegType::Single(SingleRegType::L), 4)),
            CbOpcode::Res4HL => InstructionType::Arithmetic(ArithmeticType::ResetBit(GenericRegType::Double(DoubleRegType::HL), 4)),
            CbOpcode::Res4A => InstructionType::Arithmetic(ArithmeticType::ResetBit(GenericRegType::Single(SingleRegType::A), 4)),
            CbOpcode::Res5B => InstructionType::Arithmetic(ArithmeticType::ResetBit(GenericRegType::Single(SingleRegType::B), 5)),
            CbOpcode::Res5C => InstructionType::Arithmetic(ArithmeticType::ResetBit(GenericRegType::Single(SingleRegType::C), 5)),
            CbOpcode::Res5D => InstructionType::Arithmetic(ArithmeticType::ResetBit(GenericRegType::Single(SingleRegType::D), 5)),
            CbOpcode::Res5E => InstructionType::Arithmetic(ArithmeticType::ResetBit(GenericRegType::Single(SingleRegType::E), 5)),
            CbOpcode::Res5H => InstructionType::Arithmetic(ArithmeticType::ResetBit(GenericRegType::Single(SingleRegType::H), 5)),
            CbOpcode::Res5L => InstructionType::Arithmetic(ArithmeticType::ResetBit(GenericRegType::Single(SingleRegType::L), 5)),
            CbOpcode::Res5HL => InstructionType::Arithmetic(ArithmeticType::ResetBit(GenericRegType::Double(DoubleRegType::HL), 5)),
            CbOpcode::Res5A => InstructionType::Arithmetic(ArithmeticType::ResetBit(GenericRegType::Single(SingleRegType::A), 5)),
            CbOpcode::Res6B => InstructionType::Arithmetic(ArithmeticType::ResetBit(GenericRegType::Single(SingleRegType::B), 6)),
            CbOpcode::Res6C => InstructionType::Arithmetic(ArithmeticType::ResetBit(GenericRegType::Single(SingleRegType::C), 6)),
            CbOpcode::Res6D => InstructionType::Arithmetic(ArithmeticType::ResetBit(GenericRegType::Single(SingleRegType::D), 6)),
            CbOpcode::Res6E => InstructionType::Arithmetic(ArithmeticType::ResetBit(GenericRegType::Single(SingleRegType::E), 6)),
            CbOpcode::Res6H => InstructionType::Arithmetic(ArithmeticType::ResetBit(GenericRegType::Single(SingleRegType::H), 6)),
            CbOpcode::Res6L => InstructionType::Arithmetic(ArithmeticType::ResetBit(GenericRegType::Single(SingleRegType::L), 6)),
            CbOpcode::Res6HL => InstructionType::Arithmetic(ArithmeticType::ResetBit(GenericRegType::Double(DoubleRegType::HL), 6)),
            CbOpcode::Res6A => InstructionType::Arithmetic(ArithmeticType::ResetBit(GenericRegType::Single(SingleRegType::A), 6)),
            CbOpcode::Res7B => InstructionType::Arithmetic(ArithmeticType::ResetBit(GenericRegType::Single(SingleRegType::B), 7)),
            CbOpcode::Res7C => InstructionType::Arithmetic(ArithmeticType::ResetBit(GenericRegType::Single(SingleRegType::C), 7)),
            CbOpcode::Res7D => InstructionType::Arithmetic(ArithmeticType::ResetBit(GenericRegType::Single(SingleRegType::D), 7)),
            CbOpcode::Res7E => InstructionType::Arithmetic(ArithmeticType::ResetBit(GenericRegType::Single(SingleRegType::E), 7)),
            CbOpcode::Res7H => InstructionType::Arithmetic(ArithmeticType::ResetBit(GenericRegType::Single(SingleRegType::H), 7)),
            CbOpcode::Res7L => InstructionType::Arithmetic(ArithmeticType::ResetBit(GenericRegType::Single(SingleRegType::L), 7)),
            CbOpcode::Res7HL => InstructionType::Arithmetic(ArithmeticType::ResetBit(GenericRegType::Double(DoubleRegType::HL), 7)),
            CbOpcode::Res7A => InstructionType::Arithmetic(ArithmeticType::ResetBit(GenericRegType::Single(SingleRegType::A), 7)),
            CbOpcode::Set0B => InstructionType::Arithmetic(ArithmeticType::SetBit(GenericRegType::Single(SingleRegType::B), 0)),
            CbOpcode::Set0C => InstructionType::Arithmetic(ArithmeticType::SetBit(GenericRegType::Single(SingleRegType::C), 0)),
            CbOpcode::Set0D => InstructionType::Arithmetic(ArithmeticType::SetBit(GenericRegType::Single(SingleRegType::D), 0)),
            CbOpcode::Set0E => InstructionType::Arithmetic(ArithmeticType::SetBit(GenericRegType::Single(SingleRegType::E), 0)),
            CbOpcode::Set0H => InstructionType::Arithmetic(ArithmeticType::SetBit(GenericRegType::Single(SingleRegType::H), 0)),
            CbOpcode::Set0L => InstructionType::Arithmetic(ArithmeticType::SetBit(GenericRegType::Single(SingleRegType::L), 0)),
            CbOpcode::Set0HL => InstructionType::Arithmetic(ArithmeticType::SetBit(GenericRegType::Double(DoubleRegType::HL), 0)),
            CbOpcode::Set0A => InstructionType::Arithmetic(ArithmeticType::SetBit(GenericRegType::Single(SingleRegType::A), 0)),
            CbOpcode::Set1B => InstructionType::Arithmetic(ArithmeticType::SetBit(GenericRegType::Single(SingleRegType::B), 1)),
            CbOpcode::Set1C => InstructionType::Arithmetic(ArithmeticType::SetBit(GenericRegType::Single(SingleRegType::C), 1)),
            CbOpcode::Set1D => InstructionType::Arithmetic(ArithmeticType::SetBit(GenericRegType::Single(SingleRegType::D), 1)),
            CbOpcode::Set1E => InstructionType::Arithmetic(ArithmeticType::SetBit(GenericRegType::Single(SingleRegType::E), 1)),
            CbOpcode::Set1H => InstructionType::Arithmetic(ArithmeticType::SetBit(GenericRegType::Single(SingleRegType::H), 1)),
            CbOpcode::Set1L => InstructionType::Arithmetic(ArithmeticType::SetBit(GenericRegType::Single(SingleRegType::L), 1)),
            CbOpcode::Set1HL => InstructionType::Arithmetic(ArithmeticType::SetBit(GenericRegType::Double(DoubleRegType::HL), 1)),
            CbOpcode::Set1A => InstructionType::Arithmetic(ArithmeticType::SetBit(GenericRegType::Single(SingleRegType::A), 1)),
            CbOpcode::Set2B => InstructionType::Arithmetic(ArithmeticType::SetBit(GenericRegType::Single(SingleRegType::B), 2)),
            CbOpcode::Set2C => InstructionType::Arithmetic(ArithmeticType::SetBit(GenericRegType::Single(SingleRegType::C), 2)),
            CbOpcode::Set2D => InstructionType::Arithmetic(ArithmeticType::SetBit(GenericRegType::Single(SingleRegType::D), 2)),
            CbOpcode::Set2E => InstructionType::Arithmetic(ArithmeticType::SetBit(GenericRegType::Single(SingleRegType::E), 2)),
            CbOpcode::Set2H => InstructionType::Arithmetic(ArithmeticType::SetBit(GenericRegType::Single(SingleRegType::H), 2)),
            CbOpcode::Set2L => InstructionType::Arithmetic(ArithmeticType::SetBit(GenericRegType::Single(SingleRegType::L), 2)),
            CbOpcode::Set2HL => InstructionType::Arithmetic(ArithmeticType::SetBit(GenericRegType::Double(DoubleRegType::HL), 2)),
            CbOpcode::Set2A => InstructionType::Arithmetic(ArithmeticType::SetBit(GenericRegType::Single(SingleRegType::A), 2)),
            CbOpcode::Set3B => InstructionType::Arithmetic(ArithmeticType::SetBit(GenericRegType::Single(SingleRegType::B), 3)),
            CbOpcode::Set3C => InstructionType::Arithmetic(ArithmeticType::SetBit(GenericRegType::Single(SingleRegType::C), 3)),
            CbOpcode::Set3D => InstructionType::Arithmetic(ArithmeticType::SetBit(GenericRegType::Single(SingleRegType::D), 3)),
            CbOpcode::Set3E => InstructionType::Arithmetic(ArithmeticType::SetBit(GenericRegType::Single(SingleRegType::E), 3)),
            CbOpcode::Set3H => InstructionType::Arithmetic(ArithmeticType::SetBit(GenericRegType::Single(SingleRegType::H), 3)),
            CbOpcode::Set3L => InstructionType::Arithmetic(ArithmeticType::SetBit(GenericRegType::Single(SingleRegType::L), 3)),
            CbOpcode::Set3HL => InstructionType::Arithmetic(ArithmeticType::SetBit(GenericRegType::Double(DoubleRegType::HL), 3)),
            CbOpcode::Set3A => InstructionType::Arithmetic(ArithmeticType::SetBit(GenericRegType::Single(SingleRegType::A), 3)),
            CbOpcode::Set4B => InstructionType::Arithmetic(ArithmeticType::SetBit(GenericRegType::Single(SingleRegType::B), 4)),
            CbOpcode::Set4C => InstructionType::Arithmetic(ArithmeticType::SetBit(GenericRegType::Single(SingleRegType::C), 4)),
            CbOpcode::Set4D => InstructionType::Arithmetic(ArithmeticType::SetBit(GenericRegType::Single(SingleRegType::D), 4)),
            CbOpcode::Set4E => InstructionType::Arithmetic(ArithmeticType::SetBit(GenericRegType::Single(SingleRegType::E), 4)),
            CbOpcode::Set4H => InstructionType::Arithmetic(ArithmeticType::SetBit(GenericRegType::Single(SingleRegType::H), 4)),
            CbOpcode::Set4L => InstructionType::Arithmetic(ArithmeticType::SetBit(GenericRegType::Single(SingleRegType::L), 4)),
            CbOpcode::Set4HL => InstructionType::Arithmetic(ArithmeticType::SetBit(GenericRegType::Double(DoubleRegType::HL), 4)),
            CbOpcode::Set4A => InstructionType::Arithmetic(ArithmeticType::SetBit(GenericRegType::Single(SingleRegType::A), 4)),
            CbOpcode::Set5B => InstructionType::Arithmetic(ArithmeticType::SetBit(GenericRegType::Single(SingleRegType::B), 5)),
            CbOpcode::Set5C => InstructionType::Arithmetic(ArithmeticType::SetBit(GenericRegType::Single(SingleRegType::C), 5)),
            CbOpcode::Set5D => InstructionType::Arithmetic(ArithmeticType::SetBit(GenericRegType::Single(SingleRegType::D), 5)),
            CbOpcode::Set5E => InstructionType::Arithmetic(ArithmeticType::SetBit(GenericRegType::Single(SingleRegType::E), 5)),
            CbOpcode::Set5H => InstructionType::Arithmetic(ArithmeticType::SetBit(GenericRegType::Single(SingleRegType::H), 5)),
            CbOpcode::Set5L => InstructionType::Arithmetic(ArithmeticType::SetBit(GenericRegType::Single(SingleRegType::L), 5)),
            CbOpcode::Set5HL => InstructionType::Arithmetic(ArithmeticType::SetBit(GenericRegType::Double(DoubleRegType::HL), 5)),
            CbOpcode::Set5A => InstructionType::Arithmetic(ArithmeticType::SetBit(GenericRegType::Single(SingleRegType::A), 5)),
            CbOpcode::Set6B => InstructionType::Arithmetic(ArithmeticType::SetBit(GenericRegType::Single(SingleRegType::B), 6)),
            CbOpcode::Set6C => InstructionType::Arithmetic(ArithmeticType::SetBit(GenericRegType::Single(SingleRegType::C), 6)),
            CbOpcode::Set6D => InstructionType::Arithmetic(ArithmeticType::SetBit(GenericRegType::Single(SingleRegType::D), 6)),
            CbOpcode::Set6E => InstructionType::Arithmetic(ArithmeticType::SetBit(GenericRegType::Single(SingleRegType::E), 6)),
            CbOpcode::Set6H => InstructionType::Arithmetic(ArithmeticType::SetBit(GenericRegType::Single(SingleRegType::H), 6)),
            CbOpcode::Set6L => InstructionType::Arithmetic(ArithmeticType::SetBit(GenericRegType::Single(SingleRegType::L), 6)),
            CbOpcode::Set6HL => InstructionType::Arithmetic(ArithmeticType::SetBit(GenericRegType::Double(DoubleRegType::HL), 6)),
            CbOpcode::Set6A => InstructionType::Arithmetic(ArithmeticType::SetBit(GenericRegType::Single(SingleRegType::A), 6)),
            CbOpcode::Set7B => InstructionType::Arithmetic(ArithmeticType::SetBit(GenericRegType::Single(SingleRegType::B), 7)),
            CbOpcode::Set7C => InstructionType::Arithmetic(ArithmeticType::SetBit(GenericRegType::Single(SingleRegType::C), 7)),
            CbOpcode::Set7D => InstructionType::Arithmetic(ArithmeticType::SetBit(GenericRegType::Single(SingleRegType::D), 7)),
            CbOpcode::Set7E => InstructionType::Arithmetic(ArithmeticType::SetBit(GenericRegType::Single(SingleRegType::E), 7)),
            CbOpcode::Set7H => InstructionType::Arithmetic(ArithmeticType::SetBit(GenericRegType::Single(SingleRegType::H), 7)),
            CbOpcode::Set7L => InstructionType::Arithmetic(ArithmeticType::SetBit(GenericRegType::Single(SingleRegType::L), 7)),
            CbOpcode::Set7HL => InstructionType::Arithmetic(ArithmeticType::SetBit(GenericRegType::Double(DoubleRegType::HL), 7)),
            CbOpcode::Set7A => InstructionType::Arithmetic(ArithmeticType::SetBit(GenericRegType::Single(SingleRegType::A), 7)),
        }
    }

    /// The length of the instruction whose opcode is `opcode`.
    pub fn peek_len(opcode: u8) -> (r: Result<u8, GbError>)
        ensures
            r == (if is_opcode(opcode) {
                Ok::<u8, GbError>(length_of(opcode))
            } else {
                Err::<u8, GbError>(GbError::UnknownInstruction(opcode))
            }),
    {
        match Opcode::from_u8(opcode) {
            Some(op) => Ok(op.length()),
            None => Err(GbError::UnknownInstruction(opcode)),
        }
    }

    /// The length in bytes of this instruction.
    pub fn len(&self) -> (r: u8)
        ensures
            r == length_of(opcode_value(self@.opcode)),
            1 <= r <= 3,
    {
        self.opcode.length()
    }

    /// What this instruction does.
    pub fn instr_type(&self) -> (r: &InstructionType)
        ensures
            *r == self@.instr,
    {
        &self.instr
    }

    /// The machine cycles of this instruction; `jumped` says whether a
    /// conditional branch was taken.
    pub fn cycles(&self, jumped: bool) -> (r: u8)
        ensures
            r == instr_cycles(self@, jumped),
    {
        match self.cb_opcode.as_ref() {
            Some(op) => op.cycles(),
            None => self.opcode.cycles(jumped),
        }
    }
}

/// The length that `peek_len` announces for the opcode byte is the length
/// of the instruction that `decode` yields from it.
pub proof fn law_peek_len_matches_decode(m: Seq<u8>, i: Instruction)
    requires
        decode_result(m, Ok::<Instruction, GbError>(i)),
    ensures
        is_opcode(m[0]),
        length_of(opcode_value(i@.opcode)) == length_of(m[0]),
{
}

/// Decoding reads no byte past the instruction's length: two byte strings
/// that agree on the opcode and on its operand bytes decode alike.
#[verifier::rlimit(100)]
#[verifier::spinoff_prover]
pub proof fn law_decode_reads_only_its_length(m1: Seq<u8>, m2: Seq<u8>)
    requires
        m1.len() >= 1,
        is_opcode(m1[0]),
        m1.len() >= length_of(m1[0]),
        m2.len() >= length_of(m1[0]),
        forall|k: int| 0 <= k < length_of(m1[0]) ==> m1[k] == m2[k],
    ensures
        decoded_instr(m1) == decoded_instr(m2),
{
    let code = m1[0];
    assert(m2[0] == code);
    if length_of(code) == 1 {
        assert(decode_spec(code, operand_byte(m1), operand_word(m1)) == decode_spec(code, operand_byte(m2), operand_word(m2)));
    } else if length_of(code) == 2 {
        assert(m1[1] == m2[1]);
        assert(operand_byte(m1) == operand_byte(m2));
    } else {
        assert(m1[1] == m2[1] && m1[2] == m2[2]);
    }
}

} // verus!
