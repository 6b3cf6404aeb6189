//! Opcodes of the Game Boy CPU: the one-byte main opcodes and the
//! opcodes that follow the 0xCB prefix, with their lengths and timings.
use vstd::prelude::*;

verus! {

/// Chooses the cycle count of a conditional instruction: `if_true` when the
/// branch was taken, `if_false` otherwise.
pub fn jumped(taken: bool, if_true: u8, if_false: u8) -> (r: u8)
    ensures
        r == (if taken { if_true } else { if_false }),
{
    if taken {
        if_true
    } else {
        if_false
    }
}

/// The main opcodes. Each variant stands for the byte given by
/// `opcode_value`.
#[derive(Debug, PartialEq, Eq, Structural, Clone, Copy)]
pub enum Opcode {
    Nop,
    LdBCd16,
    LdBCA,
    IncBC,
    IncB,
    DecB,
    LdBd8,
    RlcA,
    Lda16SP,
    AddHLBC,
    LdABC,
    DecBC,
    IncC,
    DecC,
    LdCd8,
    RrcA,
    Stop,
    LdDEd16,
    LdDEA,
    IncDE,
    IncD,
    DecD,
    LdDd8,
    RlA,
    Jr,
    AddHLDE,
    LdADE,
    DecDE,
    IncE,
    DecE,
    LdEd8,
    RrA,
    JrNZ,
    LdHLd16,
    LdHLincA,
    IncHL,
    IncH,
    DecH,
    LdHd8,
    DaA,
    JrZ,
    AddHLHL,
    LdAHLinc,
    DecHL,
    IncL,
    DecL,
    LdLd8,
    Cpl,
    JrNC,
    LdSPd16,
    LdHLdecA,
    IncSP,
    Inca16HL,
    Deca16HL,
    LdHLd8,
    Scf,
    JrC,
    AddHLSP,
    LdAHLdec,
    DecSP,
    IncA,
    DecA,
    LdAd8,
    Ccf,
    LdBB,
    LdBC,
    LdBD,
    LdBE,
    LdBH,
    LdBL,
    LdBHL,
    LdBA,
    LdCB,
    LdCC,
    LdCD,
    LdCE,
    LdCH,
    LdCL,
    LdCHL,
    LdCA,
    LdDB,
    LdDC,
    LdDD,
    LdDE,
    LdDH,
    LdDL,
    LdDHL,
    LdDA,
    LdEB,
    LdEC,
    LdED,
    LdEE,
    LdEH,
    LdEL,
    LdEHL,
    LdEA,
    LdHB,
    LdHC,
    LdHD,
    LdHE,
    LdHH,
    LdHL,
    LdHHL,
    LdHA,
    LdLB,
    LdLC,
    LdLD,
    LdLE,
    LdLH,
    LdLL,
    LdLHL,
    LdLA,
    LdHLB,
    LdHLC,
    LdHLD,
    LdHLE,
    LdHLH,
    LdHLL,
    Halt,
    LdHLA,
    LdAB,
    LdAC,
    LdAD,
    LdAE,
    LdAH,
    LdAL,
    LdAHL,
    LdAA,
    AddAB,
    AddAC,
    AddAD,
    AddAE,
    AddAH,
    AddAL,
    AddAHL,
    AddAA,
    AdcAB,
    AdcAC,
    AdcAD,
    AdcAE,
    AdcAH,
    AdcAL,
    AdcAHL,
    AdcAA,
    SubAB,
    SubAC,
    SubAD,
    SubAE,
    SubAH,
    SubAL,
    SubAHL,
    SubAA,
    SbcAB,
    SbcAC,
    SbcAD,
    SbcAE,
    SbcAH,
    SbcAL,
    SbcAHL,
    SbcAA,
    AndB,
    AndC,
    AndD,
    AndE,
    AndH,
    AndL,
    AndHL,
    AndA,
    XorB,
    XorC,
    XorD,
    XorE,
    XorH,
    XorL,
    XorHL,
    XorA,
    OrB,
    OrC,
    OrD,
    OrE,
    OrH,
    OrL,
    OrHL,
    OrA,
    CpB,
    CpC,
    CpD,
    CpE,
    CpH,
    CpL,
    CpHL,
    CpA,
    RetNZ,
    PopBC,
    JpNZ,
    Jp,
    CallNZ,
    PushBC,
    AddAd8,
    Rst0,
    RetZ,
    Ret,
    JpZ,
    Prefix,
    CallZ,
    Call,
    AdcAd8,
    Rst1,
    RetNC,
    PopDE,
    JpNC,
    CallNC,
    PushDE,
    SubAd8,
    Rst2,
    RetC,
    RetI,
    JpC,
    CallC,
    SbcAd8,
    Rst3,
    Ldha8A,
    PopHL,
    LdioCA,
    PushHL,
    Andd8,
    Rst4,
    AddSPs8,
    JpHL,
    Lda16A,
    Xord8,
    Rst5,
    LdhAa8,
    PopAF,
    LdAioC,
    Di,
    PushAF,
    Ord8,
    Rst6,
    LdHLSPs8,
    LdSPHL,
    LdAa16,
    Ei,
    Cpd8,
    Rst7,
}

/// The byte that encodes an opcode.
pub open spec fn opcode_value(op: Opcode) -> u8 {
    match op {
        Opcode::Nop => 0x00,
        Opcode::LdBCd16 => 0x01,
        Opcode::LdBCA => 0x02,
        Opcode::IncBC => 0x03,
        Opcode::IncB => 0x04,
        Opcode::DecB => 0x05,
        Opcode::LdBd8 => 0x06,
        Opcode::RlcA => 0x07,
        Opcode::Lda16SP => 0x08,
        Opcode::AddHLBC => 0x09,
        Opcode::LdABC => 0x0A,
        Opcode::DecBC => 0x0B,
        Opcode::IncC => 0x0C,
        Opcode::DecC => 0x0D,
        Opcode::LdCd8 => 0x0E,
        Opcode::RrcA => 0x0F,
        Opcode::Stop => 0x10,
        Opcode::LdDEd16 => 0x11,
        Opcode::LdDEA => 0x12,
        Opcode::IncDE => 0x13,
        Opcode::IncD => 0x14,
        Opcode::DecD => 0x15,
        Opcode::LdDd8 => 0x16,
        Opcode::RlA => 0x17,
        Opcode::Jr => 0x18,
        Opcode::AddHLDE => 0x19,
        Opcode::LdADE => 0x1A,
        Opcode::DecDE => 0x1B,
        Opcode::IncE => 0x1C,
        Opcode::DecE => 0x1D,
        Opcode::LdEd8 => 0x1E,
        Opcode::RrA => 0x1F,
        Opcode::JrNZ => 0x20,
        Opcode::LdHLd16 => 0x21,
        Opcode::LdHLincA => 0x22,
        Opcode::IncHL => 0x23,
        Opcode::IncH => 0x24,
        Opcode::DecH => 0x25,
        Opcode::LdHd8 => 0x26,
        Opcode::DaA => 0x27,
        Opcode::JrZ => 0x28,
        Opcode::AddHLHL => 0x29,
        Opcode::LdAHLinc => 0x2A,
        Opcode::DecHL => 0x2B,
        Opcode::IncL => 0x2C,
        Opcode::DecL => 0x2D,
        Opcode::LdLd8 => 0x2E,
        Opcode::Cpl => 0x2F,
        Opcode::JrNC => 0x30,
        Opcode::LdSPd16 => 0x31,
        Opcode::LdHLdecA => 0x32,
        Opcode::IncSP => 0x33,
        Opcode::Inca16HL => 0x34,
        Opcode::Deca16HL => 0x35,
        Opcode::LdHLd8 => 0x36,
        Opcode::Scf => 0x37,
        Opcode::JrC => 0x38,
        Opcode::AddHLSP => 0x39,
        Opcode::LdAHLdec => 0x3A,
        Opcode::DecSP => 0x3B,
        Opcode::IncA => 0x3C,
        Opcode::DecA => 0x3D,
        Opcode::LdAd8 => 0x3E,
        Opcode::Ccf => 0x3F,
        Opcode::LdBB => 0x40,
        Opcode::LdBC => 0x41,
        Opcode::LdBD => 0x42,
        Opcode::LdBE => 0x43,
        Opcode::LdBH => 0x44,
        Opcode::LdBL => 0x45,
        Opcode::LdBHL => 0x46,
        Opcode::LdBA => 0x47,
        Opcode::LdCB => 0x48,
        Opcode::LdCC => 0x49,
        Opcode::LdCD => 0x4A,
        Opcode::LdCE => 0x4B,
        Opcode::LdCH => 0x4C,
        Opcode::LdCL => 0x4D,
        Opcode::LdCHL => 0x4E,
        Opcode::LdCA => 0x4F,
        Opcode::LdDB => 0x50,
        Opcode::LdDC => 0x51,
        Opcode::LdDD => 0x52,
        Opcode::LdDE => 0x53,
        Opcode::LdDH => 0x54,
        Opcode::LdDL => 0x55,
        Opcode::LdDHL => 0x56,
        Opcode::LdDA => 0x57,
        Opcode::LdEB => 0x58,
        Opcode::LdEC => 0x59,
        Opcode::LdED => 0x5A,
        Opcode::LdEE => 0x5B,
        Opcode::LdEH => 0x5C,
        Opcode::LdEL => 0x5D,
        Opcode::LdEHL => 0x5E,
        Opcode::LdEA => 0x5F,
        Opcode::LdHB => 0x60,
        Opcode::LdHC => 0x61,
        Opcode::LdHD => 0x62,
        Opcode::LdHE => 0x63,
        Opcode::LdHH => 0x64,
        Opcode::LdHL => 0x65,
        Opcode::LdHHL => 0x66,
        Opcode::LdHA => 0x67,
        Opcode::LdLB => 0x68,
        Opcode::LdLC => 0x69,
        Opcode::LdLD => 0x6A,
        Opcode::LdLE => 0x6B,
        Opcode::LdLH => 0x6C,
        Opcode::LdLL => 0x6D,
        Opcode::LdLHL => 0x6E,
        Opcode::LdLA => 0x6F,
        Opcode::LdHLB => 0x70,
        Opcode::LdHLC => 0x71,
        Opcode::LdHLD => 0x72,
        Opcode::LdHLE => 0x73,
        Opcode::LdHLH => 0x74,
        Opcode::LdHLL => 0x75,
        Opcode::Halt => 0x76,
        Opcode::LdHLA => 0x77,
        Opcode::LdAB => 0x78,
        Opcode::LdAC => 0x79,
        Opcode::LdAD => 0x7A,
        Opcode::LdAE => 0x7B,
        Opcode::LdAH => 0x7C,
        Opcode::LdAL => 0x7D,
        Opcode::LdAHL => 0x7E,
        Opcode::LdAA => 0x7F,
        Opcode::AddAB => 0x80,
        Opcode::AddAC => 0x81,
        Opcode::AddAD => 0x82,
        Opcode::AddAE => 0x83,
        Opcode::AddAH => 0x84,
        Opcode::AddAL => 0x85,
        Opcode::AddAHL => 0x86,
        Opcode::AddAA => 0x87,
        Opcode::AdcAB => 0x88,
        Opcode::AdcAC => 0x89,
        Opcode::AdcAD => 0x8A,
        Opcode::AdcAE => 0x8B,
        Opcode::AdcAH => 0x8C,
        Opcode::AdcAL => 0x8D,
        Opcode::AdcAHL => 0x8E,
        Opcode::AdcAA => 0x8F,
        Opcode::SubAB => 0x90,
        Opcode::SubAC => 0x91,
        Opcode::SubAD => 0x92,
        Opcode::SubAE => 0x93,
        Opcode::SubAH => 0x94,
        Opcode::SubAL => 0x95,
        Opcode::SubAHL => 0x96,
        Opcode::SubAA => 0x97,
        Opcode::SbcAB => 0x98,
        Opcode::SbcAC => 0x99,
        Opcode::SbcAD => 0x9A,
        Opcode::SbcAE => 0x9B,
        Opcode::SbcAH => 0x9C,
        Opcode::SbcAL => 0x9D,
        Opcode::SbcAHL => 0x9E,
        Opcode::SbcAA => 0x9F,
        Opcode::AndB => 0xA0,
        Opcode::AndC => 0xA1,
        Opcode::AndD => 0xA2,
        Opcode::AndE => 0xA3,
        Opcode::AndH => 0xA4,
        Opcode::AndL => 0xA5,
        Opcode::AndHL => 0xA6,
        Opcode::AndA => 0xA7,
        Opcode::XorB => 0xA8,
        Opcode::XorC => 0xA9,
        Opcode::XorD => 0xAA,
        Opcode::XorE => 0xAB,
        Opcode::XorH => 0xAC,
        Opcode::XorL => 0xAD,
        Opcode::XorHL => 0xAE,
        Opcode::XorA => 0xAF,
        Opcode::OrB => 0xB0,
        Opcode::OrC => 0xB1,
        Opcode::OrD => 0xB2,
        Opcode::OrE => 0xB3,
        Opcode::OrH => 0xB4,
        Opcode::OrL => 0xB5,
        Opcode::OrHL => 0xB6,
        Opcode::OrA => 0xB7,
        Opcode::CpB => 0xB8,
        Opcode::CpC => 0xB9,
        Opcode::CpD => 0xBA,
        Opcode::CpE => 0xBB,
        Opcode::CpH => 0xBC,
        Opcode::CpL => 0xBD,
        Opcode::CpHL => 0xBE,
        Opcode::CpA => 0xBF,
        Opcode::RetNZ => 0xC0,
        Opcode::PopBC => 0xC1,
        Opcode::JpNZ => 0xC2,
        Opcode::Jp => 0xC3,
        Opcode::CallNZ => 0xC4,
        Opcode::PushBC => 0xC5,
        Opcode::AddAd8 => 0xC6,
        Opcode::Rst0 => 0xC7,
        Opcode::RetZ => 0xC8,
        Opcode::Ret => 0xC9,
        Opcode::JpZ => 0xCA,
        Opcode::Prefix => 0xCB,
        Opcode::CallZ => 0xCC,
        Opcode::Call => 0xCD,
        Opcode::AdcAd8 => 0xCE,
        Opcode::Rst1 => 0xCF,
        Opcode::RetNC => 0xD0,
        Opcode::PopDE => 0xD1,
        Opcode::JpNC => 0xD2,
        Opcode::CallNC => 0xD4,
        Opcode::PushDE => 0xD5,
        Opcode::SubAd8 => 0xD6,
        Opcode::Rst2 => 0xD7,
        Opcode::RetC => 0xD8,
        Opcode::RetI => 0xD9,
        Opcode::JpC => 0xDA,
        Opcode::CallC => 0xDC,
        Opcode::SbcAd8 => 0xDE,
        Opcode::Rst3 => 0xDF,
        Opcode::Ldha8A => 0xE0,
        Opcode::PopHL => 0xE1,
        Opcode::LdioCA => 0xE2,
        Opcode::PushHL => 0xE5,
        Opcode::Andd8 => 0xE6,
        Opcode::Rst4 => 0xE7,
        Opcode::AddSPs8 => 0xE8,
        Opcode::JpHL => 0xE9,
        Opcode::Lda16A => 0xEA,
        Opcode::Xord8 => 0xEE,
        Opcode::Rst5 => 0xEF,
        Opcode::LdhAa8 => 0xF0,
        Opcode::PopAF => 0xF1,
        Opcode::LdAioC => 0xF2,
        Opcode::Di => 0xF3,
        Opcode::PushAF => 0xF5,
        Opcode::Ord8 => 0xF6,
        Opcode::Rst6 => 0xF7,
        Opcode::LdHLSPs8 => 0xF8,
        Opcode::LdSPHL => 0xF9,
        Opcode::LdAa16 => 0xFA,
        Opcode::Ei => 0xFB,
        Opcode::Cpd8 => 0xFE,
        Opcode::Rst7 => 0xFF,
    }
}

/// Whether a byte encodes a main opcode: every byte does but eleven
/// unused ones.
pub open spec fn is_opcode(code: u8) -> bool {
    !(code == 0xD3 || code == 0xDB || code == 0xDD || code == 0xE3 || code == 0xE4 || code == 0xEB || code == 0xEC || code == 0xED || code == 0xF4 || code == 0xFC || code == 0xFD)
}

/// The number of bytes of an instruction (opcode and operands) that
/// starts with `code`.
pub open spec fn length_of(code: u8) -> u8 {
    if code == 0x3E || code == 0x06 || code == 0x0E || code == 0x16 || code == 0x1E || code == 0x26 || code == 0x2E || code == 0x36 || code == 0xE0 || code == 0xF0 || code == 0xF8 || code == 0xC6 || code == 0xCE || code == 0xD6 || code == 0xDE || code == 0xE6 || code == 0xEE || code == 0xF6 || code == 0xFE || code == 0xE8 || code == 0x18 || code == 0x28 || code == 0x20 || code == 0x38 || code == 0x30 || code == 0xCB {
        2
    } else if code == 0x01 || code == 0x11 || code == 0x21 || code == 0x31 || code == 0xFA || code == 0xEA || code == 0x08 || code == 0xC3 || code == 0xCA || code == 0xC2 || code == 0xDA || code == 0xD2 || code == 0xCD || code == 0xCC || code == 0xC4 || code == 0xDC || code == 0xD4 {
        3
    } else {
        1
    }
}

/// The machine cycles that the instruction starting with `code` takes;
/// `j` says whether a conditional branch was taken. A prefix (0xCB) counts
/// 0: its cycles are those of the opcode that follows it.
pub open spec fn cycles_of(code: u8, j: bool) -> u8 {
    if code == 0xCB {
        0
    } else if code == 0x3E || code == 0x06 || code == 0x0E || code == 0x16 || code == 0x1E || code == 0x26 || code == 0x2E || code == 0x02 || code == 0x12 || code == 0x22 || code == 0x32 || code == 0x70 || code == 0x71 || code == 0x72 || code == 0x73 || code == 0x74 || code == 0x75 || code == 0x0A || code == 0x1A || code == 0x2A || code == 0x3A || code == 0x7E || code == 0x46 || code == 0x4E || code == 0x56 || code == 0x5E || code == 0x66 || code == 0x6E || code == 0xF9 || code == 0xF2 || code == 0xE2 || code == 0xC6 || code == 0xCE || code == 0xD6 || code == 0xDE || code == 0xE6 || code == 0xEE || code == 0xF6 || code == 0xFE || code == 0x03 || code == 0x13 || code == 0x23 || code == 0x33 || code == 0x0B || code == 0x1B || code == 0x2B || code == 0x3B || code == 0x09 || code == 0x19 || code == 0x29 || code == 0x39 || code == 0x86 || code == 0x8E || code == 0x96 || code == 0x9E || code == 0xA6 || code == 0xAE || code == 0xB6 || code == 0xBE {
        2
    } else if code == 0x01 || code == 0x11 || code == 0x21 || code == 0x31 || code == 0x36 || code == 0xE0 || code == 0xF0 || code == 0xF8 || code == 0xF1 || code == 0xC1 || code == 0xD1 || code == 0xE1 || code == 0x34 || code == 0x35 {
        3
    } else if code == 0x18 || code == 0x28 || code == 0x20 || code == 0x38 || code == 0x30 {
        if j { 3 } else { 2 }
    } else if code == 0xC3 || code == 0xCA || code == 0xC2 || code == 0xDA || code == 0xD2 {
        if j { 4 } else { 3 }
    } else if code == 0xCD || code == 0xCC || code == 0xC4 || code == 0xDC || code == 0xD4 {
        if j { 6 } else { 3 }
    } else if code == 0xC8 || code == 0xC0 || code == 0xD8 || code == 0xD0 {
        if j { 5 } else { 2 }
    } else if code == 0xEA || code == 0xFA || code == 0xE8 || code == 0xF5 || code == 0xC5 || code == 0xD5 || code == 0xE5 || code == 0xC7 || code == 0xCF || code == 0xD7 || code == 0xDF || code == 0xE7 || code == 0xEF || code == 0xF7 || code == 0xFF || code == 0xC9 || code == 0xD9 {
        4
    } else if code == 0x08 {
        5
    } else {
        1
    }
}

impl Opcode {
    /// The opcode encoded by a byte, if any.
    #[verifier::rlimit(100)]
    #[verifier::spinoff_prover]
    pub fn from_u8(value: u8) -> (r: Option<Opcode>)
        ensures
            r is Some <==> is_opcode(value),
            r is Some ==> opcode_value(r->0) == value,
    {
        match value {
            0x00 => Some(Opcode::Nop),
            0x01 => Some(Opcode::LdBCd16),
            0x02 => Some(Opcode::LdBCA),
            0x03 => Some(Opcode::IncBC),
            0x04 => Some(Opcode::IncB),
            0x05 => Some(Opcode::DecB),
            0x06 => Some(Opcode::LdBd8),
            0x07 => Some(Opcode::RlcA),
            0x08 => Some(Opcode::Lda16SP),
            0x09 => Some(Opcode::AddHLBC),
            0x0A => Some(Opcode::LdABC),
            0x0B => Some(Opcode::DecBC),
            0x0C => Some(Opcode::IncC),
            0x0D => Some(Opcode::DecC),
            0x0E => Some(Opcode::LdCd8),
            0x0F => Some(Opcode::RrcA),
            0x10 => Some(Opcode::Stop),
            0x11 => Some(Opcode::LdDEd16),
            0x12 => Some(Opcode::LdDEA),
            0x13 => Some(Opcode::IncDE),
            0x14 => Some(Opcode::IncD),
            0x15 => Some(Opcode::DecD),
            0x16 => Some(Opcode::LdDd8),
            0x17 => Some(Opcode::RlA),
            0x18 => Some(Opcode::Jr),
            0x19 => Some(Opcode::AddHLDE),
            0x1A => Some(Opcode::LdADE),
            0x1B => Some(Opcode::DecDE),
            0x1C => Some(Opcode::IncE),
            0x1D => Some(Opcode::DecE),
            0x1E => Some(Opcode::LdEd8),
            0x1F => Some(Opcode::RrA),
            0x20 => Some(Opcode::JrNZ),
            0x21 => Some(Opcode::LdHLd16),
            0x22 => Some(Opcode::LdHLincA),
            0x23 => Some(Opcode::IncHL),
            0x24 => Some(Opcode::IncH),
            0x25 => Some(Opcode::DecH),
            0x26 => Some(Opcode::LdHd8),
            0x27 => Some(Opcode::DaA),
            0x28 => Some(Opcode::JrZ),
            0x29 => Some(Opcode::AddHLHL),
            0x2A => Some(Opcode::LdAHLinc),
            0x2B => Some(Opcode::DecHL),
            0x2C => Some(Opcode::IncL),
            0x2D => Some(Opcode::DecL),
            0x2E => Some(Opcode::LdLd8),
            0x2F => Some(Opcode::Cpl),
            0x30 => Some(Opcode::JrNC),
            0x31 => Some(Opcode::LdSPd16),
            0x32 => Some(Opcode::LdHLdecA),
            0x33 => Some(Opcode::IncSP),
            0x34 => Some(Opcode::Inca16HL),
            0x35 => Some(Opcode::Deca16HL),
            0x36 => Some(Opcode::LdHLd8),
            0x37 => Some(Opcode::Scf),
            0x38 => Some(Opcode::JrC),
            0x39 => Some(Opcode::AddHLSP),
            0x3A => Some(Opcode::LdAHLdec),
            0x3B => Some(Opcode::DecSP),
            0x3C => Some(Opcode::IncA),
            0x3D => Some(Opcode::DecA),
            0x3E => Some(Opcode::LdAd8),
            0x3F => Some(Opcode::Ccf),
            0x40 => Some(Opcode::LdBB),
            0x41 => Some(Opcode::LdBC),
            0x42 => Some(Opcode::LdBD),
            0x43 => Some(Opcode::LdBE),
            0x44 => Some(Opcode::LdBH),
            0x45 => Some(Opcode::LdBL),
            0x46 => Some(Opcode::LdBHL),
            0x47 => Some(Opcode::LdBA),
            0x48 => Some(Opcode::LdCB),
            0x49 => Some(Opcode::LdCC),
            0x4A => Some(Opcode::LdCD),
            0x4B => Some(Opcode::LdCE),
            0x4C => Some(Opcode::LdCH),
            0x4D => Some(Opcode::LdCL),
            0x4E => Some(Opcode::LdCHL),
            0x4F => Some(Opcode::LdCA),
            0x50 => Some(Opcode::LdDB),
            0x51 => Some(Opcode::LdDC),
            0x52 => Some(Opcode::LdDD),
            0x53 => Some(Opcode::LdDE),
            0x54 => Some(Opcode::LdDH),
            0x55 => Some(Opcode::LdDL),
            0x56 => Some(Opcode::LdDHL),
            0x57 => Some(Opcode::LdDA),
            0x58 => Some(Opcode::LdEB),
            0x59 => Some(Opcode::LdEC),
            0x5A => Some(Opcode::LdED),
            0x5B => Some(Opcode::LdEE),
            0x5C => Some(Opcode::LdEH),
            0x5D => Some(Opcode::LdEL),
            0x5E => Some(Opcode::LdEHL),
            0x5F => Some(Opcode::LdEA),
            0x60 => Some(Opcode::LdHB),
            0x61 => Some(Opcode::LdHC),
            0x62 => Some(Opcode::LdHD),
            0x63 => Some(Opcode::LdHE),
            0x64 => Some(Opcode::LdHH),
            0x65 => Some(Opcode::LdHL),
            0x66 => Some(Opcode::LdHHL),
            0x67 => Some(Opcode::LdHA),
            0x68 => Some(Opcode::LdLB),
            0x69 => Some(Opcode::LdLC),
            0x6A => Some(Opcode::LdLD),
            0x6B => Some(Opcode::LdLE),
            0x6C => Some(Opcode::LdLH),
            0x6D => Some(Opcode::LdLL),
            0x6E => Some(Opcode::LdLHL),
            0x6F => Some(Opcode::LdLA),
            0x70 => Some(Opcode::LdHLB),
            0x71 => Some(Opcode::LdHLC),
            0x72 => Some(Opcode::LdHLD),
            0x73 => Some(Opcode::LdHLE),
            0x74 => Some(Opcode::LdHLH),
            0x75 => Some(Opcode::LdHLL),
            0x76 => Some(Opcode::Halt),
            0x77 => Some(Opcode::LdHLA),
            0x78 => Some(Opcode::LdAB),
            0x79 => Some(Opcode::LdAC),
            0x7A => Some(Opcode::LdAD),
            0x7B => Some(Opcode::LdAE),
            0x7C => Some(Opcode::LdAH),
            0x7D => Some(Opcode::LdAL),
            0x7E => Some(Opcode::LdAHL),
            0x7F => Some(Opcode::LdAA),
            0x80 => Some(Opcode::AddAB),
            0x81 => Some(Opcode::AddAC),
            0x82 => Some(Opcode::AddAD),
            0x83 => Some(Opcode::AddAE),
            0x84 => Some(Opcode::AddAH),
            0x85 => Some(Opcode::AddAL),
            0x86 => Some(Opcode::AddAHL),
            0x87 => Some(Opcode::AddAA),
            0x88 => Some(Opcode::AdcAB),
            0x89 => Some(Opcode::AdcAC),
            0x8A => Some(Opcode::AdcAD),
            0x8B => Some(Opcode::AdcAE),
            0x8C => Some(Opcode::AdcAH),
            0x8D => Some(Opcode::AdcAL),
            0x8E => Some(Opcode::AdcAHL),
            0x8F => Some(Opcode::AdcAA),
            0x90 => Some(Opcode::SubAB),
            0x91 => Some(Opcode::SubAC),
            0x92 => Some(Opcode::SubAD),
            0x93 => Some(Opcode::SubAE),
            0x94 => Some(Opcode::SubAH),
            0x95 => Some(Opcode::SubAL),
            0x96 => Some(Opcode::SubAHL),
            0x97 => Some(Opcode::SubAA),
            0x98 => Some(Opcode::SbcAB),
            0x99 => Some(Opcode::SbcAC),
            0x9A => Some(Opcode::SbcAD),
            0x9B => Some(Opcode::SbcAE),
            0x9C => Some(Opcode::SbcAH),
            0x9D => Some(Opcode::SbcAL),
            0x9E => Some(Opcode::SbcAHL),
            0x9F => Some(Opcode::SbcAA),
            0xA0 => Some(Opcode::AndB),
            0xA1 => Some(Opcode::AndC),
            0xA2 => Some(Opcode::AndD),
            0xA3 => Some(Opcode::AndE),
            0xA4 => Some(Opcode::AndH),
            0xA5 => Some(Opcode::AndL),
            0xA6 => Some(Opcode::AndHL),
            0xA7 => Some(Opcode::AndA),
            0xA8 => Some(Opcode::XorB),
            0xA9 => Some(Opcode::XorC),
            0xAA => Some(Opcode::XorD),
            0xAB => Some(Opcode::XorE),
            0xAC => Some(Opcode::XorH),
            0xAD => Some(Opcode::XorL),
            0xAE => Some(Opcode::XorHL),
            0xAF => Some(Opcode::XorA),
            0xB0 => Some(Opcode::OrB),
            0xB1 => Some(Opcode::OrC),
            0xB2 => Some(Opcode::OrD),
            0xB3 => Some(Opcode::OrE),
            0xB4 => Some(Opcode::OrH),
            0xB5 => Some(Opcode::OrL),
            0xB6 => Some(Opcode::OrHL),
            0xB7 => Some(Opcode::OrA),
            0xB8 => Some(Opcode::CpB),
            0xB9 => Some(Opcode::CpC),
            0xBA => Some(Opcode::CpD),
            0xBB => Some(Opcode::CpE),
            0xBC => Some(Opcode::CpH),
            0xBD => Some(Opcode::CpL),
            0xBE => Some(Opcode::CpHL),
            0xBF => Some(Opcode::CpA),
            0xC0 => Some(Opcode::RetNZ),
            0xC1 => Some(Opcode::PopBC),
            0xC2 => Some(Opcode::JpNZ),
            0xC3 => Some(Opcode::Jp),
            0xC4 => Some(Opcode::CallNZ),
            0xC5 => Some(Opcode::PushBC),
            0xC6 => Some(Opcode::AddAd8),
            0xC7 => Some(Opcode::Rst0),
            0xC8 => Some(Opcode::RetZ),
            0xC9 => Some(Opcode::Ret),
            0xCA => Some(Opcode::JpZ),
            0xCB => Some(Opcode::Prefix),
            0xCC => Some(Opcode::CallZ),
            0xCD => Some(Opcode::Call),
            0xCE => Some(Opcode::AdcAd8),
            0xCF => Some(Opcode::Rst1),
            0xD0 => Some(Opcode::RetNC),
            0xD1 => Some(Opcode::PopDE),
            0xD2 => Some(Opcode::JpNC),
            0xD4 => Some(Opcode::CallNC),
            0xD5 => Some(Opcode::PushDE),
            0xD6 => Some(Opcode::SubAd8),
            0xD7 => Some(Opcode::Rst2),
            0xD8 => Some(Opcode::RetC),
            0xD9 => Some(Opcode::RetI),
            0xDA => Some(Opcode::JpC),
            0xDC => Some(Opcode::CallC),
            0xDE => Some(Opcode::SbcAd8),
            0xDF => Some(Opcode::Rst3),
            0xE0 => Some(Opcode::Ldha8A),
            0xE1 => Some(Opcode::PopHL),
            0xE2 => Some(Opcode::LdioCA),
            0xE5 => Some(Opcode::PushHL),
            0xE6 => Some(Opcode::Andd8),
            0xE7 => Some(Opcode::Rst4),
            0xE8 => Some(Opcode::AddSPs8),
            0xE9 => Some(Opcode::JpHL),
            0xEA => Some(Opcode::Lda16A),
            0xEE => Some(Opcode::Xord8),
            0xEF => Some(Opcode::Rst5),
            0xF0 => Some(Opcode::LdhAa8),
            0xF1 => Some(Opcode::PopAF),
            0xF2 => Some(Opcode::LdAioC),
            0xF3 => Some(Opcode::Di),
            0xF5 => Some(Opcode::PushAF),
            0xF6 => Some(Opcode::Ord8),
            0xF7 => Some(Opcode::Rst6),
            0xF8 => Some(Opcode::LdHLSPs8),
            0xF9 => Some(Opcode::LdSPHL),
            0xFA => Some(Opcode::LdAa16),
            0xFB => Some(Opcode::Ei),
            0xFE => Some(Opcode::Cpd8),
            0xFF => Some(Opcode::Rst7),
            _ => None,
        }
    }

    /// The byte that encodes this opcode.
    pub fn to_u8(&self) -> (r: u8)
        ensures
            r == opcode_value(*self),
    {
        match self {
            Opcode::Nop => 0x00,
            Opcode::LdBCd16 => 0x01,
            Opcode::LdBCA => 0x02,
            Opcode::IncBC => 0x03,
            Opcode::IncB => 0x04,
            Opcode::DecB => 0x05,
            Opcode::LdBd8 => 0x06,
            Opcode::RlcA => 0x07,
            Opcode::Lda16SP => 0x08,
            Opcode::AddHLBC => 0x09,
            Opcode::LdABC => 0x0A,
            Opcode::DecBC => 0x0B,
            Opcode::IncC => 0x0C,
            Opcode::DecC => 0x0D,
            Opcode::LdCd8 => 0x0E,
            Opcode::RrcA => 0x0F,
            Opcode::Stop => 0x10,
            Opcode::LdDEd16 => 0x11,
            Opcode::LdDEA => 0x12,
            Opcode::IncDE => 0x13,
            Opcode::IncD => 0x14,
            Opcode::DecD => 0x15,
            Opcode::LdDd8 => 0x16,
            Opcode::RlA => 0x17,
            Opcode::Jr => 0x18,
            Opcode::AddHLDE => 0x19,
            Opcode::LdADE => 0x1A,
            Opcode::DecDE => 0x1B,
            Opcode::IncE => 0x1C,
            Opcode::DecE => 0x1D,
            Opcode::LdEd8 => 0x1E,
            Opcode::RrA => 0x1F,
            Opcode::JrNZ => 0x20,
            Opcode::LdHLd16 => 0x21,
            Opcode::LdHLincA => 0x22,
            Opcode::IncHL => 0x23,
            Opcode::IncH => 0x24,
            Opcode::DecH => 0x25,
            Opcode::LdHd8 => 0x26,
            Opcode::DaA => 0x27,
            Opcode::JrZ => 0x28,
            Opcode::AddHLHL => 0x29,
            Opcode::LdAHLinc => 0x2A,
            Opcode::DecHL => 0x2B,
            Opcode::IncL => 0x2C,
            Opcode::DecL => 0x2D,
            Opcode::LdLd8 => 0x2E,
            Opcode::Cpl => 0x2F,
            Opcode::JrNC => 0x30,
            Opcode::LdSPd16 => 0x31,
            Opcode::LdHLdecA => 0x32,
            Opcode::IncSP => 0x33,
            Opcode::Inca16HL => 0x34,
            Opcode::Deca16HL => 0x35,
            Opcode::LdHLd8 => 0x36,
            Opcode::Scf => 0x37,
            Opcode::JrC => 0x38,
            Opcode::AddHLSP => 0x39,
            Opcode::LdAHLdec => 0x3A,
            Opcode::DecSP => 0x3B,
            Opcode::IncA => 0x3C,
            Opcode::DecA => 0x3D,
            Opcode::LdAd8 => 0x3E,
            Opcode::Ccf => 0x3F,
            Opcode::LdBB => 0x40,
            Opcode::LdBC => 0x41,
            Opcode::LdBD => 0x42,
            Opcode::LdBE => 0x43,
            Opcode::LdBH => 0x44,
            Opcode::LdBL => 0x45,
            Opcode::LdBHL => 0x46,
            Opcode::LdBA => 0x47,
            Opcode::LdCB => 0x48,
            Opcode::LdCC => 0x49,
            Opcode::LdCD => 0x4A,
            Opcode::LdCE => 0x4B,
            Opcode::LdCH => 0x4C,
            Opcode::LdCL => 0x4D,
            Opcode::LdCHL => 0x4E,
            Opcode::LdCA => 0x4F,
            Opcode::LdDB => 0x50,
            Opcode::LdDC => 0x51,
            Opcode::LdDD => 0x52,
            Opcode::LdDE => 0x53,
            Opcode::LdDH => 0x54,
            Opcode::LdDL => 0x55,
            Opcode::LdDHL => 0x56,
            Opcode::LdDA => 0x57,
            Opcode::LdEB => 0x58,
            Opcode::LdEC => 0x59,
            Opcode::LdED => 0x5A,
            Opcode::LdEE => 0x5B,
            Opcode::LdEH => 0x5C,
            Opcode::LdEL => 0x5D,
            Opcode::LdEHL => 0x5E,
            Opcode::LdEA => 0x5F,
            Opcode::LdHB => 0x60,
            Opcode::LdHC => 0x61,
            Opcode::LdHD => 0x62,
            Opcode::LdHE => 0x63,
            Opcode::LdHH => 0x64,
            Opcode::LdHL => 0x65,
            Opcode::LdHHL => 0x66,
            Opcode::LdHA => 0x67,
            Opcode::LdLB => 0x68,
            Opcode::LdLC => 0x69,
            Opcode::LdLD => 0x6A,
            Opcode::LdLE => 0x6B,
            Opcode::LdLH => 0x6C,
            Opcode::LdLL => 0x6D,
            Opcode::LdLHL => 0x6E,
            Opcode::LdLA => 0x6F,
            Opcode::LdHLB => 0x70,
            Opcode::LdHLC => 0x71,
            Opcode::LdHLD => 0x72,
            Opcode::LdHLE => 0x73,
            Opcode::LdHLH => 0x74,
            Opcode::LdHLL => 0x75,
            Opcode::Halt => 0x76,
            Opcode::LdHLA => 0x77,
            Opcode::LdAB => 0x78,
            Opcode::LdAC => 0x79,
            Opcode::LdAD => 0x7A,
            Opcode::LdAE => 0x7B,
            Opcode::LdAH => 0x7C,
            Opcode::LdAL => 0x7D,
            Opcode::LdAHL => 0x7E,
            Opcode::LdAA => 0x7F,
            Opcode::AddAB => 0x80,
            Opcode::AddAC => 0x81,
            Opcode::AddAD => 0x82,
            Opcode::AddAE => 0x83,
            Opcode::AddAH => 0x84,
            Opcode::AddAL => 0x85,
            Opcode::AddAHL => 0x86,
            Opcode::AddAA => 0x87,
            Opcode::AdcAB => 0x88,
            Opcode::AdcAC => 0x89,
            Opcode::AdcAD => 0x8A,
            Opcode::AdcAE => 0x8B,
            Opcode::AdcAH => 0x8C,
            Opcode::AdcAL => 0x8D,
            Opcode::AdcAHL => 0x8E,
            Opcode::AdcAA => 0x8F,
            Opcode::SubAB => 0x90,
            Opcode::SubAC => 0x91,
            Opcode::SubAD => 0x92,
            Opcode::SubAE => 0x93,
            Opcode::SubAH => 0x94,
            Opcode::SubAL => 0x95,
            Opcode::SubAHL => 0x96,
            Opcode::SubAA => 0x97,
            Opcode::SbcAB => 0x98,
            Opcode::SbcAC => 0x99,
            Opcode::SbcAD => 0x9A,
            Opcode::SbcAE => 0x9B,
            Opcode::SbcAH => 0x9C,
            Opcode::SbcAL => 0x9D,
            Opcode::SbcAHL => 0x9E,
            Opcode::SbcAA => 0x9F,
            Opcode::AndB => 0xA0,
            Opcode::AndC => 0xA1,
            Opcode::AndD => 0xA2,
            Opcode::AndE => 0xA3,
            Opcode::AndH => 0xA4,
            Opcode::AndL => 0xA5,
            Opcode::AndHL => 0xA6,
            Opcode::AndA => 0xA7,
            Opcode::XorB => 0xA8,
            Opcode::XorC => 0xA9,
            Opcode::XorD => 0xAA,
            Opcode::XorE => 0xAB,
            Opcode::XorH => 0xAC,
            Opcode::XorL => 0xAD,
            Opcode::XorHL => 0xAE,
            Opcode::XorA => 0xAF,
            Opcode::OrB => 0xB0,
            Opcode::OrC => 0xB1,
            Opcode::OrD => 0xB2,
            Opcode::OrE => 0xB3,
            Opcode::OrH => 0xB4,
            Opcode::OrL => 0xB5,
            Opcode::OrHL => 0xB6,
            Opcode::OrA => 0xB7,
            Opcode::CpB => 0xB8,
            Opcode::CpC => 0xB9,
            Opcode::CpD => 0xBA,
            Opcode::CpE => 0xBB,
            Opcode::CpH => 0xBC,
            Opcode::CpL => 0xBD,
            Opcode::CpHL => 0xBE,
            Opcode::CpA => 0xBF,
            Opcode::RetNZ => 0xC0,
            Opcode::PopBC => 0xC1,
            Opcode::JpNZ => 0xC2,
            Opcode::Jp => 0xC3,
            Opcode::CallNZ => 0xC4,
            Opcode::PushBC => 0xC5,
            Opcode::AddAd8 => 0xC6,
            Opcode::Rst0 => 0xC7,
            Opcode::RetZ => 0xC8,
            Opcode::Ret => 0xC9,
            Opcode::JpZ => 0xCA,
            Opcode::Prefix => 0xCB,
            Opcode::CallZ => 0xCC,
            Opcode::Call => 0xCD,
            Opcode::AdcAd8 => 0xCE,
            Opcode::Rst1 => 0xCF,
            Opcode::RetNC => 0xD0,
            Opcode::PopDE => 0xD1,
            Opcode::JpNC => 0xD2,
            Opcode::CallNC => 0xD4,
            Opcode::PushDE => 0xD5,
            Opcode::SubAd8 => 0xD6,
            Opcode::Rst2 => 0xD7,
            Opcode::RetC => 0xD8,
            Opcode::RetI => 0xD9,
            Opcode::JpC => 0xDA,
            Opcode::CallC => 0xDC,
            Opcode::SbcAd8 => 0xDE,
            Opcode::Rst3 => 0xDF,
            Opcode::Ldha8A => 0xE0,
            Opcode::PopHL => 0xE1,
            Opcode::LdioCA => 0xE2,
            Opcode::PushHL => 0xE5,
            Opcode::Andd8 => 0xE6,
            Opcode::Rst4 => 0xE7,
            Opcode::AddSPs8 => 0xE8,
            Opcode::JpHL => 0xE9,
            Opcode::Lda16A => 0xEA,
            Opcode::Xord8 => 0xEE,
            Opcode::Rst5 => 0xEF,
            Opcode::LdhAa8 => 0xF0,
            Opcode::PopAF => 0xF1,
            Opcode::LdAioC => 0xF2,
            Opcode::Di => 0xF3,
            Opcode::PushAF => 0xF5,
            Opcode::Ord8 => 0xF6,
            Opcode::Rst6 => 0xF7,
            Opcode::LdHLSPs8 => 0xF8,
            Opcode::LdSPHL => 0xF9,
            Opcode::LdAa16 => 0xFA,
            Opcode::Ei => 0xFB,
            Opcode::Cpd8 => 0xFE,
            Opcode::Rst7 => 0xFF,
        }
    }

    /// The length in bytes of an instruction with this opcode.
    pub fn length(&self) -> (r: u8)
        ensures
            r == length_of(opcode_value(*self)),
            1 <= r <= 3,
    {
        match self {
            Self::LdAd8
            | Self::LdBd8
            | Self::LdCd8
            | Self::LdDd8
            | Self::LdEd8
            | Self::LdHd8
            | Self::LdLd8
            | Self::LdHLd8
            | Self::Ldha8A
            | Self::LdhAa8
            | Self::LdHLSPs8
            | Self::AddAd8
            | Self::AdcAd8
            | Self::SubAd8
            | Self::SbcAd8
            | Self::Andd8
            | Self::Xord8
            | Self::Ord8
            | Self::Cpd8
            | Self::AddSPs8
            | Self::Jr
            | Self::JrZ
            | Self::JrNZ
            | Self::JrC
            | Self::JrNC
            | Self::Prefix => 2,
            Self::LdBCd16
            | Self::LdDEd16
            | Self::LdHLd16
            | Self::LdSPd16
            | Self::LdAa16
            | Self::Lda16A
            | Self::Lda16SP
            | Self::Jp
            | Self::JpZ
            | Self::JpNZ
            | Self::JpC
            | Self::JpNC
            | Self::Call
            | Self::CallZ
            | Self::CallNZ
            | Self::CallC
            | Self::CallNC => 3,
            _ => 1,
        }
    }

    /// The machine cycles of an instruction with this opcode; `j` says
    /// whether a conditional branch was taken. A prefix counts 0: the
    /// cycles are those of the CB opcode that follows.
    #[verifier::rlimit(100)]
    #[verifier::spinoff_prover]
    pub fn cycles(&self, j: bool) -> (r: u8)
        ensures
            r == cycles_of(opcode_value(*self), j),
    {
        match self {
            Self::Prefix => 0,
            Self::LdAd8
            | Self::LdBd8
            | Self::LdCd8
            | Self::LdDd8
            | Self::LdEd8
            | Self::LdHd8
            | Self::LdLd8
            | Self::LdBCA
            | Self::LdDEA
            | Self::LdHLincA
            | Self::LdHLdecA
            | Self::LdHLB
            | Self::LdHLC
            | Self::LdHLD
            | Self::LdHLE
            | Self::LdHLH
            | Self::LdHLL
            | Self::LdABC
            | Self::LdADE
            | Self::LdAHLinc
            | Self::LdAHLdec
            | Self::LdAHL
            | Self::LdBHL
            | Self::LdCHL
            | Self::LdDHL
            | Self::LdEHL
            | Self::LdHHL
            | Self::LdLHL
            | Self::LdSPHL
            | Self::LdAioC
            | Self::LdioCA
            | Self::AddAd8
            | Self::AdcAd8
            | Self::SubAd8
            | Self::SbcAd8
            | Self::Andd8
            | Self::Xord8
            | Self::Ord8
            | Self::Cpd8
            | Self::IncBC
            | Self::IncDE
            | Self::IncHL
            | Self::IncSP
            | Self::DecBC
            | Self::DecDE
            | Self::DecHL
            | Self::DecSP
            | Self::AddHLBC
            | Self::AddHLDE
            | Self::AddHLHL
            | Self::AddHLSP
            | Self::AddAHL
            | Self::AdcAHL
            | Self::SubAHL
            | Self::SbcAHL
            | Self::AndHL
            | Self::XorHL
            | Self::OrHL
            | Self::CpHL => 2,
            Self::LdBCd16
            | Self::LdDEd16
            | Self::LdHLd16
            | Self::LdSPd16
            | Self::LdHLd8
            | Self::Ldha8A
            | Self::LdhAa8
            | Self::LdHLSPs8
            | Self::PopAF
            | Self::PopBC
            | Self::PopDE
            | Self::PopHL
            | Self::Inca16HL
            | Self::Deca16HL => 3,
            Self::Jr
            | Self::JrZ
            | Self::JrNZ
            | Self::JrC
            | Self::JrNC => jumped(j, 3, 2),
            Self::Jp
            | Self::JpZ
            | Self::JpNZ
            | Self::JpC
            | Self::JpNC => jumped(j, 4, 3),
            Self::Call
            | Self::CallZ
            | Self::CallNZ
            | Self::CallC
            | Self::CallNC => {
                jumped(j, 6, 3)
            },
            Self::RetZ
            | Self::RetNZ
            | Self::RetC
            | Self::RetNC => jumped(j, 5, 2),
            Self::Lda16A
            | Self::LdAa16
            | Self::AddSPs8
            | Self::PushAF
            | Self::PushBC
            | Self::PushDE
            | Self::PushHL
            | Self::Rst0
            | Self::Rst1
            | Self::Rst2
            | Self::Rst3
            | Self::Rst4
            | Self::Rst5
            | Self::Rst6
            | Self::Rst7
            | Self::Ret
            | Self::RetI => 4,
            Self::Lda16SP => 5,
            _ => 1,
        }
    }
}

/// The opcodes that follow the 0xCB prefix. Each variant stands for the
/// byte given by `cb_value`; every byte is one of them.
#[derive(Debug, PartialEq, Eq, Structural, Clone, Copy)]
pub enum CbOpcode {
    RlcB,
    RlcC,
    RlcD,
    RlcE,
    RlcH,
    RlcL,
    RlcHL,
    RlcA,
    RrcB,
    RrcC,
    RrcD,
    RrcE,
    RrcH,
    RrcL,
    RrcHL,
    RrcA,
    RlB,
    RlC,
    RlD,
    RlE,
    RlH,
    RlL,
    RlHL,
    RlA,
    RrB,
    RrC,
    RrD,
    RrE,
    RrH,
    RrL,
    RrHL,
    RrA,
    SlaB,
    SlaC,
    SlaD,
    SlaE,
    SlaH,
    SlaL,
    SlaHL,
    SlaA,
    SraB,
    SraC,
    SraD,
    SraE,
    SraH,
    SraL,
    SraHL,
    SraA,
    SwapB,
    SwapC,
    SwapD,
    SwapE,
    SwapH,
    SwapL,
    SwapHL,
    SwapA,
    SrlB,
    SrlC,
    SrlD,
    SrlE,
    SrlH,
    SrlL,
    SrlHL,
    SrlA,
    Bit0B,
    Bit0C,
    Bit0D,
    Bit0E,
    Bit0H,
    Bit0L,
    Bit0HL,
    Bit0A,
    Bit1B,
    Bit1C,
    Bit1D,
    Bit1E,
    Bit1H,
    Bit1L,
    Bit1HL,
    Bit1A,
    Bit2B,
    Bit2C,
    Bit2D,
    Bit2E,
    Bit2H,
    Bit2L,
    Bit2HL,
    Bit2A,
    Bit3B,
    Bit3C,
    Bit3D,
    Bit3E,
    Bit3H,
    Bit3L,
    Bit3HL,
    Bit3A,
    Bit4B,
    Bit4C,
    Bit4D,
    Bit4E,
    Bit4H,
    Bit4L,
    Bit4HL,
    Bit4A,
    Bit5B,
    Bit5C,
    Bit5D,
    Bit5E,
    Bit5H,
    Bit5L,
    Bit5HL,
    Bit5A,
    Bit6B,
    Bit6C,
    Bit6D,
    Bit6E,
    Bit6H,
    Bit6L,
    Bit6HL,
    Bit6A,
    Bit7B,
    Bit7C,
    Bit7D,
    Bit7E,
    Bit7H,
    Bit7L,
    Bit7HL,
    Bit7A,
    Res0B,
    Res0C,
    Res0D,
    Res0E,
    Res0H,
    Res0L,
    Res0HL,
    Res0A,
    Res1B,
    Res1C,
    Res1D,
    Res1E,
    Res1H,
    Res1L,
    Res1HL,
    Res1A,
    Res2B,
    Res2C,
    Res2D,
    Res2E,
    Res2H,
    Res2L,
    Res2HL,
    Res2A,
    Res3B,
    Res3C,
    Res3D,
    Res3E,
    Res3H,
    Res3L,
    Res3HL,
    Res3A,
    Res4B,
    Res4C,
    Res4D,
    Res4E,
    Res4H,
    Res4L,
    Res4HL,
    Res4A,
    Res5B,
    Res5C,
    Res5D,
    Res5E,
    Res5H,
    Res5L,
    Res5HL,
    Res5A,
    Res6B,
    Res6C,
    Res6D,
    Res6E,
    Res6H,
    Res6L,
    Res6HL,
    Res6A,
    Res7B,
    Res7C,
    Res7D,
    Res7E,
    Res7H,
    Res7L,
    Res7HL,
    Res7A,
    Set0B,
    Set0C,
    Set0D,
    Set0E,
    Set0H,
    Set0L,
    Set0HL,
    Set0A,
    Set1B,
    Set1C,
    Set1D,
    Set1E,
    Set1H,
    Set1L,
    Set1HL,
    Set1A,
    Set2B,
    Set2C,
    Set2D,
    Set2E,
    Set2H,
    Set2L,
    Set2HL,
    Set2A,
    Set3B,
    Set3C,
    Set3D,
    Set3E,
    Set3H,
    Set3L,
    Set3HL,
    Set3A,
    Set4B,
    Set4C,
    Set4D,
    Set4E,
    Set4H,
    Set4L,
    Set4HL,
    Set4A,
    Set5B,
    Set5C,
    Set5D,
    Set5E,
    Set5H,
    Set5L,
    Set5HL,
    Set5A,
    Set6B,
    Set6C,
    Set6D,
    Set6E,
    Set6H,
    Set6L,
    Set6HL,
    Set6A,
    Set7B,
    Set7C,
    Set7D,
    Set7E,
    Set7H,
    Set7L,
    Set7HL,
    Set7A,
}

/// The byte that encodes a CB opcode.
pub open spec fn cb_value(op: CbOpcode) -> u8 {
    match op {
        CbOpcode::RlcB => 0x00,
        CbOpcode::RlcC => 0x01,
        CbOpcode::RlcD => 0x02,
        CbOpcode::RlcE => 0x03,
        CbOpcode::RlcH => 0x04,
        CbOpcode::RlcL => 0x05,
        CbOpcode::RlcHL => 0x06,
        CbOpcode::RlcA => 0x07,
        CbOpcode::RrcB => 0x08,
        CbOpcode::RrcC => 0x09,
        CbOpcode::RrcD => 0x0A,
        CbOpcode::RrcE => 0x0B,
        CbOpcode::RrcH => 0x0C,
        CbOpcode::RrcL => 0x0D,
        CbOpcode::RrcHL => 0x0E,
        CbOpcode::RrcA => 0x0F,
        CbOpcode::RlB => 0x10,
        CbOpcode::RlC => 0x11,
        CbOpcode::RlD => 0x12,
        CbOpcode::RlE => 0x13,
        CbOpcode::RlH => 0x14,
        CbOpcode::RlL => 0x15,
        CbOpcode::RlHL => 0x16,
        CbOpcode::RlA => 0x17,
        CbOpcode::RrB => 0x18,
        CbOpcode::RrC => 0x19,
        CbOpcode::RrD => 0x1A,
        CbOpcode::RrE => 0x1B,
        CbOpcode::RrH => 0x1C,
        CbOpcode::RrL => 0x1D,
        CbOpcode::RrHL => 0x1E,
        CbOpcode::RrA => 0x1F,
        CbOpcode::SlaB => 0x20,
        CbOpcode::SlaC => 0x21,
        CbOpcode::SlaD => 0x22,
        CbOpcode::SlaE => 0x23,
        CbOpcode::SlaH => 0x24,
        CbOpcode::SlaL => 0x25,
        CbOpcode::SlaHL => 0x26,
        CbOpcode::SlaA => 0x27,
        CbOpcode::SraB => 0x28,
        CbOpcode::SraC => 0x29,
        CbOpcode::SraD => 0x2A,
        CbOpcode::SraE => 0x2B,
        CbOpcode::SraH => 0x2C,
        CbOpcode::SraL => 0x2D,
        CbOpcode::SraHL => 0x2E,
        CbOpcode::SraA => 0x2F,
        CbOpcode::SwapB => 0x30,
        CbOpcode::SwapC => 0x31,
        CbOpcode::SwapD => 0x32,
        CbOpcode::SwapE => 0x33,
        CbOpcode::SwapH => 0x34,
        CbOpcode::SwapL => 0x35,
        CbOpcode::SwapHL => 0x36,
        CbOpcode::SwapA => 0x37,
        CbOpcode::SrlB => 0x38,
        CbOpcode::SrlC => 0x39,
        CbOpcode::SrlD => 0x3A,
        CbOpcode::SrlE => 0x3B,
        CbOpcode::SrlH => 0x3C,
        CbOpcode::SrlL => 0x3D,
        CbOpcode::SrlHL => 0x3E,
        CbOpcode::SrlA => 0x3F,
        CbOpcode::Bit0B => 0x40,
        CbOpcode::Bit0C => 0x41,
        CbOpcode::Bit0D => 0x42,
        CbOpcode::Bit0E => 0x43,
        CbOpcode::Bit0H => 0x44,
        CbOpcode::Bit0L => 0x45,
        CbOpcode::Bit0HL => 0x46,
        CbOpcode::Bit0A => 0x47,
        CbOpcode::Bit1B => 0x48,
        CbOpcode::Bit1C => 0x49,
        CbOpcode::Bit1D => 0x4A,
        CbOpcode::Bit1E => 0x4B,
        CbOpcode::Bit1H => 0x4C,
        CbOpcode::Bit1L => 0x4D,
        CbOpcode::Bit1HL => 0x4E,
        CbOpcode::Bit1A => 0x4F,
        CbOpcode::Bit2B => 0x50,
        CbOpcode::Bit2C => 0x51,
        CbOpcode::Bit2D => 0x52,
        CbOpcode::Bit2E => 0x53,
        CbOpcode::Bit2H => 0x54,
        CbOpcode::Bit2L => 0x55,
        CbOpcode::Bit2HL => 0x56,
        CbOpcode::Bit2A => 0x57,
        CbOpcode::Bit3B => 0x58,
        CbOpcode::Bit3C => 0x59,
        CbOpcode::Bit3D => 0x5A,
        CbOpcode::Bit3E => 0x5B,
        CbOpcode::Bit3H => 0x5C,
        CbOpcode::Bit3L => 0x5D,
        CbOpcode::Bit3HL => 0x5E,
        CbOpcode::Bit3A => 0x5F,
        CbOpcode::Bit4B => 0x60,
        CbOpcode::Bit4C => 0x61,
        CbOpcode::Bit4D => 0x62,
        CbOpcode::Bit4E => 0x63,
        CbOpcode::Bit4H => 0x64,
        CbOpcode::Bit4L => 0x65,
        CbOpcode::Bit4HL => 0x66,
        CbOpcode::Bit4A => 0x67,
        CbOpcode::Bit5B => 0x68,
        CbOpcode::Bit5C => 0x69,
        CbOpcode::Bit5D => 0x6A,
        CbOpcode::Bit5E => 0x6B,
        CbOpcode::Bit5H => 0x6C,
        CbOpcode::Bit5L => 0x6D,
        CbOpcode::Bit5HL => 0x6E,
        CbOpcode::Bit5A => 0x6F,
        CbOpcode::Bit6B => 0x70,
        CbOpcode::Bit6C => 0x71,
        CbOpcode::Bit6D => 0x72,
        CbOpcode::Bit6E => 0x73,
        CbOpcode::Bit6H => 0x74,
        CbOpcode::Bit6L => 0x75,
        CbOpcode::Bit6HL => 0x76,
        CbOpcode::Bit6A => 0x77,
        CbOpcode::Bit7B => 0x78,
        CbOpcode::Bit7C => 0x79,
        CbOpcode::Bit7D => 0x7A,
        CbOpcode::Bit7E => 0x7B,
        CbOpcode::Bit7H => 0x7C,
        CbOpcode::Bit7L => 0x7D,
        CbOpcode::Bit7HL => 0x7E,
        CbOpcode::Bit7A => 0x7F,
        CbOpcode::Res0B => 0x80,
        CbOpcode::Res0C => 0x81,
        CbOpcode::Res0D => 0x82,
        CbOpcode::Res0E => 0x83,
        CbOpcode::Res0H => 0x84,
        CbOpcode::Res0L => 0x85,
        CbOpcode::Res0HL => 0x86,
        CbOpcode::Res0A => 0x87,
        CbOpcode::Res1B => 0x88,
        CbOpcode::Res1C => 0x89,
        CbOpcode::Res1D => 0x8A,
        CbOpcode::Res1E => 0x8B,
        CbOpcode::Res1H => 0x8C,
        CbOpcode::Res1L => 0x8D,
        CbOpcode::Res1HL => 0x8E,
        CbOpcode::Res1A => 0x8F,
        CbOpcode::Res2B => 0x90,
        CbOpcode::Res2C => 0x91,
        CbOpcode::Res2D => 0x92,
        CbOpcode::Res2E => 0x93,
        CbOpcode::Res2H => 0x94,
        CbOpcode::Res2L => 0x95,
        CbOpcode::Res2HL => 0x96,
        CbOpcode::Res2A => 0x97,
        CbOpcode::Res3B => 0x98,
        CbOpcode::Res3C => 0x99,
        CbOpcode::Res3D => 0x9A,
        CbOpcode::Res3E => 0x9B,
        CbOpcode::Res3H => 0x9C,
        CbOpcode::Res3L => 0x9D,
        CbOpcode::Res3HL => 0x9E,
        CbOpcode::Res3A => 0x9F,
        CbOpcode::Res4B => 0xA0,
        CbOpcode::Res4C => 0xA1,
        CbOpcode::Res4D => 0xA2,
        CbOpcode::Res4E => 0xA3,
        CbOpcode::Res4H => 0xA4,
        CbOpcode::Res4L => 0xA5,
        CbOpcode::Res4HL => 0xA6,
        CbOpcode::Res4A => 0xA7,
        CbOpcode::Res5B => 0xA8,
        CbOpcode::Res5C => 0xA9,
        CbOpcode::Res5D => 0xAA,
        CbOpcode::Res5E => 0xAB,
        CbOpcode::Res5H => 0xAC,
        CbOpcode::Res5L => 0xAD,
        CbOpcode::Res5HL => 0xAE,
        CbOpcode::Res5A => 0xAF,
        CbOpcode::Res6B => 0xB0,
        CbOpcode::Res6C => 0xB1,
        CbOpcode::Res6D => 0xB2,
        CbOpcode::Res6E => 0xB3,
        CbOpcode::Res6H => 0xB4,
        CbOpcode::Res6L => 0xB5,
        CbOpcode::Res6HL => 0xB6,
        CbOpcode::Res6A => 0xB7,
        CbOpcode::Res7B => 0xB8,
        CbOpcode::Res7C => 0xB9,
        CbOpcode::Res7D => 0xBA,
        CbOpcode::Res7E => 0xBB,
        CbOpcode::Res7H => 0xBC,
        CbOpcode::Res7L => 0xBD,
        CbOpcode::Res7HL => 0xBE,
        CbOpcode::Res7A => 0xBF,
        CbOpcode::Set0B => 0xC0,
        CbOpcode::Set0C => 0xC1,
        CbOpcode::Set0D => 0xC2,
        CbOpcode::Set0E => 0xC3,
        CbOpcode::Set0H => 0xC4,
        CbOpcode::Set0L => 0xC5,
        CbOpcode::Set0HL => 0xC6,
        CbOpcode::Set0A => 0xC7,
        CbOpcode::Set1B => 0xC8,
        CbOpcode::Set1C => 0xC9,
        CbOpcode::Set1D => 0xCA,
        CbOpcode::Set1E => 0xCB,
        CbOpcode::Set1H => 0xCC,
        CbOpcode::Set1L => 0xCD,
        CbOpcode::Set1HL => 0xCE,
        CbOpcode::Set1A => 0xCF,
        CbOpcode::Set2B => 0xD0,
        CbOpcode::Set2C => 0xD1,
        CbOpcode::Set2D => 0xD2,
        CbOpcode::Set2E => 0xD3,
        CbOpcode::Set2H => 0xD4,
        CbOpcode::Set2L => 0xD5,
        CbOpcode::Set2HL => 0xD6,
        CbOpcode::Set2A => 0xD7,
        CbOpcode::Set3B => 0xD8,
        CbOpcode::Set3C => 0xD9,
        CbOpcode::Set3D => 0xDA,
        CbOpcode::Set3E => 0xDB,
        CbOpcode::Set3H => 0xDC,
        CbOpcode::Set3L => 0xDD,
        CbOpcode::Set3HL => 0xDE,
        CbOpcode::Set3A => 0xDF,
        CbOpcode::Set4B => 0xE0,
        CbOpcode::Set4C => 0xE1,
        CbOpcode::Set4D => 0xE2,
        CbOpcode::Set4E => 0xE3,
        CbOpcode::Set4H => 0xE4,
        CbOpcode::Set4L => 0xE5,
        CbOpcode::Set4HL => 0xE6,
        CbOpcode::Set4A => 0xE7,
        CbOpcode::Set5B => 0xE8,
        CbOpcode::Set5C => 0xE9,
        CbOpcode::Set5D => 0xEA,
        CbOpcode::Set5E => 0xEB,
        CbOpcode::Set5H => 0xEC,
        CbOpcode::Set5L => 0xED,
        CbOpcode::Set5HL => 0xEE,
        CbOpcode::Set5A => 0xEF,
        CbOpcode::Set6B => 0xF0,
        CbOpcode::Set6C => 0xF1,
        CbOpcode::Set6D => 0xF2,
        CbOpcode::Set6E => 0xF3,
        CbOpcode::Set6H => 0xF4,
        CbOpcode::Set6L => 0xF5,
        CbOpcode::Set6HL => 0xF6,
        CbOpcode::Set6A => 0xF7,
        CbOpcode::Set7B => 0xF8,
        CbOpcode::Set7C => 0xF9,
        CbOpcode::Set7D => 0xFA,
        CbOpcode::Set7E => 0xFB,
        CbOpcode::Set7H => 0xFC,
        CbOpcode::Set7L => 0xFD,
        CbOpcode::Set7HL => 0xFE,
        CbOpcode::Set7A => 0xFF,
    }
}

/// The cycles of a CB instruction: 4 when it works on the byte at (HL),
/// whose register field (the three low bits) is 6, else 2.
pub open spec fn cb_cycles_of(code: u8) -> u8 {
    if code % 8 == 6 { 4 } else { 2 }
}

impl CbOpcode {
    /// The CB opcode encoded by a byte; every byte encodes one.
    #[verifier::rlimit(100)]
    #[verifier::spinoff_prover]
    pub fn from_u8(value: u8) -> (r: Option<CbOpcode>)
        ensures
            r is Some,
            cb_value(r->0) == value,
    {
        match value {
            0x00 => Some(CbOpcode::RlcB),
            0x01 => Some(CbOpcode::RlcC),
            0x02 => Some(CbOpcode::RlcD),
            0x03 => Some(CbOpcode::RlcE),
            0x04 => Some(CbOpcode::RlcH),
            0x05 => Some(CbOpcode::RlcL),
            0x06 => Some(CbOpcode::RlcHL),
            0x07 => Some(CbOpcode::RlcA),
            0x08 => Some(CbOpcode::RrcB),
            0x09 => Some(CbOpcode::RrcC),
            0x0A => Some(CbOpcode::RrcD),
            0x0B => Some(CbOpcode::RrcE),
            0x0C => Some(CbOpcode::RrcH),
            0x0D => Some(CbOpcode::RrcL),
            0x0E => Some(CbOpcode::RrcHL),
            0x0F => Some(CbOpcode::RrcA),
            0x10 => Some(CbOpcode::RlB),
            0x11 => Some(CbOpcode::RlC),
            0x12 => Some(CbOpcode::RlD),
            0x13 => Some(CbOpcode::RlE),
            0x14 => Some(CbOpcode::RlH),
            0x15 => Some(CbOpcode::RlL),
            0x16 => Some(CbOpcode::RlHL),
            0x17 => Some(CbOpcode::RlA),
            0x18 => Some(CbOpcode::RrB),
            0x19 => Some(CbOpcode::RrC),
            0x1A => Some(CbOpcode::RrD),
            0x1B => Some(CbOpcode::RrE),
            0x1C => Some(CbOpcode::RrH),
            0x1D => Some(CbOpcode::RrL),
            0x1E => Some(CbOpcode::RrHL),
            0x1F => Some(CbOpcode::RrA),
            0x20 => Some(CbOpcode::SlaB),
            0x21 => Some(CbOpcode::SlaC),
            0x22 => Some(CbOpcode::SlaD),
            0x23 => Some(CbOpcode::SlaE),
            0x24 => Some(CbOpcode::SlaH),
            0x25 => Some(CbOpcode::SlaL),
            0x26 => Some(CbOpcode::SlaHL),
            0x27 => Some(CbOpcode::SlaA),
            0x28 => Some(CbOpcode::SraB),
            0x29 => Some(CbOpcode::SraC),
            0x2A => Some(CbOpcode::SraD),
            0x2B => Some(CbOpcode::SraE),
            0x2C => Some(CbOpcode::SraH),
            0x2D => Some(CbOpcode::SraL),
            0x2E => Some(CbOpcode::SraHL),
            0x2F => Some(CbOpcode::SraA),
            0x30 => Some(CbOpcode::SwapB),
            0x31 => Some(CbOpcode::SwapC),
            0x32 => Some(CbOpcode::SwapD),
            0x33 => Some(CbOpcode::SwapE),
            0x34 => Some(CbOpcode::SwapH),
            0x35 => Some(CbOpcode::SwapL),
            0x36 => Some(CbOpcode::SwapHL),
            0x37 => Some(CbOpcode::SwapA),
            0x38 => Some(CbOpcode::SrlB),
            0x39 => Some(CbOpcode::SrlC),
            0x3A => Some(CbOpcode::SrlD),
            0x3B => Some(CbOpcode::SrlE),
            0x3C => Some(CbOpcode::SrlH),
            0x3D => Some(CbOpcode::SrlL),
            0x3E => Some(CbOpcode::SrlHL),
            0x3F => Some(CbOpcode::SrlA),
            0x40 => Some(CbOpcode::Bit0B),
            0x41 => Some(CbOpcode::Bit0C),
            0x42 => Some(CbOpcode::Bit0D),
            0x43 => Some(CbOpcode::Bit0E),
            0x44 => Some(CbOpcode::Bit0H),
            0x45 => Some(CbOpcode::Bit0L),
            0x46 => Some(CbOpcode::Bit0HL),
            0x47 => Some(CbOpcode::Bit0A),
            0x48 => Some(CbOpcode::Bit1B),
            0x49 => Some(CbOpcode::Bit1C),
            0x4A => Some(CbOpcode::Bit1D),
            0x4B => Some(CbOpcode::Bit1E),
            0x4C => Some(CbOpcode::Bit1H),
            0x4D => Some(CbOpcode::Bit1L),
            0x4E => Some(CbOpcode::Bit1HL),
            0x4F => Some(CbOpcode::Bit1A),
            0x50 => Some(CbOpcode::Bit2B),
            0x51 => Some(CbOpcode::Bit2C),
            0x52 => Some(CbOpcode::Bit2D),
            0x53 => Some(CbOpcode::Bit2E),
            0x54 => Some(CbOpcode::Bit2H),
            0x55 => Some(CbOpcode::Bit2L),
            0x56 => Some(CbOpcode::Bit2HL),
            0x57 => Some(CbOpcode::Bit2A),
            0x58 => Some(CbOpcode::Bit3B),
            0x59 => Some(CbOpcode::Bit3C),
            0x5A => Some(CbOpcode::Bit3D),
            0x5B => Some(CbOpcode::Bit3E),
            0x5C => Some(CbOpcode::Bit3H),
            0x5D => Some(CbOpcode::Bit3L),
            0x5E => Some(CbOpcode::Bit3HL),
            0x5F => Some(CbOpcode::Bit3A),
            0x60 => Some(CbOpcode::Bit4B),
            0x61 => Some(CbOpcode::Bit4C),
            0x62 => Some(CbOpcode::Bit4D),
            0x63 => Some(CbOpcode::Bit4E),
            0x64 => Some(CbOpcode::Bit4H),
            0x65 => Some(CbOpcode::Bit4L),
            0x66 => Some(CbOpcode::Bit4HL),
            0x67 => Some(CbOpcode::Bit4A),
            0x68 => Some(CbOpcode::Bit5B),
            0x69 => Some(CbOpcode::Bit5C),
            0x6A => Some(CbOpcode::Bit5D),
            0x6B => Some(CbOpcode::Bit5E),
            0x6C => Some(CbOpcode::Bit5H),
            0x6D => Some(CbOpcode::Bit5L),
            0x6E => Some(CbOpcode::Bit5HL),
            0x6F => Some(CbOpcode::Bit5A),
            0x70 => Some(CbOpcode::Bit6B),
            0x71 => Some(CbOpcode::Bit6C),
            0x72 => Some(CbOpcode::Bit6D),
            0x73 => Some(CbOpcode::Bit6E),
            0x74 => Some(CbOpcode::Bit6H),
            0x75 => Some(CbOpcode::Bit6L),
            0x76 => Some(CbOpcode::Bit6HL),
            0x77 => Some(CbOpcode::Bit6A),
            0x78 => Some(CbOpcode::Bit7B),
            0x79 => Some(CbOpcode::Bit7C),
            0x7A => Some(CbOpcode::Bit7D),
            0x7B => Some(CbOpcode::Bit7E),
            0x7C => Some(CbOpcode::Bit7H),
            0x7D => Some(CbOpcode::Bit7L),
            0x7E => Some(CbOpcode::Bit7HL),
            0x7F => Some(CbOpcode::Bit7A),
            0x80 => Some(CbOpcode::Res0B),
            0x81 => Some(CbOpcode::Res0C),
            0x82 => Some(CbOpcode::Res0D),
            0x83 => Some(CbOpcode::Res0E),
            0x84 => Some(CbOpcode::Res0H),
            0x85 => Some(CbOpcode::Res0L),
            0x86 => Some(CbOpcode::Res0HL),
            0x87 => Some(CbOpcode::Res0A),
            0x88 => Some(CbOpcode::Res1B),
            0x89 => Some(CbOpcode::Res1C),
            0x8A => Some(CbOpcode::Res1D),
            0x8B => Some(CbOpcode::Res1E),
            0x8C => Some(CbOpcode::Res1H),
            0x8D => Some(CbOpcode::Res1L),
            0x8E => Some(CbOpcode::Res1HL),
            0x8F => Some(CbOpcode::Res1A),
            0x90 => Some(CbOpcode::Res2B),
            0x91 => Some(CbOpcode::Res2C),
            0x92 => Some(CbOpcode::Res2D),
            0x93 => Some(CbOpcode::Res2E),
            0x94 => Some(CbOpcode::Res2H),
            0x95 => Some(CbOpcode::Res2L),
            0x96 => Some(CbOpcode::Res2HL),
            0x97 => Some(CbOpcode::Res2A),
            0x98 => Some(CbOpcode::Res3B),
            0x99 => Some(CbOpcode::Res3C),
            0x9A => Some(CbOpcode::Res3D),
            0x9B => Some(CbOpcode::Res3E),
            0x9C => Some(CbOpcode::Res3H),
            0x9D => Some(CbOpcode::Res3L),
            0x9E => Some(CbOpcode::Res3HL),
            0x9F => Some(CbOpcode::Res3A),
            0xA0 => Some(CbOpcode::Res4B),
            0xA1 => Some(CbOpcode::Res4C),
            0xA2 => Some(CbOpcode::Res4D),
            0xA3 => Some(CbOpcode::Res4E),
            0xA4 => Some(CbOpcode::Res4H),
            0xA5 => Some(CbOpcode::Res4L),
            0xA6 => Some(CbOpcode::Res4HL),
            0xA7 => Some(CbOpcode::Res4A),
            0xA8 => Some(CbOpcode::Res5B),
            0xA9 => Some(CbOpcode::Res5C),
            0xAA => Some(CbOpcode::Res5D),
            0xAB => Some(CbOpcode::Res5E),
            0xAC => Some(CbOpcode::Res5H),
            0xAD => Some(CbOpcode::Res5L),
            0xAE => Some(CbOpcode::Res5HL),
            0xAF => Some(CbOpcode::Res5A),
            0xB0 => Some(CbOpcode::Res6B),
            0xB1 => Some(CbOpcode::Res6C),
            0xB2 => Some(CbOpcode::Res6D),
            0xB3 => Some(CbOpcode::Res6E),
            0xB4 => Some(CbOpcode::Res6H),
            0xB5 => Some(CbOpcode::Res6L),
            0xB6 => Some(CbOpcode::Res6HL),
            0xB7 => Some(CbOpcode::Res6A),
            0xB8 => Some(CbOpcode::Res7B),
            0xB9 => Some(CbOpcode::Res7C),
            0xBA => Some(CbOpcode::Res7D),
            0xBB => Some(CbOpcode::Res7E),
            0xBC => Some(CbOpcode::Res7H),
            0xBD => Some(CbOpcode::Res7L),
            0xBE => Some(CbOpcode::Res7HL),
            0xBF => Some(CbOpcode::Res7A),
            0xC0 => Some(CbOpcode::Set0B),
            0xC1 => Some(CbOpcode::Set0C),
            0xC2 => Some(CbOpcode::Set0D),
            0xC3 => Some(CbOpcode::Set0E),
            0xC4 => Some(CbOpcode::Set0H),
            0xC5 => Some(CbOpcode::Set0L),
            0xC6 => Some(CbOpcode::Set0HL),
            0xC7 => Some(CbOpcode::Set0A),
            0xC8 => Some(CbOpcode::Set1B),
            0xC9 => Some(CbOpcode::Set1C),
            0xCA => Some(CbOpcode::Set1D),
            0xCB => Some(CbOpcode::Set1E),
            0xCC => Some(CbOpcode::Set1H),
            0xCD => Some(CbOpcode::Set1L),
            0xCE => Some(CbOpcode::Set1HL),
            0xCF => Some(CbOpcode::Set1A),
            0xD0 => Some(CbOpcode::Set2B),
            0xD1 => Some(CbOpcode::Set2C),
            0xD2 => Some(CbOpcode::Set2D),
            0xD3 => Some(CbOpcode::Set2E),
            0xD4 => Some(CbOpcode::Set2H),
            0xD5 => Some(CbOpcode::Set2L),
            0xD6 => Some(CbOpcode::Set2HL),
            0xD7 => Some(CbOpcode::Set2A),
            0xD8 => Some(CbOpcode::Set3B),
            0xD9 => Some(CbOpcode::Set3C),
            0xDA => Some(CbOpcode::Set3D),
            0xDB => Some(CbOpcode::Set3E),
            0xDC => Some(CbOpcode::Set3H),
            0xDD => Some(CbOpcode::Set3L),
            0xDE => Some(CbOpcode::Set3HL),
            0xDF => Some(CbOpcode::Set3A),
            0xE0 => Some(CbOpcode::Set4B),
            0xE1 => Some(CbOpcode::Set4C),
            0xE2 => Some(CbOpcode::Set4D),
            0xE3 => Some(CbOpcode::Set4E),
            0xE4 => Some(CbOpcode::Set4H),
            0xE5 => Some(CbOpcode::Set4L),
            0xE6 => Some(CbOpcode::Set4HL),
            0xE7 => Some(CbOpcode::Set4A),
            0xE8 => Some(CbOpcode::Set5B),
            0xE9 => Some(CbOpcode::Set5C),
            0xEA => Some(CbOpcode::Set5D),
            0xEB => Some(CbOpcode::Set5E),
            0xEC => Some(CbOpcode::Set5H),
            0xED => Some(CbOpcode::Set5L),
            0xEE => Some(CbOpcode::Set5HL),
            0xEF => Some(CbOpcode::Set5A),
            0xF0 => Some(CbOpcode::Set6B),
            0xF1 => Some(CbOpcode::Set6C),
            0xF2 => Some(CbOpcode::Set6D),
            0xF3 => Some(CbOpcode::Set6E),
            0xF4 => Some(CbOpcode::Set6H),
            0xF5 => Some(CbOpcode::Set6L),
            0xF6 => Some(CbOpcode::Set6HL),
            0xF7 => Some(CbOpcode::Set6A),
            0xF8 => Some(CbOpcode::Set7B),
            0xF9 => Some(CbOpcode::Set7C),
            0xFA => Some(CbOpcode::Set7D),
            0xFB => Some(CbOpcode::Set7E),
            0xFC => Some(CbOpcode::Set7H),
            0xFD => Some(CbOpcode::Set7L),
            0xFE => Some(CbOpcode::Set7HL),
            0xFF => Some(CbOpcode::Set7A),
        }
    }

    /// The byte that encodes this CB opcode.
    pub fn to_u8(&self) -> (r: u8)
        ensures
            r == cb_value(*self),
    {
        match self {
            CbOpcode::RlcB => 0x00,
            CbOpcode::RlcC => 0x01,
            CbOpcode::RlcD => 0x02,
            CbOpcode::RlcE => 0x03,
            CbOpcode::RlcH => 0x04,
            CbOpcode::RlcL => 0x05,
            CbOpcode::RlcHL => 0x06,
            CbOpcode::RlcA => 0x07,
            CbOpcode::RrcB => 0x08,
            CbOpcode::RrcC => 0x09,
            CbOpcode::RrcD => 0x0A,
            CbOpcode::RrcE => 0x0B,
            CbOpcode::RrcH => 0x0C,
            CbOpcode::RrcL => 0x0D,
            CbOpcode::RrcHL => 0x0E,
            CbOpcode::RrcA => 0x0F,
            CbOpcode::RlB => 0x10,
            CbOpcode::RlC => 0x11,
            CbOpcode::RlD => 0x12,
            CbOpcode::RlE => 0x13,
            CbOpcode::RlH => 0x14,
            CbOpcode::RlL => 0x15,
            CbOpcode::RlHL => 0x16,
            CbOpcode::RlA => 0x17,
            CbOpcode::RrB => 0x18,
            CbOpcode::RrC => 0x19,
            CbOpcode::RrD => 0x1A,
            CbOpcode::RrE => 0x1B,
            CbOpcode::RrH => 0x1C,
            CbOpcode::RrL => 0x1D,
            CbOpcode::RrHL => 0x1E,
            CbOpcode::RrA => 0x1F,
            CbOpcode::SlaB => 0x20,
            CbOpcode::SlaC => 0x21,
            CbOpcode::SlaD => 0x22,
            CbOpcode::SlaE => 0x23,
            CbOpcode::SlaH => 0x24,
            CbOpcode::SlaL => 0x25,
            CbOpcode::SlaHL => 0x26,
            CbOpcode::SlaA => 0x27,
            CbOpcode::SraB => 0x28,
            CbOpcode::SraC => 0x29,
            CbOpcode::SraD => 0x2A,
            CbOpcode::SraE => 0x2B,
            CbOpcode::SraH => 0x2C,
            CbOpcode::SraL => 0x2D,
            CbOpcode::SraHL => 0x2E,
            CbOpcode::SraA => 0x2F,
            CbOpcode::SwapB => 0x30,
            CbOpcode::SwapC => 0x31,
            CbOpcode::SwapD => 0x32,
            CbOpcode::SwapE => 0x33,
            CbOpcode::SwapH => 0x34,
            CbOpcode::SwapL => 0x35,
            CbOpcode::SwapHL => 0x36,
            CbOpcode::SwapA => 0x37,
            CbOpcode::SrlB => 0x38,
            CbOpcode::SrlC => 0x39,
            CbOpcode::SrlD => 0x3A,
            CbOpcode::SrlE => 0x3B,
            CbOpcode::SrlH => 0x3C,
            CbOpcode::SrlL => 0x3D,
            CbOpcode::SrlHL => 0x3E,
            CbOpcode::SrlA => 0x3F,
            CbOpcode::Bit0B => 0x40,
            CbOpcode::Bit0C => 0x41,
            CbOpcode::Bit0D => 0x42,
            CbOpcode::Bit0E => 0x43,
            CbOpcode::Bit0H => 0x44,
            CbOpcode::Bit0L => 0x45,
            CbOpcode::Bit0HL => 0x46,
            CbOpcode::Bit0A => 0x47,
            CbOpcode::Bit1B => 0x48,
            CbOpcode::Bit1C => 0x49,
            CbOpcode::Bit1D => 0x4A,
            CbOpcode::Bit1E => 0x4B,
            CbOpcode::Bit1H => 0x4C,
            CbOpcode::Bit1L => 0x4D,
            CbOpcode::Bit1HL => 0x4E,
            CbOpcode::Bit1A => 0x4F,
            CbOpcode::Bit2B => 0x50,
            CbOpcode::Bit2C => 0x51,
            CbOpcode::Bit2D => 0x52,
            CbOpcode::Bit2E => 0x53,
            CbOpcode::Bit2H => 0x54,
            CbOpcode::Bit2L => 0x55,
            CbOpcode::Bit2HL => 0x56,
            CbOpcode::Bit2A => 0x57,
            CbOpcode::Bit3B => 0x58,
            CbOpcode::Bit3C => 0x59,
            CbOpcode::Bit3D => 0x5A,
            CbOpcode::Bit3E => 0x5B,
            CbOpcode::Bit3H => 0x5C,
            CbOpcode::Bit3L => 0x5D,
            CbOpcode::Bit3HL => 0x5E,
            CbOpcode::Bit3A => 0x5F,
            CbOpcode::Bit4B => 0x60,
            CbOpcode::Bit4C => 0x61,
            CbOpcode::Bit4D => 0x62,
            CbOpcode::Bit4E => 0x63,
            CbOpcode::Bit4H => 0x64,
            CbOpcode::Bit4L => 0x65,
            CbOpcode::Bit4HL => 0x66,
            CbOpcode::Bit4A => 0x67,
            CbOpcode::Bit5B => 0x68,
            CbOpcode::Bit5C => 0x69,
            CbOpcode::Bit5D => 0x6A,
            CbOpcode::Bit5E => 0x6B,
            CbOpcode::Bit5H => 0x6C,
            CbOpcode::Bit5L => 0x6D,
            CbOpcode::Bit5HL => 0x6E,
            CbOpcode::Bit5A => 0x6F,
            CbOpcode::Bit6B => 0x70,
            CbOpcode::Bit6C => 0x71,
            CbOpcode::Bit6D => 0x72,
            CbOpcode::Bit6E => 0x73,
            CbOpcode::Bit6H => 0x74,
            CbOpcode::Bit6L => 0x75,
            CbOpcode::Bit6HL => 0x76,
            CbOpcode::Bit6A => 0x77,
            CbOpcode::Bit7B => 0x78,
            CbOpcode::Bit7C => 0x79,
            CbOpcode::Bit7D => 0x7A,
            CbOpcode::Bit7E => 0x7B,
            CbOpcode::Bit7H => 0x7C,
            CbOpcode::Bit7L => 0x7D,
            CbOpcode::Bit7HL => 0x7E,
            CbOpcode::Bit7A => 0x7F,
            CbOpcode::Res0B => 0x80,
            CbOpcode::Res0C => 0x81,
            CbOpcode::Res0D => 0x82,
            CbOpcode::Res0E => 0x83,
            CbOpcode::Res0H => 0x84,
            CbOpcode::Res0L => 0x85,
            CbOpcode::Res0HL => 0x86,
            CbOpcode::Res0A => 0x87,
            CbOpcode::Res1B => 0x88,
            CbOpcode::Res1C => 0x89,
            CbOpcode::Res1D => 0x8A,
            CbOpcode::Res1E => 0x8B,
            CbOpcode::Res1H => 0x8C,
            CbOpcode::Res1L => 0x8D,
            CbOpcode::Res1HL => 0x8E,
            CbOpcode::Res1A => 0x8F,
            CbOpcode::Res2B => 0x90,
            CbOpcode::Res2C => 0x91,
            CbOpcode::Res2D => 0x92,
            CbOpcode::Res2E => 0x93,
            CbOpcode::Res2H => 0x94,
            CbOpcode::Res2L => 0x95,
            CbOpcode::Res2HL => 0x96,
            CbOpcode::Res2A => 0x97,
            CbOpcode::Res3B => 0x98,
            CbOpcode::Res3C => 0x99,
            CbOpcode::Res3D => 0x9A,
            CbOpcode::Res3E => 0x9B,
            CbOpcode::Res3H => 0x9C,
            CbOpcode::Res3L => 0x9D,
            CbOpcode::Res3HL => 0x9E,
            CbOpcode::Res3A => 0x9F,
            CbOpcode::Res4B => 0xA0,
            CbOpcode::Res4C => 0xA1,
            CbOpcode::Res4D => 0xA2,
            CbOpcode::Res4E => 0xA3,
            CbOpcode::Res4H => 0xA4,
            CbOpcode::Res4L => 0xA5,
            CbOpcode::Res4HL => 0xA6,
            CbOpcode::Res4A => 0xA7,
            CbOpcode::Res5B => 0xA8,
            CbOpcode::Res5C => 0xA9,
            CbOpcode::Res5D => 0xAA,
            CbOpcode::Res5E => 0xAB,
            CbOpcode::Res5H => 0xAC,
            CbOpcode::Res5L => 0xAD,
            CbOpcode::Res5HL => 0xAE,
            CbOpcode::Res5A => 0xAF,
            CbOpcode::Res6B => 0xB0,
            CbOpcode::Res6C => 0xB1,
            CbOpcode::Res6D => 0xB2,
            CbOpcode::Res6E => 0xB3,
            CbOpcode::Res6H => 0xB4,
            CbOpcode::Res6L => 0xB5,
            CbOpcode::Res6HL => 0xB6,
            CbOpcode::Res6A => 0xB7,
            CbOpcode::Res7B => 0xB8,
            CbOpcode::Res7C => 0xB9,
            CbOpcode::Res7D => 0xBA,
            CbOpcode::Res7E => 0xBB,
            CbOpcode::Res7H => 0xBC,
            CbOpcode::Res7L => 0xBD,
            CbOpcode::Res7HL => 0xBE,
            CbOpcode::Res7A => 0xBF,
            CbOpcode::Set0B => 0xC0,
            CbOpcode::Set0C => 0xC1,
            CbOpcode::Set0D => 0xC2,
            CbOpcode::Set0E => 0xC3,
            CbOpcode::Set0H => 0xC4,
            CbOpcode::Set0L => 0xC5,
            CbOpcode::Set0HL => 0xC6,
            CbOpcode::Set0A => 0xC7,
            CbOpcode::Set1B => 0xC8,
            CbOpcode::Set1C => 0xC9,
            CbOpcode::Set1D => 0xCA,
            CbOpcode::Set1E => 0xCB,
            CbOpcode::Set1H => 0xCC,
            CbOpcode::Set1L => 0xCD,
            CbOpcode::Set1HL => 0xCE,
            CbOpcode::Set1A => 0xCF,
            CbOpcode::Set2B => 0xD0,
            CbOpcode::Set2C => 0xD1,
            CbOpcode::Set2D => 0xD2,
            CbOpcode::Set2E => 0xD3,
            CbOpcode::Set2H => 0xD4,
            CbOpcode::Set2L => 0xD5,
            CbOpcode::Set2HL => 0xD6,
            CbOpcode::Set2A => 0xD7,
            CbOpcode::Set3B => 0xD8,
            CbOpcode::Set3C => 0xD9,
            CbOpcode::Set3D => 0xDA,
            CbOpcode::Set3E => 0xDB,
            CbOpcode::Set3H => 0xDC,
            CbOpcode::Set3L => 0xDD,
            CbOpcode::Set3HL => 0xDE,
            CbOpcode::Set3A => 0xDF,
            CbOpcode::Set4B => 0xE0,
            CbOpcode::Set4C => 0xE1,
            CbOpcode::Set4D => 0xE2,
            CbOpcode::Set4E => 0xE3,
            CbOpcode::Set4H => 0xE4,
            CbOpcode::Set4L => 0xE5,
            CbOpcode::Set4HL => 0xE6,
            CbOpcode::Set4A => 0xE7,
            CbOpcode::Set5B => 0xE8,
            CbOpcode::Set5C => 0xE9,
            CbOpcode::Set5D => 0xEA,
            CbOpcode::Set5E => 0xEB,
            CbOpcode::Set5H => 0xEC,
            CbOpcode::Set5L => 0xED,
            CbOpcode::Set5HL => 0xEE,
            CbOpcode::Set5A => 0xEF,
            CbOpcode::Set6B => 0xF0,
            CbOpcode::Set6C => 0xF1,
            CbOpcode::Set6D => 0xF2,
            CbOpcode::Set6E => 0xF3,
            CbOpcode::Set6H => 0xF4,
            CbOpcode::Set6L => 0xF5,
            CbOpcode::Set6HL => 0xF6,
            CbOpcode::Set6A => 0xF7,
            CbOpcode::Set7B => 0xF8,
            CbOpcode::Set7C => 0xF9,
            CbOpcode::Set7D => 0xFA,
            CbOpcode::Set7E => 0xFB,
            CbOpcode::Set7H => 0xFC,
            CbOpcode::Set7L => 0xFD,
            CbOpcode::Set7HL => 0xFE,
            CbOpcode::Set7A => 0xFF,
        }
    }

    /// The machine cycles of this CB instruction.
    pub fn cycles(&self) -> (r: u8)
        ensures
            r == cb_cycles_of(cb_value(*self)),
    {
        match self {
            Self::RlcHL
            | Self::RrcHL
            | Self::RlHL
            | Self::RrHL
            | Self::SlaHL
            | Self::SraHL
            | Self::SwapHL
            | Self::SrlHL
            | Self::Bit0HL
            | Self::Bit1HL
            | Self::Bit2HL
            | Self::Bit3HL
            | Self::Bit4HL
            | Self::Bit5HL
            | Self::Bit6HL
            | Self::Bit7HL
            | Self::Res0HL
            | Self::Res1HL
            | Self::Res2HL
            | Self::Res3HL
            | Self::Res4HL
            | Self::Res5HL
            | Self::Res6HL
            | Self::Res7HL
            | Self::Set0HL
            | Self::Set1HL
            | Self::Set2HL
            | Self::Set3HL
            | Self::Set4HL
            | Self::Set5HL
            | Self::Set6HL
            | Self::Set7HL => 4,
            _ => 2,
        }
    }
}

/// Each opcode has a byte of its own, and that byte decodes: `to_u8` then
/// `from_u8` gives the opcode back.
#[verifier::rlimit(100)]
pub proof fn law_opcode_round_trip(a: Opcode, b: Opcode)
    ensures
        is_opcode(opcode_value(a)),
        opcode_value(a) == opcode_value(b) ==> a == b,
{
}

/// Each CB-prefixed opcode has a byte of its own: `to_u8` then `from_u8`
/// gives it back.
#[verifier::rlimit(100)]
pub proof fn law_cb_opcode_round_trip(a: CbOpcode, b: CbOpcode)
    ensures
        cb_value(a) == cb_value(b) ==> a == b,
{
}

} // verus!
