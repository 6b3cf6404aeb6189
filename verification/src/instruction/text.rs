//! The text of an instruction and of its parts, as the disassembler shows
//! it.
use vstd::prelude::*;
use vstd::string::*;

use super::{
    ArithmeticType, Dest, DoubleRegType, GenericRegType, Instruction, InstructionType, InstructionView, JumpCondition, JumpType,
    Operand, PostStore, SingleRegType, Source,
};
use super::opcode::opcode_value;
use crate::text::{
    bool_text, dec_i8_text, dec_text, hex16_text, hex8_text, push_bool, push_dec, push_dec_i8, push_hex16,
    push_hex8,
};

verus! {
/// The name of a `SingleRegType`.
pub open spec fn single_reg_text(v: SingleRegType) -> Seq<char> {
    match v {
        SingleRegType::A => "A"@,
        SingleRegType::B => "B"@,
        SingleRegType::C => "C"@,
        SingleRegType::D => "D"@,
        SingleRegType::E => "E"@,
        SingleRegType::H => "H"@,
        SingleRegType::L => "L"@,
    }
}

impl SingleRegType {
    pub fn name(&self) -> (r: &'static str)
        ensures
            r@ == single_reg_text(*self),
    {
        match self {
            SingleRegType::A => "A",
            SingleRegType::B => "B",
            SingleRegType::C => "C",
            SingleRegType::D => "D",
            SingleRegType::E => "E",
            SingleRegType::H => "H",
            SingleRegType::L => "L",
        }
    }
}

/// The name of a `DoubleRegType`.
pub open spec fn double_reg_text(v: DoubleRegType) -> Seq<char> {
    match v {
        DoubleRegType::AF => "AF"@,
        DoubleRegType::BC => "BC"@,
        DoubleRegType::DE => "DE"@,
        DoubleRegType::HL => "HL"@,
        DoubleRegType::SP => "SP"@,
    }
}

impl DoubleRegType {
    pub fn name(&self) -> (r: &'static str)
        ensures
            r@ == double_reg_text(*self),
    {
        match self {
            DoubleRegType::AF => "AF",
            DoubleRegType::BC => "BC",
            DoubleRegType::DE => "DE",
            DoubleRegType::HL => "HL",
            DoubleRegType::SP => "SP",
        }
    }
}

/// The name of a `JumpCondition`.
pub open spec fn condition_text(v: JumpCondition) -> Seq<char> {
    match v {
        JumpCondition::Always => ""@,
        JumpCondition::Zero => "Z"@,
        JumpCondition::NotZero => "NZ"@,
        JumpCondition::Carry => "C"@,
        JumpCondition::NotCarry => "NC"@,
    }
}

impl JumpCondition {
    pub fn name(&self) -> (r: &'static str)
        ensures
            r@ == condition_text(*self),
    {
        match self {
            JumpCondition::Always => "",
            JumpCondition::Zero => "Z",
            JumpCondition::NotZero => "NZ",
            JumpCondition::Carry => "C",
            JumpCondition::NotCarry => "NC",
        }
    }
}

/// The name of a `PostStore`.
pub open spec fn post_store_text(v: PostStore) -> Seq<char> {
    match v {
        PostStore::Inc => "HL+"@,
        PostStore::Dec => "HL-"@,
    }
}

impl PostStore {
    pub fn name(&self) -> (r: &'static str)
        ensures
            r@ == post_store_text(*self),
    {
        match self {
            PostStore::Inc => "HL+",
            PostStore::Dec => "HL-",
        }
    }
}

/// The text of a register or register pair.
#[verifier::opaque]
pub open spec fn generic_reg_text(v: GenericRegType) -> Seq<char> {
    match v {
        GenericRegType::Single(reg) => single_reg_text(reg),
        GenericRegType::Double(reg) => double_reg_text(reg),
    }
}

impl GenericRegType {
    /// Appends the text.
    pub fn push_text(&self, s: &mut String)
        ensures
            final(s)@ == old(s)@ + generic_reg_text(*self),
    {
        let ghost s0 = s@;
        match self {
            GenericRegType::Single(reg) => {
                s.append(reg.name());
                proof {
                    assert(generic_reg_text(*self) == single_reg_text(*reg)) by {
                        reveal(generic_reg_text);
                    }
                    assert(s@ =~= s0 + single_reg_text(*reg));
                }
            },
            GenericRegType::Double(reg) => {
                s.append(reg.name());
                proof {
                    assert(generic_reg_text(*self) == double_reg_text(*reg)) by {
                        reveal(generic_reg_text);
                    }
                    assert(s@ =~= s0 + double_reg_text(*reg));
                }
            },
        }
    }

    /// The text.
    pub fn to_text(&self) -> (r: String)
        ensures
            r@ == generic_reg_text(*self),
    {
        let mut s = String::new();
        self.push_text(&mut s);
        proof {
            assert(s@ =~= generic_reg_text(*self));
        }
        s
    }
}

/// The text of a jump target: a relative offset (its byte in hex), an address, or the address in a pair.
#[verifier::opaque]
pub open spec fn jump_type_text(v: JumpType) -> Seq<char> {
    match v {
        JumpType::Offset(offset) => "Rel("@ + hex8_text(offset as u8) + ")"@,
        JumpType::Addr(addr) => "Abs("@ + hex16_text(addr) + ")"@,
        JumpType::RegAddr(reg) => "Abs(Addr("@ + double_reg_text(reg) + "))"@,
    }
}

impl JumpType {
    /// Appends the text.
    pub fn push_text(&self, s: &mut String)
        ensures
            final(s)@ == old(s)@ + jump_type_text(*self),
    {
        let ghost s0 = s@;
        match self {
            JumpType::Offset(offset) => {
                s.append("Rel(");
                push_hex8(s, *offset as u8);
                s.append(")");
                proof {
                    assert(jump_type_text(*self) == "Rel("@ + hex8_text(*offset as u8) + ")"@) by {
                        reveal(jump_type_text);
                    }
                    assert(s@ =~= s0 + "Rel("@ + hex8_text(*offset as u8) + ")"@);
                }
            },
            JumpType::Addr(addr) => {
                s.append("Abs(");
                push_hex16(s, *addr);
                s.append(")");
                proof {
                    assert(jump_type_text(*self) == "Abs("@ + hex16_text(*addr) + ")"@) by {
                        reveal(jump_type_text);
                    }
                    assert(s@ =~= s0 + "Abs("@ + hex16_text(*addr) + ")"@);
                }
            },
            JumpType::RegAddr(reg) => {
                s.append("Abs(Addr(");
                s.append(reg.name());
                s.append("))");
                proof {
                    assert(jump_type_text(*self) == "Abs(Addr("@ + double_reg_text(*reg) + "))"@) by {
                        reveal(jump_type_text);
                    }
                    assert(s@ =~= s0 + "Abs(Addr("@ + double_reg_text(*reg) + "))"@);
                }
            },
        }
    }

    /// The text.
    pub fn to_text(&self) -> (r: String)
        ensures
            r@ == jump_type_text(*self),
    {
        let mut s = String::new();
        self.push_text(&mut s);
        proof {
            assert(s@ =~= jump_type_text(*self));
        }
        s
    }
}

/// The text of an operand.
#[verifier::opaque]
pub open spec fn operand_text(v: Operand) -> Seq<char> {
    match v {
        Operand::Imm(val) => hex8_text(val),
        Operand::Reg(reg) => single_reg_text(reg),
        Operand::RegAddr(reg) => "addr("@ + double_reg_text(reg) + ")"@,
    }
}

impl Operand {
    /// Appends the text.
    pub fn push_text(&self, s: &mut String)
        ensures
            final(s)@ == old(s)@ + operand_text(*self),
    {
        let ghost s0 = s@;
        match self {
            Operand::Imm(val) => {
                push_hex8(s, *val);
                proof {
                    assert(operand_text(*self) == hex8_text(*val)) by {
                        reveal(operand_text);
                    }
                    assert(s@ =~= s0 + hex8_text(*val));
                }
            },
            Operand::Reg(reg) => {
                s.append(reg.name());
                proof {
                    assert(operand_text(*self) == single_reg_text(*reg)) by {
                        reveal(operand_text);
                    }
                    assert(s@ =~= s0 + single_reg_text(*reg));
                }
            },
            Operand::RegAddr(reg) => {
                s.append("addr(");
                s.append(reg.name());
                s.append(")");
                proof {
                    assert(operand_text(*self) == "addr("@ + double_reg_text(*reg) + ")"@) by {
                        reveal(operand_text);
                    }
                    assert(s@ =~= s0 + "addr("@ + double_reg_text(*reg) + ")"@);
                }
            },
        }
    }

    /// The text.
    pub fn to_text(&self) -> (r: String)
        ensures
            r@ == operand_text(*self),
    {
        let mut s = String::new();
        self.push_text(&mut s);
        proof {
            assert(s@ =~= operand_text(*self));
        }
        s
    }
}

/// The text of a source.
#[verifier::opaque]
pub open spec fn source_text(v: Source) -> Seq<char> {
    match v {
        Source::RegImm(reg) => single_reg_text(reg),
        Source::RegAddr(reg) => "Addr("@ + double_reg_text(reg) + ")"@,
        Source::Imm8(val) => hex8_text(val),
        Source::Imm16(val) => hex16_text(val),
        Source::Addr(addr) => "Addr("@ + hex16_text(addr) + ")"@,
        Source::IoPortImm(val) => "IO("@ + hex8_text(val) + ")"@,
        Source::IoPortReg(reg) => "IO("@ + single_reg_text(reg) + ")"@,
        Source::SpWithOffset(offs) => "SP + ("@ + dec_i8_text(offs) + ")"@,
    }
}

impl Source {
    /// Appends the text.
    pub fn push_text(&self, s: &mut String)
        ensures
            final(s)@ == old(s)@ + source_text(*self),
    {
        let ghost s0 = s@;
        match self {
            Source::RegImm(reg) => {
                s.append(reg.name());
                proof {
                    assert(source_text(*self) == single_reg_text(*reg)) by {
                        reveal(source_text);
                    }
                    assert(s@ =~= s0 + single_reg_text(*reg));
                }
            },
            Source::RegAddr(reg) => {
                s.append("Addr(");
                s.append(reg.name());
                s.append(")");
                proof {
                    assert(source_text(*self) == "Addr("@ + double_reg_text(*reg) + ")"@) by {
                        reveal(source_text);
                    }
                    assert(s@ =~= s0 + "Addr("@ + double_reg_text(*reg) + ")"@);
                }
            },
            Source::Imm8(val) => {
                push_hex8(s, *val);
                proof {
                    assert(source_text(*self) == hex8_text(*val)) by {
                        reveal(source_text);
                    }
                    assert(s@ =~= s0 + hex8_text(*val));
                }
            },
            Source::Imm16(val) => {
                push_hex16(s, *val);
                proof {
                    assert(source_text(*self) == hex16_text(*val)) by {
                        reveal(source_text);
                    }
                    assert(s@ =~= s0 + hex16_text(*val));
                }
            },
            Source::Addr(addr) => {
                s.append("Addr(");
                push_hex16(s, *addr);
                s.append(")");
                proof {
                    assert(source_text(*self) == "Addr("@ + hex16_text(*addr) + ")"@) by {
                        reveal(source_text);
                    }
                    assert(s@ =~= s0 + "Addr("@ + hex16_text(*addr) + ")"@);
                }
            },
            Source::IoPortImm(val) => {
                s.append("IO(");
                push_hex8(s, *val);
                s.append(")");
                proof {
                    assert(source_text(*self) == "IO("@ + hex8_text(*val) + ")"@) by {
                        reveal(source_text);
                    }
                    assert(s@ =~= s0 + "IO("@ + hex8_text(*val) + ")"@);
                }
            },
            Source::IoPortReg(reg) => {
                s.append("IO(");
                s.append(reg.name());
                s.append(")");
                proof {
                    assert(source_text(*self) == "IO("@ + single_reg_text(*reg) + ")"@) by {
                        reveal(source_text);
                    }
                    assert(s@ =~= s0 + "IO("@ + single_reg_text(*reg) + ")"@);
                }
            },
            Source::SpWithOffset(offs) => {
                s.append("SP + (");
                push_dec_i8(s, *offs);
                s.append(")");
                proof {
                    assert(source_text(*self) == "SP + ("@ + dec_i8_text(*offs) + ")"@) by {
                        reveal(source_text);
                    }
                    assert(s@ =~= s0 + "SP + ("@ + dec_i8_text(*offs) + ")"@);
                }
            },
        }
    }

    /// The text.
    pub fn to_text(&self) -> (r: String)
        ensures
            r@ == source_text(*self),
    {
        let mut s = String::new();
        self.push_text(&mut s);
        proof {
            assert(s@ =~= source_text(*self));
        }
        s
    }
}

/// The text of a destination.
#[verifier::opaque]
pub open spec fn dest_text(v: Dest) -> Seq<char> {
    match v {
        Dest::Addr(addr) => hex16_text(addr),
        Dest::RegAddr(reg) => "Addr("@ + double_reg_text(reg) + ")"@,
        Dest::IoPort(val) => "IO("@ + hex8_text(val) + ")"@,
        Dest::IoPortReg(reg) => "IO("@ + single_reg_text(reg) + ")"@,
    }
}

impl Dest {
    /// Appends the text.
    pub fn push_text(&self, s: &mut String)
        ensures
            final(s)@ == old(s)@ + dest_text(*self),
    {
        let ghost s0 = s@;
        match self {
            Dest::Addr(addr) => {
                push_hex16(s, *addr);
                proof {
                    assert(dest_text(*self) == hex16_text(*addr)) by {
                        reveal(dest_text);
                    }
                    assert(s@ =~= s0 + hex16_text(*addr));
                }
            },
            Dest::RegAddr(reg) => {
                s.append("Addr(");
                s.append(reg.name());
                s.append(")");
                proof {
                    assert(dest_text(*self) == "Addr("@ + double_reg_text(*reg) + ")"@) by {
                        reveal(dest_text);
                    }
                    assert(s@ =~= s0 + "Addr("@ + double_reg_text(*reg) + ")"@);
                }
            },
            Dest::IoPort(val) => {
                s.append("IO(");
                push_hex8(s, *val);
                s.append(")");
                proof {
                    assert(dest_text(*self) == "IO("@ + hex8_text(*val) + ")"@) by {
                        reveal(dest_text);
                    }
                    assert(s@ =~= s0 + "IO("@ + hex8_text(*val) + ")"@);
                }
            },
            Dest::IoPortReg(reg) => {
                s.append("IO(");
                s.append(reg.name());
                s.append(")");
                proof {
                    assert(dest_text(*self) == "IO("@ + single_reg_text(*reg) + ")"@) by {
                        reveal(dest_text);
                    }
                    assert(s@ =~= s0 + "IO("@ + single_reg_text(*reg) + ")"@);
                }
            },
        }
    }

    /// The text.
    pub fn to_text(&self) -> (r: String)
        ensures
            r@ == dest_text(*self),
    {
        let mut s = String::new();
        self.push_text(&mut s);
        proof {
            assert(s@ =~= dest_text(*self));
        }
        s
    }
}

/// The text of an ALU operation.
#[verifier::opaque]
pub open spec fn arithmetic_text(v: ArithmeticType) -> Seq<char> {
    match v {
        ArithmeticType::Inc(reg) => generic_reg_text(reg) + "++"@,
        ArithmeticType::IncAddr(reg) => "("@ + double_reg_text(reg) + ")++"@,
        ArithmeticType::Dec(reg) => generic_reg_text(reg) + "--"@,
        ArithmeticType::DecAddr(reg) => "("@ + double_reg_text(reg) + ")--"@,
        ArithmeticType::Add(dest, src) => single_reg_text(dest) + " += "@ + operand_text(src),
        ArithmeticType::Add16(dest, src) => double_reg_text(dest) + " += "@ + double_reg_text(src),
        ArithmeticType::AddSP(v) => "SP += "@ + dec_i8_text(v),
        ArithmeticType::Adc(dest, src) => single_reg_text(dest) + " += "@ + operand_text(src) + " + CY"@,
        ArithmeticType::Sub(dest, src) => single_reg_text(dest) + " -= "@ + operand_text(src),
        ArithmeticType::Sbc(dest, src) => single_reg_text(dest) + " -= "@ + operand_text(src) + " - CY"@,
        ArithmeticType::Cmp(dest, src) => single_reg_text(dest) + " == "@ + operand_text(src),
        ArithmeticType::Sla(reg) => "Sla("@ + generic_reg_text(reg) + ")"@,
        ArithmeticType::Sra(reg) => "Sra("@ + generic_reg_text(reg) + ")"@,
        ArithmeticType::Srl(reg) => "Srl("@ + generic_reg_text(reg) + ")"@,
        ArithmeticType::And(dest, op) => single_reg_text(dest) + " &= "@ + operand_text(op),
        ArithmeticType::Or(dest, op) => single_reg_text(dest) + " |= "@ + operand_text(op),
        ArithmeticType::Xor(dest, src) => single_reg_text(dest) + " = "@ + operand_text(src) + " ^ "@ + single_reg_text(dest),
        ArithmeticType::Cpl(src) => "!"@ + single_reg_text(src),
        ArithmeticType::TestBit(reg, bit) => "TestBit("@ + generic_reg_text(reg) + ", "@ + dec_text(bit as nat) + ")"@,
        ArithmeticType::ResetBit(reg, bit) => "ResetBit("@ + generic_reg_text(reg) + ", "@ + dec_text(bit as nat) + ")"@,
        ArithmeticType::SetBit(reg, bit) => "SetBit("@ + generic_reg_text(reg) + ", "@ + dec_text(bit as nat) + ")"@,
        ArithmeticType::Swap(reg) => "Swap("@ + generic_reg_text(reg) + ")"@,
        ArithmeticType::Da(reg) => "Da("@ + single_reg_text(reg) + ")"@,
        ArithmeticType::Rl(reg, clear_z) => if clear_z {
            "Rl("@ + generic_reg_text(reg) + "), Z=0"@
        } else {
            "Rl("@ + generic_reg_text(reg) + ")"@
        },
        ArithmeticType::Rlc(reg, clear_z) => if clear_z {
            "RlC("@ + generic_reg_text(reg) + "), Z=0"@
        } else {
            "RlC("@ + generic_reg_text(reg) + ")"@
        },
        ArithmeticType::Rr(reg, clear_z) => if clear_z {
            "Rr("@ + generic_reg_text(reg) + "), Z=0"@
        } else {
            "Rr("@ + generic_reg_text(reg) + ")"@
        },
        ArithmeticType::Rrc(reg, clear_z) => if clear_z {
            "RrC("@ + generic_reg_text(reg) + "), Z=0"@
        } else {
            "RrC("@ + generic_reg_text(reg) + ")"@
        },
    }
}

/// Which third of the ALU operations `v` is in, for the text functions.
pub open spec fn arith_group(v: ArithmeticType) -> int {
    match v {
        ArithmeticType::Inc(..) => 0,
        ArithmeticType::IncAddr(..) => 0,
        ArithmeticType::Dec(..) => 0,
        ArithmeticType::DecAddr(..) => 0,
        ArithmeticType::Add(..) => 0,
        ArithmeticType::Add16(..) => 0,
        ArithmeticType::AddSP(..) => 0,
        ArithmeticType::Adc(..) => 0,
        ArithmeticType::Sub(..) => 1,
        ArithmeticType::Sbc(..) => 1,
        ArithmeticType::Cmp(..) => 1,
        ArithmeticType::Sla(..) => 1,
        ArithmeticType::Sra(..) => 1,
        ArithmeticType::Srl(..) => 1,
        ArithmeticType::And(..) => 1,
        ArithmeticType::Or(..) => 1,
        ArithmeticType::Xor(..) => 2,
        ArithmeticType::Cpl(..) => 2,
        ArithmeticType::TestBit(..) => 2,
        ArithmeticType::ResetBit(..) => 2,
        ArithmeticType::SetBit(..) => 2,
        ArithmeticType::Swap(..) => 2,
        ArithmeticType::Da(..) => 3,
        ArithmeticType::Rl(..) => 3,
        ArithmeticType::Rlc(..) => 3,
        ArithmeticType::Rr(..) => 3,
        ArithmeticType::Rrc(..) => 3,
    }
}

impl ArithmeticType {
    fn push_text_0(&self, s: &mut String)
        requires
            arith_group(*self) == 0,
        ensures
            final(s)@ == old(s)@ + arithmetic_text(*self),
    {
        let ghost s0 = s@;
        match self {
            ArithmeticType::Inc(reg) => {
                reg.push_text(s);
                s.append("++");
                proof {
                    assert(arithmetic_text(*self) == generic_reg_text(*reg) + "++"@) by {
                        reveal(arithmetic_text);
                    }
                    assert(s@ =~= s0 + generic_reg_text(*reg) + "++"@);
                }
            },
            ArithmeticType::IncAddr(reg) => {
                s.append("(");
                s.append(reg.name());
                s.append(")++");
                proof {
                    assert(arithmetic_text(*self) == "("@ + double_reg_text(*reg) + ")++"@) by {
                        reveal(arithmetic_text);
                    }
                    assert(s@ =~= s0 + "("@ + double_reg_text(*reg) + ")++"@);
                }
            },
            ArithmeticType::Dec(reg) => {
                reg.push_text(s);
                s.append("--");
                proof {
                    assert(arithmetic_text(*self) == generic_reg_text(*reg) + "--"@) by {
                        reveal(arithmetic_text);
                    }
                    assert(s@ =~= s0 + generic_reg_text(*reg) + "--"@);
                }
            },
            ArithmeticType::DecAddr(reg) => {
                s.append("(");
                s.append(reg.name());
                s.append(")--");
                proof {
                    assert(arithmetic_text(*self) == "("@ + double_reg_text(*reg) + ")--"@) by {
                        reveal(arithmetic_text);
                    }
                    assert(s@ =~= s0 + "("@ + double_reg_text(*reg) + ")--"@);
                }
            },
            ArithmeticType::Add(dest, src) => {
                s.append(dest.name());
                s.append(" += ");
                src.push_text(s);
                proof {
                    assert(arithmetic_text(*self) == single_reg_text(*dest) + " += "@ + operand_text(*src)) by {
                        reveal(arithmetic_text);
                    }
                    assert(s@ =~= s0 + single_reg_text(*dest) + " += "@ + operand_text(*src));
                }
            },
            ArithmeticType::Add16(dest, src) => {
                s.append(dest.name());
                s.append(" += ");
                s.append(src.name());
                proof {
                    assert(arithmetic_text(*self) == double_reg_text(*dest) + " += "@ + double_reg_text(*src)) by {
                        reveal(arithmetic_text);
                    }
                    assert(s@ =~= s0 + double_reg_text(*dest) + " += "@ + double_reg_text(*src));
                }
            },
            ArithmeticType::AddSP(v) => {
                s.append("SP += ");
                push_dec_i8(s, *v);
                proof {
                    assert(arithmetic_text(*self) == "SP += "@ + dec_i8_text(*v)) by {
                        reveal(arithmetic_text);
                    }
                    assert(s@ =~= s0 + "SP += "@ + dec_i8_text(*v));
                }
            },
            ArithmeticType::Adc(dest, src) => {
                s.append(dest.name());
                s.append(" += ");
                src.push_text(s);
                s.append(" + CY");
                proof {
                    assert(arithmetic_text(*self) == single_reg_text(*dest) + " += "@ + operand_text(*src) + " + CY"@) by {
                        reveal(arithmetic_text);
                    }
                    assert(s@ =~= s0 + single_reg_text(*dest) + " += "@ + operand_text(*src) + " + CY"@);
                }
            },
            _ => {},
        }
    }

    fn push_text_1(&self, s: &mut String)
        requires
            arith_group(*self) == 1,
        ensures
            final(s)@ == old(s)@ + arithmetic_text(*self),
    {
        let ghost s0 = s@;
        match self {
            ArithmeticType::Sub(dest, src) => {
                s.append(dest.name());
                s.append(" -= ");
                src.push_text(s);
                proof {
                    assert(arithmetic_text(*self) == single_reg_text(*dest) + " -= "@ + operand_text(*src)) by {
                        reveal(arithmetic_text);
                    }
                    assert(s@ =~= s0 + single_reg_text(*dest) + " -= "@ + operand_text(*src));
                }
            },
            ArithmeticType::Sbc(dest, src) => {
                s.append(dest.name());
                s.append(" -= ");
                src.push_text(s);
                s.append(" - CY");
                proof {
                    assert(arithmetic_text(*self) == single_reg_text(*dest) + " -= "@ + operand_text(*src) + " - CY"@) by {
                        reveal(arithmetic_text);
                    }
                    assert(s@ =~= s0 + single_reg_text(*dest) + " -= "@ + operand_text(*src) + " - CY"@);
                }
            },
            ArithmeticType::Cmp(dest, src) => {
                s.append(dest.name());
                s.append(" == ");
                src.push_text(s);
                proof {
                    assert(arithmetic_text(*self) == single_reg_text(*dest) + " == "@ + operand_text(*src)) by {
                        reveal(arithmetic_text);
                    }
                    assert(s@ =~= s0 + single_reg_text(*dest) + " == "@ + operand_text(*src));
                }
            },
            ArithmeticType::Sla(reg) => {
                s.append("Sla(");
                reg.push_text(s);
                s.append(")");
                proof {
                    assert(arithmetic_text(*self) == "Sla("@ + generic_reg_text(*reg) + ")"@) by {
                        reveal(arithmetic_text);
                    }
                    assert(s@ =~= s0 + "Sla("@ + generic_reg_text(*reg) + ")"@);
                }
            },
            ArithmeticType::Sra(reg) => {
                s.append("Sra(");
                reg.push_text(s);
                s.append(")");
                proof {
                    assert(arithmetic_text(*self) == "Sra("@ + generic_reg_text(*reg) + ")"@) by {
                        reveal(arithmetic_text);
                    }
                    assert(s@ =~= s0 + "Sra("@ + generic_reg_text(*reg) + ")"@);
                }
            },
            ArithmeticType::Srl(reg) => {
                s.append("Srl(");
                reg.push_text(s);
                s.append(")");
                proof {
                    assert(arithmetic_text(*self) == "Srl("@ + generic_reg_text(*reg) + ")"@) by {
                        reveal(arithmetic_text);
                    }
                    assert(s@ =~= s0 + "Srl("@ + generic_reg_text(*reg) + ")"@);
                }
            },
            ArithmeticType::And(dest, op) => {
                s.append(dest.name());
                s.append(" &= ");
                op.push_text(s);
                proof {
                    assert(arithmetic_text(*self) == single_reg_text(*dest) + " &= "@ + operand_text(*op)) by {
                        reveal(arithmetic_text);
                    }
                    assert(s@ =~= s0 + single_reg_text(*dest) + " &= "@ + operand_text(*op));
                }
            },
            ArithmeticType::Or(dest, op) => {
                s.append(dest.name());
                s.append(" |= ");
                op.push_text(s);
                proof {
                    assert(arithmetic_text(*self) == single_reg_text(*dest) + " |= "@ + operand_text(*op)) by {
                        reveal(arithmetic_text);
                    }
                    assert(s@ =~= s0 + single_reg_text(*dest) + " |= "@ + operand_text(*op));
                }
            },
            _ => {},
        }
    }

    fn push_text_2(&self, s: &mut String)
        requires
            arith_group(*self) == 2,
        ensures
            final(s)@ == old(s)@ + arithmetic_text(*self),
    {
        let ghost s0 = s@;
        match self {
            ArithmeticType::Xor(dest, src) => {
                s.append(dest.name());
                s.append(" = ");
                src.push_text(s);
                s.append(" ^ ");
                s.append(dest.name());
                proof {
                    assert(arithmetic_text(*self) == single_reg_text(*dest) + " = "@ + operand_text(*src) + " ^ "@ + single_reg_text(*dest)) by {
                        reveal(arithmetic_text);
                    }
                    assert(s@ =~= s0 + single_reg_text(*dest) + " = "@ + operand_text(*src) + " ^ "@ + single_reg_text(*dest));
                }
            },
            ArithmeticType::Cpl(src) => {
                s.append("!");
                s.append(src.name());
                proof {
                    assert(arithmetic_text(*self) == "!"@ + single_reg_text(*src)) by {
                        reveal(arithmetic_text);
                    }
                    assert(s@ =~= s0 + "!"@ + single_reg_text(*src));
                }
            },
            ArithmeticType::TestBit(reg, bit) => {
                s.append("TestBit(");
                reg.push_text(s);
                s.append(", ");
                push_dec(s, *bit);
                s.append(")");
                proof {
                    assert(arithmetic_text(*self) == "TestBit("@ + generic_reg_text(*reg) + ", "@ + dec_text(*bit as nat) + ")"@) by {
                        reveal(arithmetic_text);
                    }
                    assert(s@ =~= s0 + "TestBit("@ + generic_reg_text(*reg) + ", "@ + dec_text(*bit as nat) + ")"@);
                }
            },
            ArithmeticType::ResetBit(reg, bit) => {
                s.append("ResetBit(");
                reg.push_text(s);
                s.append(", ");
                push_dec(s, *bit);
                s.append(")");
                proof {
                    assert(arithmetic_text(*self) == "ResetBit("@ + generic_reg_text(*reg) + ", "@ + dec_text(*bit as nat) + ")"@) by {
                        reveal(arithmetic_text);
                    }
                    assert(s@ =~= s0 + "ResetBit("@ + generic_reg_text(*reg) + ", "@ + dec_text(*bit as nat) + ")"@);
                }
            },
            ArithmeticType::SetBit(reg, bit) => {
                s.append("SetBit(");
                reg.push_text(s);
                s.append(", ");
                push_dec(s, *bit);
                s.append(")");
                proof {
                    assert(arithmetic_text(*self) == "SetBit("@ + generic_reg_text(*reg) + ", "@ + dec_text(*bit as nat) + ")"@) by {
                        reveal(arithmetic_text);
                    }
                    assert(s@ =~= s0 + "SetBit("@ + generic_reg_text(*reg) + ", "@ + dec_text(*bit as nat) + ")"@);
                }
            },
            ArithmeticType::Swap(reg) => {
                s.append("Swap(");
                reg.push_text(s);
                s.append(")");
                proof {
                    assert(arithmetic_text(*self) == "Swap("@ + generic_reg_text(*reg) + ")"@) by {
                        reveal(arithmetic_text);
                    }
                    assert(s@ =~= s0 + "Swap("@ + generic_reg_text(*reg) + ")"@);
                }
            },
            _ => {},
        }
    }

    fn push_text_3(&self, s: &mut String)
        requires
            arith_group(*self) == 3,
        ensures
            final(s)@ == old(s)@ + arithmetic_text(*self),
    {
        let ghost s0 = s@;
        match self {
            ArithmeticType::Da(reg) => {
                s.append("Da(");
                s.append(reg.name());
                s.append(")");
                proof {
                    assert(arithmetic_text(*self) == "Da("@ + single_reg_text(*reg) + ")"@) by {
                        reveal(arithmetic_text);
                    }
                    assert(s@ =~= s0 + "Da("@ + single_reg_text(*reg) + ")"@);
                }
            },
            ArithmeticType::Rl(reg, clear_z) => {
                s.append("Rl(");
                reg.push_text(s);
                if *clear_z {
                    s.append("), Z=0");
                } else {
                    s.append(")");
                }
                proof {
                    let t = if *clear_z {
                        "Rl("@ + generic_reg_text(*reg) + "), Z=0"@
                    } else {
                        "Rl("@ + generic_reg_text(*reg) + ")"@
                    };
                    assert(arithmetic_text(*self) == t) by {
                        reveal(arithmetic_text);
                    }
                    assert(s@ =~= s0 + t);
                }
            },
            ArithmeticType::Rlc(reg, clear_z) => {
                s.append("RlC(");
                reg.push_text(s);
                if *clear_z {
                    s.append("), Z=0");
                } else {
                    s.append(")");
                }
                proof {
                    let t = if *clear_z {
                        "RlC("@ + generic_reg_text(*reg) + "), Z=0"@
                    } else {
                        "RlC("@ + generic_reg_text(*reg) + ")"@
                    };
                    assert(arithmetic_text(*self) == t) by {
                        reveal(arithmetic_text);
                    }
                    assert(s@ =~= s0 + t);
                }
            },
            ArithmeticType::Rr(reg, clear_z) => {
                s.append("Rr(");
                reg.push_text(s);
                if *clear_z {
                    s.append("), Z=0");
                } else {
                    s.append(")");
                }
                proof {
                    let t = if *clear_z {
                        "Rr("@ + generic_reg_text(*reg) + "), Z=0"@
                    } else {
                        "Rr("@ + generic_reg_text(*reg) + ")"@
                    };
                    assert(arithmetic_text(*self) == t) by {
                        reveal(arithmetic_text);
                    }
                    assert(s@ =~= s0 + t);
                }
            },
            ArithmeticType::Rrc(reg, clear_z) => {
                s.append("RrC(");
                reg.push_text(s);
                if *clear_z {
                    s.append("), Z=0");
                } else {
                    s.append(")");
                }
                proof {
                    let t = if *clear_z {
                        "RrC("@ + generic_reg_text(*reg) + "), Z=0"@
                    } else {
                        "RrC("@ + generic_reg_text(*reg) + ")"@
                    };
                    assert(arithmetic_text(*self) == t) by {
                        reveal(arithmetic_text);
                    }
                    assert(s@ =~= s0 + t);
                }
            },
            _ => {},
        }
    }

    /// Appends the text.
    pub fn push_text(&self, s: &mut String)
        ensures
            final(s)@ == old(s)@ + arithmetic_text(*self),
    {
        match self {
            ArithmeticType::Inc(..) | ArithmeticType::IncAddr(..) | ArithmeticType::Dec(..) | ArithmeticType::DecAddr(..) | ArithmeticType::Add(..) | ArithmeticType::Add16(..) | ArithmeticType::AddSP(..) | ArithmeticType::Adc(..) => self.push_text_0(s),
            ArithmeticType::Sub(..) | ArithmeticType::Sbc(..) | ArithmeticType::Cmp(..) | ArithmeticType::Sla(..) | ArithmeticType::Sra(..) | ArithmeticType::Srl(..) | ArithmeticType::And(..) | ArithmeticType::Or(..) => self.push_text_1(s),
            ArithmeticType::Xor(..) | ArithmeticType::Cpl(..) | ArithmeticType::TestBit(..) | ArithmeticType::ResetBit(..) | ArithmeticType::SetBit(..) | ArithmeticType::Swap(..) => self.push_text_2(s),
            ArithmeticType::Da(..) | ArithmeticType::Rl(..) | ArithmeticType::Rlc(..) | ArithmeticType::Rr(..) | ArithmeticType::Rrc(..) => self.push_text_3(s),
        }
    }

    /// The text.
    pub fn to_text(&self) -> (r: String)
        ensures
            r@ == arithmetic_text(*self),
    {
        let mut s = String::new();
        self.push_text(&mut s);
        proof {
            assert(s@ =~= arithmetic_text(*self));
        }
        s
    }
}

/// The text of an instruction, without its opcode.
#[verifier::opaque]
pub open spec fn instruction_type_text(v: InstructionType) -> Seq<char> {
    match v {
        InstructionType::Nop => "Nop"@,
        InstructionType::Stop => "Stop"@,
        InstructionType::Halt => "Halt"@,
        InstructionType::FlipCarry => "Flip CY"@,
        InstructionType::ClearCarry => "Clear CY"@,
        InstructionType::MasterInterrupt(enable) => "IME "@ + bool_text(enable),
        InstructionType::Arithmetic(ar_type) => arithmetic_text(ar_type),
        InstructionType::Jump(cond, jump_type) => "J "@ + condition_text(cond) + ", "@ + jump_type_text(jump_type),
        InstructionType::Load(reg, source) => "Load "@ + generic_reg_text(reg) + " "@ + source_text(source),
        InstructionType::LoadWithOp(reg, source, post_load) => "Load "@ + generic_reg_text(reg) + " "@ + source_text(source) + " "@ + post_store_text(post_load),
        InstructionType::Store(dest, reg) => "Store "@ + dest_text(dest) + " "@ + source_text(reg),
        InstructionType::LoadSP(src) => "SP = "@ + double_reg_text(src),
        InstructionType::StoreWithOp(dest, reg, op) => "Store "@ + dest_text(dest) + " "@ + source_text(reg) + " "@ + post_store_text(op),
        InstructionType::StoreSP(addr) => "Store SP "@ + hex16_text(addr),
        InstructionType::Push(reg) => "Push "@ + double_reg_text(reg),
        InstructionType::Pop(reg) => "Pop "@ + double_reg_text(reg),
        InstructionType::Call(addr, cond) => "Call "@ + condition_text(cond) + ", "@ + hex16_text(addr),
        InstructionType::Ret(cond) => "Ret "@ + condition_text(cond),
        InstructionType::RetI => "RetI"@,
    }
}

impl InstructionType {
    /// Appends the text.
    pub fn push_text(&self, s: &mut String)
        ensures
            final(s)@ == old(s)@ + instruction_type_text(*self),
    {
        let ghost s0 = s@;
        match self {
            InstructionType::Nop => {
                s.append("Nop");
                proof {
                    assert(instruction_type_text(*self) == "Nop"@) by {
                        reveal(instruction_type_text);
                    }
                    assert(s@ =~= s0 + "Nop"@);
                }
            },
            InstructionType::Stop => {
                s.append("Stop");
                proof {
                    assert(instruction_type_text(*self) == "Stop"@) by {
                        reveal(instruction_type_text);
                    }
                    assert(s@ =~= s0 + "Stop"@);
                }
            },
            InstructionType::Halt => {
                s.append("Halt");
                proof {
                    assert(instruction_type_text(*self) == "Halt"@) by {
                        reveal(instruction_type_text);
                    }
                    assert(s@ =~= s0 + "Halt"@);
                }
            },
            InstructionType::FlipCarry => {
                s.append("Flip CY");
                proof {
                    assert(instruction_type_text(*self) == "Flip CY"@) by {
                        reveal(instruction_type_text);
                    }
                    assert(s@ =~= s0 + "Flip CY"@);
                }
            },
            InstructionType::ClearCarry => {
                s.append("Clear CY");
                proof {
                    assert(instruction_type_text(*self) == "Clear CY"@) by {
                        reveal(instruction_type_text);
                    }
                    assert(s@ =~= s0 + "Clear CY"@);
                }
            },
            InstructionType::MasterInterrupt(enable) => {
                s.append("IME ");
                push_bool(s, *enable);
                proof {
                    assert(instruction_type_text(*self) == "IME "@ + bool_text(*enable)) by {
                        reveal(instruction_type_text);
                    }
                    assert(s@ =~= s0 + "IME "@ + bool_text(*enable));
                }
            },
            InstructionType::Arithmetic(ar_type) => {
                ar_type.push_text(s);
                proof {
                    assert(instruction_type_text(*self) == arithmetic_text(*ar_type)) by {
                        reveal(instruction_type_text);
                    }
                    assert(s@ =~= s0 + arithmetic_text(*ar_type));
                }
            },
            InstructionType::Jump(cond, jump_type) => {
                s.append("J ");
                s.append(cond.name());
                s.append(", ");
                jump_type.push_text(s);
                proof {
                    assert(instruction_type_text(*self) == "J "@ + condition_text(*cond) + ", "@ + jump_type_text(*jump_type)) by {
                        reveal(instruction_type_text);
                    }
                    assert(s@ =~= s0 + "J "@ + condition_text(*cond) + ", "@ + jump_type_text(*jump_type));
                }
            },
            InstructionType::Load(reg, source) => {
                s.append("Load ");
                reg.push_text(s);
                s.append(" ");
                source.push_text(s);
                proof {
                    assert(instruction_type_text(*self) == "Load "@ + generic_reg_text(*reg) + " "@ + source_text(*source)) by {
                        reveal(instruction_type_text);
                    }
                    assert(s@ =~= s0 + "Load "@ + generic_reg_text(*reg) + " "@ + source_text(*source));
                }
            },
            InstructionType::LoadWithOp(reg, source, post_load) => {
                s.append("Load ");
                reg.push_text(s);
                s.append(" ");
                source.push_text(s);
                s.append(" ");
                s.append(post_load.name());
                proof {
                    assert(instruction_type_text(*self) == "Load "@ + generic_reg_text(*reg) + " "@ + source_text(*source) + " "@ + post_store_text(*post_load)) by {
                        reveal(instruction_type_text);
                    }
                    assert(s@ =~= s0 + "Load "@ + generic_reg_text(*reg) + " "@ + source_text(*source) + " "@ + post_store_text(*post_load));
                }
            },
            InstructionType::Store(dest, reg) => {
                s.append("Store ");
                dest.push_text(s);
                s.append(" ");
                reg.push_text(s);
                proof {
                    assert(instruction_type_text(*self) == "Store "@ + dest_text(*dest) + " "@ + source_text(*reg)) by {
                        reveal(instruction_type_text);
                    }
                    assert(s@ =~= s0 + "Store "@ + dest_text(*dest) + " "@ + source_text(*reg));
                }
            },
            InstructionType::LoadSP(src) => {
                s.append("SP = ");
                s.append(src.name());
                proof {
                    assert(instruction_type_text(*self) == "SP = "@ + double_reg_text(*src)) by {
                        reveal(instruction_type_text);
                    }
                    assert(s@ =~= s0 + "SP = "@ + double_reg_text(*src));
                }
            },
            InstructionType::StoreWithOp(dest, reg, op) => {
                s.append("Store ");
                dest.push_text(s);
                s.append(" ");
                reg.push_text(s);
                s.append(" ");
                s.append(op.name());
                proof {
                    assert(instruction_type_text(*self) == "Store "@ + dest_text(*dest) + " "@ + source_text(*reg) + " "@ + post_store_text(*op)) by {
                        reveal(instruction_type_text);
                    }
                    assert(s@ =~= s0 + "Store "@ + dest_text(*dest) + " "@ + source_text(*reg) + " "@ + post_store_text(*op));
                }
            },
            InstructionType::StoreSP(addr) => {
                s.append("Store SP ");
                push_hex16(s, *addr);
                proof {
                    assert(instruction_type_text(*self) == "Store SP "@ + hex16_text(*addr)) by {
                        reveal(instruction_type_text);
                    }
                    assert(s@ =~= s0 + "Store SP "@ + hex16_text(*addr));
                }
            },
            InstructionType::Push(reg) => {
                s.append("Push ");
                s.append(reg.name());
                proof {
                    assert(instruction_type_text(*self) == "Push "@ + double_reg_text(*reg)) by {
                        reveal(instruction_type_text);
                    }
                    assert(s@ =~= s0 + "Push "@ + double_reg_text(*reg));
                }
            },
            InstructionType::Pop(reg) => {
                s.append("Pop ");
                s.append(reg.name());
                proof {
                    assert(instruction_type_text(*self) == "Pop "@ + double_reg_text(*reg)) by {
                        reveal(instruction_type_text);
                    }
                    assert(s@ =~= s0 + "Pop "@ + double_reg_text(*reg));
                }
            },
            InstructionType::Call(addr, cond) => {
                s.append("Call ");
                s.append(cond.name());
                s.append(", ");
                push_hex16(s, *addr);
                proof {
                    assert(instruction_type_text(*self) == "Call "@ + condition_text(*cond) + ", "@ + hex16_text(*addr)) by {
                        reveal(instruction_type_text);
                    }
                    assert(s@ =~= s0 + "Call "@ + condition_text(*cond) + ", "@ + hex16_text(*addr));
                }
            },
            InstructionType::Ret(cond) => {
                s.append("Ret ");
                s.append(cond.name());
                proof {
                    assert(instruction_type_text(*self) == "Ret "@ + condition_text(*cond)) by {
                        reveal(instruction_type_text);
                    }
                    assert(s@ =~= s0 + "Ret "@ + condition_text(*cond));
                }
            },
            InstructionType::RetI => {
                s.append("RetI");
                proof {
                    assert(instruction_type_text(*self) == "RetI"@) by {
                        reveal(instruction_type_text);
                    }
                    assert(s@ =~= s0 + "RetI"@);
                }
            },
        }
    }

    /// The text.
    pub fn to_text(&self) -> (r: String)
        ensures
            r@ == instruction_type_text(*self),
    {
        let mut s = String::new();
        self.push_text(&mut s);
        proof {
            assert(s@ =~= instruction_type_text(*self));
        }
        s
    }
}

/// The text of an instruction: its opcode in parentheses, then what it
/// does.
pub open spec fn instruction_text(i: InstructionView) -> Seq<char> {
    "("@ + hex8_text(opcode_value(i.opcode)) + ") "@ + instruction_type_text(i.instr)
}

impl Instruction {
    /// The text of the instruction, as the disassembler shows it.
    pub fn to_text(&self) -> (r: String)
        ensures
            r@ == instruction_text(self@),
    {
        let mut s = String::new();
        s.append("(");
        push_hex8(&mut s, self.opcode.to_u8());
        s.append(") ");
        self.instr.push_text(&mut s);
        proof {
            assert(s@ =~= instruction_text(self@));
        }
        s
    }
}

} // verus!
