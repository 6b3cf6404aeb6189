use gbr::alu::ALU;
use gbr::bus::BusAccess;
use gbr::cpu::CPU;
use gbr::instruction::ArithmeticType::{
    Adc, Add, Add16, And, Cmp, Cpl, Dec, DecAddr, Inc, IncAddr, Or, ResetBit, Rl, Rlc, Rr, Rrc, Sbc,
    SetBit, Sla, Sra, Srl, Sub, Swap, TestBit, Xor,
};
use gbr::instruction::DoubleRegType::{BC, DE, HL};
use gbr::instruction::GenericRegType::{Double, Single};
use gbr::instruction::SingleRegType::{A, B, C, H};
use gbr::instruction::{ArithmeticType, Operand, SingleRegType};
use gbr::memory::Memory;

struct AluTester {
    cpu: CPU,
    bus: Memory,
}

impl AluTester {
    fn new() -> Self {
        Self { cpu: CPU::new(), bus: Memory::new() }
    }

    fn check_flags(&self, z: bool, n: bool, h: bool, c: bool) {
        assert_eq!(z, self.cpu.get_zero_flag(), "zero flag");
        assert_eq!(n, self.cpu.get_bcd_n_flag(), "bcd n flag");
        assert_eq!(h, self.cpu.get_bcd_h_flag(), "bcd h flag");
        assert_eq!(c, self.cpu.get_carry_flag(), "carry flag");
    }

    fn exec(&mut self, instr: ArithmeticType) {
        ALU::exec(&instr, &mut self.cpu, &mut self.bus).unwrap();
    }

    fn poke(&mut self, addr: u16, value: u8) {
        self.bus.write_byte(addr, value).unwrap();
    }

    fn peek(&self, addr: u16) -> u8 {
        self.bus.read_byte(addr).unwrap()
    }
}

#[test]
fn check_h_carry_sum() {
    let left = 0b00001111_u8;
    let right = 0b00000001_u8;
    assert_eq!(ALU::check_h_carry_sum(left, right, 0), true);

    let left = 0b00000111_u8;
    let right = 0b0000001_u8;
    assert_eq!(ALU::check_h_carry_sum(left, right, 0), false);

    let left = 0b11110000_u8;
    let right = 0b00000001_u8;
    assert_eq!(ALU::check_h_carry_sum(left, right, 0), false);

    let left = 0b11111111_u8;
    let right = 0b00000001_u8;
    assert_eq!(ALU::check_h_carry_sum(left, right, 0), true);

    let left = 0x00;
    let right = 0x0F;
    let carry = 1;
    assert_eq!(ALU::check_h_carry_sum(left, right, carry), true);
}

#[test]
fn check_h_carry_sub() {
    let left = 0b00000000_u8;
    let right = 0b00000001_u8;
    assert_eq!(ALU::check_h_carry_sub(left, right, 0), true);

    let left = 0b00001111_u8;
    let right = 0b00000001_u8;
    assert_eq!(ALU::check_h_carry_sub(left, right, 0), false);

    let left = 0;
    let right = 0;
    let carry = 1;
    assert_eq!(ALU::check_h_carry_sub(left, right, carry), true);
}

#[test]
fn decrement_at_address() {
    const TEST_ADDR: u16 = 0x00FF;

    let mut tester = AluTester::new();
    tester.cpu.write_bc(TEST_ADDR);

    // Standard case
    tester.poke(TEST_ADDR, 10);
    tester.exec(DecAddr(BC));
    assert_eq!(tester.peek(TEST_ADDR), 9);
    tester.check_flags(false, true, false, false);

    // Decrementing zero wraps around
    tester.poke(TEST_ADDR, 0);
    tester.exec(DecAddr(BC));
    assert_eq!(tester.peek(TEST_ADDR), 0xFF);
    tester.check_flags(false, true, true, false);
}

#[test]
fn decrement_single_register() {
    let mut tester = AluTester::new();

    tester.cpu.write_single_reg(&A, 1);
    tester.exec(Dec(Single(A)));
    assert_eq!(tester.cpu.read_single_reg(&A), 0);
    tester.check_flags(true, true, false, false);

    tester.exec(Dec(Single(A)));
    assert_eq!(tester.cpu.read_single_reg(&A), 0xFF);
    tester.check_flags(false, true, true, false);
}

#[test]
fn decrement_double_register() {
    let mut tester = AluTester::new();

    tester.cpu.write_bc(1);
    tester.exec(Dec(Double(BC)));
    assert_eq!(tester.cpu.read_bc(), 0);
    tester.check_flags(false, false, false, false);

    tester.exec(Dec(Double(BC)));
    assert_eq!(tester.cpu.read_bc(), 0xFFFF);
}

#[test]
fn increment_at_address() {
    const TEST_ADDR: u16 = 0x00FF;

    let mut tester = AluTester::new();
    tester.cpu.write_bc(TEST_ADDR);

    // Incrementing sets the half carry flag
    tester.poke(TEST_ADDR, 0x0F);
    tester.exec(IncAddr(BC));
    assert_eq!(tester.peek(TEST_ADDR), 0x10);
    tester.check_flags(false, false, true, false);

    // Incrementing with overflow sets the zero flag
    tester.poke(TEST_ADDR, 0xFF);
    tester.exec(IncAddr(BC));
    assert_eq!(tester.peek(TEST_ADDR), 0x00);
    tester.check_flags(true, false, true, false);
}

#[test]
fn increment_single_register() {
    let mut tester = AluTester::new();

    tester.cpu.write_single_reg(&A, 0x0F);
    tester.exec(Inc(Single(A)));
    assert_eq!(tester.cpu.read_single_reg(&A), 0x10);
    tester.check_flags(false, false, true, false);

    tester.cpu.write_single_reg(&A, 0xFF);
    tester.exec(Inc(Single(A)));
    assert_eq!(tester.cpu.read_single_reg(&SingleRegType::A), 0x00);
    tester.check_flags(true, false, true, false);
}

#[test]
fn increment_double_register() {
    let mut tester = AluTester::new();

    tester.cpu.write_bc(0xFFFF);
    tester.exec(Inc(Double(BC)));
    assert_eq!(tester.cpu.read_bc(), 0);
    tester.check_flags(false, false, false, false);
}

#[test]
fn addition() {
    let mut tester = AluTester::new();

    tester.cpu.write_single_reg(&A, 0x01);
    tester.exec(Add(A, Operand::Imm(0x0F)));
    assert_eq!(tester.cpu.read_single_reg(&A), 0x10);
    tester.check_flags(false, false, true, false);

    tester.cpu.write_single_reg(&B, 0xFF);
    tester.exec(Add(A, Operand::Reg(B)));
    assert_eq!(tester.cpu.read_single_reg(&A), 0x10_u8.wrapping_add(0xFF_u8));
    tester.check_flags(false, false, false, true);

    tester.cpu.write_single_reg(&C, 0xFF);
    tester.cpu.write_double_reg(&HL, 0x0FA);
    tester.poke(0x0FA, 0x01);
    tester.exec(Add(C, Operand::RegAddr(HL)));
    assert_eq!(tester.cpu.read_single_reg(&C), 0x0);
    tester.check_flags(true, false, true, true);
}

#[test]
fn addition_with_carry() {
    let mut tester = AluTester::new();

    tester.cpu.write_single_reg(&A, 0x00);
    tester.cpu.write_single_reg(&B, 0x0F);
    tester.cpu.set_carry_flag(true);
    tester.exec(Adc(A, Operand::Reg(B)));
    assert_eq!(tester.cpu.read_single_reg(&A), 0x10);
    tester.check_flags(false, false, true, false);
}

#[test]
fn addition16() {
    let mut tester = AluTester::new();

    // The half carry flag is set for 16 bit addition
    tester.cpu.write_bc(0x0FFF);
    tester.cpu.write_hl(0x0001);
    tester.exec(Add16(BC, HL));
    assert_eq!(tester.cpu.read_bc(), 0x1000);
    tester.check_flags(false, false, true, false);

    // Adding one to 0xFFFF overflows and sets the carry flag
    tester.cpu.write_bc(0xFFFF);
    tester.exec(Add16(BC, HL));
    assert_eq!(tester.cpu.read_bc(), 0x0);
    tester.check_flags(false, false, true, true);
}

#[test]
fn subtraction() {
    let mut tester = AluTester::new();

    // left < right wraps around and sets half carry and carry
    tester.cpu.write_single_reg(&A, 0x01);
    tester.exec(Sub(A, Operand::Imm(0x0F)));
    assert_eq!(tester.cpu.read_single_reg(&A), 0x01_u8.wrapping_sub(0x0F));
    tester.check_flags(false, true, true, true);

    // left == right sets the zero flag
    tester.cpu.write_single_reg(&A, 0x0F);
    tester.cpu.write_single_reg(&B, 0x0F);
    tester.exec(Sub(A, Operand::Reg(B)));
    assert_eq!(tester.cpu.read_single_reg(&A), 0);
    tester.check_flags(true, true, false, false);

    tester.cpu.write_single_reg(&C, 0xFF);
    tester.cpu.write_double_reg(&HL, 0x0FA);
    tester.poke(0x0FA, 0x01);
    tester.exec(Sub(C, Operand::RegAddr(HL)));
    assert_eq!(tester.cpu.read_single_reg(&C), 0xFE);
    tester.check_flags(false, true, false, false);
}

#[test]
fn subtraction_with_carry() {
    let mut tester = AluTester::new();

    tester.cpu.write_single_reg(&A, 0x00);
    tester.cpu.write_single_reg(&B, 0x00);
    tester.cpu.set_carry_flag(true);
    tester.exec(Sbc(A, Operand::Reg(B)));
    assert_eq!(tester.cpu.read_single_reg(&A), 0xFF);
    tester.check_flags(false, true, true, true);
}

#[test]
fn bitwise_and() {
    let mut tester = AluTester::new();

    tester.cpu.write_single_reg(&A, 0xF0);
    tester.exec(And(A, Operand::Imm(0x0F)));
    assert_eq!(tester.cpu.read_single_reg(&A), 0);
    tester.check_flags(true, false, true, false);

    tester.cpu.write_single_reg(&A, 0x0A);
    tester.cpu.write_single_reg(&H, 0x08);
    tester.exec(And(A, Operand::Reg(H)));
    assert_eq!(tester.cpu.read_single_reg(&A), 0x0A & 0x08);
    tester.check_flags(false, false, true, false);

    tester.cpu.write_single_reg(&A, 0x0A);
    tester.cpu.write_double_reg(&DE, 0xFF00);
    tester.poke(0xFF00, 0x01);
    tester.exec(And(A, Operand::RegAddr(DE)));
    assert_eq!(tester.cpu.read_single_reg(&A), 0x0A & 0x01);
    tester.check_flags(true, false, true, false);
}

#[test]
fn bitwise_or() {
    let mut tester = AluTester::new();

    tester.cpu.write_single_reg(&A, 0xF0);
    tester.exec(Or(A, Operand::Imm(0x0F)));
    assert_eq!(tester.cpu.read_single_reg(&A), 0xFF);
    tester.check_flags(false, false, false, false);

    tester.cpu.write_single_reg(&A, 0x00);
    tester.cpu.write_single_reg(&H, 0x00);
    tester.exec(Or(A, Operand::Reg(H)));
    assert_eq!(tester.cpu.read_single_reg(&A), 0);
    tester.check_flags(true, false, false, false);

    tester.cpu.write_single_reg(&A, 0x0A);
    tester.poke(tester.cpu.read_de(), 0x01);
    tester.exec(Or(A, Operand::RegAddr(DE)));
    assert_eq!(tester.cpu.read_single_reg(&A), 0x0B);
    tester.check_flags(false, false, false, false);
}

#[test]
fn bitwise_xor() {
    let mut tester = AluTester::new();

    tester.cpu.write_single_reg(&A, 0xF0);
    tester.exec(Xor(A, Operand::Imm(0x0F)));
    assert_eq!(tester.cpu.read_single_reg(&A), 0xFF);
    tester.check_flags(false, false, false, false);

    tester.cpu.write_single_reg(&A, 0x01);
    tester.cpu.write_single_reg(&H, 0x01);
    tester.exec(Xor(A, Operand::Reg(H)));
    assert_eq!(tester.cpu.read_single_reg(&A), 0);
    tester.check_flags(true, false, false, false);

    tester.cpu.write_single_reg(&A, 0x0A);
    tester.poke(tester.cpu.read_de(), 0x01);
    tester.exec(Xor(A, Operand::RegAddr(DE)));
    assert_eq!(tester.cpu.read_single_reg(&A), 0x0B);
    tester.check_flags(false, false, false, false);
}

#[test]
fn bitwise_swap() {
    let mut tester = AluTester::new();

    tester.cpu.write_single_reg(&H, 0xF1);
    tester.exec(Swap(Single(H)));
    assert_eq!(tester.cpu.read_single_reg(&H), 0x1F);
    tester.check_flags(false, false, false, false);

    tester.cpu.write_de(0x0A0A);
    tester.poke(0x0A0A, 0xAB);
    tester.exec(Swap(Double(DE)));
    assert_eq!(tester.peek(0x0A0A), 0xBA);
    tester.check_flags(false, false, false, false);
}

#[test]
fn complement() {
    let mut tester = AluTester::new();

    tester.cpu.write_single_reg(&B, 0x00);
    tester.exec(Cpl(B));
    assert_eq!(tester.cpu.read_single_reg(&B), 0xFF);
    tester.check_flags(false, true, true, false);
}

#[test]
fn rotate_left_carry() {
    let mut tester = AluTester::new();

    tester.cpu.write_single_reg(&B, 0b01111111);
    tester.exec(Rlc(Single(B), true));
    assert_eq!(tester.cpu.read_single_reg(&B), 0b11111110);
    tester.check_flags(false, false, false, false);

    tester.cpu.write_single_reg(&B, 0b10000000);
    tester.exec(Rlc(Single(B), true));
    assert_eq!(tester.cpu.read_single_reg(&B), 1);
    tester.check_flags(false, false, false, true);

    tester.cpu.write_hl(0x00AA);
    tester.poke(0x00AA, 0);
    tester.exec(Rlc(Double(HL), false));
    assert_eq!(tester.peek(0x00AA), 0);
    tester.check_flags(true, false, false, false);
}

#[test]
fn rotate_left() {
    let mut tester = AluTester::new();

    tester.cpu.write_single_reg(&B, 0b01111111);
    tester.exec(Rl(Single(B), true));
    assert_eq!(tester.cpu.read_single_reg(&B), 0b11111110);
    tester.check_flags(false, false, false, false);

    tester.cpu.write_single_reg(&B, 0b10000000);
    tester.exec(Rl(Single(B), true));
    assert_eq!(tester.cpu.read_single_reg(&B), 0);
    tester.check_flags(false, false, false, true);

    tester.cpu.write_hl(0x00AA);
    tester.poke(0x00AA, 0);
    tester.exec(Rl(Double(HL), false));
    assert_eq!(tester.peek(0x00AA), 1);
    tester.check_flags(false, false, false, false);
}

#[test]
fn rotate_right_carry() {
    let mut tester = AluTester::new();

    tester.cpu.write_single_reg(&B, 0b00000010);
    tester.exec(Rrc(Single(B), true));
    assert_eq!(tester.cpu.read_single_reg(&B), 0b00000001);
    tester.check_flags(false, false, false, false);

    tester.exec(Rrc(Single(B), true));
    assert_eq!(tester.cpu.read_single_reg(&B), 0b10000000);
    tester.check_flags(false, false, false, true);

    tester.cpu.write_hl(0x00AA);
    tester.poke(0x00AA, 0);
    tester.exec(Rrc(Double(HL), false));
    assert_eq!(tester.peek(0x00AA), 0);
    tester.check_flags(true, false, false, false);
}

#[test]
fn rotate_right() {
    let mut tester = AluTester::new();

    tester.cpu.write_single_reg(&B, 0b00000010);
    tester.exec(Rr(Single(B), true));
    assert_eq!(tester.cpu.read_single_reg(&B), 0b00000001);
    tester.check_flags(false, false, false, false);

    tester.exec(Rr(Single(B), true));
    assert_eq!(tester.cpu.read_single_reg(&B), 0b00000000);
    tester.check_flags(false, false, false, true);

    tester.cpu.write_hl(0x00AA);
    tester.poke(0x00AA, 0);
    tester.exec(Rr(Double(HL), false));
    assert_eq!(tester.peek(0x00AA), 0b10000000);
    tester.check_flags(false, false, false, false);
}

#[test]
fn shift_left() {
    let mut tester = AluTester::new();

    tester.cpu.write_single_reg(&B, 0b01000000);
    tester.exec(Sla(Single(B)));
    assert_eq!(tester.cpu.read_single_reg(&B), 0b10000000);
    tester.check_flags(false, false, false, false);

    tester.exec(Sla(Single(B)));
    assert_eq!(tester.cpu.read_single_reg(&B), 0b00000000);
    tester.check_flags(true, false, false, true);

    tester.cpu.write_hl(0x00AA);
    tester.poke(0x00AA, 0);
    tester.exec(Sla(Double(HL)));
    assert_eq!(tester.peek(0x00AA), 0);
    tester.check_flags(true, false, false, false);
}

#[test]
fn shift_right() {
    let mut tester = AluTester::new();

    tester.cpu.write_single_reg(&B, 0b00000010);
    tester.exec(Srl(Single(B)));
    assert_eq!(tester.cpu.read_single_reg(&B), 0b00000001);
    tester.check_flags(false, false, false, false);

    tester.exec(Srl(Single(B)));
    assert_eq!(tester.cpu.read_single_reg(&B), 0b00000000);
    tester.check_flags(true, false, false, true);

    tester.cpu.write_hl(0x00AA);
    tester.poke(0x00AA, 0);
    tester.exec(Srl(Double(HL)));
    assert_eq!(tester.peek(0x00AA), 0);
    tester.check_flags(true, false, false, false);
}

#[test]
fn shift_right_arith() {
    let mut tester = AluTester::new();

    tester.cpu.write_single_reg(&B, 0b10000010);
    tester.exec(Sra(Single(B)));
    assert_eq!(tester.cpu.read_single_reg(&B), 0b11000001);
    tester.check_flags(false, false, false, false);

    tester.exec(Sra(Single(B)));
    assert_eq!(tester.cpu.read_single_reg(&B), 0b11100000);
    tester.check_flags(false, false, false, true);

    tester.cpu.write_hl(0x00AA);
    tester.poke(0x00AA, 0);
    tester.exec(Srl(Double(HL)));
    assert_eq!(tester.peek(0x00AA), 0);
    tester.check_flags(true, false, false, false);
}

#[test]
fn test_bit() {
    let mut tester = AluTester::new();

    tester.cpu.write_single_reg(&B, 0b01010101);
    for i in 0..8u8 {
        tester.exec(TestBit(Single(B), i));
        tester.check_flags((tester.cpu.read_single_reg(&B) >> i) & 0b1 == 0, false, true, false);
    }
}

#[test]
fn set_bit() {
    let mut tester = AluTester::new();

    for i in 0..8u8 {
        tester.exec(SetBit(Single(B), i));
        assert_eq!((tester.cpu.read_single_reg(&B) >> i) & 0b1, 0b1);
    }
    assert_eq!(tester.cpu.read_single_reg(&B), 0xFF);
}

#[test]
fn reset_bit() {
    let mut tester = AluTester::new();

    tester.cpu.write_single_reg(&B, 0xFF);
    for i in 0..8u8 {
        tester.exec(ResetBit(Single(B), i));
        assert_eq!((tester.cpu.read_single_reg(&B) >> i) & 0b1, 0b0);
    }
    assert_eq!(tester.cpu.read_single_reg(&B), 0x00);
}

#[test]
fn compare() {
    let mut tester = AluTester::new();

    tester.cpu.write_single_reg(&A, 0xF);
    tester.exec(Cmp(A, Operand::Imm(0xF)));
    tester.check_flags(true, true, false, false);
    assert_eq!(tester.cpu.read_single_reg(&A), 0xF);
}
