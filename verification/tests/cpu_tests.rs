use gbr::bus::BusAccess;
use gbr::cpu::CPU;
use gbr::instruction::opcode::Opcode;
use gbr::instruction::GenericRegType::Single;
use gbr::instruction::SingleRegType::{A, B, C, D, E, H, L};
use gbr::instruction::Source;
use gbr::memory::Memory;

struct CpuTester {
    cpu: CPU,
    bus: Memory,
}

impl CpuTester {
    fn new() -> Self {
        Self { cpu: CPU::new(), bus: Memory::new() }
    }

    /// Places the instruction at PC and runs one step.
    fn exec(&mut self, opcode: Opcode, data: &[u8]) -> u8 {
        let pc = self.cpu.read_pc();
        self.bus.write_byte(pc, opcode.to_u8()).unwrap();
        for (i, d) in data.iter().enumerate() {
            self.bus.write_byte(pc.wrapping_add(1 + i as u16), *d).unwrap();
        }
        self.cpu.step(&mut self.bus).unwrap()
    }
}

#[test]
fn stop() {
    let mut tester = CpuTester::new();

    let cycles = tester.exec(Opcode::Stop, &[0; 0]);

    assert_eq!(cycles, 1);
    assert_eq!(tester.cpu.low_power_mode(), true);
}

#[test]
fn load_byte_imm() {
    let mut tester = CpuTester::new();

    let cycles = tester.exec(Opcode::LdAd8, &[0xAB]);

    assert_eq!(cycles, 2);
    assert_eq!(tester.cpu.read_single_reg(&A), 0xAB);
}

#[test]
fn load_word_imm() {
    let mut tester = CpuTester::new();

    let cycles = tester.exec(Opcode::LdHLd16, &[0xAB, 0xBA]);

    assert_eq!(cycles, 3);
    assert_eq!(tester.cpu.read_hl(), 0xBAAB);
}

#[test]
fn load_byte_from_addr() {
    let mut tester = CpuTester::new();

    tester.bus.write_byte(0xBBAA, 0x12).unwrap();

    let cycles = tester.exec(Opcode::LdAa16, &[0xAA, 0xBB]);

    assert_eq!(cycles, 4);
    assert_eq!(tester.cpu.read_single_reg(&A), 0x12);
}

#[test]
fn copy_single_reg() {
    let mut tester = CpuTester::new();

    let single_regs = [A, B, C, D, E, H, L];

    for src in &single_regs {
        tester.cpu.write_single_reg(src, 0xA);

        for dst in &single_regs {
            if dst != src {
                tester.cpu.write_single_reg(dst, 0x00);
            }

            tester.cpu.load(&mut tester.bus, &Single(*dst), &Source::RegImm(*src)).unwrap();

            assert_eq!(tester.cpu.read_single_reg(dst), 0xA, "Reg {:?} = {:?}", dst, src);
        }
    }
}

#[test]
fn step_advances_pc_by_instruction_length() {
    let mut tester = CpuTester::new();
    tester.exec(Opcode::LdHLd16, &[0x34, 0x12]);
    assert_eq!(tester.cpu.read_pc(), 3);
    assert_eq!(tester.cpu.read_hl(), 0x1234);
}

#[test]
fn unknown_opcode_is_refused() {
    let mut tester = CpuTester::new();
    tester.bus.write_byte(0, 0xD3).unwrap();
    assert!(tester.cpu.step(&mut tester.bus).is_err());
}

#[test]
fn flags_read_back_what_was_set() {
    let mut cpu = CPU::new();
    cpu.set_flags(true, false, true, false);
    assert!(cpu.get_zero_flag());
    assert!(!cpu.get_bcd_n_flag());
    assert!(cpu.get_bcd_h_flag());
    assert!(!cpu.get_carry_flag());
    assert_eq!(cpu.read_af() & 0x00FF, 0b1010_0000);
}

#[test]
fn register_pairs_read_back_what_was_written() {
    let mut cpu = CPU::new();
    cpu.write_bc(0x1234);
    cpu.write_de(0x5678);
    cpu.write_hl(0x9ABC);
    assert_eq!(cpu.read_single_reg(&B), 0x12);
    assert_eq!(cpu.read_single_reg(&C), 0x34);
    assert_eq!(cpu.read_de(), 0x5678);
    assert_eq!(cpu.read_hl(), 0x9ABC);
}

#[test]
fn cpu_state_text_lists_registers() {
    let mut cpu = CPU::new();
    cpu.write_bc(0x1234);
    let text = cpu.state().to_text();
    assert!(text.contains("1234"), "{}", text);
}
