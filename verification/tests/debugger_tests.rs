use gbr::bus::BusAccess;
use gbr::debugger::{Debugger, ASM_LINES};
use gbr::game_boy::{DebugEvent, GameBoy};
use gbr::instruction::InstructionType;
use gbr::mbc::MBC;
use gbr::memory::Memory;

fn game_boy() -> GameBoy {
    let mut rom = vec![0u8; 0x8000];
    rom[0x147] = 0;
    GameBoy::new(vec![0u8; 256], MBC::new(&rom).unwrap())
}

#[test]
fn listing_follows_instruction_lengths() {
    let mut mem = Memory::new();
    mem.write_byte(0, 0x21).unwrap(); // LD HL, d16
    mem.write_byte(1, 0x34).unwrap();
    mem.write_byte(2, 0x12).unwrap();
    mem.write_byte(3, 0xD3).unwrap(); // no instruction
    mem.write_byte(4, 0xC5).unwrap(); // PUSH BC
    let listing = Debugger::disassemble(&mem, 0);
    assert_eq!(listing.len(), ASM_LINES);
    assert_eq!(listing[0].0, 0);
    assert!(listing[0].1.is_some());
    assert_eq!(listing[1].0, 3);
    assert!(listing[1].1.is_none());
    assert_eq!(listing[2].0, 4);
    assert_eq!(listing[2].1.unwrap().to_text(), "(0xC5) Push BC");
    assert_eq!(listing[3].0, 5);
    assert_eq!(listing[3].1.unwrap().to_text(), "(0x00) Nop");
    assert!(matches!(listing[3].1.unwrap().instr_type(), InstructionType::Nop));
    assert_eq!(listing[19].0, 21);
}

#[test]
fn listing_wraps_at_the_end_of_memory() {
    let mem = Memory::new();
    let listing = Debugger::disassemble(&mem, 0xFFFE);
    assert_eq!(listing[0].0, 0xFFFE);
    assert_eq!(listing[1].0, 0xFFFF);
    assert_eq!(listing[2].0, 0x0000);
}

#[test]
fn breakpoints_are_set_and_cleared() {
    let gb = game_boy();
    let mut dbg = Debugger::new();
    assert!(!dbg.should_break(&gb));
    assert!(dbg.handle_event(&gb, &DebugEvent::SetBreakpoint(0)).is_none());
    assert!(dbg.should_break(&gb));
    dbg.handle_event(&gb, &DebugEvent::SetBreakpoint(0x100));
    dbg.handle_event(&gb, &DebugEvent::ClearBreakpoint(0));
    assert!(!dbg.should_break(&gb));
}

#[test]
fn vram_dump_is_handed_back() {
    let gb = game_boy();
    let mut dbg = Debugger::new();
    let dump = dbg.handle_event(&gb, &DebugEvent::DumpVram).unwrap();
    assert_eq!(dump.lines().count(), 256);
    assert!(dump.starts_with("0x8000: "), "{}", &dump[..40]);
}
