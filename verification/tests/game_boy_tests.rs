use gbr::game_boy::{
    EmuControl, EmuState, GameBoy, GbrEvent, GenericInput, InputType, LoopAction, TickAction,
};
use gbr::instruction::SingleRegType::A;
use gbr::joypad::Buttons;
use gbr::bus::BusAccess;
use gbr::mbc::MBC;

fn game_boy(program: &[u8]) -> GameBoy {
    let mut boot = vec![0u8; 256];
    boot[..program.len()].copy_from_slice(program);
    let rom = vec![0u8; 0x8000];
    GameBoy::new(boot, MBC::new(&rom).unwrap())
}

/// LD A,0x91; LDH (0x40),A (display on); JR -2 (loop forever).
const DISPLAY_ON_LOOP: [u8; 6] = [0x3E, 0x91, 0xE0, 0x40, 0x18, 0xFE];

#[test]
fn steps_run_the_boot_rom() {
    let mut gb = game_boy(&DISPLAY_ON_LOOP);
    assert_eq!(gb.step().unwrap(), false);
    assert_eq!(gb.cpu().read_single_reg(&A), 0x91);
    assert_eq!(gb.cpu().read_pc(), 2);
    gb.step().unwrap();
    assert_eq!(gb.cpu().read_pc(), 4);
    gb.step().unwrap();
    assert_eq!(gb.cpu().read_pc(), 4);
    assert_eq!(gb.collect_state().cpu.pc, 4);
}

#[test]
fn running_to_vblank_completes_a_frame() {
    let mut gb = game_boy(&DISPLAY_ON_LOOP);
    gb.run_to_vblank().unwrap();
    assert_eq!(gb.ppu().frame().len(), 160 * 144 * 4);
    assert_eq!(gb.collect_state().ppu.ly, 0);
}

#[test]
fn control_follows_events() {
    let mut gb = game_boy(&DISPLAY_ON_LOOP);
    let mut control = EmuControl::new();
    assert_eq!(control.tick(), TickAction::Idle);

    assert!(matches!(control.handle_event(&mut gb, GbrEvent::Start), LoopAction::Signal(EmuState::Running)));
    assert_eq!(control.tick(), TickAction::RunToVblank);

    assert!(matches!(control.handle_event(&mut gb, GbrEvent::Pause), LoopAction::Signal(EmuState::Idle)));
    assert_eq!(control.tick(), TickAction::Idle);

    assert!(matches!(control.handle_event(&mut gb, GbrEvent::Step), LoopAction::Nothing));
    assert_eq!(control.tick(), TickAction::Step);

    gb.step().unwrap();
    assert_ne!(gb.cpu().read_pc(), 0);
    assert!(matches!(control.handle_event(&mut gb, GbrEvent::Stop), LoopAction::Signal(EmuState::Idle)));
    assert_eq!(gb.cpu().read_pc(), 0);

    control.handle_event(&mut gb, GbrEvent::Start);
    assert_eq!(control.on_break(), EmuState::Idle);
    assert!(!control.running);
}

#[test]
fn input_reaches_the_joypad() {
    // LD A,0x10; LDH (0x00),A (select the buttons); LDH A,(0x00)
    let mut gb = game_boy(&[0x3E, 0x10, 0xE0, 0x00, 0xF0, 0x00]);
    let mut control = EmuControl::new();
    let a = GenericInput::Button(Buttons::a());
    control.handle_event(&mut gb, GbrEvent::Input(InputType::Pressed(a)));
    gb.step().unwrap();
    gb.step().unwrap();
    gb.step().unwrap();
    assert_eq!(gb.cpu().read_single_reg(&A), 0x1E);
}

/// Enables every interrupt, requests two, writes work RAM and high RAM,
/// turns the display on, then loops.
const BUSY_PROGRAM: [u8; 22] = [
    0x3E, 0x1F, 0xE0, 0xFF, // IE = 0x1F
    0x3E, 0x05, 0xE0, 0x0F, // IF = 0x05
    0x3E, 0x42, 0xEA, 0x00, 0xC0, // (0xC000) = 0x42
    0xE0, 0x80, // (0xFF80) = 0x42
    0x3E, 0x91, 0xE0, 0x40, // LCDC = 0x91
    0x18, 0xFE, // loop
    0x00,
];

const WATCHED: [u16; 4] = [0xFFFF, 0xFF0F, 0xC000, 0xFF80];

fn watched_bytes(gb: &GameBoy) -> Vec<u8> {
    WATCHED.iter().map(|a| gb.bus().read_byte(*a).unwrap()).collect()
}

#[test]
fn stop_puts_the_machine_back_to_power_on() {
    let fresh = game_boy(&BUSY_PROGRAM);
    let mut gb = game_boy(&BUSY_PROGRAM);
    for _ in 0..40 {
        gb.step().unwrap();
    }
    assert_ne!(watched_bytes(&gb), watched_bytes(&fresh));
    assert_eq!(gb.bus().read_byte(0xC000).unwrap(), 0x42);
    assert_eq!(gb.bus().read_byte(0xFF80).unwrap(), 0x42);

    let mut control = EmuControl::new();
    assert!(matches!(control.handle_event(&mut gb, GbrEvent::Stop), LoopAction::Signal(EmuState::Idle)));

    assert_eq!(watched_bytes(&gb), watched_bytes(&fresh));
    assert_eq!(gb.bus().read_byte(0xC000).unwrap(), 0);
    assert_eq!(gb.bus().read_byte(0x0000).unwrap(), 0x3E);
    let (s, f) = (gb.collect_state(), fresh.collect_state());
    assert_eq!(s.ir_handler, f.ir_handler);
    assert_eq!((s.cpu.af, s.cpu.bc, s.cpu.de, s.cpu.hl, s.cpu.pc, s.cpu.sp), (0, 0, 0, 0, 0, 0));
    assert_eq!(s.ppu.ly, 0);
    assert!(!s.ppu.lcd_control.display_enable);

    // The machine runs the boot ROM again from the start.
    gb.step().unwrap();
    assert_eq!(gb.cpu().read_pc(), 2);
}
