use gbr::apu::sound_channel::{DutyCycle, OutputLevel};
use gbr::instruction::opcode::{CbOpcode, Opcode};
use gbr::ppu::background_palette::GrayShade;
use gbr::ppu::lcd_status_register::ScreenMode;
use gbr::timer::ClockSelect;
use gbr::commands::{refusal_message, Command};
use gbr::instruction::opcode::jumped;
use gbr::memory_map::{map_address, MappedAddress};

#[test]
fn parse_run_stop_command() {
    let c = "run".parse::<Command>();

    assert!(c.is_ok());
    assert_eq!(c.unwrap(), Command::RunStop);

    let c = "ren".parse::<Command>();

    assert!(c.is_err());
}

#[test]
fn jump_macro() {
    assert_eq!(jumped(true, 4, 3), 4);
    assert_eq!(jumped(false, 4, 3), 3)
}

#[test]
fn wram_mapping() {
    assert_eq!(map_address(0xC000), MappedAddress::WorkRam);
}

#[test]
fn command_words() {
    assert_eq!("r".parse::<Command>().unwrap(), Command::RunStop);
    assert_eq!("step".parse::<Command>().unwrap(), Command::Step);
    assert_eq!("s".parse::<Command>().unwrap(), Command::Step);
    assert_eq!("quit".parse::<Command>().unwrap(), Command::Quit);
    assert_eq!("exit".parse::<Command>().unwrap(), Command::Quit);
    assert_eq!("q".parse::<Command>().unwrap(), Command::Quit);
    assert_eq!(
        "runs".parse::<Command>(),
        Err("Cannot parse command: Error(Error { input: \"runs\", code: Tag })".to_string())
    );
    assert_eq!(
        "say \"hi\"".parse::<Command>(),
        Err("Cannot parse command: Error(Error { input: \"say \\\"hi\\\"\", code: Tag })".to_string())
    );
    assert!("".parse::<Command>().is_err());
}

#[test]
fn opcode_bytes_round_trip() {
    let mut known = 0;
    for b in 0..=255u8 {
        if let Some(op) = Opcode::from_u8(b) {
            known += 1;
            assert_eq!(op.to_u8(), b);
            assert_eq!(Opcode::from_u8(op.to_u8()), Some(op));
        }
        let cb = CbOpcode::from_u8(b).unwrap();
        assert_eq!(cb.to_u8(), b);
    }
    assert_eq!(known, 245);
    assert_eq!(Opcode::from_u8(0xD3), None);
}

#[test]
fn two_bit_codes_round_trip() {
    for v in 0..=255u8 {
        assert_eq!(u8::from(DutyCycle::from(v)), v % 4);
        assert_eq!(u8::from(OutputLevel::from(v)), v % 4);
        assert_eq!(u8::from(GrayShade::from(v)), v % 4);
        assert_eq!(u8::from(ScreenMode::from(v)), v % 4);
        assert_eq!(ClockSelect::from_bits(v).bits(), v % 4);
    }
    assert_eq!(GrayShade::from(3u8), GrayShade::Black);
    assert_eq!(ScreenMode::from(1u8), ScreenMode::VBlank);
}

#[test]
fn refusal_message_wraps_the_debug_input() {
    assert_eq!(refusal_message("\"\""), "Cannot parse command: Error(Error { input: \"\", code: Tag })");
}
