use gbr::apu::APU;
use gbr::cart_header::CartHeader;
use gbr::cpu::CPU;
use gbr::dma::DMA;
use gbr::instruction::opcode::Opcode;
use gbr::bus::{Bus, BusAccess};
use gbr::interrupts::{InterruptHandler, InterruptType};
use gbr::joypad::{Buttons, Joypad};
use gbr::mbc::MBC;
use gbr::memory::Memory;
use gbr::oam::ObjAttributeMemory;
use gbr::ppu::background_palette::{BackgroundPalette, GrayShade};
use gbr::ppu::lcd_control_register::LcdControlRegister;
use gbr::ppu::tile::Tile;
use gbr::ppu::PPU;
use gbr::serial::Serial;
use gbr::timer::{ClockSelect, Timer};
use gbr::GbError;

fn rom_image(cart_type: u8, ram_code: u8) -> Vec<u8> {
    let mut rom = vec![0u8; 0x8000];
    for (i, b) in b"TESTROM".iter().enumerate() {
        rom[0x134 + i] = *b;
    }
    rom[0x147] = cart_type;
    rom[0x148] = 0;
    rom[0x149] = ram_code;
    rom[0x10] = 0x34;
    rom[0x11] = 0x12;
    rom
}

fn illegal_text(e: GbError) -> String {
    match e {
        GbError::IllegalOp(m) => m,
        other => panic!("unexpected error {:?}", other),
    }
}

#[test]
fn mbc_reads_rom_and_words_little_endian() {
    let mbc = MBC::new(&rom_image(0x00, 0x00)).unwrap();
    assert_eq!(mbc.read_byte(0x0010).unwrap(), 0x34);
    assert_eq!(mbc.read_byte(0x0134).unwrap(), b'T');
    assert_eq!(mbc.read_word(0x0010).unwrap(), 0x1234);
    assert_eq!(mbc.state().rom_banks_count, 2);
    assert_eq!(mbc.state().active_rom_bank, 1);
}

fn header_text(r: Result<MBC, GbError>) -> String {
    match r {
        Err(GbError::HeaderParsing(m)) => m,
        Err(other) => panic!("unexpected error {:?}", other),
        Ok(_) => panic!("the image was accepted"),
    }
}

#[test]
fn mbc_refuses_bad_headers() {
    let mut rom = rom_image(0x00, 0x00);
    rom.push(0);
    assert_eq!(header_text(MBC::new(&rom)), "invalid rom size");
    assert_eq!(header_text(MBC::new(&rom_image(0x04, 0x00))), "Invalid cart type 0x04");
    assert_eq!(header_text(MBC::new(&rom_image(0x00, 0x01))), "Invalid ram size 0x01");
    assert_eq!(header_text(MBC::new(&[0u8; 16])), "wrong size");
    assert!(MBC::accepts(&rom_image(0x00, 0x00)));
    assert!(!MBC::accepts(&[0u8; 0x100]));
    assert!(!MBC::accepts(&vec![0u8; 0x4000]));
}

#[test]
fn mbc_ram_reads_back_when_enabled() {
    let mut mbc = MBC::new(&rom_image(0x03, 0x02)).unwrap();
    mbc.write_byte(0x0000, 0x0A).unwrap();
    mbc.write_byte(0xA010, 0x5A).unwrap();
    assert_eq!(mbc.read_byte(0xA010).unwrap(), 0x5A);
}

#[test]
fn mbc_bank_register_selects_rom_bank() {
    let mut mbc = MBC::default();
    mbc.write_byte(0x2000, 0x05).unwrap();
    assert_eq!(mbc.state().active_rom_bank, 0x05);
    mbc.write_byte(0x3FFF, 0x00).unwrap();
    assert_eq!(mbc.state().active_rom_bank, 0x01);
    mbc.write_byte(0x2000, 0xE3).unwrap();
    assert_eq!(mbc.state().active_rom_bank, 0x03);
    mbc.write_byte(0x4000, 0x60).unwrap();
    assert_eq!(mbc.state().active_rom_bank, 0x63);
}

#[test]
fn mbc_reads_the_selected_bank() {
    // four banks, each filled with its own number
    let mut rom = vec![0u8; 0x10000];
    for bank in 0..4usize {
        for b in &mut rom[bank * 0x4000..(bank + 1) * 0x4000] {
            *b = bank as u8;
        }
    }
    rom[0x147] = 0x01;
    rom[0x148] = 0x01;
    rom[0x149] = 0x00;
    let mut mbc = MBC::new(&rom).unwrap();
    assert_eq!(mbc.read_byte(0x4000).unwrap(), 1);
    assert_eq!(mbc.read_byte(0x7FFF).unwrap(), 1);
    mbc.write_byte(0x2000, 3).unwrap();
    assert_eq!(mbc.read_byte(0x4000).unwrap(), 3);
    assert_eq!(mbc.read_word(0x5000).unwrap(), 0x0303);
    mbc.write_byte(0x2000, 2).unwrap();
    assert_eq!(mbc.read_byte(0x6000).unwrap(), 2);
    assert_eq!(mbc.read_byte(0x0000).unwrap(), 0);
}

#[test]
fn dma_register_reads_back_the_page() {
    let mut dma = DMA::new();
    for v in [0x00u8, 0x80, 0xC0, 0xFE] {
        dma.write_reg(v);
        assert_eq!(dma.read_reg(), v);
    }
}

#[test]
fn dma_copies_a_page_into_the_sprite_table() {
    let mut rom = rom_image(0x00, 0x00);
    // page 0x12: sprite 0 at y = 56, x = 28
    rom[0x1200] = 56;
    rom[0x1201] = 28;
    let mut bus = Bus::new(vec![0u8; 256], MBC::new(&rom).unwrap());
    bus.write_byte(0xFF46, 0x12).unwrap();
    assert_eq!(bus.read_byte(0xFF46).unwrap(), 0x12);
    for _ in 0..40 {
        bus.step(4).unwrap();
    }
    let objs = bus.oam().get_objs_at_line(40);
    assert_eq!(objs.len(), 1);
    assert_eq!(objs[0].left(), 20);
}

#[test]
fn serial_lines_are_kept_until_taken() {
    let mut s = Serial::new();
    let mut ir = InterruptHandler::new();
    for b in b"OK\n" {
        s.write(0xFF01, *b).unwrap();
        s.write(0xFF02, 0x81).unwrap();
        s.step(4, &mut ir);
    }
    assert!(s.pending_line().is_empty());
    assert_eq!(ir.read_if() & 0x08, 0x08);
    let lines = s.take_finished_lines();
    assert_eq!(lines, vec![b"OK\n".to_vec()]);
    assert!(s.take_finished_lines().is_empty());
}

#[test]
fn tile_from_data_leaves_out_an_odd_byte() {
    let mut data = vec![0xFFu8; 16];
    data.push(0x12);
    let tile = Tile::from_data(&data);
    assert_eq!(tile.pixels[7], [3u8; 8]);
    let tile = Tile::from_data(&[0x00, 0xFF]);
    assert_eq!(tile.pixels[0], [2u8; 8]);
    assert_eq!(tile.pixels[1], [0u8; 8]);
}

#[test]
fn background_row_wraps_past_line_255() {
    let mut ppu = PPU::new();
    let mut ir = InterruptHandler::new();
    let oam = ObjAttributeMemory::new();
    ppu.write_reg(0xFF40, 0x00).unwrap();
    // tile 1 is all colour 3; map row 0 shows it, map row 31 shows tile 2
    for a in 0x8010..0x8020u16 {
        ppu.write_byte(a, 0xFF).unwrap();
    }
    ppu.write_byte(0x9800, 1).unwrap();
    ppu.write_byte(0x9BE0, 2).unwrap();
    ppu.write_reg(0xFF42, 200).unwrap();
    ppu.write_reg(0xFF47, 0xE4).unwrap();
    ppu.write_reg(0xFF40, 0x91).unwrap();
    let mut frames = 0;
    while frames < 2 {
        if ppu.step(&mut ir, &oam, 4).unwrap() {
            frames += 1;
        }
    }
    // line 56 with SCY 200 is background row 0: the first pixel is black
    let i = (56 * 160) * 4;
    assert_eq!(&ppu.frame()[i..i + 4], &[0u8, 0, 0, 255]);
    // line 55 is background row 255 (map row 31, tile 2): white
    let j = (55 * 160) * 4;
    assert_eq!(&ppu.frame()[j..j + 4], &[255u8, 255, 255, 255]);
}

#[test]
fn memory_word_is_little_endian() {
    let mut mem = Memory::new();
    mem.write_byte(0x4000, 0xCD).unwrap();
    mem.write_byte(0x4001, 0xAB).unwrap();
    assert_eq!(mem.read_word(0x4000).unwrap(), 0xABCD);
    assert!(matches!(mem.read_word(0xFFFF), Err(GbError::AddrOutOfBounds(0xFFFF))));
}

#[test]
fn memory_boot_rom_size_is_checked() {
    let mut mem = Memory::new();
    let e = mem.load_boot_rom(&[1, 2, 3]).unwrap_err();
    assert_eq!(illegal_text(e), "wrong boot rom size");
    mem.load_boot_rom(&[7u8; 256]).unwrap();
    assert_eq!(mem.read_byte(0x00FF).unwrap(), 7);
    assert_eq!(mem.read_byte(0x0100).unwrap(), 0);
}

#[test]
fn memory_push_then_pop_round_trip() {
    let mut cpu = CPU::new();
    let mut mem = Memory::new();
    cpu.write_sp(0xFFFE);
    cpu.write_bc(0xBEEF);
    mem.write_byte(0, Opcode::PushBC.to_u8()).unwrap();
    mem.write_byte(1, Opcode::PopDE.to_u8()).unwrap();
    cpu.step(&mut mem).unwrap();
    cpu.step(&mut mem).unwrap();
    assert_eq!(cpu.read_de(), 0xBEEF);
    assert_eq!(cpu.read_sp(), 0xFFFE);
}

#[test]
fn bus_maps_boot_rom_wram_echo_and_hram() {
    let mut boot = vec![0u8; 256];
    boot[0] = 0x31;
    let mbc = MBC::new(&rom_image(0x00, 0x00)).unwrap();
    let mut bus = Bus::new(boot, mbc);
    assert_eq!(bus.read_byte(0x0000).unwrap(), 0x31);
    assert_eq!(bus.read_byte(0x0134).unwrap(), b'T');
    bus.write_byte(0xC123, 0x42).unwrap();
    assert_eq!(bus.read_byte(0xC123).unwrap(), 0x42);
    assert_eq!(bus.read_byte(0xE123).unwrap(), 0x42);
    bus.write_byte(0xFF90, 0x99).unwrap();
    assert_eq!(bus.read_byte(0xFF90).unwrap(), 0x99);
    bus.write_byte(0xC200, 0x78).unwrap();
    bus.write_byte(0xC201, 0x56).unwrap();
    assert_eq!(bus.read_word(0xC200).unwrap(), 0x5678);
}

#[test]
fn interrupt_registers_round_trip() {
    let mut ir = InterruptHandler::new();
    ir.write_ie(0x15);
    ir.write_if(0x0A);
    assert_eq!(ir.read_ie(), 0x15);
    assert_eq!(ir.read_if(), 0x0A);
    ir.set(InterruptType::VBlank);
    assert!(ir.test(InterruptType::VBlank));
    assert!(ir.any_pending_interrupt());
    ir.clear(InterruptType::VBlank);
    assert!(!ir.test(InterruptType::VBlank));
}

#[test]
fn pressed_button_reads_low() {
    let mut j = Joypad::default();
    j.write(0x10);
    j.press_button(Buttons::a());
    assert_eq!(j.read() & 0x01, 0);
    j.release_button(Buttons::a());
    assert_eq!(j.read() & 0x01, 1);
}

#[test]
fn serial_data_round_trip_and_errors() {
    let mut s = Serial::new();
    s.write(0xFF01, 0x41).unwrap();
    assert_eq!(s.read(0xFF01).unwrap(), 0x41);
    let e = s.read(0xFF03).unwrap_err();
    assert_eq!(illegal_text(e), "Read from unknown serial register 0xFF03");
    let e = s.write(0xFF00, 1).unwrap_err();
    assert_eq!(illegal_text(e), "Write to unknown serial register 0xFF00");
}

#[test]
fn timer_registers() {
    let mut t = Timer::new();
    t.write_reg(0x0006, 0x77).unwrap();
    assert_eq!(t.read_reg(0x0006).unwrap(), 0x77);
    t.write_reg(0x0007, 0b101).unwrap();
    assert_eq!(t.read_reg(0x0007).unwrap(), 0b1001);
    let e = t.read_reg(0xFF05).unwrap_err();
    assert_eq!(illegal_text(e), "Read from timer reg 0xFF05");
    for b in 0..4u8 {
        assert_eq!(ClockSelect::from_bits(b).bits(), b);
    }
}

#[test]
fn apu_reads_are_refused_and_nr52_checked() {
    let mut apu = APU::new();
    let e = apu.read_reg(0xFF26).unwrap_err();
    assert_eq!(illegal_text(e), "Write to invalid APU reg 0xFF26");
    apu.write_reg(0xFF26, 0x80).unwrap();
    let e = apu.write_reg(0xFF26, 0x01).unwrap_err();
    assert_eq!(illegal_text(e), "attempting to write 0x01 to sound enable register (NR52)");
    let e = apu.write_reg(0xFF30, 0x01).unwrap_err();
    assert_eq!(illegal_text(e), "Write to invalid APU reg 0xFF30");
}

#[test]
fn palette_round_trip() {
    for v in [0x00u8, 0x1B, 0xE4, 0xFF] {
        let p = BackgroundPalette::from(v);
        assert_eq!(u8::from(p), v);
    }
    let p = BackgroundPalette::from(0xE4u8);
    assert_eq!(p.color_0(), GrayShade::White);
    assert_eq!(p.color_3(), GrayShade::Black);
}

#[test]
fn lcdc_round_trip() {
    for v in [0x00u8, 0x91, 0xFF] {
        assert_eq!(u8::from(LcdControlRegister::from(v)), v);
    }
}

#[test]
fn ppu_registers_and_vram() {
    let mut ppu = PPU::new();
    ppu.write_reg(0xFF42, 0x12).unwrap();
    assert_eq!(ppu.read_reg(0xFF42).unwrap(), 0x12);
    let e = ppu.write_reg(0xFF44, 1).unwrap_err();
    assert_eq!(illegal_text(e), "Cannot write to LY register");
    let e = ppu.read_reg(0xFF4C).unwrap_err();
    assert_eq!(illegal_text(e), "Write to invalid PPU reg 0xFF4C");
    ppu.write_reg(0xFF40, 0x00).unwrap();
    ppu.write_byte(0x8000, 0x3C).unwrap();
    ppu.write_byte(0x8001, 0x7E).unwrap();
    assert_eq!(ppu.read_byte(0x8000).unwrap(), 0x3C);
    assert_eq!(ppu.read_word(0x8000).unwrap(), 0x7E3C);
    assert!(matches!(ppu.read_word(0x9FFF), Err(GbError::AddrOutOfBounds(0x9FFF))));
    assert!(!ppu.vram_dump().is_empty());
}

#[test]
fn objects_on_a_line_come_sorted_by_x() {
    let mut oam = ObjAttributeMemory::new();
    // A cleared table has every sprite at the top left corner: the first
    // ten cover line 0.
    assert_eq!(oam.get_objs_at_line(0).len(), 10);
    assert!(oam.get_objs_at_line(8).is_empty());
    // sprite 0 at x = 50 and sprite 1 at x = 20, both from line 40 on
    oam.write_byte(0xFE00, 56).unwrap();
    oam.write_byte(0xFE01, 58).unwrap();
    oam.write_byte(0xFE04, 56).unwrap();
    oam.write_byte(0xFE05, 28).unwrap();
    let objs = oam.get_objs_at_line(44);
    assert_eq!(objs.len(), 2);
    assert_eq!(objs[0].left(), 20);
    assert_eq!(objs[1].left(), 50);
    assert_eq!(objs[0].top(), 40);
    assert_eq!(objs[0].bottom(), 48);
    assert!(oam.get_objs_at_line(48).is_empty());
}

#[test]
fn header_title_is_decoded_as_utf8() {
    let rom = rom_image(0x00, 0x00);
    let header = CartHeader::parse(&rom).unwrap();
    let text = format!("{:?}", header);
    assert!(text.contains("title: \"TESTROM\\0"), "{}", text);
    assert_eq!(header.rom_banks(), 2);
    assert_eq!(header.ram_banks(), 0);

    let mut bad = rom_image(0x00, 0x00);
    bad[0x134] = 0xFF;
    let header = CartHeader::parse(&bad).unwrap();
    let text = format!("{:?}", header);
    assert!(text.contains("title: \"\""), "{}", text);
}

#[test]
fn vram_reads_ff_anywhere_while_the_display_is_on() {
    let mut ppu = PPU::new();
    ppu.write_reg(0xFF40, 0x80).unwrap();
    assert_eq!(ppu.read_byte(0x0000).unwrap(), 0xFF);
    assert_eq!(ppu.read_word(0xC000).unwrap(), 0xFFFF);
    ppu.write_byte(0x1234, 7).unwrap();
    ppu.write_reg(0xFF40, 0x00).unwrap();
    assert_eq!(ppu.read_byte(0x8000).unwrap(), 0);
}

#[test]
fn default_timer_is_cleared() {
    let t = Timer::default();
    assert_eq!(t.read_reg(0x0006).unwrap(), 0);
    assert_eq!(t.read_reg(0x0007).unwrap(), 0);
    assert_eq!(ClockSelect::default(), ClockSelect::OneTo1024);
}

#[test]
fn ppu_steps_from_power_on_keep_ly_within_the_frame() {
    let mut ppu = PPU::new();
    let mut ir = InterruptHandler::new();
    let oam = ObjAttributeMemory::new();
    assert_eq!(ppu.read_reg(0xFF44).unwrap(), 0);
    // display off: a step changes nothing and completes no frame
    assert_eq!(ppu.step(&mut ir, &oam, 200).unwrap(), false);
    assert_eq!(ppu.read_reg(0xFF44).unwrap(), 0);
    ppu.write_reg(0xFF40, 0x91).unwrap();
    let mut frames = 0;
    let mut max_ly = 0u8;
    while frames < 3 {
        let before = ppu.read_reg(0xFF44).unwrap();
        let done = ppu.step(&mut ir, &oam, 20).unwrap();
        let after = ppu.read_reg(0xFF44).unwrap();
        assert!(after <= 153);
        assert!(after == before || after == before + 1 || after == 0);
        assert_eq!(done, before == 153 && after == 0);
        if after >= 144 {
            // mode bits of STAT: VBlank
            assert_eq!(ppu.read_reg(0xFF41).unwrap() & 3, 1);
        }
        max_ly = max_ly.max(after);
        if done {
            frames += 1;
        }
    }
    assert_eq!(max_ly, 153);
}
