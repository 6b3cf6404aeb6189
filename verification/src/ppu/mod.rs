//! The picture processing unit.
use vstd::prelude::*;
use vstd::string::*;

pub mod background_palette;
pub mod lcd_control_register;
pub mod lcd_status_register;
pub mod pixel_processor;
pub mod rgba;
pub mod tile;

use background_palette::{BackgroundPalette, GrayShade, palette_of, palette_code};
use lcd_control_register::{LcdControlRegister, lcdc_of, lcdc_code};
use lcd_status_register::{LcsStatusRegister, ScreenMode, Signal, mode_text_of, stat_code, stat_power_on, stat_written};
use pixel_processor::{PixelProcessor, PpView, ctx_of, pp_ok, pp_power_on, processed, started};
use tile::{Tile, TileData, decoded_line, zero_tile, TILE_COUNT};

use crate::endian::{le_word, read_u16_le};
use crate::interrupts::{InterruptHandler, InterruptType, IrqView, raised};
use crate::memory_map::{VRAM_SIZE, VRAM_START};
use crate::oam::{ObjAttribute, ObjAttributeMemory};
use crate::text::{hex16_text, hex2_text, push_hex16, push_hex2};
use crate::{hex_message, hex_text, GbError};

verus! {

pub const SCREEN_WIDTH: u32 = 160;
pub const SCREEN_HEIGHT: u32 = 144;

/// The size of the screen buffer: four bytes per pixel.
pub const SCREEN_BUFFER_SIZE: usize = 92160;

/// Offsets in VRAM of the two tile maps.
pub const TILEMAP_BLOCK0_START: u16 = 0x1800;
pub const TILEMAP_BLOCK1_START: u16 = 0x1C00;

/// The dot at which mode 2 (searching OAM) ends in a line.
pub const MODE_2_DOTS: u16 = 80;

/// The last dot of a line.
pub const DOTS_PER_LINE: u16 = 456;

/// The first line of vertical blank, and the last line.
pub const VBLANK_LINE: u8 = 144;
pub const LAST_LINE: u8 = 153;

/// The end of the tile data (an offset in VRAM): three blocks of 0x800.
pub const TILE_BLOCK2_END: u16 = 0x17FF;

pub const LCD_CTRL_REG_ADDR: u16 = 0xFF40;
pub const LCD_STAT_REG_ADDR: u16 = 0xFF41;
pub const VIEWPORT_Y_REG_ADDR: u16 = 0xFF42;
pub const VIEWPORT_X_REG_ADDR: u16 = 0xFF43;
pub const LY_REG_ADDR: u16 = 0xFF44;
pub const LYC_REG_ADDR: u16 = 0xFF45;
pub const BG_PALETTE_REG_ADDR: u16 = 0xFF47;
pub const OBJ_PALETTE0_REG_ADDR: u16 = 0xFF48;
pub const OBJ_PALETTE1_REG_ADDR: u16 = 0xFF49;
pub const WIN_POS_Y_REG_ADDR: u16 = 0xFF4A;
pub const WIN_POS_X_REG_ADDR: u16 = 0xFF4B;

/// A position on the background: the viewport or the window.
#[derive(Clone, Copy, Debug, PartialEq, Eq, Structural)]
pub struct Point {
    pub x: u8,
    pub y: u8,
}

impl Default for Point {
    fn default() -> (r: Self)
        ensures
            r.x == 0 && r.y == 0,
    {
        Point { x: 0, y: 0 }
    }
}

/// Whether the tile list is the decoding of the tile data in VRAM: line `y`
/// of tile `i` is decoded from bytes `16i + 2y` (low plane) and
/// `16i + 2y + 1` (high plane).
pub open spec fn tiles_match(vram: Seq<u8>, tiles: Seq<Seq<Seq<u8>>>) -> bool {
    forall|i: int, y: int|
        0 <= i < TILE_COUNT && 0 <= y < 8 ==> #[trigger] tiles[i][y] == decoded_line(
            vram[16 * i + 2 * y + 1],
            vram[16 * i + 2 * y],
        )
}

/// What the PPU holds.
pub struct PpuView {
    pub vram: Seq<u8>,
    pub lcd_control: LcdControlRegister,
    pub lcd_status: LcsStatusRegister,
    pub bg_palette: Seq<GrayShade>,
    pub obj_palette0: Seq<GrayShade>,
    pub obj_palette1: Seq<GrayShade>,
    pub ly: u8,
    pub lyc: u8,
    pub viewport: Point,
    pub win_pos: Point,
    pub tiles: Seq<Seq<Seq<u8>>>,
    pub dots: u16,
    pub pp: PpView,
    pub frame: Seq<u8>,
}

/// The PPU at power-on: zero VRAM and zero tiles, LCDC cleared (the display
/// off), STAT at its power-on value, white palettes, LY, LYC, the dots, the
/// viewport and the window at 0, the pipeline at power-on and a blank
/// frame.
pub open spec fn ppu_power_on() -> PpuView {
    PpuView {
        vram: Seq::new(VRAM_SIZE as nat, |i: int| 0u8),
        lcd_control: lcdc_of(0),
        lcd_status: stat_power_on(),
        bg_palette: seq![GrayShade::White, GrayShade::White, GrayShade::White, GrayShade::White],
        obj_palette0: seq![GrayShade::White, GrayShade::White, GrayShade::White, GrayShade::White],
        obj_palette1: seq![GrayShade::White, GrayShade::White, GrayShade::White, GrayShade::White],
        ly: 0,
        lyc: 0,
        viewport: Point { x: 0, y: 0 },
        win_pos: Point { x: 0, y: 0 },
        tiles: Seq::new(TILE_COUNT as nat, |i: int| zero_tile()),
        dots: 0,
        pp: pp_power_on(),
        frame: Seq::new(SCREEN_BUFFER_SIZE as nat, |i: int| 0u8),
    }
}

/// A snapshot of the PPU's registers and decoded tiles.
#[derive(Clone, Debug)]
pub struct PpuState {
    pub lcd_control: LcdControlRegister,
    pub lcd_status: LcsStatusRegister,
    pub bg_palette: BackgroundPalette,
    pub obj_palette0: BackgroundPalette,
    pub obj_palette1: BackgroundPalette,
    pub ly: u8,
    pub lyc: u8,
    pub viewport: Point,
    pub win_pos: Point,
    pub tiles_list: Vec<Tile>,
}

/// Whether `s` is a snapshot of the PPU `v`: its registers, and its tiles
/// as decoded.
pub open spec fn state_of_ppu(s: PpuState, v: PpuView) -> bool {
    &&& s.lcd_control == v.lcd_control
    &&& s.lcd_status == v.lcd_status
    &&& s.bg_palette@ == v.bg_palette
    &&& s.obj_palette0@ == v.obj_palette0
    &&& s.obj_palette1@ == v.obj_palette1
    &&& s.ly == v.ly
    &&& s.lyc == v.lyc
    &&& s.viewport == v.viewport
    &&& s.win_pos == v.win_pos
    &&& s.tiles_list@.len() == v.tiles.len()
    &&& forall|i: int| 0 <= i < s.tiles_list@.len() ==> #[trigger] s.tiles_list@[i]@ == v.tiles[i]
}

/// The picture processing unit: VRAM, its registers, and the pipeline that
/// draws the screen line by line.
pub struct PPU {
    vram: Vec<u8>,
    lcd_control: LcdControlRegister,
    lcd_status: LcsStatusRegister,
    bg_palette: BackgroundPalette,
    obj_palette0: BackgroundPalette,
    obj_palette1: BackgroundPalette,
    ly: u8,
    lyc: u8,
    viewport: Point,
    win_pos: Point,
    tiles: TileData,
    dots: u16,
    pixel_processor: PixelProcessor,
    frame: Vec<u8>,
}

impl View for PPU {
    type V = PpuView;

    closed spec fn view(&self) -> PpuView {
        PpuView {
            vram: self.vram@,
            lcd_control: self.lcd_control,
            lcd_status: self.lcd_status,
            bg_palette: self.bg_palette@,
            obj_palette0: self.obj_palette0@,
            obj_palette1: self.obj_palette1@,
            ly: self.ly,
            lyc: self.lyc,
            viewport: self.viewport,
            win_pos: self.win_pos,
            tiles: self.tiles@,
            dots: self.dots,
            pp: self.pixel_processor@,
            frame: self.frame@,
        }
    }
}

/// The PPU's register at `addr` (None: no readable register there).
pub open spec fn ppu_reg(v: PpuView, addr: u16) -> Option<u8> {
    if addr == LCD_CTRL_REG_ADDR {
        Some(lcdc_code(v.lcd_control))
    } else if addr == LCD_STAT_REG_ADDR {
        Some(stat_code(v.lcd_status))
    } else if addr == VIEWPORT_Y_REG_ADDR {
        Some(v.viewport.y)
    } else if addr == VIEWPORT_X_REG_ADDR {
        Some(v.viewport.x)
    } else if addr == LY_REG_ADDR {
        Some(v.ly)
    } else if addr == LYC_REG_ADDR {
        Some(v.lyc)
    } else if addr == BG_PALETTE_REG_ADDR {
        Some(palette_code(v.bg_palette))
    } else if addr == OBJ_PALETTE0_REG_ADDR {
        Some(palette_code(v.obj_palette0))
    } else if addr == OBJ_PALETTE1_REG_ADDR {
        Some(palette_code(v.obj_palette1))
    } else if addr == WIN_POS_Y_REG_ADDR {
        Some(v.win_pos.y)
    } else if addr == WIN_POS_X_REG_ADDR {
        Some(v.win_pos.x)
    } else {
        None
    }
}

/// The PPU after `value` is written to its register at `addr` (None: LY,
/// which cannot be written, or no register there).
pub open spec fn ppu_reg_written(v: PpuView, addr: u16, value: u8) -> Option<PpuView> {
    if addr == LCD_CTRL_REG_ADDR {
        Some(PpuView { lcd_control: lcdc_of(value), ..v })
    } else if addr == LCD_STAT_REG_ADDR {
        Some(PpuView { lcd_status: stat_written(v.lcd_status, value), ..v })
    } else if addr == VIEWPORT_Y_REG_ADDR {
        Some(PpuView { viewport: Point { y: value, ..v.viewport }, ..v })
    } else if addr == VIEWPORT_X_REG_ADDR {
        Some(PpuView { viewport: Point { x: value, ..v.viewport }, ..v })
    } else if addr == LYC_REG_ADDR {
        Some(PpuView { lyc: value, ..v })
    } else if addr == BG_PALETTE_REG_ADDR {
        Some(PpuView { bg_palette: palette_of(value), ..v })
    } else if addr == OBJ_PALETTE0_REG_ADDR {
        Some(PpuView { obj_palette0: palette_of(value), ..v })
    } else if addr == OBJ_PALETTE1_REG_ADDR {
        Some(PpuView { obj_palette1: palette_of(value), ..v })
    } else if addr == WIN_POS_Y_REG_ADDR {
        Some(PpuView { win_pos: Point { y: value, ..v.win_pos }, ..v })
    } else if addr == WIN_POS_X_REG_ADDR {
        Some(PpuView { win_pos: Point { x: value, ..v.win_pos }, ..v })
    } else {
        None
    }
}

/// A PPU register reads back as written: LCDC, the viewport, LYC, the
/// three palettes and the window position give the value written; STAT
/// gives it without bit 7.
pub proof fn law_ppu_reg_round_trip(v: PpuView, addr: u16, value: u8)
    requires
        0xFF40 <= addr <= 0xFF4B,
        addr != LY_REG_ADDR,
        addr != 0xFF46,
    ensures
        ppu_reg_written(v, addr, value) is Some,
        ppu_reg(ppu_reg_written(v, addr, value)->Some_0, addr) == Some(
            if addr == LCD_STAT_REG_ADDR { value & 0x7F } else { value },
        ),
{
    lcd_control_register::law_lcdc_round_trip(value);
    lcd_status_register::law_stat_round_trip(v.lcd_status, value);
    background_palette::law_palette_round_trip(value);
}

/// The PPU after a CPU write of `value` at `addr` in VRAM: nothing while
/// the display is on; else the byte is stored, and a byte of tile data
/// updates the decoded line it belongs to.
pub open spec fn vram_written(v: PpuView, addr: u16, value: u8) -> PpuView {
    if v.lcd_control.display_enable {
        v
    } else {
        let a = addr - VRAM_START;
        let vram = v.vram.update(a, value);
        let tiles = if a <= TILE_BLOCK2_END {
            v.tiles.update(
                a / 16,
                v.tiles[a / 16].update((a % 16) / 2, decoded_line(vram[a - a % 2 + 1], vram[a - a % 2])),
            )
        } else {
            v.tiles
        };
        PpuView { vram, tiles, ..v }
    }
}

/// What a CPU read of the byte at `addr` in VRAM gives: 0xFF while the
/// display is on.
pub open spec fn vram_read(v: PpuView, addr: u16) -> u8 {
    if v.lcd_control.display_enable {
        0xFF
    } else {
        v.vram[addr - VRAM_START]
    }
}

/// What a CPU read of the word at `addr` in VRAM gives: 0xFFFF while the
/// display is on; an error when the word would cross the end of VRAM.
pub open spec fn vram_read_word(v: PpuView, addr: u16) -> Result<u16, GbError> {
    if v.lcd_control.display_enable {
        Ok(0xFFFF)
    } else if addr - VRAM_START + 1 < VRAM_SIZE {
        Ok(le_word(v.vram[addr - VRAM_START], v.vram[addr - VRAM_START + 1]))
    } else {
        Err(GbError::AddrOutOfBounds(addr))
    }
}

/// The interrupts a step requests: VBlank when the mode just changed to
/// VBlank; LCD STAT when one of the four STAT sources fires.
pub open spec fn step_irqs(stat: LcsStatusRegister, irq: IrqView) -> IrqView {
    let changed = stat.mode.val != stat.mode.old_val;
    let irq1 = if changed && stat.mode.val == ScreenMode::VBlank {
        raised(irq, InterruptType::VBlank)
    } else {
        irq
    };
    if (stat.mode_0_ir_enable && changed && stat.mode.val == ScreenMode::SreachingOAM) || (stat.mode_1_ir_enable
        && changed && stat.mode.val == ScreenMode::TransferringData) || (stat.mode_2_ir_enable && changed
        && stat.mode.val == ScreenMode::HBlank) || (stat.lyc_ir_enable && stat.lyc_equals_ly.val
        != stat.lyc_equals_ly.old_val) {
        raised(irq1, InterruptType::LcdStat)
    } else {
        irq1
    }
}

/// A signal set to `v`.
pub open spec fn signal_set<T: Copy>(s: Signal<T>, v: T) -> Signal<T> {
    Signal { val: v, old_val: s.val }
}

/// The PPU with the mode set to `m`.
pub open spec fn with_mode(v: PpuView, m: ScreenMode) -> PpuView {
    PpuView { lcd_status: LcsStatusRegister { mode: signal_set(v.lcd_status.mode, m), ..v.lcd_status }, ..v }
}

/// Across a step, LY stays within the 154 lines and moves by at most one
/// line (wrapping to 0 after the last, which is the only way a frame is
/// completed); a line from 144 on is in VBlank, a line below 144 in its
/// first 80 dots searches OAM, and the dots stay within a line. With the
/// display off a step changes nothing.
pub proof fn law_ppu_step_bounds(v: PpuView, irq: IrqView, oam: Seq<ObjAttribute>, cycles: u8)
    requires
        v.ly <= LAST_LINE,
        v.dots <= DOTS_PER_LINE,
    ensures
        ({
            let (o, v2, irq2) = ppu_step(v, irq, oam, cycles);
            &&& !v.lcd_control.display_enable ==> o == Some(false) && v2 == v && irq2 == irq
            &&& o is Some ==> {
                &&& v2.ly <= LAST_LINE
                &&& v2.dots <= DOTS_PER_LINE
                &&& (v2.ly == v.ly || v2.ly == v.ly + 1 || v2.ly == 0)
                &&& (o == Some(true) <==> (v.lcd_control.display_enable && v.ly == LAST_LINE && v2.ly == 0))
                &&& (o == Some(false) && v.lcd_control.display_enable && v2.ly >= VBLANK_LINE ==> v2.lcd_status.mode.val
                    == ScreenMode::VBlank)
                &&& (o == Some(false) && v.lcd_control.display_enable && v2.ly < VBLANK_LINE && v2.dots <= MODE_2_DOTS
                    ==> v2.lcd_status.mode.val == ScreenMode::SreachingOAM)
            }
        }),
{
}

/// The PPU after the steps of `steps` in turn, from `v`: each step is
/// given the interrupt controller, the sprite table and the dots it runs
/// with; None once a step is refused.
pub open spec fn ppu_run(v: PpuView, steps: Seq<(IrqView, Seq<ObjAttribute>, u8)>) -> Option<PpuView>
    decreases steps.len(),
{
    if steps.len() == 0 {
        Some(v)
    } else {
        let (irq, oam, cycles) = steps[0];
        let (o, v2, _irq2) = ppu_step(v, irq, oam, cycles);
        match o {
            Some(_) => ppu_run(v2, steps.drop_first()),
            None => None,
        }
    }
}

/// A run of steps that starts with LY within the 154 lines and the dots
/// within a line ends so too; so each of its steps meets the requirement
/// of `law_ppu_step_bounds`.
pub proof fn law_ppu_run_bounds(v: PpuView, steps: Seq<(IrqView, Seq<ObjAttribute>, u8)>)
    requires
        v.ly <= LAST_LINE,
        v.dots <= DOTS_PER_LINE,
    ensures
        ppu_run(v, steps) matches Some(w) ==> w.ly <= LAST_LINE && w.dots <= DOTS_PER_LINE,
    decreases steps.len(),
{
    if steps.len() > 0 {
        let (irq, oam, cycles) = steps[0];
        law_ppu_step_bounds(v, irq, oam, cycles);
        let (o, v2, _irq2) = ppu_step(v, irq, oam, cycles);
        if o is Some {
            law_ppu_run_bounds(v2, steps.drop_first());
        }
    }
}

/// From power-on (and from a reset, which leaves LY and the dots at 0 as
/// well), any run of steps keeps LY within the 154 lines and the dots
/// within a line, so every step of it obeys `law_ppu_step_bounds`.
pub proof fn law_ppu_run_from_power_on(keep: PpuView, steps: Seq<(IrqView, Seq<ObjAttribute>, u8)>)
    ensures
        ppu_run(ppu_power_on(), steps) matches Some(w) ==> w.ly <= LAST_LINE && w.dots <= DOTS_PER_LINE,
        ppu_run(
            PpuView {
                obj_palette0: keep.obj_palette0,
                obj_palette1: keep.obj_palette1,
                frame: keep.frame,
                ..ppu_power_on()
            },
            steps,
        ) matches Some(w) ==> w.ly <= LAST_LINE && w.dots <= DOTS_PER_LINE,
{
    law_ppu_run_bounds(ppu_power_on(), steps);
    law_ppu_run_bounds(
        PpuView { obj_palette0: keep.obj_palette0, obj_palette1: keep.obj_palette1, frame: keep.frame, ..ppu_power_on() },
        steps,
    );
}

/// The message of a line that ends in the mode named `name`.
pub open spec fn mode_text(name: Seq<char>) -> Seq<char> {
    "unexpected mode "@ + name + " during hblank"@
}

/// Builds the message `mode_text` describes.
fn mode_message(name: &str) -> (r: String)
    ensures
        r@ == mode_text(name@),
{
    let mut s = String::from_str("unexpected mode ");
    s.append(name);
    s.append(" during hblank");
    s
}

/// One step of the PPU for `cycles` dots: the result (None: the line ended
/// in a mode other than HBlank or VBlank, which is refused after the dots
/// are counted), whether a frame was completed, the new state and the
/// interrupt controller.
///
/// While the display is off nothing happens. Otherwise the dots are
/// counted; past the end of a line the next line starts (LY = LYC is
/// compared again). Past the last line the frame is handed out and LY goes
/// back to 0; in the VBlank lines the mode is VBlank; in the first 80 dots
/// of a line the mode is searching OAM; then the pipeline starts the line
/// (mode 3, transferring data) and runs until it has drawn the line, after
/// which the mode is HBlank. Each step ends by requesting the interrupts
/// that `step_irqs` says.
pub open spec fn ppu_step(v: PpuView, irq: IrqView, oam: Seq<ObjAttribute>, cycles: u8) -> (Option<bool>, PpuView, IrqView) {
    if !v.lcd_control.display_enable {
        (Some(false), v, irq)
    } else {
        let dots = (v.dots + cycles) as u16;
        if dots > DOTS_PER_LINE && v.lcd_status.mode.val != ScreenMode::HBlank && v.lcd_status.mode.val
            != ScreenMode::VBlank {
            (None, PpuView { dots, ..v }, irq)
        } else {
            let (v2, vblank) = mode_updated(line_advanced(v, dots), oam);
            (Some(vblank), v2, step_irqs(v2.lcd_status, irq))
        }
    }
}

/// The PPU with its dots at `dots`: past the end of a line, the next line
/// starts, LY = LYC is compared again, and the dots wrap.
pub open spec fn line_advanced(v: PpuView, dots: u16) -> PpuView {
    if dots > DOTS_PER_LINE {
        let ly = (v.ly + 1) as u8;
        PpuView {
            ly,
            lcd_status: LcsStatusRegister {
                lyc_equals_ly: signal_set(v.lcd_status.lyc_equals_ly, v.lyc == ly),
                ..v.lcd_status
            },
            dots: (dots - DOTS_PER_LINE) as u16,
            ..v
        }
    } else {
        PpuView { dots, ..v }
    }
}

/// What the PPU does at its position in the frame, and whether it completed
/// a frame.
pub open spec fn mode_updated(v1: PpuView, oam: Seq<ObjAttribute>) -> (PpuView, bool) {
    if v1.ly > LAST_LINE {
        (
            PpuView {
                frame: v1.pp.screen_buffer,
                pp: PpView { screen_buffer: Seq::new(SCREEN_BUFFER_SIZE as nat, |i: int| 0u8), ..v1.pp },
                ly: 0,
                ..v1
            },
            true,
        )
    } else if v1.ly >= VBLANK_LINE {
        (with_mode(v1, ScreenMode::VBlank), false)
    } else if v1.dots <= MODE_2_DOTS {
        (with_mode(v1, ScreenMode::SreachingOAM), false)
    } else if v1.lcd_status.mode.val == ScreenMode::SreachingOAM {
        (
            with_mode(PpuView { pp: started(v1.pp, oam, v1.ly, v1.viewport), ..v1 }, ScreenMode::TransferringData),
            false,
        )
    } else if v1.pp.scan_line_x < 160 {
        (
            PpuView {
                pp: processed(
                    v1.pp,
                    v1.dots,
                    ctx_of(
                        v1.ly,
                        v1.viewport,
                        v1.lcd_control,
                        v1.vram,
                        v1.tiles,
                        v1.bg_palette,
                        seq![v1.obj_palette0, v1.obj_palette1],
                    ),
                ),
                ..v1
            },
            false,
        )
    } else {
        (with_mode(v1, ScreenMode::HBlank), false)
    }
}

/// Byte `a` of the tile data belongs to line `(a % 16) / 2` of tile
/// `a / 16`, whose bytes are `a - a % 2` and the next; no other line holds
/// either byte.
pub proof fn lemma_tile_byte(a: int, i: int, y: int)
    requires
        0 <= a < 0x1800,
        0 <= i < TILE_COUNT,
        0 <= y < 8,
    ensures
        16 * (a / 16) + 2 * ((a % 16) / 2) == a - a % 2,
        (i == a / 16 && y == (a % 16) / 2) || (16 * i + 2 * y != a - a % 2 && 16 * i + 2 * y + 1 != a && 16 * i
            + 2 * y != a),
{
    assert(16 * (a / 16) + 2 * ((a % 16) / 2) == a - a % 2) by (nonlinear_arith)
        requires
            0 <= a,
    ;
    if !(i == a / 16 && y == (a % 16) / 2) {
        assert(16 * i + 2 * y != a - a % 2 && 16 * i + 2 * y + 1 != a && 16 * i + 2 * y != a) by (nonlinear_arith)
            requires
                0 <= a,
                0 <= y < 8,
                !(i == a / 16 && y == (a % 16) / 2),
        ;
    }
}

/// The bytes `start` to `start + n - 1` of `data` as two hexadecimal
/// digits each, separated by spaces.
pub open spec fn bytes_text(data: Seq<u8>, start: int, n: nat) -> Seq<char>
    decreases n,
{
    if n == 0 {
        Seq::empty()
    } else if n == 1 {
        hex2_text(data[start])
    } else {
        bytes_text(data, start, (n - 1) as nat) + " "@ + hex2_text(data[start + n - 1])
    }
}

/// Line `i` of the VRAM dump: the address of its first byte, then its 32
/// bytes.
pub open spec fn dump_line(vram: Seq<u8>, i: int) -> Seq<char> {
    hex16_text((0x8000 + 32 * i) as u16) + ": "@ + bytes_text(vram, 32 * i, 32) + "\n"@
}

/// The first `lines` lines of the VRAM dump.
pub open spec fn dump_text(vram: Seq<u8>, lines: nat) -> Seq<char>
    decreases lines,
{
    if lines == 0 {
        Seq::empty()
    } else {
        dump_text(vram, (lines - 1) as nat) + dump_line(vram, lines - 1)
    }
}

/// A decoded line of zero bytes is a line of zero colour ids.
pub proof fn lemma_zero_line()
    ensures
        decoded_line(0, 0) == tile::zero_line(),
{
    assert forall|x: int| 0 <= x < 8 implies #[trigger] decoded_line(0, 0)[x] == 0u8 by {
        let s = (7 - x) as u8;
        assert(((0u8 >> s) & 1) * 2 + ((0u8 >> s) & 1) == 0) by (bit_vector);
    }
    assert(decoded_line(0, 0) =~= tile::zero_line());
}

/// Zero VRAM decodes to zero tiles.
pub proof fn lemma_zero_tiles_match(vram: Seq<u8>, tiles: Seq<Seq<Seq<u8>>>)
    requires
        vram.len() == VRAM_SIZE,
        forall|i: int| 0 <= i < VRAM_SIZE ==> vram[i] == 0,
        tiles == Seq::new(TILE_COUNT as nat, |i: int| zero_tile()),
    ensures
        tiles_match(vram, tiles),
{
    lemma_zero_line();
    assert forall|i: int, y: int| 0 <= i < TILE_COUNT && 0 <= y < 8 implies #[trigger] tiles[i][y] == decoded_line(
        vram[16 * i + 2 * y + 1],
        vram[16 * i + 2 * y],
    ) by {
        assert(vram[16 * i + 2 * y + 1] == 0);
        assert(vram[16 * i + 2 * y] == 0);
    }
}

impl PPU {
    /// What the PPU keeps at all times: a full VRAM whose tile data the tile
    /// list decodes, a pipeline at rest, LY within the 154 lines, and a
    /// full frame.
    pub closed spec fn inv(&self) -> bool {
        &&& self.vram@.len() == VRAM_SIZE
        &&& self.tiles.wf()
        &&& tiles_match(self.vram@, self.tiles@)
        &&& pp_ok(self.pixel_processor@)
        &&& self.ly <= LAST_LINE
        &&& self.frame@.len() == SCREEN_BUFFER_SIZE
    }

    /// Ready to step: the invariant holds and the dots are within a line.
    pub closed spec fn ready(&self) -> bool {
        &&& self.inv()
        &&& self.dots <= DOTS_PER_LINE
    }

    /// A PPU ready to step keeps its invariant, and its dots are within a
    /// line and LY within the 154 lines (what `law_ppu_step_bounds` asks).
    pub proof fn lemma_ready(&self)
        requires
            self.ready(),
        ensures
            self.inv(),
            self@.dots <= DOTS_PER_LINE,
            self@.ly <= LAST_LINE,
    {
    }

    pub proof fn lemma_inv(&self)
        requires
            self.inv(),
        ensures
            self@.vram.len() == VRAM_SIZE,
            self@.tiles.len() == TILE_COUNT,
            tiles_match(self@.vram, self@.tiles),
            pp_ok(self@.pp),
            self@.ly <= LAST_LINE,
            self@.frame.len() == SCREEN_BUFFER_SIZE,
            self@.bg_palette.len() == 4,
            self@.obj_palette0.len() == 4,
            self@.obj_palette1.len() == 4,
    {
        self.tiles.lemma_wf();
        self.bg_palette.lemma_len();
        self.obj_palette0.lemma_len();
        self.obj_palette1.lemma_len();
    }

    /// A PPU with zero VRAM, its registers cleared, the display off.
    pub fn new() -> (r: Self)
        ensures
            r.ready(),
            r@ == ppu_power_on(),
    {
        let vram: Vec<u8> = vec![0u8; VRAM_SIZE];
        let r = Self {
            vram,
            lcd_control: LcdControlRegister::default(),
            lcd_status: LcsStatusRegister::default(),
            bg_palette: BackgroundPalette::default(),
            obj_palette0: BackgroundPalette::default(),
            obj_palette1: BackgroundPalette::default(),
            ly: 0,
            lyc: 0,
            viewport: Point::default(),
            win_pos: Point::default(),
            tiles: TileData::new(),
            dots: 0,
            pixel_processor: PixelProcessor::new(),
            frame: vec![0u8; SCREEN_BUFFER_SIZE],
        };
        proof {
            assert(r@.vram =~= Seq::new(VRAM_SIZE as nat, |i: int| 0u8));
            assert(r@.frame =~= Seq::new(SCREEN_BUFFER_SIZE as nat, |i: int| 0u8));
            lemma_zero_tiles_match(r.vram@, r.tiles@);
        }
        r
    }

    /// Clears VRAM and the registers (the sprite palettes and the last
    /// frame excepted) and restarts the pipeline.
    pub fn reset(&mut self)
        requires
            old(self).inv(),
        ensures
            final(self).ready(),
            final(self)@ == (PpuView {
                obj_palette0: old(self)@.obj_palette0,
                obj_palette1: old(self)@.obj_palette1,
                frame: old(self)@.frame,
                ..ppu_power_on()
            }),
    {
        let mut i: usize = 0;
        while i < self.vram.len()
            invariant
                self.vram@.len() == VRAM_SIZE,
                i <= VRAM_SIZE,
                forall|k: int| 0 <= k < i ==> self.vram@[k] == 0,
                self.tiles == old(self).tiles,
                self.frame@ == old(self).frame@,
                self.obj_palette0 == old(self).obj_palette0,
                self.obj_palette1 == old(self).obj_palette1,
                old(self).inv(),
            decreases VRAM_SIZE - i,
        {
            self.vram[i] = 0;
            i += 1;
        }
        self.lcd_control = LcdControlRegister::default();
        self.lcd_status = LcsStatusRegister::default();
        self.bg_palette = BackgroundPalette::default();
        self.ly = 0;
        self.lyc = 0;
        self.viewport = Point::default();
        self.win_pos = Point::default();
        self.tiles.clear();
        self.dots = 0;
        self.pixel_processor = PixelProcessor::new();
        proof {
            assert(self.vram@ =~= Seq::new(VRAM_SIZE as nat, |i: int| 0u8));
            lemma_zero_tiles_match(self.vram@, self.tiles@);
        }
    }

    /// The last frame drawn.
    pub fn frame(&self) -> (r: &Vec<u8>)
        ensures
            r@ == self@.frame,
    {
        &self.frame
    }

    /// Reads a byte of VRAM; while the display is on, any address reads
    /// 0xFF.
    pub fn read_byte(&self, addr: u16) -> (r: Result<u8, GbError>)
        requires
            self.inv(),
            self@.lcd_control.display_enable || VRAM_START <= addr <= 0x9FFF,
        ensures
            r == Ok::<u8, GbError>(vram_read(self@, addr)),
    {
        if self.lcd_control.display_enable {
            return Ok(0xFF);
        }
        Ok(self.vram[(addr - VRAM_START) as usize])
    }

    /// Reads a little-endian word of VRAM (0xFFFF at any address while the
    /// display is on); a word that would cross the end of VRAM is refused.
    pub fn read_word(&self, addr: u16) -> (r: Result<u16, GbError>)
        requires
            self.inv(),
            self@.lcd_control.display_enable || VRAM_START <= addr <= 0x9FFF,
        ensures
            r == vram_read_word(self@, addr),
    {
        if self.lcd_control.display_enable {
            return Ok(0xFFFF);
        }
        let off = (addr - VRAM_START) as usize;
        if off + 1 < self.vram.len() {
            let r = read_u16_le(&self.vram.as_slice()[off..self.vram.len()]);
            Ok(r)
        } else {
            Err(GbError::AddrOutOfBounds(addr))
        }
    }

    /// Writes a byte of VRAM (ignored while the display is on), and decodes
    /// again the tile line it belongs to.
    pub fn write_byte(&mut self, addr: u16, value: u8) -> (r: Result<(), GbError>)
        requires
            old(self).inv(),
            old(self)@.lcd_control.display_enable || VRAM_START <= addr <= 0x9FFF,
        ensures
            final(self).inv(),
            final(self).ready() == old(self).ready(),
            r is Ok,
            final(self)@ == vram_written(old(self)@, addr, value),
    {
        if self.lcd_control.display_enable {
            return Ok(());
        }
        let local_addr = (addr - VRAM_START) as usize;
        let ghost old_vram = self.vram@;
        let ghost old_tiles = self.tiles@;
        proof {
            self.tiles.lemma_wf();
        }
        self.vram[local_addr] = value;
        if local_addr <= TILE_BLOCK2_END as usize {
            let is_lsb = local_addr % 2 == 0;
            let ghost hi: u8;
            let ghost lo: u8;
            if is_lsb {
                let msb = self.vram[local_addr + 1];
                self.tiles.write_line(local_addr, msb, value);
                proof {
                    hi = msb;
                    lo = value;
                }
            } else {
                let lsb = self.vram[local_addr - 1];
                self.tiles.write_line(local_addr, value, lsb);
                proof {
                    hi = value;
                    lo = lsb;
                }
            }
            proof {
                let a = local_addr as int;
                assert(hi == self.vram@[a - a % 2 + 1] && lo == self.vram@[a - a % 2]);
                assert(self.tiles@ == old_tiles.update(a / 16, old_tiles[a / 16].update((a % 16) / 2, decoded_line(hi, lo))));
                self.tiles.lemma_wf();
                assert forall|i: int, y: int| 0 <= i < TILE_COUNT && 0 <= y < 8 implies #[trigger] self.tiles@[i][y]
                    == decoded_line(self.vram@[16 * i + 2 * y + 1], self.vram@[16 * i + 2 * y]) by {
                    lemma_tile_byte(a, i, y);
                    if i == a / 16 && y == (a % 16) / 2 {
                    } else {
                        assert(self.vram@[16 * i + 2 * y + 1] == old_vram[16 * i + 2 * y + 1]);
                        assert(self.vram@[16 * i + 2 * y] == old_vram[16 * i + 2 * y]);
                        assert(self.tiles@[i][y] == old_tiles[i][y]);
                    }
                }
            }
        } else {
            proof {
                assert forall|i: int, y: int| 0 <= i < TILE_COUNT && 0 <= y < 8 implies #[trigger] self.tiles@[i][y]
                    == decoded_line(self.vram@[16 * i + 2 * y + 1], self.vram@[16 * i + 2 * y]) by {
                    assert(16 * i + 2 * y + 1 < local_addr);
                    assert(old_tiles[i][y] == decoded_line(old_vram[16 * i + 2 * y + 1], old_vram[16 * i + 2 * y]));
                }
            }
        }
        Ok(())
    }

    /// Reads a PPU register.
    pub fn read_reg(&self, addr: u16) -> (r: Result<u8, GbError>)
        ensures
            match ppu_reg(self@, addr) {
                Some(b) => r == Ok::<u8, GbError>(b),
                None => r matches Err(GbError::IllegalOp(m)) && m@ == hex_text("Write to invalid PPU reg"@, addr),
            },
    {
        match addr {
            LCD_CTRL_REG_ADDR => Ok(u8::from(self.lcd_control)),
            LCD_STAT_REG_ADDR => Ok(self.lcd_status.read()),
            VIEWPORT_Y_REG_ADDR => Ok(self.viewport.y),
            VIEWPORT_X_REG_ADDR => Ok(self.viewport.x),
            LY_REG_ADDR => Ok(self.ly),
            LYC_REG_ADDR => Ok(self.lyc),
            BG_PALETTE_REG_ADDR => Ok(u8::from(self.bg_palette)),
            OBJ_PALETTE0_REG_ADDR => Ok(u8::from(self.obj_palette0)),
            OBJ_PALETTE1_REG_ADDR => Ok(u8::from(self.obj_palette1)),
            WIN_POS_Y_REG_ADDR => Ok(self.win_pos.y),
            WIN_POS_X_REG_ADDR => Ok(self.win_pos.x),
            _ => Err(GbError::IllegalOp(hex_message("Write to invalid PPU reg", addr))),
        }
    }

    /// Writes a PPU register; LY cannot be written.
    pub fn write_reg(&mut self, addr: u16, value: u8) -> (r: Result<(), GbError>)
        requires
            old(self).inv(),
        ensures
            final(self).inv(),
            final(self).ready() == old(self).ready(),
            match ppu_reg_written(old(self)@, addr, value) {
                Some(v) => r is Ok && final(self)@ == v,
                None => final(self)@ == old(self)@ && (r matches Err(GbError::IllegalOp(m)) && m@ == (if addr
                    == LY_REG_ADDR {
                    "Cannot write to LY register"@
                } else {
                    hex_text("Write to invalid PPU reg"@, addr)
                })),
            },
    {
        match addr {
            LCD_CTRL_REG_ADDR => self.lcd_control = LcdControlRegister::from(value),
            LCD_STAT_REG_ADDR => self.lcd_status.write(value),
            VIEWPORT_Y_REG_ADDR => self.viewport.y = value,
            VIEWPORT_X_REG_ADDR => self.viewport.x = value,
            LY_REG_ADDR => {
                return Err(GbError::IllegalOp("Cannot write to LY register".to_owned()));
            },
            LYC_REG_ADDR => self.lyc = value,
            BG_PALETTE_REG_ADDR => self.bg_palette = BackgroundPalette::from(value),
            OBJ_PALETTE0_REG_ADDR => self.obj_palette0 = BackgroundPalette::from(value),
            OBJ_PALETTE1_REG_ADDR => self.obj_palette1 = BackgroundPalette::from(value),
            WIN_POS_Y_REG_ADDR => self.win_pos.y = value,
            WIN_POS_X_REG_ADDR => self.win_pos.x = value,
            _ => {
                return Err(GbError::IllegalOp(hex_message("Write to invalid PPU reg", addr)));
            },
        }
        Ok(())
    }

    /// Hands out the frame drawn and starts a blank one.
    pub fn render(&mut self) -> (r: Result<(), GbError>)
        requires
            old(self).inv(),
        ensures
            final(self).inv(),
            final(self).ready() == old(self).ready(),
            r is Ok,
            final(self)@ == (PpuView {
                frame: old(self)@.pp.screen_buffer,
                pp: PpView { screen_buffer: Seq::new(SCREEN_BUFFER_SIZE as nat, |i: int| 0u8), ..old(self)@.pp },
                ..old(self)@
            }),
    {
        self.frame = self.pixel_processor.take_frame();
        Ok(())
    }

    /// One step of `cpu_cycles` dots, as `ppu_step` says. The result is
    /// whether a frame was completed; a line that ends in a mode other than
    /// HBlank or VBlank is refused with the dots counted.
    #[verifier::rlimit(40)]
    #[verifier::spinoff_prover]
    pub fn step(&mut self, ir_handler: &mut InterruptHandler, oam: &ObjAttributeMemory, cpu_cycles: u8) -> (r: Result<bool, GbError>)
        requires
            old(self).ready(),
        ensures
            final(self).inv(),
            r is Ok ==> final(self).ready(),
            ({
                let (o, v, irq) = ppu_step(old(self)@, old(ir_handler)@, oam@, cpu_cycles);
                &&& final(self)@ == v
                &&& final(ir_handler)@ == irq
                &&& match o {
                    Some(b) => r == Ok::<bool, GbError>(b),
                    None => r matches Err(GbError::IllegalOp(m)) && m@ == mode_text(
                        mode_text_of(old(self)@.lcd_status.mode.val),
                    ),
                }
            }),
    {
        if !self.lcd_control.display_enable {
            return Ok(false);
        }
        self.dots += cpu_cycles as u16;
        if self.dots > DOTS_PER_LINE {
            if self.lcd_status.mode.get() != ScreenMode::HBlank && self.lcd_status.mode.get() != ScreenMode::VBlank {
                let mode = self.lcd_status.mode.get();
                return Err(GbError::IllegalOp(mode_message(mode.name())));
            }
            self.ly += 1;
            let eq = self.lyc == self.ly;
            self.lcd_status.lyc_equals_ly.set(eq);
            self.dots -= DOTS_PER_LINE;
        }
        let vblank_ev = self.update_mode(oam);
        self.set_interrupts(ir_handler);
        Ok(vblank_ev)
    }

    /// Does what the PPU does at its position in the frame, as
    /// `mode_updated` says; whether a frame was completed.
    #[verifier::rlimit(60)]
    #[verifier::spinoff_prover]
    fn update_mode(&mut self, oam: &ObjAttributeMemory) -> (r: bool)
        requires
            old(self).vram@.len() == VRAM_SIZE,
            old(self).tiles.wf(),
            tiles_match(old(self)@.vram, old(self)@.tiles),
            pp_ok(old(self)@.pp),
            old(self).ly <= LAST_LINE + 1,
            old(self).frame@.len() == SCREEN_BUFFER_SIZE,
            old(self).dots <= DOTS_PER_LINE,
        ensures
            final(self).ready(),
            (final(self)@, r) == mode_updated(old(self)@, oam@),
    {
        let ghost v1 = self@;
        let mut vblank_ev = false;
        if self.ly > LAST_LINE {
            self.ly = 0;
            let _ = self.render();
            vblank_ev = true;
        } else if self.ly >= VBLANK_LINE {
            self.lcd_status.mode.set(ScreenMode::VBlank);
        } else if self.dots <= MODE_2_DOTS {
            self.lcd_status.mode.set(ScreenMode::SreachingOAM);
        } else if self.lcd_status.mode.get() == ScreenMode::SreachingOAM {
            self.pixel_processor.start(oam, self.ly, &self.viewport);
            self.lcd_status.mode.set(ScreenMode::TransferringData);
        } else if !self.pixel_processor.finished() {
            let obj_palettes = [self.obj_palette0, self.obj_palette1];
            let pals = obj_palettes.as_slice();
            proof {
                assert(pixel_processor::palettes_view(pals@) =~= seq![v1.obj_palette0, v1.obj_palette1]);
            }
            self.pixel_processor.process(
                self.ly,
                self.dots,
                &self.viewport,
                &self.lcd_control,
                self.vram.as_slice(),
                &self.tiles,
                &self.bg_palette,
                pals,
            );
        } else {
            self.lcd_status.mode.set(ScreenMode::HBlank);
        }
        vblank_ev
    }

    /// A snapshot of the registers and the decoded tiles.
    pub fn state(&self) -> (r: PpuState)
        ensures
            state_of_ppu(r, self@),
    {
        let list = self.tiles.list();
        let mut tiles_list: Vec<Tile> = Vec::new();
        let mut i: usize = 0;
        while i < list.len()
            invariant
                i <= list@.len(),
                list@.len() == self@.tiles.len(),
                forall|k: int| 0 <= k < list@.len() ==> #[trigger] list@[k]@ == self@.tiles[k],
                tiles_list@.len() == i,
                forall|k: int| 0 <= k < i ==> #[trigger] tiles_list@[k]@ == self@.tiles[k],
            decreases list@.len() - i,
        {
            tiles_list.push(list[i]);
            i += 1;
        }
        PpuState {
            lcd_control: self.lcd_control,
            lcd_status: self.lcd_status,
            bg_palette: self.bg_palette,
            obj_palette0: self.obj_palette0,
            obj_palette1: self.obj_palette1,
            ly: self.ly,
            lyc: self.lyc,
            viewport: self.viewport,
            win_pos: self.win_pos,
            tiles_list,
        }
    }

    /// A hexadecimal dump of VRAM: 256 lines of 32 bytes, each line led by
    /// the address of its first byte.
    pub fn vram_dump(&self) -> (r: String)
        requires
            self.inv(),
        ensures
            r@ == dump_text(self@.vram, 256),
    {
        let mut dump = String::new();
        let mut line: usize = 0;
        while line < 256
            invariant
                line <= 256,
                self.vram@.len() == VRAM_SIZE,
                dump@ == dump_text(self@.vram, line as nat),
            decreases 256 - line,
        {
            let ghost before = dump@;
            push_hex16(&mut dump, (VRAM_START as usize + line * 32) as u16);
            dump.append(": ");
            let ghost head = dump@;
            let mut b: usize = 0;
            while b < 32
                invariant
                    b <= 32,
                    line < 256,
                    self.vram@.len() == VRAM_SIZE,
                    dump@ == head + bytes_text(self@.vram, 32 * line as int, b as nat),
                decreases 32 - b,
            {
                if b > 0 {
                    dump.append(" ");
                }
                push_hex2(&mut dump, self.vram[line * 32 + b]);
                proof {
                    assert(dump@ =~= head + bytes_text(self@.vram, 32 * line as int, (b + 1) as nat));
                }
                b += 1;
            }
            dump.append("\n");
            proof {
                assert(dump@ =~= before + dump_line(self@.vram, line as int));
            }
            line += 1;
        }
        dump
    }

    fn set_interrupts(&self, ir_handler: &mut InterruptHandler)
        ensures
            final(ir_handler)@ == step_irqs(self@.lcd_status, old(ir_handler)@),
    {
        if self.lcd_status.mode.changed_to(ScreenMode::VBlank) {
            ir_handler.set(InterruptType::VBlank);
        }
        if self.lcd_status.is_mode_0_ir() || self.lcd_status.is_mode_1_ir() || self.lcd_status.is_mode_2_ir()
            || self.lcd_status.is_lyc_ir() {
            ir_handler.set(InterruptType::LcdStat)
        }
    }
}

} // verus!
