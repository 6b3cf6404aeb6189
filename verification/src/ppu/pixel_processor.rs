//! The pixel pipeline of mode 3: fetch a background tile line, mix the
//! sprites in, and draw eight pixels, step by step as the dots go by.
use vstd::prelude::*;

use crate::oam::{ObjAttribute, ObjAttributeMemory, visible_objs, sorted_stable};
use super::background_palette::{BackgroundPalette, GrayShade, shade_rgba};
use super::lcd_control_register::LcdControlRegister;
use super::tile::{TileData, tile_index_of, colors_ok, TILE_COUNT};
use super::{Point, MODE_2_DOTS, SCREEN_BUFFER_SIZE, SCREEN_WIDTH, TILEMAP_BLOCK0_START, TILEMAP_BLOCK1_START};

verus! {

/// The stage of the pipeline.
#[derive(Clone, Copy, Debug, PartialEq, Eq, Structural)]
pub enum Step {
    GetTileIndex,
    GetTileData,
    PushBg,
    PushObjs,
    PopPixels,
}

/// A pixel waiting to be drawn: its colour id, its palette (for a sprite
/// pixel), the tile it comes from, and whether it is a background pixel.
#[derive(Clone, Copy, Debug, PartialEq, Eq, Structural)]
pub struct Pixel {
    pub color_id: u8,
    pub palette_id: usize,
    pub tile_index: usize,
    pub is_bg: bool,
}

/// A sprite pixel of colour `color_id` replaces a background pixel unless
/// it is transparent (colour 0), or the sprite is behind the background
/// and the background pixel is not colour 0.
pub open spec fn mixed(p: Pixel, color_id: u8, palette_id: usize, tile_index: usize, bg_prio: bool) -> Pixel {
    if p.is_bg && color_id != 0 && (!bg_prio || (bg_prio && p.color_id == 0)) {
        Pixel { color_id, palette_id, tile_index, is_bg: false }
    } else {
        p
    }
}

impl Pixel {
    pub fn new(color_id: u8, palette_id: usize, tile_index: usize) -> (r: Self)
        ensures
            r == (Pixel { color_id, palette_id, tile_index, is_bg: true }),
    {
        Self { color_id, palette_id, tile_index, is_bg: true }
    }

    pub fn push_obj(&mut self, color_id: u8, palette_id: usize, tile_index: usize, bg_prio: bool)
        ensures
            *final(self) == mixed(*old(self), color_id, palette_id, tile_index, bg_prio),
    {
        if self.is_bg && color_id != 0 && (!bg_prio || (bg_prio && self.color_id == 0)) {
            self.color_id = color_id;
            self.palette_id = palette_id;
            self.tile_index = tile_index;
            self.is_bg = false;
        }
    }
}

/// What the pipeline holds.
pub struct PpView {
    pub scan_line_x: u8,
    pub old_dots: u16,
    pub curr_step: Step,
    pub curr_tile_index: usize,
    pub curr_tile_line: u8,
    pub curr_tile_msb: u8,
    pub curr_tile_lsb: u8,
    pub scroll_x: u8,
    pub scroll_y: u8,
    pub objs: Seq<ObjAttribute>,
    pub pixel_fifo: Seq<Pixel>,
    pub screen_buffer: Seq<u8>,
}

/// The pipeline at power-on: at the first fetch of a line that starts at
/// dot 80, nothing fetched or queued, and a blank screen buffer.
pub open spec fn pp_power_on() -> PpView {
    PpView {
        scan_line_x: 0,
        old_dots: MODE_2_DOTS,
        curr_step: Step::GetTileIndex,
        curr_tile_index: 0,
        curr_tile_line: 0,
        curr_tile_msb: 0,
        curr_tile_lsb: 0,
        scroll_x: 0,
        scroll_y: 0,
        objs: Seq::empty(),
        pixel_fifo: Seq::empty(),
        screen_buffer: Seq::new(SCREEN_BUFFER_SIZE as nat, |i: int| 0u8),
    }
}

/// What the pipeline reads while it draws a line.
pub struct LineCtx {
    pub ly: u8,
    pub viewport: Point,
    pub lcdc: LcdControlRegister,
    pub vram: Seq<u8>,
    pub tiles: Seq<Seq<Seq<u8>>>,
    pub bg_palette: Seq<GrayShade>,
    pub obj_palettes: Seq<Seq<GrayShade>>,
}

/// Fetching the tile index: the scroll registers are taken (the three low
/// bits of the horizontal scroll stay as they were at the start of the
/// line), and the tile map entry under the current position is read; the
/// fetcher's row is `(LY + SCY) & 0xFF`.
pub open spec fn fetched_index(s: PpView, c: LineCtx) -> PpView {
    let scroll_x = s.scroll_x | (c.viewport.x & 0xF8);
    let scroll_y = c.viewport.y;
    let tile_x = ((scroll_x + s.scan_line_x) % 256) as int;
    let tile_y = (scroll_y + c.ly) % 256;
    let map = if c.lcdc.bg_tile_map_area_sel { TILEMAP_BLOCK1_START } else { TILEMAP_BLOCK0_START };
    PpView {
        scroll_x,
        scroll_y,
        curr_tile_line: (tile_y % 8) as u8,
        curr_tile_index: c.vram[map + tile_y / 8 * 32 + tile_x / 8] as usize,
        ..s
    }
}

/// Fetching the tile data: the tile map entry becomes an index in the tile
/// list, by the tile data area that LCDC selects.
pub open spec fn fetched_data(s: PpView, c: LineCtx) -> PpView {
    PpView {
        curr_tile_index: tile_index_of(s.curr_tile_index as int, c.lcdc.bg_and_window_tile_area_sel) as usize,
        ..s
    }
}

/// The eight background pixels of the current tile line.
pub open spec fn bg_pixels(s: PpView, c: LineCtx) -> Seq<Pixel> {
    Seq::new(
        8,
        |x: int|
            Pixel {
                color_id: c.tiles[s.curr_tile_index as int][s.curr_tile_line as int][x],
                palette_id: 0,
                tile_index: s.curr_tile_index,
                is_bg: true,
            },
    )
}

/// Pushing the background: its eight pixels join the queue.
pub open spec fn pushed_bg(s: PpView, c: LineCtx) -> PpView {
    PpView { pixel_fifo: s.pixel_fifo + bg_pixels(s, c), ..s }
}

/// The queue once one sprite is mixed into it: the sprite's pixels that
/// fall on the eight queued pixels (at `x` on the line) are mixed into
/// them. A sprite that does not cover line `ly` mixes nothing.
pub open spec fn with_obj(fifo: Seq<Pixel>, o: ObjAttribute, x: int, ly: int, tiles: Seq<Seq<Seq<u8>>>) -> Seq<Pixel> {
    let row = ly - o.spec_top();
    if !(0 <= row < 8) {
        fifo
    } else {
        let line = tiles[o.spec_tile_index() as int][row];
        let x_start = if o.spec_left() - x > 0 { o.spec_left() - x } else { 0 };
        let x_end = if o.spec_left() + 8 - x < 8 { o.spec_left() + 8 - x } else { 8 };
        let tile_start = if x_start > 0 { 0 } else { x - o.spec_left() };
        Seq::new(
            fifo.len(),
            |i: int|
                if x_start <= i < x_end {
                    mixed(
                        fifo[i],
                        line[tile_start + i - x_start],
                        o.spec_palette_id() as usize,
                        o.spec_tile_index() as usize,
                        o.spec_flags().0,
                    )
                } else {
                    fifo[i]
                },
        )
    }
}

/// The queue once the sprites, in order, are mixed into it; the first
/// sprite that starts past the queued pixels ends the list (the sprites
/// are sorted by left edge).
pub open spec fn with_objs(fifo: Seq<Pixel>, objs: Seq<ObjAttribute>, x: int, ly: int, tiles: Seq<Seq<Seq<u8>>>) -> Seq<Pixel>
    decreases objs.len(),
{
    if objs.len() == 0 {
        fifo
    } else if objs[0].spec_left() > x + 8 {
        fifo
    } else {
        with_objs(with_obj(fifo, objs[0], x, ly, tiles), objs.drop_first(), x, ly, tiles)
    }
}

/// Whether a sprite ends past position `x` of the line.
pub open spec fn ends_after(x: int) -> spec_fn(ObjAttribute) -> bool {
    |o: ObjAttribute| o.spec_left() + 8 > x
}

/// Pushing the sprites (when LCDC enables them): the sprites that end
/// before the queued pixels are dropped for good, and the others are mixed
/// into the queue.
pub open spec fn pushed_objs(s: PpView, c: LineCtx) -> PpView {
    if !c.lcdc.obj_enable {
        s
    } else {
        let objs = s.objs.filter(ends_after(s.scan_line_x as int));
        PpView {
            objs,
            pixel_fifo: with_objs(s.pixel_fifo, objs, s.scan_line_x as int, c.ly as int, c.tiles),
            ..s
        }
    }
}

/// The colour bytes of a queued pixel: through the background palette, or
/// the sprite palette it names.
pub open spec fn pixel_rgba(p: Pixel, c: LineCtx) -> Seq<u8> {
    if p.is_bg {
        shade_rgba(c.bg_palette[p.color_id as int])
    } else {
        shade_rgba(c.obj_palettes[p.palette_id as int][p.color_id as int])
    }
}

/// The screen buffer once the queued pixels are drawn at `x` on line `ly`.
pub open spec fn drawn(buf: Seq<u8>, fifo: Seq<Pixel>, x: int, c: LineCtx) -> Seq<u8> {
    let base = (c.ly * 160 + x) * 4;
    Seq::new(
        buf.len(),
        |i: int|
            if base <= i < base + 4 * fifo.len() {
                pixel_rgba(fifo[(i - base) / 4], c)[(i - base) % 4]
            } else {
                buf[i]
            },
    )
}

/// Popping the pixels: the queue is drawn and emptied.
pub open spec fn popped(s: PpView, c: LineCtx) -> PpView {
    PpView {
        screen_buffer: drawn(s.screen_buffer, s.pixel_fifo, s.scan_line_x as int, c),
        pixel_fifo: Seq::empty(),
        ..s
    }
}

/// One turn of the pipeline with `d` dots to spend: the new state, the dots
/// left, and whether the turn stopped early for want of dots.
pub open spec fn turn(s: PpView, d: int, c: LineCtx) -> (PpView, int, bool) {
    let (s1, d1) = if s.curr_step == Step::GetTileIndex {
        (PpView { curr_step: Step::GetTileData, ..fetched_index(s, c) }, d - 2)
    } else {
        (s, d)
    };
    if d1 <= 0 {
        (s1, d1, true)
    } else {
        let (s2, d2) = if s1.curr_step == Step::GetTileData {
            (PpView { curr_step: Step::PushBg, ..fetched_data(s1, c) }, d1 - 4)
        } else {
            (s1, d1)
        };
        if d2 <= 0 {
            (s2, d2, true)
        } else {
            let (s3, d3) = if s2.curr_step == Step::PushBg {
                (PpView { curr_step: Step::PushObjs, ..pushed_bg(s2, c) }, d2 - 1)
            } else {
                (s2, d2)
            };
            let (s4, d4) = if s3.curr_step == Step::PushObjs {
                (pushed_objs(PpView { curr_step: Step::PopPixels, ..s3 }, c), d3 - 1)
            } else {
                (s3, d3)
            };
            let (s5, d5) = if s4.curr_step == Step::PopPixels {
                (
                    PpView {
                        scan_line_x: (s4.scan_line_x + 8) as u8,
                        ..popped(PpView { curr_step: Step::GetTileIndex, ..s4 }, c)
                    },
                    d4 - 1,
                )
            } else {
                (s4, d4)
            };
            (s5, d5, false)
        }
    }
}

/// Turns of the pipeline until the dots run out or the line is done.
pub open spec fn run(s: PpView, d: int, c: LineCtx) -> (PpView, int)
    decreases d,
{
    if d <= 0 || s.scan_line_x >= 160 {
        (s, d)
    } else {
        let (s2, d2, stopped) = turn(s, d, c);
        if stopped || d2 >= d || d2 <= 0 {
            (s2, d2)
        } else {
            run(s2, d2, c)
        }
    }
}

/// The pipeline after it is given the dots up to `dots`: nothing if they
/// are behind the dots already spent; else the turns they pay for, the
/// dots left over (or owed) kept for the next call. The dots given are
/// counted as a 16-bit signed number, so a gap of 0x8000 or more pays for
/// nothing.
pub open spec fn processed(s: PpView, dots: u16, c: LineCtx) -> PpView {
    if dots < s.old_dots {
        s
    } else {
        let (s2, d2) = run(s, ((dots - s.old_dots) as u16) as i16 as int, c);
        PpView { old_dots: (dots - d2) as u16, ..s2 }
    }
}

/// The pipeline of mode 3 and the screen buffer it draws into.
pub struct PixelProcessor {
    scan_line_x: u8,
    old_dots: u16,
    curr_step: Step,
    curr_tile_index: usize,
    curr_tile_line: u8,
    curr_tile_msb: u8,
    curr_tile_lsb: u8,
    scroll_x: u8,
    scroll_y: u8,
    objs: Vec<ObjAttribute>,
    pixel_fifo: Vec<Pixel>,
    pub screen_buffer: Vec<u8>,
}

impl View for PixelProcessor {
    type V = PpView;

    closed spec fn view(&self) -> PpView {
        PpView {
            scan_line_x: self.scan_line_x,
            old_dots: self.old_dots,
            curr_step: self.curr_step,
            curr_tile_index: self.curr_tile_index,
            curr_tile_line: self.curr_tile_line,
            curr_tile_msb: self.curr_tile_msb,
            curr_tile_lsb: self.curr_tile_lsb,
            scroll_x: self.scroll_x,
            scroll_y: self.scroll_y,
            objs: self.objs@,
            pixel_fifo: self.pixel_fifo@,
            screen_buffer: self.screen_buffer@,
        }
    }
}

/// The facts the pipeline keeps between turns: the buffer holds a screen,
/// the tile index and line are in range, the line position is a multiple
/// of 8 up to 160, the queue is empty with the pipeline at one of its first
/// three stages, and the sprites keep their bounds.
pub open spec fn pp_ok(s: PpView) -> bool {
    &&& s.screen_buffer.len() == SCREEN_BUFFER_SIZE
    &&& s.curr_tile_index < TILE_COUNT
    &&& (s.curr_step == Step::GetTileData ==> s.curr_tile_index < 256)
    &&& s.curr_tile_line < 8
    &&& s.scan_line_x % 8 == 0
    &&& s.scan_line_x <= 160
    &&& s.pixel_fifo.len() == 0
    &&& (s.curr_step == Step::GetTileIndex || s.curr_step == Step::GetTileData || s.curr_step == Step::PushBg)
    &&& forall|i: int| 0 <= i < s.objs.len() ==> #[trigger] s.objs[i].valid()
}

/// What the pipeline may read: a full VRAM, 384 tiles of colour ids below
/// 4, four-shade palettes (two for the sprites), and a visible line.
pub open spec fn ctx_ok(c: LineCtx) -> bool {
    &&& c.ly < 144
    &&& c.vram.len() == 0x2000
    &&& c.tiles.len() == TILE_COUNT
    &&& forall|i: int| 0 <= i < TILE_COUNT ==> (#[trigger] c.tiles[i]).len() == 8
    &&& forall|i: int, y: int| 0 <= i < TILE_COUNT && 0 <= y < 8 ==> (#[trigger] c.tiles[i][y]).len() == 8
    &&& forall|i: int| 0 <= i < TILE_COUNT ==> colors_ok(#[trigger] c.tiles[i])
    &&& c.bg_palette.len() == 4
    &&& c.obj_palettes.len() == 2
    &&& c.obj_palettes[0].len() == 4
    &&& c.obj_palettes[1].len() == 4
}

/// The context that the arguments of `process` describe.
pub open spec fn ctx_of(
    ly: u8,
    viewport: Point,
    lcd_ctrl: LcdControlRegister,
    vram: Seq<u8>,
    tiles: Seq<Seq<Seq<u8>>>,
    bg_palette: Seq<GrayShade>,
    obj_palettes: Seq<Seq<GrayShade>>,
) -> LineCtx {
    LineCtx { ly, viewport, lcdc: lcd_ctrl, vram, tiles, bg_palette, obj_palettes }
}

/// The shades of each palette.
pub open spec fn palettes_view(p: Seq<BackgroundPalette>) -> Seq<Seq<GrayShade>> {
    Seq::new(p.len(), |i: int| p[i]@)
}

/// The pipeline at the start of a line: reset at dot 80 with the viewport
/// taken, and the sprites of line `ly` (the first ten in OAM order, sorted
/// by left edge, stably).
pub open spec fn started(s: PpView, oam: Seq<ObjAttribute>, ly: u8, viewport: Point) -> PpView {
    PpView {
        scan_line_x: 0,
        old_dots: MODE_2_DOTS,
        curr_step: Step::GetTileIndex,
        curr_tile_index: 0,
        curr_tile_line: 0,
        curr_tile_msb: 0,
        curr_tile_lsb: 0,
        scroll_x: viewport.x,
        scroll_y: viewport.y,
        objs: sorted_stable(visible_objs(oam, ly)),
        pixel_fifo: Seq::empty(),
        screen_buffer: s.screen_buffer,
    }
}

/// Whether the queued pixels hold colour ids below 4, and sprite pixels
/// one of the two sprite palettes.
pub open spec fn fifo_ok(fifo: Seq<Pixel>) -> bool {
    forall|i: int|
        0 <= i < fifo.len() ==> (#[trigger] fifo[i]).color_id < 4 && (fifo[i].is_bg || fifo[i].palette_id < 2)
}

/// Mixing one sprite keeps the queue's length and bounds.
pub proof fn lemma_with_obj_ok(fifo: Seq<Pixel>, o: ObjAttribute, x: int, ly: int, c: LineCtx)
    requires
        fifo_ok(fifo),
        fifo.len() == 8,
        o.valid(),
        ctx_ok(c),
        0 <= x <= 152,
    ensures
        with_obj(fifo, o, x, ly, c.tiles).len() == 8,
        fifo_ok(with_obj(fifo, o, x, ly, c.tiles)),
{
    let r = with_obj(fifo, o, x, ly, c.tiles);
    let row = ly - o.spec_top();
    if 0 <= row < 8 {
        let t = o.spec_tile_index() as int;
        assert(colors_ok(c.tiles[t]));
        let x_start = if o.spec_left() - x > 0 { o.spec_left() - x } else { 0 };
        let x_end = if o.spec_left() + 8 - x < 8 { o.spec_left() + 8 - x } else { 8 };
        let tile_start = if x_start > 0 { 0 } else { x - o.spec_left() };
        assert forall|i: int| 0 <= i < 8 implies (#[trigger] r[i]).color_id < 4 && (r[i].is_bg || r[i].palette_id < 2) by {
            if x_start <= i < x_end {
                assert(0 <= tile_start + i - x_start < 8);
                assert(c.tiles[t][row][tile_start + i - x_start] < 4);
            }
        }
    }
}

/// Mixing the sprites keeps the queue's length and bounds.
pub proof fn lemma_with_objs_ok(fifo: Seq<Pixel>, objs: Seq<ObjAttribute>, x: int, ly: int, c: LineCtx)
    requires
        fifo_ok(fifo),
        fifo.len() == 8,
        forall|i: int| 0 <= i < objs.len() ==> #[trigger] objs[i].valid(),
        ctx_ok(c),
        0 <= x <= 152,
    ensures
        with_objs(fifo, objs, x, ly, c.tiles).len() == 8,
        fifo_ok(with_objs(fifo, objs, x, ly, c.tiles)),
    decreases objs.len(),
{
    if objs.len() > 0 && objs[0].spec_left() <= x + 8 {
        lemma_with_obj_ok(fifo, objs[0], x, ly, c);
        let rest = objs.drop_first();
        assert forall|i: int| 0 <= i < rest.len() implies #[trigger] rest[i].valid() by {
            assert(rest[i] == objs[i + 1]);
        }
        lemma_with_objs_ok(with_obj(fifo, objs[0], x, ly, c.tiles), rest, x, ly, c);
    }
}

impl PixelProcessor {
    /// A pipeline at the start of mode 3 (dot 80), with a blank screen.
    pub fn new() -> (r: Self)
        ensures
            pp_ok(r@),
            r@ == pp_power_on(),
    {
        let screen_buffer: Vec<u8> = vec![0u8; SCREEN_BUFFER_SIZE];
        let r = Self {
            scan_line_x: 0,
            old_dots: MODE_2_DOTS,
            curr_step: Step::GetTileIndex,
            curr_tile_index: 0,
            curr_tile_line: 0,
            curr_tile_msb: 0,
            curr_tile_lsb: 0,
            scroll_x: 0,
            scroll_y: 0,
            objs: Vec::new(),
            pixel_fifo: Vec::new(),
            screen_buffer,
        };
        proof {
            assert(r@.screen_buffer =~= Seq::new(SCREEN_BUFFER_SIZE as nat, |i: int| 0u8));
            assert(r@.objs =~= Seq::<ObjAttribute>::empty());
            assert(r@.pixel_fifo =~= Seq::<Pixel>::empty());
        }
        r
    }

    /// Starts a line: the pipeline is reset at dot 80, takes the viewport,
    /// and collects the sprites of line `ly` (the first ten in OAM order,
    /// sorted by left edge).
    pub fn start(&mut self, oam: &ObjAttributeMemory, ly: u8, viewport: &Point)
        requires
            old(self)@.screen_buffer.len() == SCREEN_BUFFER_SIZE,
        ensures
            pp_ok(final(self)@),
            final(self)@ == started(old(self)@, oam@, ly, *viewport),
    {
        self.scan_line_x = 0;
        self.old_dots = MODE_2_DOTS;
        self.curr_step = Step::GetTileIndex;
        self.curr_tile_index = 0;
        self.curr_tile_line = 0;
        self.curr_tile_msb = 0;
        self.curr_tile_lsb = 0;
        self.scroll_x = viewport.x;
        self.scroll_y = viewport.y;
        self.pixel_fifo.clear();
        self.objs = oam.get_objs_at_line(ly);
        proof {
            assert(self@.pixel_fifo =~= Seq::<Pixel>::empty());
        }
    }

    /// Hands out the screen drawn so far and starts a blank one.
    pub fn take_frame(&mut self) -> (r: Vec<u8>)
        requires
            pp_ok(old(self)@),
        ensures
            pp_ok(final(self)@),
            r@ == old(self)@.screen_buffer,
            final(self)@ == (PpView { screen_buffer: Seq::new(SCREEN_BUFFER_SIZE as nat, |i: int| 0u8), ..old(self)@ }),
    {
        let mut frame: Vec<u8> = vec![0u8; SCREEN_BUFFER_SIZE];
        std::mem::swap(&mut frame, &mut self.screen_buffer);
        proof {
            assert(self@.screen_buffer =~= Seq::new(SCREEN_BUFFER_SIZE as nat, |i: int| 0u8));
        }
        frame
    }

    pub fn finished(&self) -> (r: bool)
        ensures
            r == (self@.scan_line_x >= 160),
    {
        self.scan_line_x as u32 >= SCREEN_WIDTH
    }

    #[verifier::spinoff_prover]
    #[verifier::rlimit(40)]
    fn get_tile_index(&mut self, lcd_ctrl: &LcdControlRegister, ly: u8, viewport: &Point, vram: &[u8])
        requires
            vram@.len() == 0x2000,
        ensures
            final(self)@ == fetched_index(old(self)@, ctx_of_parts(ly, *viewport, *lcd_ctrl, vram@)),
            final(self)@.curr_tile_index < 256,
            final(self)@.curr_tile_line < 8,
    {
        self.scroll_x = self.scroll_x | (viewport.x & 0b11111000);
        self.scroll_y = viewport.y;
        let tile_x = self.scroll_x.wrapping_add(self.scan_line_x) as u16;
        let tile_y = (self.scroll_y as u16 + ly as u16) % 256;
        assert(tile_x <= 255);
        self.curr_tile_line = (tile_y % 8) as u8;
        let tilemap_addr = tile_y / 8 * 32 + tile_x / 8;
        assert(tilemap_addr <= 1023);
        let tile_block_addr = if lcd_ctrl.bg_tile_map_area_sel {
            TILEMAP_BLOCK1_START
        } else {
            TILEMAP_BLOCK0_START
        };
        self.curr_tile_index = vram[tile_block_addr as usize + tilemap_addr as usize] as usize;
    }

    fn get_tile_data(&mut self, tiles: &TileData, lcd_ctrl: &LcdControlRegister)
        requires
            old(self)@.curr_tile_index < 256,
        ensures
            final(self)@ == fetched_data(old(self)@, ctx_of_parts(0, Point { x: 0, y: 0 }, *lcd_ctrl, Seq::empty())),
            final(self)@.curr_tile_index < TILE_COUNT,
    {
        self.curr_tile_index = tiles.tile_index_from_bg_map(self.curr_tile_index, lcd_ctrl.bg_and_window_tile_area_sel);
    }

    fn push_bg(&mut self, tiles: &TileData, Ghost(c): Ghost<LineCtx>)
        requires
            tiles.wf(),
            c.tiles == tiles@,
            old(self)@.curr_tile_index < TILE_COUNT,
            old(self)@.curr_tile_line < 8,
            fifo_ok(old(self)@.pixel_fifo),
        ensures
            final(self)@ == pushed_bg(old(self)@, c),
            fifo_ok(final(self)@.pixel_fifo),
    {
        proof {
            tiles.lemma_wf();
        }
        let list = tiles.list();
        let tile = list[self.curr_tile_index];
        let line = self.curr_tile_line as usize;
        let ghost before = self@;
        let ghost row = c.tiles[self.curr_tile_index as int][line as int];
        proof {
            assert(tile@ == c.tiles[self.curr_tile_index as int]);
            assert(tile.pixels@[line as int]@ == row);
            assert(colors_ok(tile@));
        }
        let mut x: usize = 0;
        while x < 8
            invariant
                x <= 8,
                self@ == (PpView { pixel_fifo: self@.pixel_fifo, ..before }),
                self@.pixel_fifo == before.pixel_fifo + bg_pixels(before, c).take(x as int),
                tile.pixels@[line as int]@ == row,
                line == before.curr_tile_line,
                line < 8,
                self.curr_tile_index == before.curr_tile_index,
                row == c.tiles[before.curr_tile_index as int][before.curr_tile_line as int],
                forall|k: int| 0 <= k < 8 ==> #[trigger] row[k] < 4,
                fifo_ok(before.pixel_fifo),
            decreases 8 - x,
        {
            let p = Pixel::new(tile.pixels[line][x], 0, self.curr_tile_index);
            self.pixel_fifo.push(p);
            proof {
                assert(bg_pixels(before, c).take(x as int + 1) == bg_pixels(before, c).take(x as int).push(p));
            }
            x += 1;
        }
        proof {
            assert(bg_pixels(before, c).take(8) == bg_pixels(before, c));
            let f = self@.pixel_fifo;
            assert forall|i: int| 0 <= i < f.len() implies (#[trigger] f[i]).color_id < 4 && (f[i].is_bg || f[i].palette_id < 2) by {
                if i >= before.pixel_fifo.len() {
                    assert(f[i] == bg_pixels(before, c)[i - before.pixel_fifo.len()]);
                }
            }
        }
    }
}

impl PixelProcessor {
    /// Mixes one sprite into the eight queued pixels at `x`.
    fn mix_obj(&mut self, obj: ObjAttribute, x: u8, ly: u8, tiles: &TileData, Ghost(c): Ghost<LineCtx>)
        requires
            tiles.wf(),
            c.tiles == tiles@,
            ctx_ok(c),
            old(self)@.pixel_fifo.len() == 8,
            fifo_ok(old(self)@.pixel_fifo),
            obj.valid(),
            x <= 152,
            obj.spec_left() + 8 > x,
            obj.spec_left() <= x + 8,
        ensures
            final(self)@ == (PpView {
                pixel_fifo: with_obj(old(self)@.pixel_fifo, obj, x as int, ly as int, c.tiles),
                ..old(self)@
            }),
    {
        let row = ly as i16 - obj.top();
        if row < 0 || row >= 8 {
            return;
        }
        proof {
            tiles.lemma_wf();
        }
        let list = tiles.list();
        let tile = list[obj.tile_index() as usize];
        let line = tile.pixels[row as usize];
        let ghost lseq = c.tiles[obj.spec_tile_index() as int][row as int];
        proof {
            assert(tile@ == c.tiles[obj.spec_tile_index() as int]);
            assert(tile@[row as int] == tile.pixels@[row as int]@);
            assert(line@ == lseq);
            assert(colors_ok(c.tiles[obj.spec_tile_index() as int]));
        }
        let left = obj.left();
        let right = obj.right();
        let xs = x as i16;
        let x_start: i16 = if left - xs > 0 { left - xs } else { 0 };
        let x_end: i16 = if right - xs < 8 { right - xs } else { 8 };
        let tile_start: usize = if x_start > 0 { 0 } else { (xs - left) as usize };
        let palette_id = obj.palette_id() as usize;
        let tile_index = obj.tile_index() as usize;
        let bg_prio = obj.bg_win_prio();
        let ghost f0 = self@.pixel_fifo;
        let ghost before = self@;
        let end = x_end as usize;
        let mut fx: usize = x_start as usize;
        while fx < end
            invariant
                0 <= x_start <= fx,
                fx <= end || fx == x_start,
                end == x_end,
                x_end <= 8,
                x_start <= x_end,
                tile_start == (if x_start > 0 { 0 } else { xs - left }),
                tile_start + end - x_start <= 8,
                line@ == lseq,
                self@ == (PpView { pixel_fifo: self@.pixel_fifo, ..before }),
                self@.pixel_fifo == Seq::new(
                    8,
                    |i: int|
                        if x_start <= i < fx {
                            mixed(f0[i], lseq[tile_start + i - x_start], palette_id, tile_index, bg_prio)
                        } else {
                            f0[i]
                        },
                ),
            decreases end - fx,
        {
            let mut p = self.pixel_fifo[fx];
            p.push_obj(line[tile_start + fx - x_start as usize], palette_id, tile_index, bg_prio);
            self.pixel_fifo.set(fx, p);
            fx += 1;
        }
        proof {
            assert(self@.pixel_fifo =~= with_obj(f0, obj, x as int, ly as int, c.tiles));
        }
    }

    fn push_objs(&mut self, ly: u8, tiles: &TileData, lcd_ctrl: &LcdControlRegister, Ghost(c): Ghost<LineCtx>)
        requires
            tiles.wf(),
            c.tiles == tiles@,
            ctx_ok(c),
            c.ly == ly,
            c.lcdc == *lcd_ctrl,
            old(self)@.pixel_fifo.len() == 8,
            fifo_ok(old(self)@.pixel_fifo),
            old(self)@.scan_line_x <= 152,
            forall|i: int| 0 <= i < old(self)@.objs.len() ==> #[trigger] old(self)@.objs[i].valid(),
        ensures
            final(self)@ == pushed_objs(old(self)@, c),
            final(self)@.pixel_fifo.len() == 8,
            fifo_ok(final(self)@.pixel_fifo),
            forall|i: int| 0 <= i < final(self)@.objs.len() ==> #[trigger] final(self)@.objs[i].valid(),
    {
        if lcd_ctrl.obj_enable == false {
            return;
        }
        let x = self.scan_line_x;
        let ghost pred = ends_after(x as int);
        let mut kept: Vec<ObjAttribute> = Vec::new();
        let mut i: usize = 0;
        while i < self.objs.len()
            invariant
                i <= self@.objs.len(),
                pred == ends_after(x as int),
                kept@ == self@.objs.take(i as int).filter(pred),
                forall|k: int| 0 <= k < self@.objs.len() ==> #[trigger] self@.objs[k].valid(),
                forall|k: int| 0 <= k < kept@.len() ==> #[trigger] kept@[k].valid(),
            decreases self@.objs.len() - i,
        {
            let o = self.objs[i];
            let ghost prefix = self@.objs.take(i as int);
            proof {
                assert(self@.objs.take(i as int + 1) == prefix.push(o));
                prefix.lemma_filter_push(o, pred);
            }
            if o.right() > x as i16 {
                kept.push(o);
            }
            i += 1;
        }
        proof {
            assert(self@.objs.take(self@.objs.len() as int) == self@.objs);
        }
        let ghost before = self@;
        self.objs = kept;
        let ghost objs = self@.objs;
        let ghost f0 = self@.pixel_fifo;
        proof {
            assert(objs.skip(0) == objs);
        }
        let n = self.objs.len();
        let mut k: usize = 0;
        while k < n
            invariant
                n == objs.len(),
                k <= n,
                self@.objs == objs,
                self@ == (PpView { pixel_fifo: self@.pixel_fifo, objs, ..before }),
                self@.scan_line_x == x,
                x <= 152,
                tiles.wf(),
                c.tiles == tiles@,
                ctx_ok(c),
                self@.pixel_fifo.len() == 8,
                fifo_ok(self@.pixel_fifo),
                forall|j: int| 0 <= j < objs.len() ==> #[trigger] objs[j].valid(),
                forall|j: int| 0 <= j < objs.len() ==> (#[trigger] objs[j]).spec_left() + 8 > x,
                with_objs(self@.pixel_fifo, objs.skip(k as int), x as int, ly as int, c.tiles) == with_objs(
                    f0,
                    objs,
                    x as int,
                    ly as int,
                    c.tiles,
                ),
            ensures
                self@.pixel_fifo == with_objs(f0, objs, x as int, ly as int, c.tiles),
                self@ == (PpView { pixel_fifo: self@.pixel_fifo, objs, ..before }),
                self@.pixel_fifo.len() == 8,
                fifo_ok(self@.pixel_fifo),
            decreases n - k,
        {
            let obj = self.objs[k];
            let ghost rest = objs.skip(k as int);
            proof {
                assert(rest[0] == obj);
                assert(rest.drop_first() == objs.skip(k as int + 1));
            }
            if obj.left() > x as i16 + 8 {
                break;
            }
            proof {
                lemma_with_obj_ok(self@.pixel_fifo, obj, x as int, ly as int, c);
            }
            self.mix_obj(obj, x, ly, tiles, Ghost(c));
            k += 1;
        }
        proof {
            if k == n {
                assert(objs.skip(n as int) == Seq::<ObjAttribute>::empty());
            }
        }
    }
}

impl PixelProcessor {
    fn pop_pixels(
        &mut self,
        ly: u8,
        bg_palette: &BackgroundPalette,
        obj_palettes: &[BackgroundPalette],
        Ghost(c): Ghost<LineCtx>,
    )
        requires
            c.ly == ly,
            ly < 144,
            c.bg_palette == bg_palette@,
            obj_palettes@.len() == 2,
            c.obj_palettes == Seq::new(obj_palettes@.len(), |i: int| obj_palettes@[i]@),
            old(self)@.screen_buffer.len() == SCREEN_BUFFER_SIZE,
            old(self)@.scan_line_x <= 152,
            old(self)@.pixel_fifo.len() == 8,
            fifo_ok(old(self)@.pixel_fifo),
        ensures
            final(self)@ == popped(old(self)@, c),
    {
        let ghost before = self@;
        let ghost base = (ly as int * 160 + self.scan_line_x as int) * 4;
        let n = self.pixel_fifo.len();
        let mut x: usize = 0;
        while x < n
            invariant
                n == 8,
                x <= n,
                c.ly == ly,
                ly < 144,
                c.bg_palette == bg_palette@,
                obj_palettes@.len() == 2,
                c.obj_palettes == Seq::new(obj_palettes@.len(), |i: int| obj_palettes@[i]@),
                base == (ly as int * 160 + before.scan_line_x as int) * 4,
                before.scan_line_x <= 152,
                fifo_ok(before.pixel_fifo),
                before.pixel_fifo.len() == 8,
                before.screen_buffer.len() == SCREEN_BUFFER_SIZE,
                self@ == (PpView { screen_buffer: self@.screen_buffer, ..before }),
                self@.screen_buffer == Seq::new(
                    SCREEN_BUFFER_SIZE as nat,
                    |i: int|
                        if base <= i < base + 4 * x {
                            pixel_rgba(before.pixel_fifo[(i - base) / 4], c)[(i - base) % 4]
                        } else {
                            before.screen_buffer[i]
                        },
                ),
            decreases n - x,
        {
            let pixel = self.pixel_fifo[x];
            let screen_x = self.scan_line_x as usize + x;
            let screen_y = ly as usize;
            let screen_index = (screen_y * 160 + screen_x) * 4;
            proof {
                bg_palette.lemma_len();
                obj_palettes@[0].lemma_len();
                obj_palettes@[1].lemma_len();
            }
            let rgba = if pixel.is_bg {
                bg_palette.to_rgba(pixel.color_id)
            } else {
                obj_palettes[pixel.palette_id].to_rgba(pixel.color_id)
            };
            proof {
                assert(rgba.rgba@ == pixel_rgba(pixel, c));
            }
            let ghost prev = self@.screen_buffer;
            self.screen_buffer.set(screen_index, rgba.rgba[0]);
            self.screen_buffer.set(screen_index + 1, rgba.rgba[1]);
            self.screen_buffer.set(screen_index + 2, rgba.rgba[2]);
            self.screen_buffer.set(screen_index + 3, rgba.rgba[3]);
            proof {
                assert(screen_index == base + 4 * x);
                assert forall|i: int| 0 <= i < SCREEN_BUFFER_SIZE implies #[trigger] self@.screen_buffer[i] == (
                if base <= i < base + 4 * (x + 1) {
                    pixel_rgba(before.pixel_fifo[(i - base) / 4], c)[(i - base) % 4]
                } else {
                    before.screen_buffer[i]
                }) by {
                    if base + 4 * x <= i < base + 4 * (x + 1) {
                        assert((i - base) / 4 == x);
                        assert((i - base) % 4 == i - screen_index);
                    }
                }
                assert(self@.screen_buffer =~= Seq::new(
                    SCREEN_BUFFER_SIZE as nat,
                    |i: int|
                        if base <= i < base + 4 * (x + 1) {
                            pixel_rgba(before.pixel_fifo[(i - base) / 4], c)[(i - base) % 4]
                        } else {
                            before.screen_buffer[i]
                        },
                ));
            }
            x += 1;
        }
        self.pixel_fifo.clear();
        proof {
            assert(self@.screen_buffer =~= drawn(before.screen_buffer, before.pixel_fifo, before.scan_line_x as int, c));
            assert(self@.pixel_fifo =~= Seq::<Pixel>::empty());
        }
    }
}

impl PixelProcessor {
    /// Runs the pipeline up to dot `dots` of line `ly`, as `processed` says.
    #[verifier::rlimit(60)]
    #[verifier::spinoff_prover]
    pub fn process(
        &mut self,
        ly: u8,
        dots: u16,
        viewport: &Point,
        lcd_ctrl: &LcdControlRegister,
        vram: &[u8],
        tiles: &TileData,
        bg_palette: &BackgroundPalette,
        obj_palettes: &[BackgroundPalette],
    )
        requires
            pp_ok(old(self)@),
            ly < 144,
            vram@.len() == 0x2000,
            tiles.wf(),
            obj_palettes@.len() == 2,
        ensures
            pp_ok(final(self)@),
            final(self)@ == processed(
                old(self)@,
                dots,
                ctx_of(ly, *viewport, *lcd_ctrl, vram@, tiles@, bg_palette@, palettes_view(obj_palettes@)),
            ),
    {
        let ghost c = ctx_of(ly, *viewport, *lcd_ctrl, vram@, tiles@, bg_palette@, palettes_view(obj_palettes@));
        proof {
            tiles.lemma_wf();
            bg_palette.lemma_len();
            obj_palettes@[0].lemma_len();
            obj_palettes@[1].lemma_len();
            assert(ctx_ok(c));
        }
        if dots < self.old_dots {
            return;
        }
        let gap: u16 = dots - self.old_dots;
        let mut delta_dots: i16 = gap as i16;
        let ghost s0 = self@;
        let ghost d0 = delta_dots as int;
        assert(gap == (dots - s0.old_dots) as u16);
        assert(d0 == ((dots - s0.old_dots) as u16) as i16);
        while delta_dots > 0 && !self.finished()
            invariant
                c == ctx_of(ly, *viewport, *lcd_ctrl, vram@, tiles@, bg_palette@, palettes_view(obj_palettes@)),
                ctx_ok(c),
                tiles.wf(),
                vram@.len() == 0x2000,
                obj_palettes@.len() == 2,
                ly < 144,
                pp_ok(self@),
                delta_dots <= d0,
                -3 <= delta_dots || delta_dots == d0,
                d0 == ((dots - s0.old_dots) as u16) as i16,
                d0 <= 0x7FFF,
                run(self@, delta_dots as int, c) == run(s0, d0, c),
            ensures
                pp_ok(self@),
                delta_dots <= d0,
                -3 <= delta_dots || delta_dots == d0,
                run(s0, d0, c) == (self@, delta_dots as int),
            decreases delta_dots + 3,
        {
            let ghost st = self@;
            let ghost dt = delta_dots as int;
            let ghost tn = turn(st, dt, c);
            if self.curr_step == Step::GetTileIndex {
                self.get_tile_index(lcd_ctrl, ly, viewport, vram);
                delta_dots -= 2;
                self.curr_step = Step::GetTileData;
            }
            let ghost s1 = self@;
            let ghost d1 = delta_dots as int;
            if delta_dots <= 0 {
                proof {
                    assert(tn == (s1, d1, true));
                }
                break;
            }
            if self.curr_step == Step::GetTileData {
                self.get_tile_data(tiles, lcd_ctrl);
                delta_dots -= 4;
                self.curr_step = Step::PushBg;
            }
            let ghost s2 = self@;
            let ghost d2 = delta_dots as int;
            if delta_dots <= 0 {
                proof {
                    assert(tn == (s2, d2, true));
                }
                break;
            }
            if self.curr_step == Step::PushBg {
                self.push_bg(tiles, Ghost(c));
                self.curr_step = Step::PushObjs;
                delta_dots -= 1;
            }
            if self.curr_step == Step::PushObjs {
                self.curr_step = Step::PopPixels;
                self.push_objs(ly, tiles, lcd_ctrl, Ghost(c));
                delta_dots -= 1;
            }
            if self.curr_step == Step::PopPixels {
                self.curr_step = Step::GetTileIndex;
                self.pop_pixels(ly, bg_palette, obj_palettes, Ghost(c));
                self.scan_line_x += 8;
                delta_dots -= 1;
            }
            proof {
                assert(tn == (self@, delta_dots as int, false));
                assert(pp_ok(self@));
            }
        }
        let left = delta_dots;
        proof {
            assert(((dots as i16).wrapping_sub(left)) as u16 == (dots - left) as u16) by (bit_vector);
        }
        self.old_dots = (dots as i16).wrapping_sub(left) as u16;
    }
}

/// A context with the given line, viewport, LCDC and VRAM (the other parts
/// empty): what fetching the tile index and data reads.
pub open spec fn ctx_of_parts(ly: u8, viewport: Point, lcdc: LcdControlRegister, vram: Seq<u8>) -> LineCtx {
    LineCtx { ly, viewport, lcdc, vram, tiles: Seq::empty(), bg_palette: Seq::empty(), obj_palettes: Seq::empty() }
}

} // verus!
