//! Tiles: 8x8 pixels of two-bit colour ids, and the 384 tiles of VRAM.
use vstd::prelude::*;

use crate::bits::lemma_signed_byte;

verus! {

pub const TILE_WIDTH: u32 = 8;
pub const TILE_HEIGHT: u32 = 8;
pub const TILE_DATA_SIZE: usize = 16;
pub const TILE_BLOCK_SIZE: usize = 128;

/// The number of tiles in VRAM: three blocks of 128.
pub const TILE_COUNT: usize = 384;

/// The colour id of pixel `x` of a line whose bit planes are `msb` and
/// `lsb`: bit `7 - x` of `msb` is its high bit, the same bit of `lsb` its
/// low bit.
pub open spec fn color_id(msb: u8, lsb: u8, x: int) -> u8 {
    (((msb >> ((7 - x) as u8)) & 1) * 2 + ((lsb >> ((7 - x) as u8)) & 1)) as u8
}

/// The eight colour ids of a line.
pub open spec fn decoded_line(msb: u8, lsb: u8) -> Seq<u8> {
    Seq::new(8, |x: int| color_id(msb, lsb, x))
}

/// Whether every pixel of a tile holds a colour id below 4.
pub open spec fn colors_ok(t: Seq<Seq<u8>>) -> bool {
    forall|y: int, x: int| 0 <= y < 8 && 0 <= x < 8 ==> #[trigger] t[y][x] < 4
}

/// A colour id is below 4.
pub proof fn lemma_color_id_bound(msb: u8, lsb: u8, x: int)
    requires
        0 <= x < 8,
    ensures
        color_id(msb, lsb, x) < 4,
{
    let s = (7 - x) as u8;
    assert(((msb >> s) & 1) * 2 + ((lsb >> s) & 1) < 4) by (bit_vector);
}

/// A decoded line holds colour ids below 4.
pub proof fn lemma_decoded_line_bound(msb: u8, lsb: u8)
    ensures
        decoded_line(msb, lsb).len() == 8,
        forall|x: int| 0 <= x < 8 ==> #[trigger] decoded_line(msb, lsb)[x] < 4,
{
    assert forall|x: int| 0 <= x < 8 implies #[trigger] decoded_line(msb, lsb)[x] < 4 by {
        lemma_color_id_bound(msb, lsb, x);
    }
}

/// A line of eight zero colour ids.
pub open spec fn zero_line() -> Seq<u8> {
    Seq::new(8, |x: int| 0u8)
}

/// A tile whose pixels are all colour 0.
pub open spec fn zero_tile() -> Seq<Seq<u8>> {
    Seq::new(8, |y: int| zero_line())
}

/// The pixels of a tile, line by line.
#[derive(Clone, Copy, Debug)]
pub struct Tile {
    pub pixels: [[u8; 8]; 8],
}

impl View for Tile {
    type V = Seq<Seq<u8>>;

    open spec fn view(&self) -> Seq<Seq<u8>> {
        Seq::new(8, |y: int| self.pixels@[y]@)
    }
}

impl Default for Tile {
    fn default() -> (r: Self)
        ensures
            r@ == zero_tile(),
    {
        let r = Self { pixels: [[0u8; 8]; 8] };
        proof {
            assert forall|y: int| 0 <= y < 8 implies r@[y] == zero_line() by {
                assert(r.pixels@[y]@ =~= zero_line());
            }
            assert(r@ =~= zero_tile());
        }
        r
    }
}

impl Tile {
    /// Decodes the tile from its data, two bytes per line (low bit plane
    /// first; an odd last byte is left out); lines past the data stay as
    /// they were in a zero tile. Data of more than eight lines has no place
    /// in a tile.
    pub fn from_data(data: &[u8]) -> (r: Self)
        requires
            data@.len() / 2 <= 8,
        ensures
            forall|y: int|
                0 <= y < 8 ==> #[trigger] r@[y] == if y < data@.len() / 2 {
                    decoded_line(data@[2 * y + 1], data@[2 * y])
                } else {
                    zero_line()
                },
    {
        let mut tile = Self::default();
        let mut index: usize = 0;
        let n = data.len() / 2;
        while index < n
            invariant
                n == data@.len() / 2,
                n <= 8,
                index <= n,
                forall|y: int|
                    0 <= y < 8 ==> #[trigger] tile@[y] == if y < index {
                        decoded_line(data@[2 * y + 1], data@[2 * y])
                    } else {
                        zero_line()
                    },
            decreases n - index,
        {
            tile.decode_line(index, data[2 * index + 1], data[2 * index]);
            index += 1;
        }
        tile
    }

    /// Decodes line `line_index` from its two bit planes.
    pub fn decode_line(&mut self, line_index: usize, msb: u8, lsb: u8)
        requires
            line_index < 8,
        ensures
            final(self)@ == old(self)@.update(line_index as int, decoded_line(msb, lsb)),
    {
        let mut row = self.pixels[line_index];
        let mut x: usize = 0;
        while x < 8
            invariant
                x <= 8,
                forall|i: int| 0 <= i < x ==> #[trigger] row@[i] == color_id(msb, lsb, i),
            decreases 8 - x,
        {
            let shift: u8 = (7 - x) as u8;
            let msb_t = ((msb >> shift) & 0b1) << 1u8;
            let lsb_t = (lsb >> shift) & 0b1;
            proof {
                assert(((msb >> shift) & 0b1) << 1u8 == ((msb >> shift) & 1) * 2) by (bit_vector);
                assert((msb >> shift) & 1 <= 1 && (lsb >> shift) & 1 <= 1) by (bit_vector);
            }
            let color_id = msb_t + lsb_t;
            row[x] = color_id;
            x += 1;
        }
        let ghost before = self@;
        self.pixels[line_index] = row;
        proof {
            assert(row@ =~= decoded_line(msb, lsb));
            assert(self@ =~= before.update(line_index as int, decoded_line(msb, lsb)));
        }
    }
}

/// The 384 tiles of VRAM.
pub struct TileData {
    tiles: Vec<Tile>,
}

impl View for TileData {
    type V = Seq<Seq<Seq<u8>>>;

    closed spec fn view(&self) -> Seq<Seq<Seq<u8>>> {
        Seq::new(self.tiles@.len(), |i: int| self.tiles@[i]@)
    }
}

/// The index in the tile list of tile `index` of a tile map: in the
/// unsigned area (`tile_area_select`) the index itself; in the signed area
/// 0 to 127 are in the third block and 128 to 255 in the second.
pub open spec fn tile_index_of(index: int, tile_area_select: bool) -> int {
    if tile_area_select {
        index
    } else if index < 128 {
        2 * 128 + index
    } else {
        128 + index - 128
    }
}

/// A background map entry `e` names the tile whose 16 bytes start in VRAM
/// at 0x8000 + 16 * e in the unsigned area (LCDC bit 4 set), and at
/// 0x9000 + 16 * e with `e` read as a signed byte in the signed area (bit 4
/// clear); tile `k` of the list is the one whose data starts at
/// 0x8000 + 16 * k, as `write_line` decodes it. So entry 0 names tile 256
/// in the signed area and entry 0x80 tile 128, and every entry names one
/// of the 384 tiles.
pub proof fn law_bg_map_entry_tile(e: u8)
    ensures
        0x8000 + 16 * tile_index_of(e as int, true) == 0x8000 + 16 * (e as int),
        0x8000 + 16 * tile_index_of(e as int, false) == 0x9000 + 16 * ((e as i8) as int),
        0 <= tile_index_of(e as int, true) < TILE_COUNT,
        0 <= tile_index_of(e as int, false) < TILE_COUNT,
{
    lemma_signed_byte(e);
}

impl TileData {
    /// The list holds 384 tiles, whose pixels hold colour ids below 4.
    pub closed spec fn wf(&self) -> bool {
        &&& self.tiles@.len() == TILE_COUNT
        &&& forall|i: int| 0 <= i < TILE_COUNT ==> colors_ok(#[trigger] self.tiles@[i]@)
    }

    pub proof fn lemma_wf(&self)
        requires
            self.wf(),
        ensures
            self@.len() == TILE_COUNT,
            forall|i: int| 0 <= i < TILE_COUNT ==> colors_ok(#[trigger] self@[i]),
            forall|i: int| 0 <= i < TILE_COUNT ==> (#[trigger] self@[i]).len() == 8,
            forall|i: int, y: int| 0 <= i < TILE_COUNT && 0 <= y < 8 ==> (#[trigger] self@[i][y]).len() == 8,
    {
    }

    /// A list of 384 zero tiles.
    pub fn new() -> (r: Self)
        ensures
            r.wf(),
            r@ == Seq::new(TILE_COUNT as nat, |i: int| zero_tile()),
    {
        let mut tiles: Vec<Tile> = Vec::new();
        let mut i: usize = 0;
        while i < 3 * TILE_BLOCK_SIZE
            invariant
                i <= TILE_COUNT,
                tiles@.len() == i,
                forall|k: int| 0 <= k < i ==> #[trigger] tiles@[k]@ == zero_tile(),
            decreases TILE_COUNT - i,
        {
            tiles.push(Tile::default());
            proof {
                assert(colors_ok(zero_tile()));
            }
            i += 1;
        }
        let r = Self { tiles };
        proof {
            assert(r@ =~= Seq::new(TILE_COUNT as nat, |i: int| zero_tile()));
            assert(colors_ok(zero_tile()));
        }
        r
    }

    /// Makes every tile a zero tile.
    pub fn clear(&mut self)
        requires
            old(self).wf(),
        ensures
            final(self).wf(),
            final(self)@ == Seq::new(TILE_COUNT as nat, |i: int| zero_tile()),
    {
        let mut i: usize = 0;
        while i < self.tiles.len()
            invariant
                self.tiles@.len() == TILE_COUNT,
                i <= TILE_COUNT,
                forall|k: int| 0 <= k < i ==> #[trigger] self.tiles@[k]@ == zero_tile(),
            decreases TILE_COUNT - i,
        {
            self.tiles.set(i, Tile::default());
            i += 1;
        }
        proof {
            assert(self@ =~= Seq::new(TILE_COUNT as nat, |i: int| zero_tile()));
            assert(colors_ok(zero_tile()));
        }
    }

    /// The tiles.
    pub fn list(&self) -> (r: &Vec<Tile>)
        ensures
            r@.len() == self@.len(),
            forall|i: int| 0 <= i < r@.len() ==> #[trigger] r@[i]@ == self@[i],
    {
        &self.tiles
    }

    pub fn tile_index_from_bg_map(&self, index: usize, tile_area_select: bool) -> (r: usize)
        requires
            !tile_area_select ==> index + 2 * TILE_BLOCK_SIZE <= usize::MAX,
        ensures
            r == tile_index_of(index as int, tile_area_select),
    {
        if tile_area_select {
            return index;
        } else if index < 128 {
            return 2 * TILE_BLOCK_SIZE + index;
        } else {
            return TILE_BLOCK_SIZE + index - 128;
        }
    }

    /// Decodes a line of the tile whose data holds byte `addr` of VRAM:
    /// tile `addr / 16`, line `(addr % 16) / 2`.
    pub fn write_line(&mut self, addr: usize, msb: u8, lsb: u8)
        requires
            old(self).wf(),
            addr < TILE_COUNT * TILE_DATA_SIZE,
        ensures
            final(self).wf(),
            final(self)@ == old(self)@.update(
                addr as int / 16,
                old(self)@[addr as int / 16].update((addr as int % 16) / 2, decoded_line(msb, lsb)),
            ),
    {
        let index = addr / TILE_DATA_SIZE;
        let line_index = (addr % TILE_DATA_SIZE) / 2;
        let mut tile = self.tiles[index];
        tile.decode_line(line_index, msb, lsb);
        proof {
            lemma_decoded_line_bound(msb, lsb);
            assert(colors_ok(tile@));
        }
        let ghost before = self@;
        self.tiles.set(index, tile);
        proof {
            assert(self@ =~= before.update(
                addr as int / 16,
                before[addr as int / 16].update((addr as int % 16) / 2, decoded_line(msb, lsb)),
            ));
        }
    }
}

} // verus!
