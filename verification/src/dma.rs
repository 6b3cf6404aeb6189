//! OAM DMA: a copy of 160 bytes into the sprite table, one byte per cycle.
use vstd::prelude::*;

use crate::mbc::{mbc_read, MbcView, MBC};
use crate::memory_map::{
    CART_RAM_END, CART_RAM_START, CART_ROM_ACTIVE_BANK_END, CART_ROM_BANK0_START, OBJ_ATTRIBUTE_TABLE_SIZE,
    OBJ_ATTRIBUTE_TABLE_START, VRAM_END, VRAM_START,
};
use crate::oam::{ObjAttribute, ObjAttributeMemory};
use crate::ppu::{vram_read, PpuView, PPU};
use crate::GbError;

verus! {

/// Where the copy reads from.
#[derive(Clone, Copy, Debug, PartialEq, Eq, Structural)]
pub enum SourceType {
    Cart,
    Vram,
}

/// The DMA controller.
pub struct DMA {
    source_addr: u16,
    curr_index: u16,
    source_type: SourceType,
    started: bool,
}

/// What the DMA controller holds.
pub struct DmaView {
    pub source_addr: u16,
    pub curr_index: u16,
    pub source_type: SourceType,
    pub started: bool,
}

impl View for DMA {
    type V = DmaView;

    closed spec fn view(&self) -> DmaView {
        DmaView {
            source_addr: self.source_addr,
            curr_index: self.curr_index,
            source_type: self.source_type,
            started: self.started,
        }
    }
}

/// The byte a copy reads at `addr`: from VRAM (as the CPU would read it)
/// or from the cartridge.
pub open spec fn dma_source_read(d: DmaView, mbc: MbcView, ppu: PpuView, addr: u16) -> Result<u8, GbError> {
    match d.source_type {
        SourceType::Vram => Ok(vram_read(ppu, addr)),
        SourceType::Cart => mbc_read(mbc, addr),
    }
}

/// What copying up to `n` bytes does: each byte is read from the source
/// plus the index and written at the index in the sprite table; a refused
/// read stops the copy with its error, and after the 160th byte the copy
/// ends.
pub open spec fn dma_run(d: DmaView, oam: Seq<ObjAttribute>, mbc: MbcView, ppu: PpuView, n: int) -> (DmaView, Seq<ObjAttribute>, Result<(), GbError>)
    decreases n,
{
    if !d.started || n <= 0 {
        (d, oam, Ok(()))
    } else {
        match dma_source_read(d, mbc, ppu, (d.source_addr + d.curr_index) as u16) {
            Err(e) => (d, oam, Err(e)),
            Ok(b) => {
                let k = d.curr_index as int;
                let oam2 = oam.update(k / 4, oam[k / 4].with_byte(k % 4, b));
                if k + 1 == 160 {
                    (DmaView { curr_index: 160, started: false, ..d }, oam2, Ok(()))
                } else {
                    dma_run(DmaView { curr_index: (k + 1) as u16, ..d }, oam2, mbc, ppu, n - 1)
                }
            },
        }
    }
}

/// The controller after `value` is written to its register: a copy from
/// the page `value * 0x100` starts when that page is in cartridge ROM, VRAM
/// or cartridge RAM; from any other page nothing is copied (and the source
/// kind is kept).
pub open spec fn dma_written(d: DmaView, value: u8) -> DmaView {
    let source_addr = (value as u16 * 0x100) as u16;
    if value <= 0x7F || 0xA0 <= value <= 0xBF {
        DmaView { source_addr, curr_index: 0, source_type: SourceType::Cart, started: true }
    } else if value <= 0x9F {
        DmaView { source_addr, curr_index: 0, source_type: SourceType::Vram, started: true }
    } else {
        DmaView { source_addr, curr_index: 0, source_type: d.source_type, started: false }
    }
}

/// The register reads back the page written to it, and the copy reads
/// from that page.
pub proof fn law_dma_register_round_trip(d: DmaView, value: u8)
    ensures
        (dma_written(d, value).source_addr >> 8u16) as u8 == value,
        dma_written(d, value).source_addr == value as int * 0x100,
{
    let a = (value as u16 * 0x100) as u16;
    assert(a == value as int * 0x100);
    assert((((value as u16 * 0x100) as u16) >> 8u16) as u8 == value) by (bit_vector);
}

impl DMA {
    /// The copy is at most 160 bytes in, and a running copy reads a page
    /// of VRAM, or of cartridge ROM or RAM, as its source kind says.
    pub closed spec fn wf(&self) -> bool {
        &&& self.curr_index <= OBJ_ATTRIBUTE_TABLE_SIZE
        &&& (self.started ==> self.curr_index < OBJ_ATTRIBUTE_TABLE_SIZE)
        &&& (self.started ==> self.source_addr <= 0xBF00)
        &&& (self.started && self.source_type == SourceType::Vram ==> 0x8000 <= self.source_addr <= 0x9F00)
    }

    /// An idle controller.
    pub fn new() -> (r: Self)
        ensures
            r.wf(),
            r@ == (DmaView { source_addr: 0, curr_index: 0, source_type: SourceType::Cart, started: false }),
    {
        Self { source_addr: 0, curr_index: 0, source_type: SourceType::Cart, started: false }
    }

    /// Starts a copy from the page `src * 0x100`, as `dma_written` says.
    pub fn write_reg(&mut self, src: u8)
        requires
            old(self).wf(),
        ensures
            final(self).wf(),
            final(self)@ == dma_written(old(self)@, src),
    {
        self.source_addr = (src as u16) * 0x100;
        self.started = true;
        self.curr_index = 0;
        match self.source_addr {
            CART_ROM_BANK0_START..=CART_ROM_ACTIVE_BANK_END => self.source_type = SourceType::Cart,
            VRAM_START..=VRAM_END => self.source_type = SourceType::Vram,
            CART_RAM_START..=CART_RAM_END => self.source_type = SourceType::Cart,
            _ => {
                self.started = false;
            },
        }
    }

    /// The high byte of the source address.
    pub fn read_reg(&self) -> (r: u8)
        ensures
            r == (self@.source_addr >> 8u16) as u8,
    {
        (self.source_addr >> 8u16) as u8
    }

    /// Copies up to `cycles` bytes, one per cycle, as `dma_run` says.
    pub fn step(&mut self, ppu: &PPU, mbc: &MBC, oam: &mut ObjAttributeMemory, cycles: u8) -> (r: Result<(), GbError>)
        requires
            old(self).wf(),
            ppu.inv(),
        ensures
            final(self).wf(),
            (final(self)@, final(oam)@, r) == dma_run(old(self)@, old(oam)@, mbc@, ppu@, cycles as int),
    {
        if self.started {
            let mut n: u8 = 0;
            while n < cycles
                invariant_except_break
                    self.started,
                invariant
                    self.wf(),
                    ppu.inv(),
                    n <= cycles,
                    dma_run(self@, oam@, mbc@, ppu@, (cycles - n) as int) == dma_run(old(self)@, old(oam)@, mbc@, ppu@, cycles as int),
                ensures
                    self.wf(),
                    dma_run(self@, oam@, mbc@, ppu@, (cycles - n) as int) == dma_run(old(self)@, old(oam)@, mbc@, ppu@, cycles as int),
                    n == cycles || !self.started,
                decreases cycles - n,
            {
                let data = match self.source_type {
                    SourceType::Vram => ppu.read_byte(self.source_addr + self.curr_index),
                    SourceType::Cart => mbc.read_byte(self.source_addr + self.curr_index),
                };
                let data = match data {
                    Ok(b) => b,
                    Err(e) => {
                        return Err(e);
                    },
                };
                oam.write_byte(OBJ_ATTRIBUTE_TABLE_START + self.curr_index, data)?;
                self.curr_index += 1;
                n += 1;
                if self.curr_index as usize == OBJ_ATTRIBUTE_TABLE_SIZE {
                    self.started = false;
                    break;
                }
            }
        }
        Ok(())
    }
}

} // verus!
