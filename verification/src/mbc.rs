//! The memory bank controller of the cartridge: ROM and RAM banks and the
//! registers that switch them.
use vstd::prelude::*;

use crate::bits::lemma_byte_bits;
use crate::cart_header::{
    header_error, header_of, header_ok, parse_defined, CartHeader, CartType, MapperType, CART_HEADER_SIZE, CART_TYPE, ROM_SIZE,
    ROM_VERSION_NUMBER,
};
use crate::memory_map::CART_ROM_ACTIVE_BANK_START;
use crate::endian::{le_word, read_u16_le};
use crate::GbError;

verus! {

pub const ROM_BANK_SIZE: usize = 0x4000;
pub const RAM_BANK_SIZE: usize = 0x2000;

pub const RAM_ENABLE_REG_START: u16 = 0x0000;
pub const RAM_ENABLE_REG_END: u16 = 0x1FFF;
pub const BANK_REG1_START: u16 = 0x2000;
pub const BANK_REG1_END: u16 = 0x3FFF;
pub const BANK_REG2_START: u16 = 0x4000;
pub const BANK_REG2_END: u16 = 0x5FFF;
pub const BANK_MODE_START: u16 = 0x6000;
pub const BANK_MODE_END: u16 = 0x7FFF;

pub const RAM_ENABLE_NUMBER: u8 = 0x0A;

/// How the second bank register is used.
#[derive(Debug, Clone, Copy, PartialEq, Eq, Structural)]
pub enum BankingMode {
    Simple,
    Advanced,
}

/// A snapshot of the controller, for display.
#[derive(Clone, Copy, Debug)]
pub struct MbcState {
    pub mbc_type: MapperType,
    pub active_rom_bank: u16,
    pub active_ram_bank: u16,
    pub rom_banks_count: u16,
    pub ram_banks_count: u16,
    pub ram_enable: bool,
    pub banking_mode: BankingMode,
}

/// The snapshot of the controller's registers in `m`.
pub open spec fn mbc_state_of(m: MbcView) -> MbcState {
    MbcState {
        mbc_type: m.mbc_type,
        active_rom_bank: m.active_rom_bank,
        active_ram_bank: m.active_ram_bank,
        rom_banks_count: m.rom_banks_count,
        ram_banks_count: m.ram_banks_count,
        ram_enable: m.ram_enable,
        banking_mode: m.banking_mode,
    }
}

/// The cartridge: its ROM, its RAM and the controller's registers.
pub struct MBC {
    mbc_type: MapperType,
    rom: Vec<u8>,
    ram: Vec<u8>,
    rom_banks_count: u16,
    ram_banks_count: u16,
    active_rom_bank: u16,
    active_ram_bank: u16,
    ram_enable: bool,
    banking_mode: BankingMode,
}

/// What the cartridge holds.
pub struct MbcView {
    pub mbc_type: MapperType,
    pub rom: Seq<u8>,
    pub ram: Seq<u8>,
    pub rom_banks_count: u16,
    pub ram_banks_count: u16,
    pub active_rom_bank: u16,
    pub active_ram_bank: u16,
    pub ram_enable: bool,
    pub banking_mode: BankingMode,
}

impl View for MBC {
    type V = MbcView;

    closed spec fn view(&self) -> MbcView {
        MbcView {
            mbc_type: self.mbc_type,
            rom: self.rom@,
            ram: self.ram@,
            rom_banks_count: self.rom_banks_count,
            ram_banks_count: self.ram_banks_count,
            active_rom_bank: self.active_rom_bank,
            active_ram_bank: self.active_ram_bank,
            ram_enable: self.ram_enable,
            banking_mode: self.banking_mode,
        }
    }
}

/// Where in the ROM image the address `addr` of the switchable area reads:
/// its offset in the area plus the active bank times the bank size.
pub open spec fn rom_offset(m: MbcView, addr: u16) -> int {
    addr - 0x4000 + m.active_rom_bank * 0x4000
}

/// Where in the RAM the address `addr` of the cartridge RAM area reads.
pub open spec fn ram_offset(m: MbcView, addr: u16) -> int {
    addr - 0xA000 + m.active_ram_bank * 0x2000
}

/// The byte at `off` of `data`, or the out-of-bounds error for `addr` when
/// `data` is shorter.
pub open spec fn byte_in(data: Seq<u8>, off: int, addr: u16) -> Result<u8, GbError> {
    if 0 <= off < data.len() { Ok(data[off]) } else { Err(GbError::MbcAddrOutOfBounds(addr)) }
}

/// The little-endian word at `off` of `data`, or the out-of-bounds error
/// for `addr` when `data` is shorter.
pub open spec fn word_in(data: Seq<u8>, off: int, addr: u16) -> Result<u16, GbError> {
    if 0 <= off && off + 1 < data.len() {
        Ok(le_word(data[off], data[off + 1]))
    } else {
        Err(GbError::MbcAddrOutOfBounds(addr))
    }
}

/// What reading the cartridge at `addr` returns: bank 0, the switchable
/// bank, or the RAM (0xFF while it is disabled).
pub open spec fn mbc_read(m: MbcView, addr: u16) -> Result<u8, GbError> {
    if addr <= 0x3FFF {
        byte_in(m.rom, addr as int, addr)
    } else if addr <= 0x7FFF {
        byte_in(m.rom, rom_offset(m, addr), addr)
    } else if 0xA000 <= addr <= 0xBFFF {
        if m.ram_enable { byte_in(m.ram, ram_offset(m, addr), addr) } else { Ok(0xFF) }
    } else {
        Err(GbError::AddrOutOfBounds(addr))
    }
}

/// What reading a word of the cartridge at `addr` returns.
pub open spec fn mbc_read_word(m: MbcView, addr: u16) -> Result<u16, GbError> {
    if addr <= 0x3FFF {
        word_in(m.rom, addr as int, addr)
    } else if addr <= 0x7FFF {
        word_in(m.rom, rom_offset(m, addr), addr)
    } else if 0xA000 <= addr <= 0xBFFF {
        if m.ram_enable { word_in(m.ram, ram_offset(m, addr), addr) } else { Ok(0xFFFF) }
    } else {
        Err(GbError::AddrOutOfBounds(addr))
    }
}

/// The cartridge after writing `byte` at `addr`, and the result. Writes to
/// the ROM area set the controller's registers: RAM enable (0x0A in the low
/// nibble), the two bank registers (the first sets bits 0 to 4 of the
/// active ROM bank to the low five bits of the byte, 0 selecting 1; the
/// second sets bits 5 and 6 to those of the byte and selects the RAM bank
/// from its two low bits when there are several RAM banks), and the
/// banking mode. Writes to
/// the RAM area store the byte while RAM is enabled.
pub open spec fn mbc_write(m: MbcView, addr: u16, byte: u8) -> (MbcView, Result<(), GbError>) {
    if addr <= 0x1FFF {
        (MbcView { ram_enable: byte % 16 == 0x0A, ..m }, Ok(()))
    } else if addr <= 0x3FFF {
        let v: u16 = if byte % 32 == 0 { 1 } else { (byte % 32) as u16 };
        (MbcView { active_rom_bank: (m.active_rom_bank & 0xE0) | v, ..m }, Ok(()))
    } else if addr <= 0x5FFF {
        (MbcView {
            active_rom_bank: (m.active_rom_bank & 0x1F) | ((byte & 0x60) as u16),
            active_ram_bank: if m.ram_banks_count > 1 { (byte % 4) as u16 } else { m.active_ram_bank },
            ..m
        }, Ok(()))
    } else if addr <= 0x7FFF {
        (MbcView { banking_mode: if byte % 2 == 0 { BankingMode::Simple } else { BankingMode::Advanced }, ..m }, Ok(()))
    } else if 0xA000 <= addr <= 0xBFFF {
        if m.ram_enable {
            let off = ram_offset(m, addr);
            if 0 <= off < m.ram.len() {
                (MbcView { ram: m.ram.update(off, byte), ..m }, Ok(()))
            } else {
                (m, Err(GbError::MbcAddrOutOfBounds(addr)))
            }
        } else {
            (m, Ok(()))
        }
    } else {
        (m, Err(GbError::AddrOutOfBounds(addr)))
    }
}

/// The cartridge that a ROM image yields: the image as ROM, RAM of the
/// header's size, bank 1 active, RAM disabled.
pub open spec fn mbc_of(rom: Seq<u8>) -> MbcView {
    let h = header_of(rom);
    MbcView {
        mbc_type: h.cart_type.mapper_type,
        rom: rom,
        ram: Seq::new((0x2000 * h.ram_banks) as nat, |i: int| 0u8),
        rom_banks_count: h.rom_banks,
        ram_banks_count: h.ram_banks,
        active_rom_bank: 1,
        active_ram_bank: 0,
        ram_enable: false,
        banking_mode: BankingMode::Simple,
    }
}

/// The inputs on which building a cartridge does not panic: the header can
/// be parsed without panicking, and when it parses, the image is not
/// shorter than the ROM size it announces.
pub open spec fn mbc_new_defined(rom: Seq<u8>) -> bool {
    parse_defined(rom) && (header_ok(rom) ==> rom.len() >= 0x4000 * header_of(rom).rom_banks)
}

fn zeros(n: usize) -> (r: Vec<u8>)
    ensures
        r@ == Seq::new(n as nat, |i: int| 0u8),
{
    let mut v: Vec<u8> = Vec::new();
    let mut i: usize = 0;
    while i < n
        invariant
            i <= n,
            v@ == Seq::new(i as nat, |j: int| 0u8),
        decreases n - i,
    {
        v.push(0);
        i += 1;
    }
    v
}

impl Default for MBC {
    /// No cartridge: empty ROM and RAM.
    fn default() -> (r: Self)
        ensures
            r@ == (MbcView {
                mbc_type: MapperType::NoMbc,
                rom: Seq::empty(),
                ram: Seq::empty(),
                rom_banks_count: 0,
                ram_banks_count: 0,
                active_rom_bank: 0,
                active_ram_bank: 0,
                ram_enable: false,
                banking_mode: BankingMode::Simple,
            }),
    {
        MBC {
            mbc_type: MapperType::NoMbc,
            rom: Vec::new(),
            ram: Vec::new(),
            rom_banks_count: 0,
            ram_banks_count: 0,
            active_rom_bank: 0,
            active_ram_bank: 0,
            ram_enable: false,
            banking_mode: BankingMode::Simple,
        }
    }
}

impl MBC {
    /// Builds the cartridge from a ROM image; a header that does not parse,
    /// or a ROM size above what the header announces, is an error.
    pub fn new(rom: &[u8]) -> (r: Result<MBC, GbError>)
        requires
            mbc_new_defined(rom@),
        ensures
            r is Ok <==> (header_ok(rom@) && rom@.len() <= 0x4000 * header_of(rom@).rom_banks),
            r is Ok ==> r->Ok_0@ == mbc_of(rom@),
            r is Err ==> (r matches Err(GbError::HeaderParsing(m)) && m@ == (if header_ok(rom@) {
                "invalid rom size"@
            } else {
                header_error(rom@)
            })),
    {
        let header = CartHeader::parse(rom)?;
        let header_rom_size: usize = ROM_BANK_SIZE * header.rom_banks() as usize;
        if header_rom_size < rom.len() {
            return Err(GbError::HeaderParsing("invalid rom size".to_owned()));
        }
        let mut mbc_rom: Vec<u8> = Vec::new();
        let mut i: usize = 0;
        while i < rom.len()
            invariant
                i <= rom@.len(),
                mbc_rom@ == rom@.subrange(0, i as int),
            decreases rom@.len() - i,
        {
            mbc_rom.push(rom[i]);
            i += 1;
        }
        assert(mbc_rom@ == rom@);
        let ram = zeros(RAM_BANK_SIZE * header.ram_banks() as usize);
        Ok(Self {
            mbc_type: header.mapper_type(),
            rom: mbc_rom,
            ram,
            rom_banks_count: header.rom_banks(),
            ram_banks_count: header.ram_banks(),
            active_rom_bank: 1,
            active_ram_bank: 0,
            ram_enable: false,
            banking_mode: BankingMode::Simple,
        })
    }

    /// Whether `new` can take the ROM image `rom`: its header is not cut
    /// short, a known cartridge type comes with a ROM-size code below 15,
    /// and a header that parses announces no more banks than the image
    /// fills. Building a cartridge from any other image fails by a panic.
    pub fn accepts(rom: &[u8]) -> (r: bool)
        ensures
            r == mbc_new_defined(rom@),
    {
        if rom.len() >= CART_HEADER_SIZE && rom.len() <= ROM_VERSION_NUMBER {
            return false;
        }
        if rom.len() > ROM_VERSION_NUMBER && CartType::parse(rom[CART_TYPE]).is_ok() && rom[ROM_SIZE] >= 15 {
            return false;
        }
        match CartHeader::parse(rom) {
            Ok(header) => rom.len() >= ROM_BANK_SIZE * header.rom_banks() as usize,
            Err(_) => true,
        }
    }

    /// Reads the cartridge; an address beyond the ROM or RAM is an error.
    pub fn read_byte(&self, addr: u16) -> (r: Result<u8, GbError>)
        ensures
            r == mbc_read(self@, addr),
    {
        if addr <= 0x3FFF {
            let off = addr as usize;
            if off < self.rom.len() {
                Ok(self.rom[off])
            } else {
                Err(GbError::MbcAddrOutOfBounds(addr))
            }
        } else if addr <= 0x7FFF {
            let off = self.rom_relative_addr(addr);
            if off < self.rom.len() {
                Ok(self.rom[off])
            } else {
                Err(GbError::MbcAddrOutOfBounds(addr))
            }
        } else if 0xA000 <= addr && addr <= 0xBFFF {
            if self.ram_enable {
                let off = self.ram_relative_addr(addr);
                if off < self.ram.len() {
                    Ok(self.ram[off])
                } else {
                    Err(GbError::MbcAddrOutOfBounds(addr))
                }
            } else {
                Ok(0xFF)
            }
        } else {
            Err(GbError::AddrOutOfBounds(addr))
        }
    }

    /// Writes the cartridge: a register in the ROM area, a byte in RAM.
    pub fn write_byte(&mut self, addr: u16, byte: u8) -> (r: Result<(), GbError>)
        ensures
            (final(self)@, r) == mbc_write(old(self)@, addr, byte),
    {
        if addr <= RAM_ENABLE_REG_END {
            proof {
                lemma_byte_bits(byte);
            }
            self.ram_enable = (byte & 0b1111) == RAM_ENABLE_NUMBER;
        } else if addr <= BANK_REG1_END {
            proof {
                lemma_byte_bits(byte);
            }
            let mut v = byte & 0b11111;
            if v == 0 {
                v = 1;
            }
            self.active_rom_bank = (self.active_rom_bank & 0b0000000011100000) | v as u16;
        } else if addr <= BANK_REG2_END {
            self.active_rom_bank = (self.active_rom_bank & 0b0000000000011111) | (byte & 0b01100000) as u16;
            if self.ram_banks_count > 1 {
                proof {
                    lemma_byte_bits(byte);
                }
                self.active_ram_bank = (byte & (0b01100000u8 >> 5u8)) as u16;
            }
        } else if addr <= BANK_MODE_END {
            proof {
                lemma_byte_bits(byte);
            }
            if byte & 0b1 == 0 {
                self.banking_mode = BankingMode::Simple;
            } else {
                self.banking_mode = BankingMode::Advanced
            }
        } else if 0xA000 <= addr && addr <= 0xBFFF {
            if self.ram_enable {
                let off = self.ram_relative_addr(addr);
                if off < self.ram.len() {
                    self.ram.set(off, byte);
                } else {
                    return Err(GbError::MbcAddrOutOfBounds(addr));
                }
            }
        } else {
            return Err(GbError::AddrOutOfBounds(addr));
        }
        Ok(())
    }

    /// Reads a little-endian word of the cartridge.
    pub fn read_word(&self, addr: u16) -> (r: Result<u16, GbError>)
        ensures
            r == mbc_read_word(self@, addr),
    {
        if addr <= 0x3FFF {
            let off = addr as usize;
            if self.rom.len() >= 2 && off < self.rom.len() - 1 {
                Ok(read_u16_le(&self.rom.as_slice()[off..self.rom.len()]))
            } else {
                Err(GbError::MbcAddrOutOfBounds(addr))
            }
        } else if addr <= 0x7FFF {
            let off = self.rom_relative_addr(addr);
            if self.rom.len() >= 2 && off < self.rom.len() - 1 {
                Ok(read_u16_le(&self.rom.as_slice()[off..self.rom.len()]))
            } else {
                Err(GbError::MbcAddrOutOfBounds(addr))
            }
        } else if 0xA000 <= addr && addr <= 0xBFFF {
            if self.ram_enable {
                let off = self.ram_relative_addr(addr);
                if self.ram.len() >= 2 && off < self.ram.len() - 1 {
                    Ok(read_u16_le(&self.ram.as_slice()[off..self.ram.len()]))
                } else {
                    Err(GbError::MbcAddrOutOfBounds(addr))
                }
            } else {
                Ok(0xFFFF)
            }
        } else {
            Err(GbError::AddrOutOfBounds(addr))
        }
    }

    fn ram_relative_addr(&self, abs_addr: u16) -> (r: usize)
        requires
            abs_addr >= 0xA000,
        ensures
            r == ram_offset(self@, abs_addr),
    {
        (abs_addr - 0xA000) as usize + self.active_ram_bank as usize * RAM_BANK_SIZE
    }

    fn rom_relative_addr(&self, abs_addr: u16) -> (r: usize)
        requires
            abs_addr >= CART_ROM_ACTIVE_BANK_START,
        ensures
            r == rom_offset(self@, abs_addr),
    {
        (abs_addr - CART_ROM_ACTIVE_BANK_START) as usize + self.active_rom_bank as usize * ROM_BANK_SIZE
    }

    /// A snapshot of the controller's registers.
    pub fn state(&self) -> (r: MbcState)
        ensures
            r == mbc_state_of(self@),
    {
        MbcState {
            mbc_type: self.mbc_type,
            active_rom_bank: self.active_rom_bank,
            active_ram_bank: self.active_ram_bank,
            rom_banks_count: self.rom_banks_count,
            ram_banks_count: self.ram_banks_count,
            ram_enable: self.ram_enable,
            banking_mode: self.banking_mode,
        }
    }
}

/// A byte written to enabled cartridge RAM reads back.
pub proof fn law_mbc_ram_round_trip(m: MbcView, addr: u16, byte: u8)
    requires
        0xA000 <= addr <= 0xBFFF,
        m.ram_enable,
        0 <= ram_offset(m, addr) < m.ram.len(),
    ensures
        mbc_read(mbc_write(m, addr, byte).0, addr) == Ok::<u8, GbError>(byte),
        mbc_write(m, addr, byte).1 is Ok,
{
}

/// A cartridge just built reads back its image in bank 0, with RAM
/// disabled (reads of it give 0xFF).
pub proof fn law_new_reads_image(rom: Seq<u8>, addr: u16, ram_addr: u16)
    requires
        addr < rom.len(),
        addr <= 0x3FFF,
        0xA000 <= ram_addr <= 0xBFFF,
    ensures
        mbc_read(mbc_of(rom), addr) == Ok::<u8, GbError>(rom[addr as int]),
        mbc_read(mbc_of(rom), ram_addr) == Ok::<u8, GbError>(0xFF),
{
}

/// The first bank register selects the low five bits of the ROM bank (0
/// selecting 1) and keeps its upper bits; the second sets bits 5 and 6 and
/// keeps the low five.
pub proof fn law_rom_bank_select(m: MbcView, byte: u8)
    ensures
        mbc_write(m, 0x2000, byte).0.active_rom_bank & 0x1F == (if byte % 32 == 0 { 1 } else { byte % 32 }),
        mbc_write(m, 0x2000, byte).0.active_rom_bank & 0xE0 == m.active_rom_bank & 0xE0,
        mbc_write(m, 0x4000, byte).0.active_rom_bank & 0x1F == m.active_rom_bank & 0x1F,
        mbc_write(m, 0x4000, byte).0.active_rom_bank & 0x60 == (byte & 0x60) as u16,
{
    let b = m.active_rom_bank;
    let v: u16 = if byte % 32 == 0 { 1 } else { (byte % 32) as u16 };
    assert(((b & 0xE0) | v) & 0x1F == v && ((b & 0xE0) | v) & 0xE0 == b & 0xE0 && ((b & 0x1F) | ((byte
        & 0x60) as u16)) & 0x1F == b & 0x1F && ((b & 0x1F) | ((byte & 0x60) as u16)) & 0x60 == (byte & 0x60) as u16)
        by (bit_vector)
        requires
            v < 32,
    ;
}

} // verus!
