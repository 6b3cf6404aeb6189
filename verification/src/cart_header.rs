//! The cartridge header at 0x0100 to 0x014F of a ROM image.
use vstd::prelude::*;
use vstd::string::*;
use vstd::utf8::{decode_utf8, valid_utf8};

use crate::text::{hex8_text, push_hex8};
use crate::GbError;

verus! {

pub const CART_HEADER_START: usize = 0x0100;
pub const CART_HEADER_END: usize = 0x014F;
pub const CART_HEADER_SIZE: usize = 0x50;

pub const TITLE_START: usize = 0x0134;
pub const TITLE_END: usize = 0x0143;
pub const MANUFACTORER_CODE_START: usize = 0x013F;
pub const MANUFACTORER_CODE_END: usize = 0x0142;
pub const CBG_FLAG: usize = 0x0143;
pub const NEW_LICENSEE_CODES_START: usize = 0x0144;
pub const NEW_LICENSEE_CODES_END: usize = 0x0145;
pub const SGB_FLAG: usize = 0x0146;
pub const CART_TYPE: usize = 0x0147;
pub const ROM_SIZE: usize = 0x0148;
pub const RAM_SIZE: usize = 0x0149;
pub const DEST_CODE: usize = 0x014A;
pub const OLD_LICENSEE_CODE: usize = 0x014B;
pub const ROM_VERSION_NUMBER: usize = 0x014C;

/// The memory bank controller of a cartridge.
#[derive(Debug, Clone, Copy, PartialEq, Eq, Structural)]
pub enum MapperType {
    NoMbc,
    Mbc1,
    Mbc2,
    Mbc3,
    Mbc5,
    Mbc6,
    Mbc7,
    Mmm01,
    PocketCamera,
    BandaiTama5,
    HuC1,
    HuC3,
}

/// What the cartridge type byte says: the controller and the extra
/// hardware on the cartridge.
#[derive(Debug, Clone, Copy, PartialEq, Eq, Structural)]
pub struct CartType {
    pub mapper_type: MapperType,
    pub with_ram: bool,
    pub with_battery: bool,
    pub with_timer: bool,
    pub with_rumble: bool,
    pub with_sensor: bool,
}

/// The cartridge types, by the byte at 0x0147 (None: not a known type).
pub open spec fn cart_type_of(code: u8) -> Option<CartType> {
    match code {
        0x00 => Some(CartType { mapper_type: MapperType::NoMbc, with_ram: false, with_battery: false, with_timer: false, with_rumble: false, with_sensor: false }),
        0x01 => Some(CartType { mapper_type: MapperType::Mbc1, with_ram: false, with_battery: false, with_timer: false, with_rumble: false, with_sensor: false }),
        0x02 => Some(CartType { mapper_type: MapperType::Mbc1, with_ram: true, with_battery: false, with_timer: false, with_rumble: false, with_sensor: false }),
        0x03 => Some(CartType { mapper_type: MapperType::Mbc1, with_ram: true, with_battery: true, with_timer: false, with_rumble: false, with_sensor: false }),
        0x05 => Some(CartType { mapper_type: MapperType::Mbc2, with_ram: false, with_battery: false, with_timer: false, with_rumble: false, with_sensor: false }),
        0x06 => Some(CartType { mapper_type: MapperType::Mbc1, with_ram: false, with_battery: true, with_timer: false, with_rumble: false, with_sensor: false }),
        0x08 => Some(CartType { mapper_type: MapperType::NoMbc, with_ram: true, with_battery: false, with_timer: false, with_rumble: false, with_sensor: false }),
        0x0B => Some(CartType { mapper_type: MapperType::Mmm01, with_ram: false, with_battery: false, with_timer: false, with_rumble: false, with_sensor: false }),
        0x0C => Some(CartType { mapper_type: MapperType::Mmm01, with_ram: true, with_battery: false, with_timer: false, with_rumble: false, with_sensor: false }),
        0x0D => Some(CartType { mapper_type: MapperType::Mmm01, with_ram: true, with_battery: true, with_timer: false, with_rumble: false, with_sensor: false }),
        0x0F => Some(CartType { mapper_type: MapperType::Mbc3, with_ram: false, with_battery: true, with_timer: true, with_rumble: false, with_sensor: false }),
        0x10 => Some(CartType { mapper_type: MapperType::Mbc3, with_ram: true, with_battery: true, with_timer: true, with_rumble: false, with_sensor: false }),
        0x11 => Some(CartType { mapper_type: MapperType::Mbc3, with_ram: false, with_battery: false, with_timer: false, with_rumble: false, with_sensor: false }),
        0x12 => Some(CartType { mapper_type: MapperType::Mbc3, with_ram: true, with_battery: false, with_timer: false, with_rumble: false, with_sensor: false }),
        0x13 => Some(CartType { mapper_type: MapperType::Mbc3, with_ram: true, with_battery: true, with_timer: false, with_rumble: false, with_sensor: false }),
        0x19 => Some(CartType { mapper_type: MapperType::Mbc5, with_ram: false, with_battery: false, with_timer: false, with_rumble: false, with_sensor: false }),
        0x1A => Some(CartType { mapper_type: MapperType::Mbc5, with_ram: true, with_battery: false, with_timer: false, with_rumble: false, with_sensor: false }),
        0x1B => Some(CartType { mapper_type: MapperType::Mbc5, with_ram: true, with_battery: true, with_timer: false, with_rumble: false, with_sensor: false }),
        0x1C => Some(CartType { mapper_type: MapperType::Mbc5, with_ram: false, with_battery: false, with_timer: false, with_rumble: true, with_sensor: false }),
        0x1D => Some(CartType { mapper_type: MapperType::Mbc5, with_ram: true, with_battery: false, with_timer: false, with_rumble: true, with_sensor: false }),
        0x1E => Some(CartType { mapper_type: MapperType::Mbc5, with_ram: true, with_battery: true, with_timer: false, with_rumble: true, with_sensor: false }),
        0x20 => Some(CartType { mapper_type: MapperType::Mbc6, with_ram: false, with_battery: false, with_timer: false, with_rumble: false, with_sensor: false }),
        0x27 => Some(CartType { mapper_type: MapperType::Mbc7, with_ram: true, with_battery: true, with_timer: false, with_rumble: true, with_sensor: true }),
        0xFC => Some(CartType { mapper_type: MapperType::PocketCamera, with_ram: false, with_battery: false, with_timer: false, with_rumble: false, with_sensor: false }),
        0xFD => Some(CartType { mapper_type: MapperType::BandaiTama5, with_ram: false, with_battery: false, with_timer: false, with_rumble: false, with_sensor: false }),
        0xFE => Some(CartType { mapper_type: MapperType::HuC3, with_ram: false, with_battery: false, with_timer: false, with_rumble: false, with_sensor: false }),
        0xFF => Some(CartType { mapper_type: MapperType::HuC1, with_ram: true, with_battery: true, with_timer: false, with_rumble: false, with_sensor: false }),
        _ => None,
    }
}

/// The number of 8 KiB RAM banks, by the byte at 0x0149 (None: not a known
/// size).
pub open spec fn ram_banks_of(code: u8) -> Option<u16> {
    if code == 0 {
        Some(0)
    } else if code == 2 {
        Some(1)
    } else if code == 3 {
        Some(4)
    } else if code == 4 {
        Some(16)
    } else if code == 5 {
        Some(8)
    } else {
        None
    }
}

/// The number of 16 KiB ROM banks, by the byte at 0x0148: 2 << code.
pub open spec fn rom_banks_of(code: u8) -> u16 {
    (2 * vstd::arithmetic::power2::pow2(code as nat)) as u16
}

impl CartType {
    pub(crate) fn parse(header: u8) -> (r: Result<Self, GbError>)
        ensures
            match cart_type_of(header) {
                Some(t) => r == Ok::<CartType, GbError>(t),
                None => r matches Err(GbError::HeaderParsing(m)) && m@ == "Invalid cart type "@ + hex8_text(header),
            },
    {
        let mut cart_type = CartType {
            mapper_type: MapperType::NoMbc,
            with_ram: false,
            with_battery: false,
            with_timer: false,
            with_rumble: false,
            with_sensor: false,
        };
        match header {
            0x00 => {
            },
            0x01 => {
                cart_type.mapper_type = MapperType::Mbc1;
            },
            0x02 => {
                cart_type.mapper_type = MapperType::Mbc1;
                cart_type.with_ram = true;
            },
            0x03 => {
                cart_type.mapper_type = MapperType::Mbc1;
                cart_type.with_ram = true;
                cart_type.with_battery = true;
            },
            0x05 => {
                cart_type.mapper_type = MapperType::Mbc2;
            },
            0x06 => {
                cart_type.mapper_type = MapperType::Mbc1;
                cart_type.with_battery = true;
            },
            0x08 => {
                cart_type.with_ram = true;
            },
            0x0B => {
                cart_type.mapper_type = MapperType::Mmm01;
            },
            0x0C => {
                cart_type.mapper_type = MapperType::Mmm01;
                cart_type.with_ram = true;
            },
            0x0D => {
                cart_type.mapper_type = MapperType::Mmm01;
                cart_type.with_ram = true;
                cart_type.with_battery = true;
            },
            0x0F => {
                cart_type.mapper_type = MapperType::Mbc3;
                cart_type.with_battery = true;
                cart_type.with_timer = true;
            },
            0x10 => {
                cart_type.mapper_type = MapperType::Mbc3;
                cart_type.with_ram = true;
                cart_type.with_battery = true;
                cart_type.with_timer = true;
            },
            0x11 => {
                cart_type.mapper_type = MapperType::Mbc3;
            },
            0x12 => {
                cart_type.mapper_type = MapperType::Mbc3;
                cart_type.with_ram = true;
            },
            0x13 => {
                cart_type.mapper_type = MapperType::Mbc3;
                cart_type.with_ram = true;
                cart_type.with_battery = true;
            },
            0x19 => {
                cart_type.mapper_type = MapperType::Mbc5;
            },
            0x1A => {
                cart_type.mapper_type = MapperType::Mbc5;
                cart_type.with_ram = true;
            },
            0x1B => {
                cart_type.mapper_type = MapperType::Mbc5;
                cart_type.with_ram = true;
                cart_type.with_battery = true;
            },
            0x1C => {
                cart_type.mapper_type = MapperType::Mbc5;
                cart_type.with_rumble = true;
            },
            0x1D => {
                cart_type.mapper_type = MapperType::Mbc5;
                cart_type.with_ram = true;
                cart_type.with_rumble = true;
            },
            0x1E => {
                cart_type.mapper_type = MapperType::Mbc5;
                cart_type.with_ram = true;
                cart_type.with_battery = true;
                cart_type.with_rumble = true;
            },
            0x20 => {
                cart_type.mapper_type = MapperType::Mbc6;
            },
            0x27 => {
                cart_type.mapper_type = MapperType::Mbc7;
                cart_type.with_ram = true;
                cart_type.with_battery = true;
                cart_type.with_rumble = true;
                cart_type.with_sensor = true;
            },
            0xFC => {
                cart_type.mapper_type = MapperType::PocketCamera;
            },
            0xFD => {
                cart_type.mapper_type = MapperType::BandaiTama5;
            },
            0xFE => {
                cart_type.mapper_type = MapperType::HuC3;
            },
            0xFF => {
                cart_type.mapper_type = MapperType::HuC1;
                cart_type.with_ram = true;
                cart_type.with_battery = true;
            },
            _ => {
                return Err(GbError::HeaderParsing(byte_message("Invalid cart type ", header)));
            },
        }
        Ok(cart_type)
    }
}

/// Calls `std::str::from_utf8`, which returns the string slice whose bytes
/// are `bytes` when they are valid UTF-8, and an error otherwise; the error
/// is turned into `None`.
#[verifier::external_body]
fn str_from_utf8(bytes: &[u8]) -> (r: Option<&str>)
    ensures
        r is Some <==> valid_utf8(bytes@),
        r is Some ==> r->0@ == decode_utf8(bytes@),
{
    std::str::from_utf8(bytes).ok()
}

/// The text of a header field: its UTF-8 decoding, or empty when it is not
/// valid UTF-8.
pub open spec fn text_field(bytes: Seq<u8>) -> Seq<char> {
    if valid_utf8(bytes) { decode_utf8(bytes) } else { Seq::empty() }
}

fn text_of(bytes: &[u8]) -> (r: String)
    ensures
        r@ == text_field(bytes@),
{
    match str_from_utf8(bytes) {
        Some(s) => s.to_owned(),
        None => String::new(),
    }
}

/// A parsed cartridge header.
#[derive(Debug)]
pub struct CartHeader {
    title: String,
    manufactorer_code: String,
    old_licensee_code: u8,
    new_licensee_code: [u8; 2],
    destination_code: u8,
    rom_version_number: u8,
    cgb_flag: bool,
    sgb_flag: bool,
    cart_type: CartType,
    rom_banks: u16,
    ram_banks: u16,
}

/// What a parsed header holds.
pub struct CartHeaderView {
    pub title: Seq<char>,
    pub manufactorer_code: Seq<char>,
    pub old_licensee_code: u8,
    pub new_licensee_code: Seq<u8>,
    pub destination_code: u8,
    pub rom_version_number: u8,
    pub cgb_flag: bool,
    pub sgb_flag: bool,
    pub cart_type: CartType,
    pub rom_banks: u16,
    pub ram_banks: u16,
}

impl View for CartHeader {
    type V = CartHeaderView;

    closed spec fn view(&self) -> CartHeaderView {
        CartHeaderView {
            title: self.title@,
            manufactorer_code: self.manufactorer_code@,
            old_licensee_code: self.old_licensee_code,
            new_licensee_code: self.new_licensee_code@,
            destination_code: self.destination_code,
            rom_version_number: self.rom_version_number,
            cgb_flag: self.cgb_flag,
            sgb_flag: self.sgb_flag,
            cart_type: self.cart_type,
            rom_banks: self.rom_banks,
            ram_banks: self.ram_banks,
        }
    }
}

/// The inputs on which parsing does not panic: a ROM image too short for a
/// header, or one that holds all of it; and, when the cartridge type is
/// known, a ROM size byte below 15 (2 << 15 does not fit in 16 bits).
pub open spec fn parse_defined(h: Seq<u8>) -> bool {
    &&& (h.len() < CART_HEADER_SIZE || h.len() > ROM_VERSION_NUMBER)
    &&& (h.len() > ROM_VERSION_NUMBER && cart_type_of(h[CART_TYPE as int]) is Some ==> h[ROM_SIZE as int] < 15)
}

/// The header that parsing the ROM image `h` yields, when it does.
pub open spec fn header_of(h: Seq<u8>) -> CartHeaderView {
    CartHeaderView {
        title: text_field(h.subrange(TITLE_START as int, TITLE_END as int + 1)),
        manufactorer_code: text_field(h.subrange(MANUFACTORER_CODE_START as int, MANUFACTORER_CODE_END as int + 1)),
        old_licensee_code: h[OLD_LICENSEE_CODE as int],
        new_licensee_code: seq![h[NEW_LICENSEE_CODES_START as int], h[NEW_LICENSEE_CODES_END as int]],
        destination_code: h[DEST_CODE as int],
        rom_version_number: h[ROM_VERSION_NUMBER as int],
        cgb_flag: h[CBG_FLAG as int] == 0xC0,
        sgb_flag: h[SGB_FLAG as int] == 0x03,
        cart_type: cart_type_of(h[CART_TYPE as int])->0,
        rom_banks: rom_banks_of(h[ROM_SIZE as int]),
        ram_banks: ram_banks_of(h[RAM_SIZE as int])->0,
    }
}

/// Whether the ROM image `h` has a header that parses: long enough, with a
/// known cartridge type and RAM size.
pub open spec fn header_ok(h: Seq<u8>) -> bool {
    h.len() >= CART_HEADER_SIZE && cart_type_of(h[CART_TYPE as int]) is Some && ram_banks_of(h[RAM_SIZE as int]) is Some
}

/// The message of a header that does not parse: too short, of an unknown
/// cartridge type, or of an unknown RAM size (checked in that order).
pub open spec fn header_error(h: Seq<u8>) -> Seq<char> {
    if h.len() < CART_HEADER_SIZE {
        "wrong size"@
    } else if cart_type_of(h[CART_TYPE as int]) is None {
        "Invalid cart type "@ + hex8_text(h[CART_TYPE as int])
    } else {
        "Invalid ram size "@ + hex8_text(h[RAM_SIZE as int])
    }
}

/// `text` followed by `value` as `0x` and two upper-case hexadecimal digits.
fn byte_message(text: &str, value: u8) -> (r: String)
    ensures
        r@ == text@ + hex8_text(value),
{
    let mut s = String::from_str(text);
    push_hex8(&mut s, value);
    s
}

impl CartHeader {
    /// Parses the header of a ROM image.
    pub fn parse(header: &[u8]) -> (r: Result<CartHeader, GbError>)
        requires
            parse_defined(header@),
        ensures
            r is Ok <==> header_ok(header@),
            r is Ok ==> r->Ok_0@ == header_of(header@),
            r is Err ==> (r matches Err(GbError::HeaderParsing(m)) && m@ == header_error(header@)),
    {
        if header.len() < CART_HEADER_SIZE {
            return Err(GbError::HeaderParsing("wrong size".to_owned()));
        }
        let title = text_of(&header[TITLE_START..TITLE_END + 1]);
        let manufactorer_code = text_of(&header[MANUFACTORER_CODE_START..MANUFACTORER_CODE_END + 1]);
        let cart_type = CartType::parse(header[CART_TYPE])?;
        let rom_banks = CartHeader::parse_rom_banks(header[ROM_SIZE]);
        let ram_banks = CartHeader::parse_ram_banks(header[RAM_SIZE])?;
        Ok(CartHeader {
            title,
            manufactorer_code,
            old_licensee_code: header[OLD_LICENSEE_CODE],
            new_licensee_code: [header[NEW_LICENSEE_CODES_START], header[NEW_LICENSEE_CODES_END]],
            destination_code: header[DEST_CODE],
            rom_version_number: header[ROM_VERSION_NUMBER],
            cgb_flag: header[CBG_FLAG] == 0xC0,
            sgb_flag: header[SGB_FLAG] == 0x03,
            cart_type,
            rom_banks,
            ram_banks,
        })
    }

    pub fn mapper_type(&self) -> (r: MapperType)
        ensures
            r == self@.cart_type.mapper_type,
    {
        self.cart_type.mapper_type
    }

    pub fn rom_banks(&self) -> (r: u16)
        ensures
            r == self@.rom_banks,
    {
        self.rom_banks
    }

    pub fn ram_banks(&self) -> (r: u16)
        ensures
            r == self@.ram_banks,
    {
        self.ram_banks
    }

    fn parse_rom_banks(code: u8) -> (r: u16)
        requires
            code < 15,
        ensures
            r == rom_banks_of(code),
    {
        proof {
            vstd::arithmetic::power2::lemma2_to64();
            if code < 15 {
                vstd::arithmetic::power2::lemma_pow2_strictly_increases(code as nat, 15);
            }
            vstd::bits::lemma_u16_shl_is_mul(1, code as u16);
        }
        2 * (1u16 << code as u16)
    }

    fn parse_ram_banks(header: u8) -> (r: Result<u16, GbError>)
        ensures
            match ram_banks_of(header) {
                Some(n) => r == Ok::<u16, GbError>(n),
                None => r matches Err(GbError::HeaderParsing(m)) && m@ == "Invalid ram size "@ + hex8_text(header),
            },
    {
        match header {
            0x00 => Ok(0),
            0x02 => Ok(1),
            0x03 => Ok(4),
            0x04 => Ok(16),
            0x05 => Ok(8),
            _ => Err(GbError::HeaderParsing(byte_message("Invalid ram size ", header))),
        }
    }
}

} // verus!
