//! The LCD control register, LCDC (0xFF40).
use vstd::prelude::*;
use vstd::string::*;

verus! {

/// The eight flags of LCDC, from bit 7 (`display_enable`) down to bit 0
/// (`bg_window_priority`).
#[derive(Clone, Copy, Debug, PartialEq, Eq, Structural)]
pub struct LcdControlRegister {
    pub display_enable: bool,
    pub window_tile_area_sel: bool,
    pub window_enable: bool,
    pub bg_and_window_tile_area_sel: bool,
    pub bg_tile_map_area_sel: bool,
    pub obj_size_sel: bool,
    pub obj_enable: bool,
    pub bg_window_priority: bool,
}

/// The flags that a register value sets.
pub open spec fn lcdc_of(value: u8) -> LcdControlRegister {
    LcdControlRegister {
        display_enable: value & 0x80 != 0,
        window_tile_area_sel: value & 0x40 != 0,
        window_enable: value & 0x20 != 0,
        bg_and_window_tile_area_sel: value & 0x10 != 0,
        bg_tile_map_area_sel: value & 0x08 != 0,
        obj_size_sel: value & 0x04 != 0,
        obj_enable: value & 0x02 != 0,
        bg_window_priority: value & 0x01 != 0,
    }
}

/// The bit of a flag.
pub open spec fn bit(b: bool) -> int {
    if b { 1 } else { 0 }
}

/// The register value of the flags.
pub open spec fn lcdc_code(r: LcdControlRegister) -> u8 {
    (128 * bit(r.display_enable) + 64 * bit(r.window_tile_area_sel) + 32 * bit(r.window_enable) + 16 * bit(
        r.bg_and_window_tile_area_sel,
    ) + 8 * bit(r.bg_tile_map_area_sel) + 4 * bit(r.obj_size_sel) + 2 * bit(r.obj_enable) + bit(
        r.bg_window_priority,
    )) as u8
}

impl Default for LcdControlRegister {
    fn default() -> (r: Self)
        ensures
            r == lcdc_of(0),
    {
        proof {
            assert(lcdc_of(0) == (LcdControlRegister {
                display_enable: false,
                window_tile_area_sel: false,
                window_enable: false,
                bg_and_window_tile_area_sel: false,
                bg_tile_map_area_sel: false,
                obj_size_sel: false,
                obj_enable: false,
                bg_window_priority: false,
            })) by {
                assert(0u8 & 0x80 == 0 && 0u8 & 0x40 == 0 && 0u8 & 0x20 == 0 && 0u8 & 0x10 == 0 && 0u8 & 0x08
                    == 0 && 0u8 & 0x04 == 0 && 0u8 & 0x02 == 0 && 0u8 & 0x01 == 0) by (bit_vector);
            }
        }
        LcdControlRegister {
            display_enable: false,
            window_tile_area_sel: false,
            window_enable: false,
            bg_and_window_tile_area_sel: false,
            bg_tile_map_area_sel: false,
            obj_size_sel: false,
            obj_enable: false,
            bg_window_priority: false,
        }
    }
}

impl From<u8> for LcdControlRegister {
    fn from(value: u8) -> (r: Self) {
        LcdControlRegister {
            display_enable: value & 0b10000000 != 0,
            window_tile_area_sel: value & 0b01000000 != 0,
            window_enable: value & 0b00100000 != 0,
            bg_and_window_tile_area_sel: value & 0b00010000 != 0,
            bg_tile_map_area_sel: value & 0b00001000 != 0,
            obj_size_sel: value & 0b00000100 != 0,
            obj_enable: value & 0b00000010 != 0,
            bg_window_priority: value & 0b00000001 != 0,
        }
    }
}

impl vstd::std_specs::convert::FromSpecImpl<u8> for LcdControlRegister {
    open spec fn obeys_from_spec() -> bool {
        true
    }

    open spec fn from_spec(v: u8) -> LcdControlRegister {
        lcdc_of(v)
    }
}

/// The bit of a flag, as a byte.
fn flag_bit(b: bool) -> (r: u8)
    ensures
        r == bit(b),
{
    if b { 1 } else { 0 }
}

impl From<LcdControlRegister> for u8 {
    fn from(value: LcdControlRegister) -> (r: Self) {
        let b7 = flag_bit(value.display_enable);
        let b6 = flag_bit(value.window_tile_area_sel);
        let b5 = flag_bit(value.window_enable);
        let b4 = flag_bit(value.bg_and_window_tile_area_sel);
        let b3 = flag_bit(value.bg_tile_map_area_sel);
        let b2 = flag_bit(value.obj_size_sel);
        let b1 = flag_bit(value.obj_enable);
        let b0 = flag_bit(value.bg_window_priority);
        proof {
            assert(b7 <= 1 && b6 <= 1 && b5 <= 1 && b4 <= 1 && b3 <= 1 && b2 <= 1 && b1 <= 1 && b0 <= 1 ==> b7
                << 7u8 | b6 << 6u8 | b5 << 5u8 | b4 << 4u8 | b3 << 3u8 | b2 << 2u8 | b1 << 1u8 | b0 == (128 * b7
                + 64 * b6 + 32 * b5 + 16 * b4 + 8 * b3 + 4 * b2 + 2 * b1 + b0) as u8) by (bit_vector);
        }
        b7 << 7u8 | b6 << 6u8 | b5 << 5u8 | b4 << 4u8 | b3 << 3u8 | b2 << 2u8 | b1 << 1u8 | b0
    }
}

impl vstd::std_specs::convert::FromSpecImpl<LcdControlRegister> for u8 {
    open spec fn obeys_from_spec() -> bool {
        true
    }

    open spec fn from_spec(v: LcdControlRegister) -> u8 {
        lcdc_code(v)
    }
}

/// Writing LCDC and reading it back gives the value written.
pub proof fn law_lcdc_round_trip(value: u8)
    ensures
        lcdc_code(lcdc_of(value)) == value,
{
    let r = lcdc_of(value);
    assert(value == (128 * bit(value & 0x80 != 0) + 64 * bit(value & 0x40 != 0) + 32 * bit(value & 0x20 != 0)
        + 16 * bit(value & 0x10 != 0) + 8 * bit(value & 0x08 != 0) + 4 * bit(value & 0x04 != 0) + 2 * bit(
        value & 0x02 != 0,
    ) + bit(value & 0x01 != 0)) as u8) by (bit_vector);
}

/// The text of a flag: `T` or `F`.
pub open spec fn flag_text(flag: bool) -> Seq<char> {
    if flag {
        "T"@
    } else {
        "F"@
    }
}

/// The text of a flag: `T` or `F`.
pub fn flag_to_str(flag: bool) -> (r: &'static str)
    ensures
        r@ == flag_text(flag),
{
    if flag {
        "T"
    } else {
        "F"
    }
}

/// The text of LCDC, as the debugger shows it: two lines of flags.
pub open spec fn lcdc_text(r: LcdControlRegister) -> Seq<char> {
    "Disp en: "@ + flag_text(r.display_enable) + ", Win tile area: "@ + flag_text(r.window_tile_area_sel)
        + ", Win en: "@ + flag_text(r.window_enable) + ", BG/Win tile area: "@ + flag_text(
        r.bg_and_window_tile_area_sel,
    ) + "\n"@ + "BG tile area: "@ + flag_text(r.bg_tile_map_area_sel) + ", Obj size: "@ + flag_text(
        r.obj_size_sel,
    ) + ", Obj en: "@ + flag_text(r.obj_enable) + ", BG/Win prio: "@ + flag_text(r.bg_window_priority)
}

impl LcdControlRegister {
    /// The text of the register, as the debugger shows it.
    pub fn to_text(&self) -> (r: String)
        ensures
            r@ == lcdc_text(*self),
    {
        let mut s = String::new();
        s.append("Disp en: ");
        s.append(flag_to_str(self.display_enable));
        s.append(", Win tile area: ");
        s.append(flag_to_str(self.window_tile_area_sel));
        s.append(", Win en: ");
        s.append(flag_to_str(self.window_enable));
        s.append(", BG/Win tile area: ");
        s.append(flag_to_str(self.bg_and_window_tile_area_sel));
        s.append("\n");
        s.append("BG tile area: ");
        s.append(flag_to_str(self.bg_tile_map_area_sel));
        s.append(", Obj size: ");
        s.append(flag_to_str(self.obj_size_sel));
        s.append(", Obj en: ");
        s.append(flag_to_str(self.obj_enable));
        s.append(", BG/Win prio: ");
        s.append(flag_to_str(self.bg_window_priority));
        proof {
            assert(s@ =~= lcdc_text(*self));
        }
        s
    }
}

} // verus!
