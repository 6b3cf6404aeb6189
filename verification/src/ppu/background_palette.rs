//! Palettes: four gray shades, picked by a two-bit colour id.
use vstd::prelude::*;

use super::rgba::Rgba;
use crate::bits::lemma_byte_bits;

verus! {

#[derive(Clone, Copy, Debug, PartialEq, Eq, Structural)]
pub enum GrayShade {
    White,
    LightGray,
    DarkGray,
    Black,
}

/// The shade of a two-bit code (the two low bits of `value`).
pub open spec fn shade_of(value: u8) -> GrayShade {
    let v = value % 4;
    if v == 0 {
        GrayShade::White
    } else if v == 1 {
        GrayShade::LightGray
    } else if v == 2 {
        GrayShade::DarkGray
    } else {
        GrayShade::Black
    }
}

/// The two-bit code of a shade.
pub open spec fn shade_code(s: GrayShade) -> u8 {
    match s {
        GrayShade::White => 0,
        GrayShade::LightGray => 1,
        GrayShade::DarkGray => 2,
        GrayShade::Black => 3,
    }
}

/// The red, green, blue and alpha bytes of a shade.
pub open spec fn shade_rgba(s: GrayShade) -> Seq<u8> {
    match s {
        GrayShade::Black => seq![0u8, 0u8, 0u8, 255u8],
        GrayShade::DarkGray => seq![84u8, 84u8, 84u8, 255u8],
        GrayShade::LightGray => seq![168u8, 168u8, 168u8, 255u8],
        GrayShade::White => seq![255u8, 255u8, 255u8, 255u8],
    }
}

impl GrayShade {
    /// The block character of the shade in code page 437: 176, 177, 178
    /// and 219 from white to black.
    pub fn as_ascii(&self) -> (r: char)
        ensures
            r == (match *self {
                GrayShade::White => 176u8 as char,
                GrayShade::LightGray => 177u8 as char,
                GrayShade::DarkGray => 178u8 as char,
                GrayShade::Black => 219u8 as char,
            }),
    {
        match self {
            GrayShade::White => 176u8 as char,
            GrayShade::LightGray => 177u8 as char,
            GrayShade::DarkGray => 178u8 as char,
            GrayShade::Black => 219u8 as char,
        }
    }

    pub fn to_rgba(&self) -> (r: Rgba)
        ensures
            r.rgba@ == shade_rgba(*self),
    {
        match self {
            GrayShade::Black => Rgba::black(),
            GrayShade::DarkGray => Rgba::dark(),
            GrayShade::LightGray => Rgba::light(),
            GrayShade::White => Rgba::white(),
        }
    }
}

/// A shade written as its code reads back as itself, and a byte decodes to
/// the shade of its two low bits.
pub proof fn law_shade_round_trip(s: GrayShade, value: u8)
    ensures
        shade_of(shade_code(s)) == s,
        shade_code(shade_of(value)) == value % 4,
{
}

impl From<u8> for GrayShade {
    fn from(value: u8) -> (r: Self) {
        proof {
            lemma_byte_bits(value);
        }
        match value & 0b00000011 {
            0 => GrayShade::White,
            1 => GrayShade::LightGray,
            2 => GrayShade::DarkGray,
            _ => GrayShade::Black,
        }
    }
}

impl vstd::std_specs::convert::FromSpecImpl<u8> for GrayShade {
    open spec fn obeys_from_spec() -> bool {
        true
    }

    open spec fn from_spec(v: u8) -> GrayShade {
        shade_of(v)
    }
}

impl From<GrayShade> for u8 {
    fn from(value: GrayShade) -> (r: Self) {
        match value {
            GrayShade::White => 0,
            GrayShade::LightGray => 1,
            GrayShade::DarkGray => 2,
            GrayShade::Black => 3,
        }
    }
}

impl vstd::std_specs::convert::FromSpecImpl<GrayShade> for u8 {
    open spec fn obeys_from_spec() -> bool {
        true
    }

    open spec fn from_spec(v: GrayShade) -> u8 {
        shade_code(v)
    }
}

/// A palette: the shades of colour ids 0 to 3.
#[derive(Clone, Copy, Debug)]
pub struct BackgroundPalette {
    palette: [GrayShade; 4],
}

impl View for BackgroundPalette {
    type V = Seq<GrayShade>;

    closed spec fn view(&self) -> Seq<GrayShade> {
        self.palette@
    }
}

/// The palette a register value selects: colour id `i` gets the shade of
/// bits `2i` and `2i + 1`.
pub open spec fn palette_of(value: u8) -> Seq<GrayShade> {
    seq![shade_of(value), shade_of(value / 4), shade_of(value / 16), shade_of(value / 64)]
}

/// The register value of a palette.
pub open spec fn palette_code(p: Seq<GrayShade>) -> u8 {
    (shade_code(p[0]) + 4 * shade_code(p[1]) + 16 * shade_code(p[2]) + 64 * shade_code(p[3])) as u8
}

impl BackgroundPalette {
    /// The palette a register value selects.
    pub closed spec fn decoded(value: u8) -> BackgroundPalette {
        BackgroundPalette {
            palette: [shade_of(value), shade_of(value / 4), shade_of(value / 16), shade_of(value / 64)],
        }
    }

    pub proof fn lemma_len(self)
        ensures
            self@.len() == 4,
    {
    }

    pub fn color_0(&self) -> (r: GrayShade)
        ensures
            r == self@[0],
    {
        self.palette[0]
    }

    pub fn color_1(&self) -> (r: GrayShade)
        ensures
            r == self@[1],
    {
        self.palette[1]
    }

    pub fn color_2(&self) -> (r: GrayShade)
        ensures
            r == self@[2],
    {
        self.palette[2]
    }

    pub fn color_3(&self) -> (r: GrayShade)
        ensures
            r == self@[3],
    {
        self.palette[3]
    }

    /// The colour of colour id `color_id`.
    pub fn to_rgba(&self, color_id: u8) -> (r: Rgba)
        requires
            color_id < 4,
        ensures
            r.rgba@ == shade_rgba(self@[color_id as int]),
    {
        self.palette[color_id as usize].to_rgba()
    }
}

impl Default for BackgroundPalette {
    fn default() -> (r: Self)
        ensures
            r@ == seq![GrayShade::White, GrayShade::White, GrayShade::White, GrayShade::White],
    {
        let r = BackgroundPalette { palette: [GrayShade::White; 4] };
        proof {
            assert(r@ == seq![GrayShade::White, GrayShade::White, GrayShade::White, GrayShade::White]);
        }
        r
    }
}

impl From<u8> for BackgroundPalette {
    fn from(value: u8) -> (r: Self)
        ensures
            r == BackgroundPalette::decoded(value),
            r@ == palette_of(value),
    {
        let mask: u8 = 0b0000011;
        proof {
            assert(value & 3 == value % 4 && (value >> 2u8) & 3 == (value / 4) % 4 && (value >> 4u8) & 3
                == (value / 16) % 4 && (value >> 6u8) & 3 == (value / 64) % 4) by (bit_vector);
        }
        let r = BackgroundPalette {
            palette: [
                GrayShade::from(value & mask),
                GrayShade::from(value >> 2u8 & mask),
                GrayShade::from(value >> 4u8 & mask),
                GrayShade::from(value >> 6u8 & mask),
            ],
        };
        proof {
            assert(r@ == palette_of(value));
            assert(r.palette =~= BackgroundPalette::decoded(value).palette);
        }
        r
    }
}

impl vstd::std_specs::convert::FromSpecImpl<u8> for BackgroundPalette {
    open spec fn obeys_from_spec() -> bool {
        true
    }

    open spec fn from_spec(v: u8) -> BackgroundPalette {
        BackgroundPalette::decoded(v)
    }
}

impl From<BackgroundPalette> for u8 {
    fn from(value: BackgroundPalette) -> (r: Self)
        ensures
            r == palette_code(value@),
    {
        let c0: u8 = u8::from(value.palette[0]);
        let c1: u8 = u8::from(value.palette[1]);
        let c2: u8 = u8::from(value.palette[2]);
        let c3: u8 = u8::from(value.palette[3]);
        proof {
            assert(c0 <= 3 && c1 <= 3 && c2 <= 3 && c3 <= 3 ==> c0 | c1 << 2u8 | c2 << 4u8 | c3 << 6u8 == (c0
                + 4 * c1 + 16 * c2 + 64 * c3) as u8) by (bit_vector);
        }
        c0 | c1 << 2u8 | c2 << 4u8 | c3 << 6u8
    }
}

impl vstd::std_specs::convert::FromSpecImpl<BackgroundPalette> for u8 {
    open spec fn obeys_from_spec() -> bool {
        true
    }

    open spec fn from_spec(v: BackgroundPalette) -> u8 {
        palette_code(v@)
    }
}

/// Writing a palette register and reading it back gives the value written:
/// a register value decodes to four shades that encode to it again.
pub proof fn law_palette_round_trip(value: u8)
    ensures
        palette_code(palette_of(value)) == value,
{
    assert(value == value % 4 + 4 * ((value / 4) % 4) + 16 * ((value / 16) % 4) + 64 * ((value / 64) % 4))
        by (nonlinear_arith);
}

/// Four shades encode to a register value that decodes to them again.
pub proof fn law_palette_code_decodes(p: Seq<GrayShade>)
    requires
        p.len() == 4,
    ensures
        palette_of(palette_code(p)) == p,
{
    let v = palette_code(p);
    let a = shade_code(p[0]);
    let b = shade_code(p[1]);
    let c = shade_code(p[2]);
    let d = shade_code(p[3]);
    assert(v == a + 4 * b + 16 * c + 64 * d);
    assert(v % 4 == a && (v / 4) % 4 == b && (v / 16) % 4 == c && (v / 64) % 4 == d) by (nonlinear_arith)
        requires
            v == a + 4 * b + 16 * c + 64 * d,
            a <= 3,
            b <= 3,
            c <= 3,
            d <= 3,
    ;
    assert(palette_of(v) =~= p);
}

} // verus!
