//! The LCD status register, STAT (0xFF41), and the screen modes.
use vstd::prelude::*;
use vstd::string::*;

use crate::bits::lemma_byte_bits;
use crate::ppu::lcd_control_register::{bit, flag_text, flag_to_str};

verus! {

/// What the PPU is doing: the mode in the two low bits of STAT.
#[derive(Clone, Copy, Debug, PartialEq, Eq, Structural)]
pub enum ScreenMode {
    HBlank,
    VBlank,
    SreachingOAM,
    TransferringData,
}

/// The mode of a two-bit code (the two low bits of `value`).
pub open spec fn mode_of(value: u8) -> ScreenMode {
    let v = value % 4;
    if v == 0 {
        ScreenMode::HBlank
    } else if v == 1 {
        ScreenMode::VBlank
    } else if v == 2 {
        ScreenMode::SreachingOAM
    } else {
        ScreenMode::TransferringData
    }
}

/// The two-bit code of a mode.
pub open spec fn mode_code(m: ScreenMode) -> u8 {
    match m {
        ScreenMode::HBlank => 0,
        ScreenMode::VBlank => 1,
        ScreenMode::SreachingOAM => 2,
        ScreenMode::TransferringData => 3,
    }
}

impl ScreenMode {
    /// The mode's short name, as the debugger shows it.
    pub fn name(&self) -> (r: &'static str)
        ensures
            r@ == mode_text_of(*self),
    {
        match self {
            ScreenMode::HBlank => "HBlank",
            ScreenMode::VBlank => "VBlank",
            ScreenMode::SreachingOAM => "OAM",
            ScreenMode::TransferringData => "Trasf",
        }
    }
}

impl Default for ScreenMode {
    fn default() -> (r: Self)
        ensures
            r == ScreenMode::SreachingOAM,
    {
        ScreenMode::SreachingOAM
    }
}

/// A mode written as its code reads back as itself, and a byte decodes to
/// the mode of its two low bits.
pub proof fn law_mode_round_trip(m: ScreenMode, value: u8)
    ensures
        mode_of(mode_code(m)) == m,
        mode_code(mode_of(value)) == value % 4,
{
}

impl From<u8> for ScreenMode {
    fn from(value: u8) -> (r: Self) {
        proof {
            lemma_byte_bits(value);
        }
        match value & 0b00000011 {
            0 => ScreenMode::HBlank,
            1 => ScreenMode::VBlank,
            2 => ScreenMode::SreachingOAM,
            _ => ScreenMode::TransferringData,
        }
    }
}

impl vstd::std_specs::convert::FromSpecImpl<u8> for ScreenMode {
    open spec fn obeys_from_spec() -> bool {
        true
    }

    open spec fn from_spec(v: u8) -> ScreenMode {
        mode_of(v)
    }
}

impl From<ScreenMode> for u8 {
    fn from(value: ScreenMode) -> (r: Self) {
        match value {
            ScreenMode::HBlank => 0,
            ScreenMode::VBlank => 1,
            ScreenMode::SreachingOAM => 2,
            ScreenMode::TransferringData => 3,
        }
    }
}

impl vstd::std_specs::convert::FromSpecImpl<ScreenMode> for u8 {
    open spec fn obeys_from_spec() -> bool {
        true
    }

    open spec fn from_spec(v: ScreenMode) -> u8 {
        mode_code(v)
    }
}

/// A value that remembers the one it replaced, so that a change can be
/// seen.
#[derive(Clone, Copy, Debug)]
pub struct Signal<Type: Copy> {
    pub val: Type,
    pub old_val: Type,
}

impl<Type: Copy> Signal<Type> {
    pub fn set(&mut self, v: Type)
        ensures
            final(self).val == v,
            final(self).old_val == old(self).val,
    {
        self.old_val = self.val;
        self.val = v;
    }

    pub fn get(&self) -> (r: Type)
        ensures
            r == self.val,
    {
        self.val
    }
}

impl Signal<bool> {
    pub fn changed(&self) -> (r: bool)
        ensures
            r == (self.val != self.old_val),
    {
        self.val != self.old_val
    }

    pub fn changed_to(&self, to: bool) -> (r: bool)
        ensures
            r == (self.val != self.old_val && self.val == to),
    {
        self.changed() && self.val == to
    }
}

impl Signal<ScreenMode> {
    pub fn changed(&self) -> (r: bool)
        ensures
            r == (self.val != self.old_val),
    {
        self.val != self.old_val
    }

    pub fn changed_to(&self, to: ScreenMode) -> (r: bool)
        ensures
            r == (self.val != self.old_val && self.val == to),
    {
        self.changed() && self.val == to
    }
}

impl Default for Signal<bool> {
    fn default() -> (r: Self)
        ensures
            r.val == false && r.old_val == false,
    {
        Signal { val: false, old_val: false }
    }
}

impl Default for Signal<ScreenMode> {
    fn default() -> (r: Self)
        ensures
            r.val == ScreenMode::SreachingOAM && r.old_val == ScreenMode::SreachingOAM,
    {
        Signal { val: ScreenMode::SreachingOAM, old_val: ScreenMode::SreachingOAM }
    }
}

/// The flags of STAT: the four interrupt sources (bits 6 to 3), whether LY
/// equals LYC (bit 2) and the mode (bits 1 and 0).
#[derive(Clone, Copy, Debug)]
pub struct LcsStatusRegister {
    pub lyc_ir_enable: bool,
    pub mode_2_ir_enable: bool,
    pub mode_1_ir_enable: bool,
    pub mode_0_ir_enable: bool,
    pub lyc_equals_ly: Signal<bool>,
    pub mode: Signal<ScreenMode>,
}

/// The value STAT reads: bit 7 is zero.
pub open spec fn stat_code(s: LcsStatusRegister) -> u8 {
    (64 * bit(s.lyc_ir_enable) + 32 * bit(s.mode_2_ir_enable) + 16 * bit(s.mode_1_ir_enable) + 8 * bit(
        s.mode_0_ir_enable,
    ) + 4 * bit(s.lyc_equals_ly.val) + mode_code(s.mode.val)) as u8
}

/// STAT after `v` is written: the flags take bits 6 to 2, the mode bits 1
/// and 0; the LY = LYC flag and the mode remember what they replace.
pub open spec fn stat_written(s: LcsStatusRegister, v: u8) -> LcsStatusRegister {
    LcsStatusRegister {
        lyc_ir_enable: v & 0x40 != 0,
        mode_2_ir_enable: v & 0x20 != 0,
        mode_1_ir_enable: v & 0x10 != 0,
        mode_0_ir_enable: v & 0x08 != 0,
        lyc_equals_ly: Signal { val: v & 0x04 != 0, old_val: s.lyc_equals_ly.val },
        mode: Signal { val: mode_of(v), old_val: s.mode.val },
    }
}

/// STAT at power-on: no interrupt source enabled, LY = LYC not seen, and
/// the mode searching OAM.
pub open spec fn stat_power_on() -> LcsStatusRegister {
    LcsStatusRegister {
        lyc_ir_enable: false,
        mode_2_ir_enable: false,
        mode_1_ir_enable: false,
        mode_0_ir_enable: false,
        lyc_equals_ly: Signal { val: false, old_val: false },
        mode: Signal { val: ScreenMode::SreachingOAM, old_val: ScreenMode::SreachingOAM },
    }
}

impl Default for LcsStatusRegister {
    fn default() -> (r: Self)
        ensures
            r == stat_power_on(),
    {
        LcsStatusRegister {
            lyc_ir_enable: false,
            mode_2_ir_enable: false,
            mode_1_ir_enable: false,
            mode_0_ir_enable: false,
            lyc_equals_ly: Signal::<bool>::default(),
            mode: Signal::<ScreenMode>::default(),
        }
    }
}

fn flag_bit(b: bool) -> (r: u8)
    ensures
        r == bit(b),
{
    if b { 1 } else { 0 }
}

impl LcsStatusRegister {
    pub fn read(&self) -> (r: u8)
        ensures
            r == stat_code(*self),
    {
        let b6 = flag_bit(self.lyc_ir_enable);
        let b5 = flag_bit(self.mode_2_ir_enable);
        let b4 = flag_bit(self.mode_1_ir_enable);
        let b3 = flag_bit(self.mode_0_ir_enable);
        let b2 = flag_bit(self.lyc_equals_ly.get());
        let m: u8 = u8::from(self.mode.get());
        proof {
            assert(b6 <= 1 && b5 <= 1 && b4 <= 1 && b3 <= 1 && b2 <= 1 && m <= 3 ==> b6 << 6u8 | b5 << 5u8 | b4
                << 4u8 | b3 << 3u8 | b2 << 2u8 | m == (64 * b6 + 32 * b5 + 16 * b4 + 8 * b3 + 4 * b2 + m) as u8)
                by (bit_vector);
        }
        b6 << 6u8 | b5 << 5u8 | b4 << 4u8 | b3 << 3u8 | b2 << 2u8 | m
    }

    pub fn write(&mut self, v: u8)
        ensures
            *final(self) == stat_written(*old(self), v),
    {
        self.lyc_ir_enable = v & 0b01000000 != 0;
        self.mode_2_ir_enable = v & 0b00100000 != 0;
        self.mode_1_ir_enable = v & 0b00010000 != 0;
        self.mode_0_ir_enable = v & 0b00001000 != 0;
        self.lyc_equals_ly.set(v & 0b00000100 != 0);
        self.mode.set(ScreenMode::from(v & 0b00000011));
        proof {
            lemma_byte_bits(v);
        }
    }

    /// The mode 0 interrupt, as this register raises it: enabled and the
    /// mode just changed to searching OAM.
    pub fn is_mode_0_ir(&self) -> (r: bool)
        ensures
            r == (self.mode_0_ir_enable && self.mode.val != self.mode.old_val && self.mode.val
                == ScreenMode::SreachingOAM),
    {
        self.mode_0_ir_enable && self.mode.changed_to(ScreenMode::SreachingOAM)
    }

    /// The mode 1 interrupt: enabled and the mode just changed to
    /// transferring data.
    pub fn is_mode_1_ir(&self) -> (r: bool)
        ensures
            r == (self.mode_1_ir_enable && self.mode.val != self.mode.old_val && self.mode.val
                == ScreenMode::TransferringData),
    {
        self.mode_1_ir_enable && self.mode.changed_to(ScreenMode::TransferringData)
    }

    /// The mode 2 interrupt: enabled and the mode just changed to HBlank.
    pub fn is_mode_2_ir(&self) -> (r: bool)
        ensures
            r == (self.mode_2_ir_enable && self.mode.val != self.mode.old_val && self.mode.val
                == ScreenMode::HBlank),
    {
        self.mode_2_ir_enable && self.mode.changed_to(ScreenMode::HBlank)
    }

    /// The LY = LYC interrupt: enabled and the comparison just changed.
    pub fn is_lyc_ir(&self) -> (r: bool)
        ensures
            r == (self.lyc_ir_enable && self.lyc_equals_ly.val != self.lyc_equals_ly.old_val),
    {
        self.lyc_ir_enable && self.lyc_equals_ly.changed()
    }
}

/// Reading STAT after writing `v` gives `v` without bit 7: every flag and
/// the mode read back as written.
pub proof fn law_stat_round_trip(s: LcsStatusRegister, v: u8)
    ensures
        stat_code(stat_written(s, v)) == v & 0x7F,
{
    assert(v & 0x7F == (64 * bit(v & 0x40 != 0) + 32 * bit(v & 0x20 != 0) + 16 * bit(v & 0x10 != 0) + 8 * bit(
        v & 0x08 != 0,
    ) + 4 * bit(v & 0x04 != 0) + v % 4) as u8) by (bit_vector);
    assert(mode_code(mode_of(v)) == v % 4);
}

/// The name of a mode, as the debugger shows it.
pub open spec fn mode_text_of(m: ScreenMode) -> Seq<char> {
    match m {
        ScreenMode::HBlank => "HBlank"@,
        ScreenMode::VBlank => "VBlank"@,
        ScreenMode::SreachingOAM => "OAM"@,
        ScreenMode::TransferringData => "Trasf"@,
    }
}

/// The text of STAT, as the debugger shows it: the mode, the LY = LYC
/// source, and the mode sources.
pub open spec fn stat_text(s: LcsStatusRegister) -> Seq<char> {
    "Mode: "@ + mode_text_of(s.mode.val) + "\n"@ + "LYC: enabled "@ + flag_text(s.lyc_ir_enable) + " equals "@
        + flag_text(s.lyc_equals_ly.val) + "\n"@ + "Interrupts: mode2 "@ + flag_text(s.mode_2_ir_enable)
        + " mode1 "@ + flag_text(s.mode_1_ir_enable) + " mode0 "@ + flag_text(s.mode_0_ir_enable)
}

impl LcsStatusRegister {
    /// The text of the register, as the debugger shows it.
    pub fn to_text(&self) -> (r: String)
        ensures
            r@ == stat_text(*self),
    {
        let mut s = String::new();
        s.append("Mode: ");
        s.append(self.mode.get().name());
        s.append("\n");
        s.append("LYC: enabled ");
        s.append(flag_to_str(self.lyc_ir_enable));
        s.append(" equals ");
        s.append(flag_to_str(self.lyc_equals_ly.get()));
        s.append("\n");
        s.append("Interrupts: mode2 ");
        s.append(flag_to_str(self.mode_2_ir_enable));
        s.append(" mode1 ");
        s.append(flag_to_str(self.mode_1_ir_enable));
        s.append(" mode0 ");
        s.append(flag_to_str(self.mode_0_ir_enable));
        proof {
            assert(s@ =~= stat_text(*self));
        }
        s
    }
}

} // verus!
