//! The audio processing unit's registers, 0xFF10 to 0xFF3F.
use vstd::prelude::*;
use vstd::string::*;

pub mod sound_channel;

use sound_channel::{
    Channel1, Channel2, Channel3, Channel4, Channel3View, Channel4View, LfsrWidth, OutputLevel, PulseView, SweepDirection,
    control_of, duty_of, envelope_of, period_after_high, period_after_low, pulse_zero, sweep_of,
};

use crate::text::{hex8_text, push_hex8};
use crate::{hex_message, hex_text, GbError};

verus! {

/// The size of channel 3's wave pattern RAM.
pub const CH3_WAVE_PATTERN_RAM_SIZE: usize = 16;

pub const CH1_SWEEP_REG_ADDR: u16 = 0xFF10;
pub const CH1_WAVE_AND_TIMER_REG_ADDR: u16 = 0xFF11;
pub const CH1_ENVELOPE_REG_ADDR: u16 = 0xFF12;
pub const CH1_PERIOD_LOW_REG_ADDR: u16 = 0xFF13;
pub const CH1_PERIOD_HIGH_AND_CTRL_REG_ADDR: u16 = 0xFF14;

pub const CH2_WAVE_AND_TIMER_REG_ADDR: u16 = 0xFF16;
pub const CH2_ENVELOPE_REG_ADDR: u16 = 0xFF17;
pub const CH2_PERIOD_LOW_REG_ADDR: u16 = 0xFF18;
pub const CH2_PERIOD_HIGH_AND_CTRL_REG_ADDR: u16 = 0xFF19;

pub const CH3_DAC_ENABLE_REG_ADDR: u16 = 0xFF1A;

pub const CH4_ENVELOPE_REG_ADDR: u16 = 0xFF21;
pub const CH4_CONTROL_REG_ADDR: u16 = 0xFF23;

pub const VOLUME_CTRL_REG_ADDR: u16 = 0xFF24;
pub const OUTPUT_SELECT_REG_ADDR: u16 = 0xFF25;
pub const SOUND_ENABLE_REG_ADDR: u16 = 0xFF26;

/// The message of a refused write of `value` to NR52, the value written
/// as `0x` and two upper-case hexadecimal digits.
pub open spec fn nr52_text(value: u8) -> Seq<char> {
    "attempting to write "@ + hex8_text(value) + " to sound enable register (NR52)"@
}

/// Builds the message `nr52_text` describes.
fn nr52_message(value: u8) -> (r: String)
    ensures
        r@ == nr52_text(value),
{
    let mut s = String::from_str("attempting to write ");
    push_hex8(&mut s, value);
    s.append(" to sound enable register (NR52)");
    s
}

/// What the APU holds.
pub struct ApuView {
    pub sound_enable: u8,
    pub sound_output_terminal_selection: u8,
    pub sound_channel_volume_control: u8,
    pub ch1: ((u8, SweepDirection, u8), PulseView, (bool, bool)),
    pub ch2: (PulseView, (bool, bool)),
    pub ch3: Channel3View,
    pub ch4: Channel4View,
}

/// The APU at power-on: every register and channel cleared (the wave
/// channel muted, the noise channel's LFSR 15 bits wide).
pub open spec fn apu_power_on() -> ApuView {
    ApuView {
        sound_enable: 0,
        sound_output_terminal_selection: 0,
        sound_channel_volume_control: 0,
        ch1: ((0u8, SweepDirection::Increase, 0u8), pulse_zero(), (false, false)),
        ch2: (pulse_zero(), (false, false)),
        ch3: Channel3View {
            enable: false,
            length_timer: 0,
            output_level: OutputLevel::Mute,
            period: 0,
            ctrl: (false, false),
            wave_pattern: Seq::new(CH3_WAVE_PATTERN_RAM_SIZE as nat, |i: int| 0u8),
        },
        ch4: Channel4View {
            length_timer: 0,
            envelope: (0u8, SweepDirection::Increase, 0u8),
            clock_shift: 0,
            clock_divider: 0,
            lfsr_width: LfsrWidth::FifteenBits,
            control: (false, false),
        },
    }
}

/// The audio processing unit.
pub struct APU {
    sound_enable: u8,
    sound_output_terminal_selection: u8,
    sound_channel_volume_control: u8,
    ch1: Channel1,
    ch2: Channel2,
    ch3: Channel3,
    ch4: Channel4,
}

impl View for APU {
    type V = ApuView;

    closed spec fn view(&self) -> ApuView {
        ApuView {
            sound_enable: self.sound_enable,
            sound_output_terminal_selection: self.sound_output_terminal_selection,
            sound_channel_volume_control: self.sound_channel_volume_control,
            ch1: self.ch1@,
            ch2: self.ch2@,
            ch3: self.ch3@,
            ch4: self.ch4@,
        }
    }
}

/// The registers that a write reaches, and how: `None` where the write is
/// refused (an address with no register behind it, or a value with any of
/// bits 0 to 6 set written to NR52).
pub open spec fn apu_write(a: ApuView, addr: u16, value: u8) -> Option<ApuView> {
    if addr == CH1_SWEEP_REG_ADDR {
        Some(ApuView { ch1: (sweep_of(value), a.ch1.1, a.ch1.2), ..a })
    } else if addr == CH1_WAVE_AND_TIMER_REG_ADDR {
        Some(ApuView { ch1: (a.ch1.0, PulseView { duty_cycle: duty_of(value), length_timer: value & 0xFC, ..a.ch1.1 }, a.ch1.2), ..a })
    } else if addr == CH1_ENVELOPE_REG_ADDR {
        Some(ApuView { ch1: (a.ch1.0, PulseView { envelope: envelope_of(value), ..a.ch1.1 }, a.ch1.2), ..a })
    } else if addr == CH1_PERIOD_LOW_REG_ADDR {
        Some(ApuView { ch1: (a.ch1.0, PulseView { period: period_after_low(a.ch1.1.period, value), ..a.ch1.1 }, a.ch1.2), ..a })
    } else if addr == CH1_PERIOD_HIGH_AND_CTRL_REG_ADDR {
        Some(ApuView { ch1: (a.ch1.0, PulseView { period: period_after_high(a.ch1.1.period, value), ..a.ch1.1 }, control_of(value)), ..a })
    } else if addr == CH2_WAVE_AND_TIMER_REG_ADDR {
        Some(ApuView { ch2: (PulseView { duty_cycle: duty_of(value), length_timer: value & 0xFC, ..a.ch2.0 }, a.ch2.1), ..a })
    } else if addr == CH2_ENVELOPE_REG_ADDR {
        Some(ApuView { ch2: (PulseView { envelope: envelope_of(value), ..a.ch2.0 }, a.ch2.1), ..a })
    } else if addr == CH2_PERIOD_LOW_REG_ADDR {
        Some(ApuView { ch2: (PulseView { period: period_after_low(a.ch2.0.period, value), ..a.ch2.0 }, a.ch2.1), ..a })
    } else if addr == CH2_PERIOD_HIGH_AND_CTRL_REG_ADDR {
        Some(ApuView { ch2: (PulseView { period: period_after_high(a.ch2.0.period, value), ..a.ch2.0 }, control_of(value)), ..a })
    } else if addr == CH3_DAC_ENABLE_REG_ADDR {
        Some(ApuView { ch3: Channel3View { enable: value & 0x80 != 0, ..a.ch3 }, ..a })
    } else if addr == CH4_ENVELOPE_REG_ADDR {
        Some(ApuView { ch4: Channel4View { envelope: envelope_of(value), ..a.ch4 }, ..a })
    } else if addr == CH4_CONTROL_REG_ADDR {
        Some(ApuView { ch4: Channel4View { control: control_of(value), ..a.ch4 }, ..a })
    } else if addr == VOLUME_CTRL_REG_ADDR {
        Some(ApuView { sound_channel_volume_control: value, ..a })
    } else if addr == OUTPUT_SELECT_REG_ADDR {
        Some(ApuView { sound_output_terminal_selection: value, ..a })
    } else if addr == SOUND_ENABLE_REG_ADDR && value & 0x7F == 0 {
        Some(ApuView { sound_enable: value, ..a })
    } else {
        None
    }
}

/// Writing any APU register keeps the periods of the pulse and wave
/// channels at zero: the low-byte write masks a zero period, the high-bits
/// write keeps only the low byte of a value shifted left by 8.
pub proof fn law_periods_stay_zero(a: ApuView, addr: u16, value: u8)
    requires
        a.ch1.1.period == 0,
        a.ch2.0.period == 0,
        a.ch3.period == 0,
    ensures
        apu_write(a, addr, value) matches Some(b) ==> b.ch1.1.period == 0 && b.ch2.0.period == 0 && b.ch3.period
            == 0,
{
    assert(period_after_low(0, value) == 0) by (bit_vector);
    assert(period_after_high(0, value) == 0) by (bit_vector);
}

impl APU {
    /// The channels' periods are zero.
    pub closed spec fn wf(&self) -> bool {
        &&& self.ch1.wf()
        &&& self.ch2.wf()
        &&& self.ch3.wf()
    }

    /// An APU whose registers hold zero.
    pub fn new() -> (r: Self)
        ensures
            r.wf(),
            r@ == apu_power_on(),
    {
        Self {
            sound_enable: 0,
            sound_output_terminal_selection: 0,
            sound_channel_volume_control: 0,
            ch1: Channel1::default(),
            ch2: Channel2::default(),
            ch3: Channel3::default(),
            ch4: Channel4::default(),
        }
    }

    /// Sound is not produced: a step changes nothing.
    pub fn step(&mut self, _cpu_cycles: u8) -> (r: Result<(), GbError>)
        ensures
            final(self).wf() == old(self).wf(),
            r is Ok,
            final(self)@ == old(self)@,
    {
        Ok(())
    }

    /// No APU register can be read: every read is refused.
    pub fn read_reg(&self, addr: u16) -> (r: Result<u8, GbError>)
        ensures
            r matches Err(GbError::IllegalOp(m)) && m@ == hex_text("Write to invalid APU reg"@, addr),
    {
        Err(GbError::IllegalOp(hex_message("Write to invalid APU reg", addr)))
    }

    /// Writes an APU register, as `apu_write` says; a refused write changes
    /// nothing.
    pub fn write_reg(&mut self, addr: u16, value: u8) -> (r: Result<(), GbError>)
        requires
            old(self).wf(),
        ensures
            final(self).wf(),
            match apu_write(old(self)@, addr, value) {
                Some(a) => r is Ok && final(self)@ == a,
                None => final(self)@ == old(self)@ && (r matches Err(GbError::IllegalOp(_))),
            },
            addr == SOUND_ENABLE_REG_ADDR && value & 0x7F != 0 ==>
                (r matches Err(GbError::IllegalOp(m)) && m@ == nr52_text(value)),
            apu_write(old(self)@, addr, value) is None && addr != SOUND_ENABLE_REG_ADDR ==>
                (r matches Err(GbError::IllegalOp(m)) && m@ == hex_text("Write to invalid APU reg"@, addr)),
    {
        match addr {
            CH1_SWEEP_REG_ADDR => self.ch1.write_sweep(value),
            CH1_WAVE_AND_TIMER_REG_ADDR => self.ch1.write_wave_and_timer(value),
            CH1_ENVELOPE_REG_ADDR => self.ch1.write_envelope(value),
            CH1_PERIOD_LOW_REG_ADDR => self.ch1.write_period_low(value),
            CH1_PERIOD_HIGH_AND_CTRL_REG_ADDR => self.ch1.write_period_high_and_ctrl(value),
            CH2_WAVE_AND_TIMER_REG_ADDR => self.ch2.write_wave_and_timer(value),
            CH2_ENVELOPE_REG_ADDR => self.ch2.write_envelope(value),
            CH2_PERIOD_LOW_REG_ADDR => self.ch2.write_period_low(value),
            CH2_PERIOD_HIGH_AND_CTRL_REG_ADDR => self.ch2.write_period_high_and_ctrl(value),
            CH3_DAC_ENABLE_REG_ADDR => self.ch3.write_enable(value),
            CH4_ENVELOPE_REG_ADDR => self.ch4.write_envelope(value),
            CH4_CONTROL_REG_ADDR => self.ch4.write_control(value),
            VOLUME_CTRL_REG_ADDR => self.sound_channel_volume_control = value,
            OUTPUT_SELECT_REG_ADDR => self.sound_output_terminal_selection = value,
            SOUND_ENABLE_REG_ADDR => {
                if value & 0x7F != 0 {
                    return Err(GbError::IllegalOp(nr52_message(value)));
                } else {
                    self.sound_enable = value
                }
            },
            _ => {
                return Err(GbError::IllegalOp(hex_message("Write to invalid APU reg", addr)));
            },
        }
        Ok(())
    }
}

} // verus!
