//! The registers of the four sound channels.
use vstd::prelude::*;

use crate::bits::lemma_byte_bits;
use super::CH3_WAVE_PATTERN_RAM_SIZE;

verus! {

/// Whether a sweep or an envelope goes up or down.
#[derive(Clone, Copy, Debug, PartialEq, Eq, Structural)]
pub enum SweepDirection {
    Increase,
    Decrease,
}

/// The duty cycle of a pulse channel's wave.
#[derive(Clone, Copy, Debug, PartialEq, Eq, Structural)]
pub enum DutyCycle {
    OneToEight,
    OneToFour,
    Half,
    ThreeToFour,
}

/// The duty cycle selected by the two low bits of `value`.
pub open spec fn duty_of(value: u8) -> DutyCycle {
    let v = value % 4;
    if v == 0 {
        DutyCycle::OneToEight
    } else if v == 1 {
        DutyCycle::OneToFour
    } else if v == 2 {
        DutyCycle::Half
    } else {
        DutyCycle::ThreeToFour
    }
}

/// The two-bit code of a duty cycle.
pub open spec fn duty_code(d: DutyCycle) -> u8 {
    match d {
        DutyCycle::OneToEight => 0,
        DutyCycle::OneToFour => 1,
        DutyCycle::Half => 2,
        DutyCycle::ThreeToFour => 3,
    }
}

/// A duty cycle written as its code reads back as itself, and a byte
/// decodes to the duty cycle of its two low bits.
pub proof fn law_duty_cycle_round_trip(d: DutyCycle, value: u8)
    ensures
        duty_of(duty_code(d)) == d,
        duty_code(duty_of(value)) == value % 4,
{
}

impl From<u8> for DutyCycle {
    fn from(value: u8) -> (r: Self) {
        proof {
            lemma_byte_bits(value);
        }
        match value & 0b00000011 {
            0 => DutyCycle::OneToEight,
            1 => DutyCycle::OneToFour,
            2 => DutyCycle::Half,
            _ => DutyCycle::ThreeToFour,
        }
    }
}

impl vstd::std_specs::convert::FromSpecImpl<u8> for DutyCycle {
    open spec fn obeys_from_spec() -> bool {
        true
    }

    open spec fn from_spec(v: u8) -> DutyCycle {
        duty_of(v)
    }
}

impl From<DutyCycle> for u8 {
    fn from(value: DutyCycle) -> (r: Self) {
        match value {
            DutyCycle::OneToEight => 0,
            DutyCycle::OneToFour => 1,
            DutyCycle::Half => 2,
            DutyCycle::ThreeToFour => 3,
        }
    }
}

impl vstd::std_specs::convert::FromSpecImpl<DutyCycle> for u8 {
    open spec fn obeys_from_spec() -> bool {
        true
    }

    open spec fn from_spec(v: DutyCycle) -> u8 {
        duty_code(v)
    }
}

/// The output level of the wave channel.
#[derive(Clone, Copy, Debug, PartialEq, Eq, Structural)]
pub enum OutputLevel {
    Mute,
    MaxVolume,
    HalfVolume,
    QuarterVolume,
}

/// The output level selected by the two low bits of `value`.
pub open spec fn output_level_of(value: u8) -> OutputLevel {
    let v = value % 4;
    if v == 0 {
        OutputLevel::Mute
    } else if v == 1 {
        OutputLevel::MaxVolume
    } else if v == 2 {
        OutputLevel::HalfVolume
    } else {
        OutputLevel::QuarterVolume
    }
}

/// The two-bit code of an output level.
pub open spec fn output_level_code(o: OutputLevel) -> u8 {
    match o {
        OutputLevel::Mute => 0,
        OutputLevel::MaxVolume => 1,
        OutputLevel::HalfVolume => 2,
        OutputLevel::QuarterVolume => 3,
    }
}

/// An output level written as its code reads back as itself, and a byte
/// decodes to the level of its two low bits.
pub proof fn law_output_level_round_trip(o: OutputLevel, value: u8)
    ensures
        output_level_of(output_level_code(o)) == o,
        output_level_code(output_level_of(value)) == value % 4,
{
}

impl From<u8> for OutputLevel {
    fn from(value: u8) -> (r: Self) {
        proof {
            lemma_byte_bits(value);
        }
        match value & 0b00000011 {
            0 => OutputLevel::Mute,
            1 => OutputLevel::MaxVolume,
            2 => OutputLevel::HalfVolume,
            _ => OutputLevel::QuarterVolume,
        }
    }
}

impl vstd::std_specs::convert::FromSpecImpl<u8> for OutputLevel {
    open spec fn obeys_from_spec() -> bool {
        true
    }

    open spec fn from_spec(v: u8) -> OutputLevel {
        output_level_of(v)
    }
}

impl From<OutputLevel> for u8 {
    fn from(value: OutputLevel) -> (r: Self) {
        match value {
            OutputLevel::Mute => 0,
            OutputLevel::MaxVolume => 1,
            OutputLevel::HalfVolume => 2,
            OutputLevel::QuarterVolume => 3,
        }
    }
}

impl vstd::std_specs::convert::FromSpecImpl<OutputLevel> for u8 {
    open spec fn obeys_from_spec() -> bool {
        true
    }

    open spec fn from_spec(v: OutputLevel) -> u8 {
        output_level_code(v)
    }
}

/// The width of the noise channel's shift register.
#[derive(Clone, Copy, Debug, PartialEq, Eq, Structural)]
pub enum LfsrWidth {
    FifteenBits,
    SevenBits,
}

/// Trigger (bit 7) and length enable (bit 6) of a control register value.
pub open spec fn control_of(value: u8) -> (bool, bool) {
    (value & 0x80 != 0, value & 0x40 != 0)
}

/// Pace (bits 4 to 6), direction (bit 3 set: down) and slope (bits 0 to 2)
/// of a sweep register value.
pub open spec fn sweep_of(value: u8) -> (u8, SweepDirection, u8) {
    (
        (value & 0x70) >> 4u8,
        if value & 0x08 != 0 { SweepDirection::Decrease } else { SweepDirection::Increase },
        value & 0x07,
    )
}

/// Volume (the high nibble, kept in place), direction (bit 3 clear: down)
/// and pace (bits 0 to 2) of an envelope register value.
pub open spec fn envelope_of(value: u8) -> (u8, SweepDirection, u8) {
    (
        value & 0xF0,
        if value & 0x08 == 0 { SweepDirection::Decrease } else { SweepDirection::Increase },
        value & 0x07,
    )
}

/// Trigger and length enable of a channel.
pub struct ChannelControl {
    trigger: bool,
    sound_length_enable: bool,
}

impl View for ChannelControl {
    type V = (bool, bool);

    closed spec fn view(&self) -> (bool, bool) {
        (self.trigger, self.sound_length_enable)
    }
}

impl Default for ChannelControl {
    fn default() -> (r: Self)
        ensures
            r@ == (false, false),
    {
        ChannelControl { trigger: false, sound_length_enable: false }
    }
}

impl ChannelControl {
    pub fn write(&mut self, value: u8)
        ensures
            final(self)@ == control_of(value),
    {
        self.trigger = value & 0b10000000 != 0;
        self.sound_length_enable = value & 0b01000000 != 0;
    }
}

/// The frequency sweep of channel 1.
pub struct Sweep {
    pace: u8,
    direction: SweepDirection,
    slope_ctrl: u8,
}

impl View for Sweep {
    type V = (u8, SweepDirection, u8);

    closed spec fn view(&self) -> (u8, SweepDirection, u8) {
        (self.pace, self.direction, self.slope_ctrl)
    }
}

impl Default for Sweep {
    fn default() -> (r: Self)
        ensures
            r@ == (0u8, SweepDirection::Increase, 0u8),
    {
        Sweep { pace: 0, direction: SweepDirection::Increase, slope_ctrl: 0 }
    }
}

impl Sweep {
    fn write(&mut self, value: u8)
        ensures
            final(self)@ == sweep_of(value),
    {
        self.slope_ctrl = value & 0b00000111;
        self.direction = if value & 0b00001000 != 0 {
            SweepDirection::Decrease
        } else {
            SweepDirection::Increase
        };
        self.pace = (value & 0b01110000) >> 4u8;
    }
}

/// The volume envelope of a channel.
pub struct Envelope {
    volume: u8,
    direction: SweepDirection,
    sweep_pace: u8,
}

impl View for Envelope {
    type V = (u8, SweepDirection, u8);

    closed spec fn view(&self) -> (u8, SweepDirection, u8) {
        (self.volume, self.direction, self.sweep_pace)
    }
}

impl Default for Envelope {
    fn default() -> (r: Self)
        ensures
            r@ == (0u8, SweepDirection::Increase, 0u8),
    {
        Envelope { volume: 0, direction: SweepDirection::Increase, sweep_pace: 0 }
    }
}

impl Envelope {
    fn write(&mut self, value: u8)
        ensures
            final(self)@ == envelope_of(value),
    {
        self.sweep_pace = value & 0b00000111;
        self.direction = if value & 0b00001000 == 0 {
            SweepDirection::Decrease
        } else {
            SweepDirection::Increase
        };
        self.volume = value & 0b11110000;
    }
}

/// The period written through the low-byte register: the old period masked
/// by `0xFF00 + low` (the mask and the byte are added before the `&`).
pub open spec fn period_after_low(period: u16, low: u8) -> u16 {
    period & ((0xFF00 + low) as u16)
}

/// The period written through the high-bits register: the three low bits of
/// `value` shifted by `8 + period`, masked to the low byte.
pub open spec fn period_after_high(period: u16, value: u8) -> u16 {
    ((((value & 0x07) as u16) << ((8 + period) as u16)) & 0x00FF) as u16
}

/// What a pulse channel holds.
pub struct PulseView {
    pub duty_cycle: DutyCycle,
    pub length_timer: u8,
    pub envelope: (u8, SweepDirection, u8),
    pub period: u16,
}

/// A pulse (square wave) channel: channels 1 and 2.
pub struct Pulse {
    duty_cycle: DutyCycle,
    length_timer: u8,
    envelope: Envelope,
    period: u16,
}

impl View for Pulse {
    type V = PulseView;

    closed spec fn view(&self) -> PulseView {
        PulseView {
            duty_cycle: self.duty_cycle,
            length_timer: self.length_timer,
            envelope: self.envelope@,
            period: self.period,
        }
    }
}

/// The pulse channel whose registers hold zero.
pub open spec fn pulse_zero() -> PulseView {
    PulseView {
        duty_cycle: DutyCycle::OneToEight,
        length_timer: 0,
        envelope: (0u8, SweepDirection::Increase, 0u8),
        period: 0,
    }
}

impl Default for Pulse {
    fn default() -> (r: Self)
        ensures
            r.wf(),
            r@ == pulse_zero(),
    {
        Pulse { duty_cycle: DutyCycle::OneToEight, length_timer: 0, envelope: Envelope::default(), period: 0 }
    }
}

impl Pulse {
    /// The period starts at zero, and both period registers keep it there:
    /// the low-byte write masks zero, the high-bits write keeps only the low
    /// byte of a value shifted by at least 8.
    pub closed spec fn wf(&self) -> bool {
        self.period == 0
    }

    pub fn write_wave_and_timer(&mut self, value: u8)
        requires
            old(self).wf(),
        ensures
            final(self).wf(),
            final(self)@ == (PulseView {
                duty_cycle: duty_of(value),
                length_timer: value & 0xFC,
                ..old(self)@
            }),
    {
        self.duty_cycle = DutyCycle::from(value & 0b00000011);
        proof {
            lemma_byte_bits(value);
        }
        self.length_timer = value & 0b11111100;
    }

    /// The duty cycle's code in bits 5 and 6.
    pub fn read_duty_cycle(&self) -> (r: u8)
        ensures
            r == duty_code(self@.duty_cycle) * 32,
    {
        let code: u8 = u8::from(self.duty_cycle);
        proof {
            assert(code <= 3 ==> code << 5u8 == code * 32) by (bit_vector);
        }
        code << 5u8
    }

    pub fn write_period_low(&mut self, period_low: u8)
        requires
            old(self).wf(),
        ensures
            final(self).wf(),
            final(self)@ == (PulseView { period: period_after_low(old(self)@.period, period_low), ..old(self)@ }),
    {
        let mask: u16 = 0xFF00 + period_low as u16;
        let p = self.period;
        proof {
            assert(p == 0 ==> p & mask == 0) by (bit_vector);
        }
        self.period = p & mask;
    }

    pub fn write_period_high(&mut self, period_high: u8)
        requires
            old(self).wf(),
        ensures
            final(self).wf(),
            final(self)@ == (PulseView { period: period_after_high(old(self)@.period, period_high), ..old(self)@ }),
    {
        let bits: u8 = period_high & 0b00000111;
        proof {
            lemma_byte_bits(period_high);
        }
        let period_high = bits as u16;
        let shift: u16 = 8 + self.period;
        proof {
            assert(period_high <= 7 && shift == 8 ==> (period_high << shift) & 0x00FF == 0) by (bit_vector);
        }
        self.period = (period_high << shift) & 0x00FF;
    }

    pub fn write_envelope(&mut self, value: u8)
        requires
            old(self).wf(),
        ensures
            final(self).wf(),
            final(self)@ == (PulseView { envelope: envelope_of(value), ..old(self)@ }),
    {
        self.envelope.write(value);
    }
}

/// Channel 1: a pulse channel with a frequency sweep.
pub struct Channel1 {
    sweep: Sweep,
    pulse: Pulse,
    ctrl: ChannelControl,
}

impl View for Channel1 {
    type V = ((u8, SweepDirection, u8), PulseView, (bool, bool));

    closed spec fn view(&self) -> ((u8, SweepDirection, u8), PulseView, (bool, bool)) {
        (self.sweep@, self.pulse@, self.ctrl@)
    }
}

impl Default for Channel1 {
    fn default() -> (r: Self)
        ensures
            r.wf(),
            r@ == ((0u8, SweepDirection::Increase, 0u8), pulse_zero(), (false, false)),
    {
        Channel1 { sweep: Sweep::default(), pulse: Pulse::default(), ctrl: ChannelControl::default() }
    }
}

impl Channel1 {
    pub closed spec fn wf(&self) -> bool {
        self.pulse.wf()
    }

    pub fn write_sweep(&mut self, value: u8)
        requires
            old(self).wf(),
        ensures
            final(self).wf(),
            final(self)@ == (sweep_of(value), old(self)@.1, old(self)@.2),
    {
        self.sweep.write(value);
    }

    pub fn write_wave_and_timer(&mut self, value: u8)
        requires
            old(self).wf(),
        ensures
            final(self).wf(),
            final(self)@ == (old(self)@.0, PulseView {
                duty_cycle: duty_of(value),
                length_timer: value & 0xFC,
                ..old(self)@.1
            }, old(self)@.2),
    {
        self.pulse.write_wave_and_timer(value);
    }

    pub fn write_envelope(&mut self, value: u8)
        requires
            old(self).wf(),
        ensures
            final(self).wf(),
            final(self)@ == (old(self)@.0, PulseView { envelope: envelope_of(value), ..old(self)@.1 }, old(self)@.2),
    {
        self.pulse.write_envelope(value);
    }

    pub fn write_period_low(&mut self, value: u8)
        requires
            old(self).wf(),
        ensures
            final(self).wf(),
            final(self)@ == (old(self)@.0, PulseView {
                period: period_after_low(old(self)@.1.period, value),
                ..old(self)@.1
            }, old(self)@.2),
    {
        self.pulse.write_period_low(value);
    }

    pub fn write_period_high_and_ctrl(&mut self, value: u8)
        requires
            old(self).wf(),
        ensures
            final(self).wf(),
            final(self)@ == (old(self)@.0, PulseView {
                period: period_after_high(old(self)@.1.period, value),
                ..old(self)@.1
            }, control_of(value)),
    {
        self.pulse.write_period_high(value);
        self.ctrl.write(value);
    }

    pub fn read_duty_cycle(&self) -> (r: u8)
        ensures
            r == duty_code(self@.1.duty_cycle) * 32,
    {
        self.pulse.read_duty_cycle()
    }
}

/// Channel 2: a pulse channel.
pub struct Channel2 {
    pulse: Pulse,
    ctrl: ChannelControl,
}

impl View for Channel2 {
    type V = (PulseView, (bool, bool));

    closed spec fn view(&self) -> (PulseView, (bool, bool)) {
        (self.pulse@, self.ctrl@)
    }
}

impl Default for Channel2 {
    fn default() -> (r: Self)
        ensures
            r.wf(),
            r@ == (pulse_zero(), (false, false)),
    {
        Channel2 { pulse: Pulse::default(), ctrl: ChannelControl::default() }
    }
}

impl Channel2 {
    pub closed spec fn wf(&self) -> bool {
        self.pulse.wf()
    }

    pub fn write_wave_and_timer(&mut self, value: u8)
        requires
            old(self).wf(),
        ensures
            final(self).wf(),
            final(self)@ == (PulseView {
                duty_cycle: duty_of(value),
                length_timer: value & 0xFC,
                ..old(self)@.0
            }, old(self)@.1),
    {
        self.pulse.write_wave_and_timer(value);
    }

    pub fn write_envelope(&mut self, value: u8)
        requires
            old(self).wf(),
        ensures
            final(self).wf(),
            final(self)@ == (PulseView { envelope: envelope_of(value), ..old(self)@.0 }, old(self)@.1),
    {
        self.pulse.write_envelope(value);
    }

    pub fn write_period_low(&mut self, value: u8)
        requires
            old(self).wf(),
        ensures
            final(self).wf(),
            final(self)@ == (PulseView {
                period: period_after_low(old(self)@.0.period, value),
                ..old(self)@.0
            }, old(self)@.1),
    {
        self.pulse.write_period_low(value);
    }

    pub fn write_period_high_and_ctrl(&mut self, value: u8)
        requires
            old(self).wf(),
        ensures
            final(self).wf(),
            final(self)@ == (PulseView {
                period: period_after_high(old(self)@.0.period, value),
                ..old(self)@.0
            }, control_of(value)),
    {
        self.pulse.write_period_high(value);
        self.ctrl.write(value);
    }

    pub fn read_duty_cycle(&self) -> (r: u8)
        ensures
            r == duty_code(self@.0.duty_cycle) * 32,
    {
        self.pulse.read_duty_cycle()
    }
}

/// What the wave channel holds.
pub struct Channel3View {
    pub enable: bool,
    pub length_timer: u8,
    pub output_level: OutputLevel,
    pub period: u16,
    pub ctrl: (bool, bool),
    pub wave_pattern: Seq<u8>,
}

/// Channel 3: the wave channel, which plays its 16-byte wave pattern.
pub struct Channel3 {
    enable: bool,
    length_timer: u8,
    output_level: OutputLevel,
    period: u16,
    ctrl: ChannelControl,
    pub wave_pattern: [u8; 16],
}

impl View for Channel3 {
    type V = Channel3View;

    closed spec fn view(&self) -> Channel3View {
        Channel3View {
            enable: self.enable,
            length_timer: self.length_timer,
            output_level: self.output_level,
            period: self.period,
            ctrl: self.ctrl@,
            wave_pattern: self.wave_pattern@,
        }
    }
}

impl Default for Channel3 {
    fn default() -> (r: Self)
        ensures
            r.wf(),
            r@.enable == false,
            r@.length_timer == 0,
            r@.output_level == OutputLevel::Mute,
            r@.period == 0,
            r@.ctrl == (false, false),
            r@.wave_pattern == Seq::new(CH3_WAVE_PATTERN_RAM_SIZE as nat, |i: int| 0u8),
    {
        let r = Channel3 {
            enable: false,
            length_timer: 0,
            output_level: OutputLevel::Mute,
            period: 0,
            ctrl: ChannelControl::default(),
            wave_pattern: [0u8; 16],
        };
        proof {
            assert(r.wave_pattern@ == Seq::new(CH3_WAVE_PATTERN_RAM_SIZE as nat, |i: int| 0u8));
        }
        r
    }
}

impl Channel3 {
    /// The period stays zero, as in a pulse channel.
    pub closed spec fn wf(&self) -> bool {
        self.period == 0
    }

    pub fn write_enable(&mut self, value: u8)
        requires
            old(self).wf(),
        ensures
            final(self).wf(),
            final(self)@ == (Channel3View { enable: value & 0x80 != 0, ..old(self)@ }),
    {
        self.enable = value & 0b10000000 != 0;
    }

    pub fn write_length_timer(&mut self, value: u8)
        requires
            old(self).wf(),
        ensures
            final(self).wf(),
            final(self)@ == (Channel3View { length_timer: value, ..old(self)@ }),
    {
        self.length_timer = value;
    }

    pub fn write_output_level(&mut self, value: u8)
        requires
            old(self).wf(),
        ensures
            final(self).wf(),
            final(self)@ == (Channel3View { output_level: output_level_of(value), ..old(self)@ }),
    {
        self.output_level = OutputLevel::from(value);
    }

    pub fn write_period_low(&mut self, value: u8)
        requires
            old(self).wf(),
        ensures
            final(self).wf(),
            final(self)@ == (Channel3View { period: period_after_low(old(self)@.period, value), ..old(self)@ }),
    {
        let mask: u16 = 0xFF00 + value as u16;
        let p = self.period;
        proof {
            assert(p == 0 ==> p & mask == 0) by (bit_vector);
        }
        self.period = p & mask;
    }

    pub fn write_period_high_and_ctrl(&mut self, value: u8)
        requires
            old(self).wf(),
        ensures
            final(self).wf(),
            final(self)@ == (Channel3View {
                period: period_after_high(old(self)@.period, value),
                ctrl: control_of(value),
                ..old(self)@
            }),
    {
        let bits: u8 = value & 0b00000111;
        proof {
            lemma_byte_bits(value);
        }
        let period_high = bits as u16;
        let shift: u16 = 8 + self.period;
        proof {
            assert(period_high <= 7 && shift == 8 ==> (period_high << shift) & 0x00FF == 0) by (bit_vector);
        }
        self.period = (period_high << shift) & 0x00FF;
        self.ctrl.write(value);
    }
}

/// What the noise channel holds.
pub struct Channel4View {
    pub length_timer: u8,
    pub envelope: (u8, SweepDirection, u8),
    pub clock_shift: u8,
    pub clock_divider: u8,
    pub lfsr_width: LfsrWidth,
    pub control: (bool, bool),
}

/// Channel 4: the noise channel.
pub struct Channel4 {
    length_timer: u8,
    envelope: Envelope,
    clock_shift: u8,
    clock_divider: u8,
    lfsr_width: LfsrWidth,
    control: ChannelControl,
}

impl View for Channel4 {
    type V = Channel4View;

    closed spec fn view(&self) -> Channel4View {
        Channel4View {
            length_timer: self.length_timer,
            envelope: self.envelope@,
            clock_shift: self.clock_shift,
            clock_divider: self.clock_divider,
            lfsr_width: self.lfsr_width,
            control: self.control@,
        }
    }
}

impl Default for Channel4 {
    fn default() -> (r: Self)
        ensures
            r@ == (Channel4View {
                length_timer: 0,
                envelope: (0u8, SweepDirection::Increase, 0u8),
                clock_shift: 0,
                clock_divider: 0,
                lfsr_width: LfsrWidth::FifteenBits,
                control: (false, false),
            }),
    {
        Channel4 {
            length_timer: 0,
            envelope: Envelope::default(),
            clock_shift: 0,
            clock_divider: 0,
            lfsr_width: LfsrWidth::FifteenBits,
            control: ChannelControl::default(),
        }
    }
}

impl Channel4 {
    pub fn write_envelope(&mut self, value: u8)
        ensures
            final(self)@ == (Channel4View { envelope: envelope_of(value), ..old(self)@ }),
    {
        self.envelope.write(value);
    }

    pub fn write_control(&mut self, value: u8)
        ensures
            final(self)@ == (Channel4View { control: control_of(value), ..old(self)@ }),
    {
        self.control.write(value);
    }

    pub fn write_length_timer(&mut self, value: u8)
        ensures
            final(self)@ == (Channel4View { length_timer: value, ..old(self)@ }),
    {
        self.length_timer = value;
    }

    /// Divider (bits 0 to 2), width (bit 3 set: 7 bits) and shift (bits 4
    /// to 7).
    pub fn write_freq_and_randomness(&mut self, value: u8)
        ensures
            final(self)@ == (Channel4View {
                clock_divider: value & 0x07,
                lfsr_width: if value & 0x08 != 0 { LfsrWidth::SevenBits } else { LfsrWidth::FifteenBits },
                clock_shift: (value & 0xF0) >> 4u8,
                ..old(self)@
            }),
    {
        self.clock_divider = value & 0b00000111;
        self.lfsr_width = if value & 0b00001000 != 0 {
            LfsrWidth::SevenBits
        } else {
            LfsrWidth::FifteenBits
        };
        self.clock_shift = (value & 0b11110000) >> 4u8;
    }
}

} // verus!
