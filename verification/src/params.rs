//! Low-level parameters of the device that map 1:1 to values written into
//! registers of the analog frontend components: the attenuator relays, the
//! LMH6518 programmable-gain amplifier, the MCP4432 offset digipot, the
//! MCP4728 trim DAC and the HMCAD1520 ADC.
//!
//! Gains are carried in decibels scaled by
//! [`DECIBEL_SCALE`](crate::config::DECIBEL_SCALE) (one unit is 0.0001 dB),
//! which keeps every gain constant of the signal path exact. Voltages are
//! carried in microvolts.

use vstd::arithmetic::div_mod::{
    lemma_fundamental_div_mod, lemma_fundamental_div_mod_converse, lemma_mod_bound,
};
use vstd::prelude::*;

use crate::config::{Bandwidth, ChannelConfiguration, Coupling, DeviceConfiguration, Termination};

verus! {

#[derive(Debug, Clone, Copy, PartialEq, Eq, Structural)]
pub enum CoarseAttenuation {
    X1,
    X50,
}

impl Default for CoarseAttenuation {
    fn default() -> (r: Self)
        ensures
            r == CoarseAttenuation::X50,
    {
        CoarseAttenuation::X50
    }
}

impl CoarseAttenuation {
    /// Gain in this part of the signal path, in scaled dB (a 50X attenuator
    /// divides the signal by 50, which is -33.9794 dB).
    pub open spec fn spec_gain(self) -> int {
        match self {
            CoarseAttenuation::X1 => 0,
            CoarseAttenuation::X50 => -339794,
        }
    }

    fn gain(self) -> (r: i32)
        ensures
            r == self.spec_gain(),
    {
        match self {
            CoarseAttenuation::X1 => 0,
            CoarseAttenuation::X50 => -339794,
        }
    }
}

#[allow(non_camel_case_types)]
#[derive(Debug, Clone, Copy, PartialEq, Eq, Structural)]
pub enum Amplification {
    dB10,
    dB30,
}

impl Default for Amplification {
    fn default() -> (r: Self)
        ensures
            r == Amplification::dB30,
    {
        Amplification::dB30
    }
}

impl Amplification {
    /// The preamp bit of the LMH6518 command word, shifted into place.
    pub open spec fn spec_lmh6518_code(self) -> u16 {
        match self {
            Amplification::dB10 => 0x00,  // "low gain"
            Amplification::dB30 => 0x10,  // "high gain"
        }
    }

    pub(crate) fn lmh6518_code(self) -> (r: u16)
        ensures
            r == self.spec_lmh6518_code(),
    {
        match self {
            Amplification::dB10 => 0x00,
            Amplification::dB30 => 0x10,
        }
    }

    /// Gain in this part of the signal path, in scaled dB.
    pub open spec fn spec_gain(self) -> int {
        match self {
            Amplification::dB10 => 100000,
            Amplification::dB30 => 300000,
        }
    }

    fn gain(self) -> (r: i32)
        ensures
            r == self.spec_gain(),
    {
        match self {
            Amplification::dB10 => 100000,
            Amplification::dB30 => 300000,
        }
    }
}

#[allow(non_camel_case_types)]
#[derive(Debug, Clone, Copy, PartialEq, Eq, Structural)]
pub enum FineAttenuation {
    dB0,
    dB2,
    dB4,
    dB6,
    dB8,
    dB10,
    dB12,
    dB14,
    dB16,
    dB18,
    dB20,
}

impl Default for FineAttenuation {
    fn default() -> (r: Self)
        ensures
            r == FineAttenuation::dB0,
    {
        FineAttenuation::dB0
    }
}

impl FineAttenuation {
    /// The ladder attenuator field of the LMH6518 command word.
    pub open spec fn spec_lmh6518_code(self) -> u16 {
        match self {
            FineAttenuation::dB0 => 0b0000,
            FineAttenuation::dB2 => 0b0001,
            FineAttenuation::dB4 => 0b0010,
            FineAttenuation::dB6 => 0b0011,
            FineAttenuation::dB8 => 0b0100,
            FineAttenuation::dB10 => 0b0101,
            FineAttenuation::dB12 => 0b0110,
            FineAttenuation::dB14 => 0b0111,
            FineAttenuation::dB16 => 0b1000,
            FineAttenuation::dB18 => 0b1001,
            FineAttenuation::dB20 => 0b1010,
        }
    }

    pub(crate) fn lmh6518_code(self) -> (r: u16)
        ensures
            r == self.spec_lmh6518_code(),
    {
        match self {
            FineAttenuation::dB0 => 0b0000,
            FineAttenuation::dB2 => 0b0001,
            FineAttenuation::dB4 => 0b0010,
            FineAttenuation::dB6 => 0b0011,
            FineAttenuation::dB8 => 0b0100,
            FineAttenuation::dB10 => 0b0101,
            FineAttenuation::dB12 => 0b0110,
            FineAttenuation::dB14 => 0b0111,
            FineAttenuation::dB16 => 0b1000,
            FineAttenuation::dB18 => 0b1001,
            FineAttenuation::dB20 => 0b1010,
        }
    }

    /// Gain in this part of the signal path, in scaled dB.
    pub open spec fn spec_gain(self) -> int {
        match self {
            FineAttenuation::dB0 => 0,
            FineAttenuation::dB2 => -20000,
            FineAttenuation::dB4 => -40000,
            FineAttenuation::dB6 => -60000,
            FineAttenuation::dB8 => -80000,
            FineAttenuation::dB10 => -100000,
            FineAttenuation::dB12 => -120000,
            FineAttenuation::dB14 => -140000,
            FineAttenuation::dB16 => -160000,
            FineAttenuation::dB18 => -180000,
            FineAttenuation::dB20 => -200000,
        }
    }

    fn gain(self) -> (r: i32)
        ensures
            r == self.spec_gain(),
    {
        match self {
            FineAttenuation::dB0 => 0,
            FineAttenuation::dB2 => -20000,
            FineAttenuation::dB4 => -40000,
            FineAttenuation::dB6 => -60000,
            FineAttenuation::dB8 => -80000,
            FineAttenuation::dB10 => -100000,
            FineAttenuation::dB12 => -120000,
            FineAttenuation::dB14 => -140000,
            FineAttenuation::dB16 => -160000,
            FineAttenuation::dB18 => -180000,
            FineAttenuation::dB20 => -200000,
        }
    }
}

#[derive(Debug, Clone, Copy, PartialEq, Eq, Structural)]
pub enum Filtering {
    MHz20,
    MHz100,
    MHz200,
    MHz350,
    Off,
}

impl Default for Filtering {
    fn default() -> (r: Self)
        ensures
            r == Filtering::MHz100,
    {
        Filtering::MHz100
    }
}

impl Filtering {
    /// The anti-alias filter field of the LMH6518 command word, shifted into
    /// place.
    pub open spec fn spec_lmh6518_code(self) -> u16 {
        match self {
            Filtering::MHz20 => 0b001u16 << 6,
            Filtering::MHz100 => 0b010u16 << 6,
            Filtering::MHz200 => 0b011u16 << 6,
            Filtering::MHz350 => 0b100u16 << 6,
            Filtering::Off => 0b000u16 << 6,
        }
    }

    pub(crate) fn lmh6518_code(self) -> (r: u16)
        ensures
            r == self.spec_lmh6518_code(),
    {
        match self {
            Filtering::MHz20 => 0b001u16 << 6,
            Filtering::MHz100 => 0b010u16 << 6,
            Filtering::MHz200 => 0b011u16 << 6,
            Filtering::MHz350 => 0b100u16 << 6,
            Filtering::Off => 0b000u16 << 6,
        }
    }
}

/// Wiper position of the 50 kOhm offset digipot, in 128 steps of about 391
/// Ohm above a 75 Ohm floor.
#[derive(Debug, Clone, Copy, PartialEq, Eq, Structural)]
pub struct OffsetMagnitude {
    code: u16,
}

impl Default for OffsetMagnitude {
    fn default() -> (r: Self)
        ensures
            r.spec_code() == 0x40,  // mid-scale
            r == OffsetMagnitude::default_spec(),
    {
        OffsetMagnitude { code: 0x40 }
    }
}

/// Half of one digipot step, in Ohm; used to round to the nearest code.
pub const OHMS_HALF_LSB: u32 = (50000 / 128) / 2;

impl OffsetMagnitude {
    pub closed spec fn spec_code(self) -> u16 {
        self.code
    }

    /// The mid-scale wiper position.
    pub closed spec fn default_spec() -> OffsetMagnitude {
        OffsetMagnitude { code: 0x40 }
    }

    pub fn from_mcp4432t_503e_code(code: u16) -> (r: Self)
        ensures
            r.spec_code() == code,
    {
        OffsetMagnitude { code }
    }

    pub fn mcp4432t_503e_code(self) -> (r: u16)
        ensures
            r == self.spec_code(),
    {
        self.code
    }

    /// The code whose resistance is nearest to `ohms`; the representable
    /// range is 75 Ohm to 50075 Ohm.
    pub fn from_ohms(ohms: u32) -> (r: Self)
        requires
            75 <= ohms <= 50075,
        ensures
            r.spec_code() == (ohms - 75 + OHMS_HALF_LSB) * 128 / 50000,
    {
        let code = (ohms - 75 + OHMS_HALF_LSB) * 128 / 50000;
        OffsetMagnitude { code: code as u16 }
    }

    pub fn ohms(self) -> (r: u32)
        ensures
            r == self.spec_code() * 50000 / 128 + 75,
    {
        self.code as u32 * 50000 / 128 + 75
    }
}

/// Code of the 12-bit offset trim DAC; the wire encoding keeps the top
/// two bits for reference selection, so mid-scale is `0x3fff`.
#[derive(Debug, Clone, Copy, PartialEq, Eq, Structural)]
pub struct OffsetValue {
    code: u16,
}

impl Default for OffsetValue {
    fn default() -> (r: Self)
        ensures
            r.spec_code() == 0x3fff,  // mid-scale
            r == OffsetValue::default_spec(),
    {
        OffsetValue { code: 0x3fff }
    }
}

impl OffsetValue {
    pub closed spec fn spec_code(self) -> u16 {
        self.code
    }

    /// The mid-scale DAC code.
    pub closed spec fn default_spec() -> OffsetValue {
        OffsetValue { code: 0x3fff }
    }

    pub fn from_mcp4728_code(code: u16) -> (r: Self)
        ensures
            r.spec_code() == code,
    {
        OffsetValue { code }
    }

    pub fn mcp4728_code(self) -> (r: u16)
        ensures
            r == self.spec_code(),
    {
        self.code
    }
}

#[derive(Debug, Clone, Copy, PartialEq, Eq, Structural)]
pub struct ChannelParameters {
    /// Probe attenuation in scaled dB.
    pub probe_attenuation: i32,
    pub termination: Termination,
    pub coupling: Coupling,
    pub coarse_attenuation: CoarseAttenuation,
    pub amplification: Amplification,
    pub fine_attenuation: FineAttenuation,
    pub filtering: Filtering,
    pub offset_magnitude: OffsetMagnitude,
    pub offset_value: OffsetValue,
}

/// Gain of the LMH6518 output amplifier, in scaled dB.
pub const OUTPUT_AMPLIFIER_GAIN: i32 = 88600;

/// Full-scale adjustment of the HMCAD1520, in scaled dB.
pub const FULL_SCALE_ADJUSTMENT: i32 = -3546;

impl ChannelParameters {
    pub open spec fn default_spec() -> Self {
        ChannelParameters {
            probe_attenuation: 200000,
            termination: Termination::Ohm1M,
            coupling: Coupling::DC,
            coarse_attenuation: CoarseAttenuation::X50,
            amplification: Amplification::dB30,
            fine_attenuation: FineAttenuation::dB0,
            filtering: Filtering::MHz100,
            offset_magnitude: OffsetMagnitude::default_spec(),
            offset_value: OffsetValue::default_spec(),
        }
    }

    /// Probe attenuations beyond two billion scaled dB (200 000 dB) have no
    /// physical meaning; keeping them out lets the gain sum stay in `i32`.
    pub open spec fn probe_in_range(self) -> bool {
        -2000000000 <= self.probe_attenuation <= 2000000000
    }

    /// Total gain of the instrument signal path, in scaled dB, given the ADC
    /// coarse gain.
    pub open spec fn spec_gain(self, adc_coarse_gain: int) -> int {
        -self.probe_attenuation + self.coarse_attenuation.spec_gain()
            + self.amplification.spec_gain() + self.fine_attenuation.spec_gain()
            + OUTPUT_AMPLIFIER_GAIN + adc_coarse_gain + FULL_SCALE_ADJUSTMENT
    }

    fn gain(&self, adc_coarse_gain: i32) -> (r: i32)
        requires
            self.probe_in_range(),
            90000 <= adc_coarse_gain <= 100000,
        ensures
            r == self.spec_gain(adc_coarse_gain as int),
    {
        -self.probe_attenuation + self.coarse_attenuation.gain()  // 1X/50X attenuation switch
        + self.amplification.gain()  // LMH6518 pre-amplifier
        + self.fine_attenuation.gain()  // LMH6518 ladder attenuator
        + OUTPUT_AMPLIFIER_GAIN  // LMH6518 output amplifier
        + adc_coarse_gain  // HMCAD1520 coarse gain
        + FULL_SCALE_ADJUSTMENT  // HMCAD1520 full scale adjustment
    }
}

impl Default for ChannelParameters {
    fn default() -> (r: Self)
        ensures
            r == ChannelParameters::default_spec(),
    {
        ChannelParameters {
            probe_attenuation: 200000,
            termination: Termination::Ohm1M,
            coupling: Coupling::DC,
            coarse_attenuation: CoarseAttenuation::X50,
            amplification: Amplification::dB30,
            fine_attenuation: FineAttenuation::dB0,
            filtering: Filtering::MHz100,
            offset_magnitude: OffsetMagnitude { code: 0x40 },
            offset_value: OffsetValue { code: 0x3fff },
        }
    }
}

#[derive(Debug, Clone, Copy, PartialEq)]
pub struct DeviceParameters {
    pub channels: [Option<ChannelParameters>; 4],
}

impl DeviceParameters {
    /// All four channels enabled with the default parameters.
    pub open spec fn default_spec() -> DeviceParameters {
        DeviceParameters {
            channels: [
                Some(ChannelParameters::default_spec()),
                Some(ChannelParameters::default_spec()),
                Some(ChannelParameters::default_spec()),
                Some(ChannelParameters::default_spec()),
            ],
        }
    }
}

impl Default for DeviceParameters {
    fn default() -> (r: Self)
        ensures
            r == DeviceParameters::default_spec(),
            forall|i: int|
                0 <= i < 4 ==> r.channels@[i] == Some(ChannelParameters::default_spec()),
    {
        let d = ChannelParameters::default();
        let r = DeviceParameters { channels: [Some(d), Some(d), Some(d), Some(d)] };
        assert(forall|i: int| 0 <= i < 4 ==> r.channels@[i] == Some(d));
        r
    }
}

/// Division rounding to the nearest integer, ties away from zero; `d` must be
/// positive.
pub open spec fn spec_round_div(n: int, d: int) -> int {
    if n >= 0 {
        (n + d / 2) / d
    } else {
        -((-n + d / 2) / d)
    }
}

fn round_div(n: i64, d: i64) -> (r: i64)
    requires
        1 <= d,
        -0x2000_0000_0000_0000 <= n <= 0x2000_0000_0000_0000,
        d <= 0x2000_0000_0000_0000,
    ensures
        r == spec_round_div(n as int, d as int),
{
    if n >= 0 {
        (n + d / 2) / d
    } else {
        -((-n + d / 2) / d)
    }
}

/// Saturate to the signed 8-bit range.
pub open spec fn saturate_i8(v: int) -> i8 {
    if v < -128 {
        -128i8
    } else if v > 127 {
        127i8
    } else {
        v as i8
    }
}

impl ChannelParameters {
    pub open spec fn spec_enabled(c: Option<ChannelParameters>) -> int {
        if c is Some {
            1
        } else {
            0
        }
    }
}

impl DeviceParameters {
    /// How many channel slots are enabled.
    pub open spec fn spec_enabled_channels(self) -> int {
        ChannelParameters::spec_enabled(self.channels@[0]) + ChannelParameters::spec_enabled(
            self.channels@[1],
        ) + ChannelParameters::spec_enabled(self.channels@[2]) + ChannelParameters::spec_enabled(
            self.channels@[3],
        )
    }

    /// ADC coarse gain in scaled dB: 10 dB with a single enabled channel,
    /// 9 dB otherwise.
    pub open spec fn spec_adc_coarse_gain(self) -> int {
        if self.spec_enabled_channels() == 1 {
            100000
        } else {
            90000
        }
    }

    fn enabled_channels(&self) -> (r: usize)
        ensures
            r == self.spec_enabled_channels(),
    {
        let mut count: usize = 0;
        if self.channels[0].is_some() {
            count += 1;
        }
        if self.channels[1].is_some() {
            count += 1;
        }
        if self.channels[2].is_some() {
            count += 1;
        }
        if self.channels[3].is_some() {
            count += 1;
        }
        count
    }

    /// Total gain of the instrument signal path for the given channel, in
    /// scaled dB.
    pub fn gain(&self, channel_index: usize) -> (r: i32)
        requires
            channel_index < 4,
            self.channels@[channel_index as int] is Some,
            self.spec_enabled_channels() >= 1,
            self.channels@[channel_index as int]->Some_0.probe_in_range(),
        ensures
            r == self.channels@[channel_index as int]->Some_0.spec_gain(
                self.spec_adc_coarse_gain(),
            ),
    {
        let count = self.enabled_channels();
        let adc_coarse_gain: i32 = if count == 1 {
            100000
        } else {
            90000
        };
        match &self.channels[channel_index] {
            Some(ch) => ch.gain(adc_coarse_gain),
            None => {
                proof {
                    assert(false);
                }
                0
            },
        }
    }

    /// Convert a voltage at the probe, in microvolts, to the nearest ADC
    /// code, saturating out-of-range values; `full_scale_microvolts` is the
    /// span between the most negative and most positive code.
    pub fn volts_to_code(full_scale_microvolts: u32, volts_microvolts: i64) -> (r: i8)
        requires
            full_scale_microvolts >= 1,
            -0x0020_0000_0000_0000 <= volts_microvolts <= 0x0020_0000_0000_0000,
        ensures
            r == saturate_i8(spec_round_div(256 * volts_microvolts, full_scale_microvolts as int)),
    {
        let q = round_div(256 * volts_microvolts, full_scale_microvolts as i64);
        if q < -128 {
            -128
        } else if q > 127 {
            127
        } else {
            q as i8
        }
    }

    /// Convert an ADC code to the voltage at the probe, in microvolts,
    /// rounded to the nearest microvolt.
    pub fn code_to_volts(full_scale_microvolts: u32, code: i8) -> (r: i64)
        requires
            full_scale_microvolts >= 1,
        ensures
            r == spec_round_div(code * full_scale_microvolts, 256),
    {
        proof {
            assert(-0x2000_0000_0000_0000 <= code as int * full_scale_microvolts as int
                <= 0x2000_0000_0000_0000) by (nonlinear_arith)
                requires
                    -128 <= code as int <= 127,
                    0 <= full_scale_microvolts as int <= 0xFFFF_FFFF,
            ;
        }
        round_div(code as i64 * full_scale_microvolts as i64, 256)
    }
}

proof fn lemma_round_trip_nonneg(fs: int, c: int)
    requires
        fs >= 512,
        0 <= c <= 128,
    ensures
        spec_round_div(256 * spec_round_div(c * fs, 256), fs) == c,
{
    let n = c * fs;
    assert(n >= 0) by (nonlinear_arith)
        requires
            n == c * fs,
            c >= 0,
            fs > 0,
    ;
    let v = (n + 128) / 256;
    assert(spec_round_div(n, 256) == v);
    lemma_fundamental_div_mod(n + 128, 256);
    lemma_mod_bound(n + 128, 256);
    let r1 = (n + 128) % 256;
    assert(256 * v == n + 128 - r1);
    assert(256 * v >= 0) by (nonlinear_arith)
        requires
            256 * v == n + 128 - r1,
            n >= 0,
            r1 < 256,
    ;
    assert(v >= 0) by (nonlinear_arith)
        requires
            256 * v >= 0,
    ;
    let h = fs / 2;
    lemma_fundamental_div_mod(fs, 2);
    lemma_mod_bound(fs, 2);
    assert(fs == 2 * h + fs % 2);
    assert(h >= 256);
    let x = 256 * v + h;
    assert(x == n + (128 - r1 + h));
    assert(0 <= 128 - r1 + h < fs);
    assert(x == c * fs + (128 - r1 + h));
    lemma_fundamental_div_mod_converse(x, fs, c, 128 - r1 + h);
    assert(x / fs == c);
    assert(spec_round_div(256 * v, fs) == (256 * v + h) / fs);
}

/// Converting an ADC code to volts and back returns the original code, for
/// every code and every full scale of at least 512 microvolts. (The
/// instrument's smallest full scale, at its maximum gain of about 48.5 dB, is
/// about 7500 microvolts.)
pub proof fn lemma_code_round_trip(fs: int, c: int)
    requires
        fs >= 512,
        -128 <= c <= 127,
    ensures
        saturate_i8(spec_round_div(256 * spec_round_div(c * fs, 256), fs)) == c as i8,
{
    if c >= 0 {
        lemma_round_trip_nonneg(fs, c);
    } else {
        let a = -c;
        lemma_round_trip_nonneg(fs, a);
        let v = spec_round_div(c * fs, 256);
        let va = spec_round_div(a * fs, 256);
        assert(c * fs == -(a * fs)) by (nonlinear_arith)
            requires
                a == -c,
        ;
        assert(a * fs >= 512) by (nonlinear_arith)
            requires
                a >= 1,
                fs >= 512,
        ;
        assert(v == -va);
        assert(va >= 1) by {
            vstd::arithmetic::div_mod::lemma_div_is_ordered(640, a * fs + 128, 256);
            assert(640int / 256 == 2);
        }
        assert(256 * v == -(256 * va)) by (nonlinear_arith)
            requires
                v == -va,
        ;
        assert(256 * va >= 256) by (nonlinear_arith)
            requires
                va >= 1,
        ;
        assert(spec_round_div(256 * v, fs) == -spec_round_div(256 * va, fs));
        assert(spec_round_div(256 * va, fs) == a);
        assert(saturate_i8(-a) == c as i8);
    }
}

#[derive(Debug, Clone, Copy, PartialEq, Eq, Structural, Default)]
pub struct ChannelCalibration {}

#[derive(Debug, Clone, Copy, PartialEq, Default)]
pub struct DeviceCalibration {
    pub channels: [ChannelCalibration; 4],
}

/// The channel parameters derived from one user-facing channel
/// configuration: the probe, termination and coupling carry over, the
/// bandwidth picks the anti-alias filter, and the gain path and offsets start
/// from safe defaults until calibration fills them in.
pub open spec fn spec_derive_channel(c: ChannelConfiguration) -> ChannelParameters {
    ChannelParameters {
        probe_attenuation: c.probe_attenuation,
        termination: c.termination,
        coupling: c.coupling,
        coarse_attenuation: CoarseAttenuation::X1,
        amplification: Amplification::dB10,
        fine_attenuation: FineAttenuation::dB20,
        filtering: match c.bandwidth {
            Bandwidth::MHz100 => Filtering::MHz100,
            Bandwidth::MHz200 => Filtering::MHz200,
            Bandwidth::MHz350 => Filtering::MHz350,
        },
        offset_magnitude: OffsetMagnitude::default_spec(),
        offset_value: OffsetValue::default_spec(),
    }
}

fn derive_channel(_calibration: &ChannelCalibration, c: &ChannelConfiguration) -> (r:
    ChannelParameters)
    ensures
        r == spec_derive_channel(*c),
{
    ChannelParameters {
        probe_attenuation: c.probe_attenuation,
        termination: c.termination,
        coupling: c.coupling,
        coarse_attenuation: CoarseAttenuation::X1,
        amplification: Amplification::dB10,
        fine_attenuation: FineAttenuation::dB20,
        filtering: match c.bandwidth {
            Bandwidth::MHz100 => Filtering::MHz100,
            Bandwidth::MHz200 => Filtering::MHz200,
            Bandwidth::MHz350 => Filtering::MHz350,
        },
        offset_magnitude: OffsetMagnitude::default(),
        offset_value: OffsetValue::default(),
    }
}

/// What `DeviceParameters::derive` produces for one channel slot.
pub open spec fn spec_derive_slot(c: Option<ChannelConfiguration>) -> Option<ChannelParameters> {
    match c {
        None => None,
        Some(c) => Some(spec_derive_channel(c)),
    }
}

impl DeviceParameters {
    /// Map a user-facing configuration to low-level parameters, slot by slot;
    /// disabled slots stay disabled.
    pub fn derive(calibration: &DeviceCalibration, configuration: &DeviceConfiguration) -> (r:
        Self)
        ensures
            forall|i: int|
                0 <= i < 4 ==> r.channels@[i] == spec_derive_slot(configuration.channels@[i]),
    {
        let mut slots: [Option<ChannelParameters>; 4] = [None, None, None, None];
        let r = DeviceParameters {
            channels: [
                match &configuration.channels[0] {
                    None => None,
                    Some(c) => Some(derive_channel(&calibration.channels[0], c)),
                },
                match &configuration.channels[1] {
                    None => None,
                    Some(c) => Some(derive_channel(&calibration.channels[1], c)),
                },
                match &configuration.channels[2] {
                    None => None,
                    Some(c) => Some(derive_channel(&calibration.channels[2], c)),
                },
                match &configuration.channels[3] {
                    None => None,
                    Some(c) => Some(derive_channel(&calibration.channels[3], c)),
                },
            ],
        };
        assert(forall|i: int|
            0 <= i < 4 ==> r.channels@[i] == spec_derive_slot(configuration.channels@[i]));
        r
    }
}

} // verus!
