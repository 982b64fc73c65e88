//! High-level configuration of the device in terms of physical qualities.

use vstd::prelude::*;

verus! {

/// Decibel values throughout the crate are carried as integers scaled by
/// `DECIBEL_SCALE`, so one unit is 0.0001 dB. Every gain constant of the
/// signal path is exact in this representation.
pub const DECIBEL_SCALE: i32 = 10000;

#[derive(Debug, Clone, Copy, PartialEq, Eq, Structural)]
pub enum Termination {
    Ohm1M,
    Ohm50,
}

impl Default for Termination {
    fn default() -> (r: Self)
        ensures
            r == Termination::Ohm1M,
    {
        Termination::Ohm1M
    }
}

#[derive(Debug, Clone, Copy, PartialEq, Eq, Structural)]
pub enum Coupling {
    DC,
    AC,
}

impl Default for Coupling {
    fn default() -> (r: Self)
        ensures
            r == Coupling::DC,
    {
        Coupling::DC
    }
}

#[derive(Debug, Clone, Copy, PartialEq, Eq, Structural)]
pub enum Bandwidth {
    MHz100,
    MHz200,
    MHz350,
}

impl Default for Bandwidth {
    fn default() -> (r: Self)
        ensures
            r == Bandwidth::MHz100,
    {
        Bandwidth::MHz100
    }
}

#[derive(Debug, Clone, Copy, PartialEq, Eq, Structural)]
pub struct ChannelConfiguration {
    /// Probe attenuation in dB scaled by `DECIBEL_SCALE`. For a 1X probe, `0`;
    /// for a 10X probe, `200_000` (20 dB).
    pub probe_attenuation: i32,
    pub termination: Termination,
    pub coupling: Coupling,
    pub bandwidth: Bandwidth,
}

impl Default for ChannelConfiguration {
    fn default() -> (r: Self)
        ensures
            r == ChannelConfiguration::default_spec(),
    {
        ChannelConfiguration {
            probe_attenuation: 20 * DECIBEL_SCALE, // 10X probe
            termination: Termination::Ohm1M,
            coupling: Coupling::DC,
            bandwidth: Bandwidth::MHz100,
        }
    }
}

impl ChannelConfiguration {
    pub open spec fn default_spec() -> Self {
        ChannelConfiguration {
            probe_attenuation: 200000,
            termination: Termination::Ohm1M,
            coupling: Coupling::DC,
            bandwidth: Bandwidth::MHz100,
        }
    }
}

#[derive(Debug, Clone, Copy, PartialEq)]
pub struct DeviceConfiguration {
    pub channels: [Option<ChannelConfiguration>; 4],
}

impl Default for DeviceConfiguration {
    fn default() -> (r: Self)
        ensures
            r.is_default(),
    {
        let d = ChannelConfiguration::default();
        let r = DeviceConfiguration { channels: [Some(d), Some(d), Some(d), Some(d)] };
        assert(forall|i: int| 0 <= i < 4 ==> r.channels@[i] == Some(d));
        r
    }
}

impl DeviceConfiguration {
    /// Every channel slot is enabled and set to the default configuration.
    pub open spec fn is_default(self) -> bool {
        forall|i: int|
            0 <= i < 4 ==> self.channels@[i] == Some(ChannelConfiguration::default_spec())
    }
}

} // verus!
