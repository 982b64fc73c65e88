use thunderscope::{
    Amplification, Bandwidth, ChannelConfiguration, CoarseAttenuation, DeviceCalibration,
    DeviceConfiguration, DeviceParameters, FineAttenuation, Filtering, OffsetMagnitude,
    OffsetValue, Termination,
};

#[test]
fn test_offset_magnitude_codes() {
    assert_eq!(OffsetMagnitude::from_mcp4432t_503e_code(0x40).mcp4432t_503e_code(), 0x40);
    assert_eq!(OffsetMagnitude::default().mcp4432t_503e_code(), 0x40);
    assert_eq!(OffsetMagnitude::from_ohms(75).mcp4432t_503e_code(), 0);
    assert_eq!(OffsetMagnitude::from_ohms(50075).mcp4432t_503e_code(), 128);
    assert_eq!(OffsetMagnitude::from_ohms(25075).mcp4432t_503e_code(), 64);
    assert_eq!(OffsetMagnitude::from_mcp4432t_503e_code(0x40).ohms(), 25075);
    assert_eq!(OffsetMagnitude::from_mcp4432t_503e_code(0).ohms(), 75);
    assert_eq!(OffsetMagnitude::from_mcp4432t_503e_code(128).ohms(), 50075);
}

#[test]
fn test_offset_value_codes() {
    assert_eq!(OffsetValue::from_mcp4728_code(0x123).mcp4728_code(), 0x123);
    assert_eq!(OffsetValue::default().mcp4728_code(), 0x3fff);
}

#[test]
fn test_gain_default_parameters() {
    let params = DeviceParameters::default();
    // -20 dB probe, -33.9794 dB attenuator, +30 dB preamp, 0 dB ladder,
    // +8.86 dB output amplifier, +9 dB ADC coarse gain (four channels),
    // -0.3546 dB full-scale adjustment; in units of 0.0001 dB
    assert_eq!(params.gain(0), -64740);
}

#[test]
fn test_gain_single_channel() {
    let mut params = DeviceParameters::default();
    params.channels[1] = None;
    params.channels[2] = None;
    params.channels[3] = None;
    // a single enabled channel uses the 10 dB ADC coarse gain
    assert_eq!(params.gain(0), -54740);
}

#[test]
fn test_volts_code_round_trip() {
    // one volt of full scale
    let fs = 1_000_000u32;
    assert_eq!(DeviceParameters::code_to_volts(fs, 64), 250_000);
    assert_eq!(DeviceParameters::volts_to_code(fs, 250_000), 64);
    // out-of-range voltages saturate
    assert_eq!(DeviceParameters::volts_to_code(fs, 10_000_000), 127);
    assert_eq!(DeviceParameters::volts_to_code(fs, -10_000_000), -128);
    // the round trip is exact for every code, including at the smallest
    // full scale the instrument can reach
    for fs in [7_500u32, 20_000, 1_000_000, 3_900_000] {
        for code in -128i8..=127 {
            let volts = DeviceParameters::code_to_volts(fs, code);
            assert_eq!(DeviceParameters::volts_to_code(fs, volts), code);
        }
    }
}

#[test]
fn test_derive_channels() {
    let config = DeviceConfiguration {
        channels: [
            Some(ChannelConfiguration {
                probe_attenuation: 0,
                termination: Termination::Ohm50,
                coupling: thunderscope::Coupling::AC,
                bandwidth: Bandwidth::MHz350,
            }),
            None,
            None,
            Some(ChannelConfiguration::default()),
        ],
    };
    let params = DeviceParameters::derive(&DeviceCalibration::default(), &config);
    let ch0 = params.channels[0].unwrap();
    assert_eq!(ch0.probe_attenuation, 0);
    assert_eq!(ch0.termination, Termination::Ohm50);
    assert_eq!(ch0.coupling, thunderscope::Coupling::AC);
    assert_eq!(ch0.filtering, Filtering::MHz350);
    assert_eq!(ch0.coarse_attenuation, CoarseAttenuation::X1);
    assert_eq!(ch0.amplification, Amplification::dB10);
    assert_eq!(ch0.fine_attenuation, FineAttenuation::dB20);
    assert_eq!(ch0.offset_magnitude, OffsetMagnitude::default());
    assert_eq!(ch0.offset_value, OffsetValue::default());
    assert!(params.channels[1].is_none());
    assert!(params.channels[2].is_none());
    let ch3 = params.channels[3].unwrap();
    assert_eq!(ch3.probe_attenuation, 200_000);
    assert_eq!(ch3.filtering, Filtering::MHz100);
}
