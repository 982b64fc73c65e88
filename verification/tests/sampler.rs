use thunderscope::sampler::{
    OperationMode, Parameters, Sampler, ScanOutcome, TriggerParameters, Waveform, SAMPLE_COUNT,
};
use thunderscope::{EdgeFilter, Error};

fn trigger_parameters() -> Parameters {
    Parameters {
        device: thunderscope::DeviceParameters::default(),
        mode: OperationMode::RepeatTrigger(TriggerParameters {
            channel: 0,
            level: 50,
            edge: EdgeFilter::Rising,
        }),
    }
}

#[test]
fn test_free_running_capture() {
    let mut sampler = Sampler::new();
    let mut wfm = Waveform::new(SAMPLE_COUNT).unwrap();
    sampler.set_parameters(Parameters {
        device: thunderscope::DeviceParameters::default(),
        mode: OperationMode::FreeRunning,
    });
    sampler.begin_cycle(&mut wfm);
    let cursor = wfm.cursor();
    let data = vec![3u8; wfm.len()];
    wfm.fill(&data);
    let outcome = sampler.scan_capture(&mut wfm, cursor, data.len());
    assert_eq!(outcome, ScanOutcome::Captured);
    let capture = wfm.capture_data().unwrap();
    assert_eq!(capture.len(), SAMPLE_COUNT);
    assert!(capture.iter().all(|&s| s == 3));
}

#[test]
fn test_idle_captures_nothing() {
    let mut sampler = Sampler::new();
    let mut wfm = Waveform::new(SAMPLE_COUNT).unwrap();
    sampler.begin_cycle(&mut wfm);
    let cursor = wfm.cursor();
    let data = vec![80u8; 4096];
    wfm.fill(&data);
    assert_eq!(sampler.scan_capture(&mut wfm, cursor, data.len()), ScanOutcome::Nothing);
    assert!(wfm.capture_data().is_none());
}

#[test]
fn test_triggered_capture_at_edge() {
    let mut sampler = Sampler::new();
    let mut wfm = Waveform::new(SAMPLE_COUNT).unwrap();
    sampler.set_parameters(trigger_parameters());
    sampler.begin_cycle(&mut wfm);
    let cursor = wfm.cursor();
    // nine samples below the level, then a rising edge
    let mut data = vec![10u8; 9];
    data.resize(wfm.len(), 80);
    wfm.fill(&data);
    let outcome = sampler.scan_capture(&mut wfm, cursor, data.len());
    assert_eq!(outcome, ScanOutcome::Captured);
    let capture = wfm.capture_data().unwrap();
    assert_eq!(capture.len(), SAMPLE_COUNT);
    // the capture starts at the sample that fired the trigger
    assert_eq!(capture[0], 80);
    assert!(capture.iter().all(|&s| s == 80));
}

#[test]
fn test_triggered_capture_needs_second_refill() {
    let mut sampler = Sampler::new();
    let mut wfm = Waveform::new(SAMPLE_COUNT).unwrap();
    sampler.set_parameters(trigger_parameters());
    sampler.begin_cycle(&mut wfm);
    let cursor = wfm.cursor();
    // the edge fires with only 23 samples after it
    let mut data = vec![10u8; 9];
    data.resize(32, 80);
    wfm.fill(&data);
    let outcome = sampler.scan_capture(&mut wfm, cursor, data.len());
    assert_eq!(outcome, ScanOutcome::NeedRefill { refill: SAMPLE_COUNT - 23 });
    assert!(wfm.capture_data().is_none());
    // the caller supplies the missing bytes and the capture completes
    let more = vec![81u8; SAMPLE_COUNT - 23];
    wfm.fill(&more);
    sampler.finish_capture(&mut wfm);
    let capture = wfm.capture_data().unwrap();
    assert_eq!(capture.len(), SAMPLE_COUNT);
    assert_eq!(capture[0], 80);
    assert_eq!(capture[23], 81);
    assert_eq!(capture[SAMPLE_COUNT - 1], 81);
}

#[test]
fn test_dead_zone_does_not_fire() {
    let mut sampler = Sampler::new();
    let mut wfm = Waveform::new(SAMPLE_COUNT).unwrap();
    sampler.set_parameters(trigger_parameters());
    sampler.begin_cycle(&mut wfm);
    // prime the trigger below, then stay within the dead band
    let cursor = wfm.cursor();
    let mut data = vec![10u8; 9];
    data.resize(data.len() + 23, 50);
    wfm.fill(&data);
    assert_eq!(sampler.scan_capture(&mut wfm, cursor, data.len()), ScanOutcome::Nothing);
    assert!(wfm.capture_data().is_none());
}

#[test]
fn test_single_trigger_downgrades_to_idle() {
    let mut sampler = Sampler::new();
    let mut wfm = Waveform::new(SAMPLE_COUNT).unwrap();
    sampler.set_parameters(Parameters {
        device: thunderscope::DeviceParameters::default(),
        mode: OperationMode::SingleTrigger(TriggerParameters {
            channel: 0,
            level: 50,
            edge: EdgeFilter::Rising,
        }),
    });
    sampler.begin_cycle(&mut wfm);
    let cursor = wfm.cursor();
    let mut data = vec![10u8; 9];
    data.resize(wfm.len(), 80);
    wfm.fill(&data);
    assert_eq!(sampler.scan_capture(&mut wfm, cursor, data.len()), ScanOutcome::Captured);
    // with a standby buffer at hand the capture is submitted, and the
    // single-shot mode falls back to idle
    assert!(sampler.commit(&mut wfm, true));
    assert!(matches!(sampler.params().mode, OperationMode::Idle));
}

#[test]
fn test_backpressure_drops_capture() {
    let mut sampler = Sampler::new();
    let mut wfm = Waveform::new(SAMPLE_COUNT).unwrap();
    sampler.set_parameters(Parameters {
        device: thunderscope::DeviceParameters::default(),
        mode: OperationMode::FreeRunning,
    });
    sampler.begin_cycle(&mut wfm);
    let cursor = wfm.cursor();
    let data = vec![1u8; wfm.len()];
    wfm.fill(&data);
    assert_eq!(sampler.scan_capture(&mut wfm, cursor, data.len()), ScanOutcome::Captured);
    // with no standby buffer the capture is dropped, not submitted
    assert!(!sampler.commit(&mut wfm, false));
    assert!(wfm.capture_data().is_none());
    assert!(matches!(sampler.params().mode, OperationMode::FreeRunning));
}

#[test]
fn test_waveform_error_kind() {
    // a ring too large for the address space is refused
    let result = Waveform::new(usize::MAX);
    assert!(matches!(result, Err(Error::Vmap)));
}

#[test]
fn test_error_descriptions() {
    for error in [Error::NotFound, Error::Xdma(5), Error::Vmap, Error::Other] {
        assert!(!error.describe().is_empty());
    }
    assert_eq!(Error::NotFound.describe(), "device not connected");
}
