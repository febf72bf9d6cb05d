use eeg_driver::board_drivers::mock::MockDriver;
use eeg_driver::board_drivers::mock::MockStep;
use eeg_driver::board_drivers::types::DriverError;
use eeg_driver::board_drivers::types::DriverStatus;
use eeg_driver::dsp::DspConfig;
use eeg_driver::dsp::DspError;
use eeg_driver::dsp::WindowKind;
use eeg_driver::eeg_system::PollOutcome;
use eeg_driver::eeg_system::SystemState;
use eeg_driver::AdcConfig;
use eeg_driver::DriverType;
use eeg_driver::EegSystem;
use eeg_driver::ProcessedData;

fn test_config(channels: usize) -> AdcConfig {
    AdcConfig { sample_rate: 250, channels, resolution: 16, vref_mv: 5000, gain_milli: 1000 }
}

fn no_spectra() -> DspConfig {
    DspConfig { spectral_enabled: false, window: WindowKind::Rectangular }
}

#[test]
fn default_record_is_empty() {
    let d = ProcessedData::default();
    assert_eq!(d.timestamp, 0);
    assert!(d.raw_samples.is_empty());
    assert!(d.processed_voltage_samples.is_empty());
    assert_eq!(d.voltage_scale_den, 1);
    assert!(d.spectral.is_none());
    assert!(d.error.is_none());
}

#[test]
fn invalid_config_is_rejected_at_new() {
    let mut cfg = test_config(1);
    cfg.resolution = 0;
    let sys = EegSystem::new(DriverType::Mock, MockDriver::new(), cfg, no_spectra());
    match sys {
        Err(e) => assert_eq!(e, DriverError::UnsupportedConfig),
        Ok(_) => panic!("invalid configuration must not start a session"),
    }
}

#[test]
fn session_lifecycle_and_status() {
    let sys = EegSystem::new(DriverType::Mock, MockDriver::new(), test_config(1), no_spectra());
    let mut sys = sys.unwrap_or_else(|_| panic!("configuration was valid"));
    assert_eq!(sys.state(), SystemState::Configured);
    assert_eq!(sys.status(), DriverStatus::Idle);
    assert!(sys.start().is_ok());
    assert_eq!(sys.state(), SystemState::Running);
    assert_eq!(sys.status(), DriverStatus::Running);
    assert_eq!(sys.start(), Err(DriverError::AlreadyRunning));
    assert!(sys.stop().is_ok());
    assert_eq!(sys.state(), SystemState::Stopped);
}

/// Stopping twice is a no-op: the second call succeeds and the driver's own
/// stop is not invoked again.
#[test]
fn stop_twice_is_noop() {
    let sys = EegSystem::new(DriverType::Mock, MockDriver::new(), test_config(1), no_spectra());
    let mut sys = sys.unwrap_or_else(|_| panic!("configuration was valid"));
    assert!(sys.start().is_ok());
    assert!(sys.stop().is_ok());
    assert_eq!(sys.driver().stop_calls(), 1);
    assert!(sys.stop().is_ok());
    assert_eq!(sys.driver().stop_calls(), 1);
    assert_eq!(sys.state(), SystemState::Stopped);
}

/// Three timeouts then a valid batch: exactly one record for that cadence
/// iteration, with no error set.
#[test]
fn timeouts_then_batch_emits_one_record() {
    let mut mock = MockDriver::new();
    mock.push_step(MockStep::Timeout);
    mock.push_step(MockStep::Timeout);
    mock.push_step(MockStep::Timeout);
    mock.push_step(MockStep::Batch { samples: 4, code: 100 });
    let sys = EegSystem::new(DriverType::Mock, mock, test_config(1), no_spectra());
    let mut sys = sys.unwrap_or_else(|_| panic!("configuration was valid"));
    assert!(sys.start().is_ok());

    let mut records = 0;
    for _ in 0..3 {
        match sys.poll(10) {
            PollOutcome::TimedOut => {},
            _ => panic!("a timeout was scripted"),
        }
    }
    match sys.poll(10) {
        PollOutcome::Record(d) => {
            records += 1;
            assert!(d.error.is_none());
            assert_eq!(d.raw_samples, vec![vec![100, 100, 100, 100]]);
        },
        _ => panic!("a batch was scripted"),
    }
    assert_eq!(records, 1);
    assert_eq!(sys.state(), SystemState::Running);
}

/// A hardware fault ends the stream: no further records, the driver's stop
/// runs exactly once, and the failure is surfaced as a terminal outcome.
#[test]
fn hardware_fault_ends_session_with_single_teardown() {
    let mut mock = MockDriver::new();
    mock.push_step(MockStep::Fault);
    let sys = EegSystem::new(DriverType::Mock, mock, test_config(1), no_spectra());
    let mut sys = sys.unwrap_or_else(|_| panic!("configuration was valid"));
    assert!(sys.start().is_ok());
    match sys.poll(10) {
        PollOutcome::Fatal(e) => assert_eq!(e, DriverError::HardwareFault),
        _ => panic!("a fault was scripted"),
    }
    assert_eq!(sys.state(), SystemState::Stopped);
    assert!(!sys.is_running());
    assert_eq!(sys.driver().stop_calls(), 1);
    assert_eq!(sys.status(), DriverStatus::Error(DriverError::HardwareFault));
    // a later stop is a clean no-op and does not reach the driver again
    assert!(sys.stop().is_ok());
    assert_eq!(sys.driver().stop_calls(), 1);
}

/// Timestamps strictly increase across consecutively emitted records, by
/// the exact duration of each batch.
#[test]
fn timestamps_strictly_increase() {
    let mut mock = MockDriver::new();
    mock.push_step(MockStep::Batch { samples: 2, code: 0 });
    mock.push_step(MockStep::Batch { samples: 2, code: 5 });
    let sys = EegSystem::new(DriverType::Mock, mock, test_config(2), no_spectra());
    let mut sys = sys.unwrap_or_else(|_| panic!("configuration was valid"));
    assert!(sys.start().is_ok());
    let t1 = match sys.poll(10) {
        PollOutcome::Record(d) => d.timestamp,
        _ => panic!("a batch was scripted"),
    };
    let t2 = match sys.poll(10) {
        PollOutcome::Record(d) => d.timestamp,
        _ => panic!("a batch was scripted"),
    };
    assert!(t1 < t2);
    // 2 samples at 250 Hz are 8 ms
    assert_eq!(t1, 8_000_000);
    assert_eq!(t2, 16_000_000);
    assert_eq!(sys.last_timestamp(), t2);
}

/// Every emitted record has one row of raw samples per configured channel,
/// and the voltages follow the conversion formula.
#[test]
fn record_shape_matches_configuration() {
    let mut mock = MockDriver::new();
    mock.push_step(MockStep::Batch { samples: 3, code: 16384 });
    let cfg = test_config(4);
    let sys = EegSystem::new(DriverType::Mock, mock, cfg, no_spectra());
    let mut sys = sys.unwrap_or_else(|_| panic!("configuration was valid"));
    assert!(sys.start().is_ok());
    match sys.poll(10) {
        PollOutcome::Record(d) => {
            assert_eq!(d.raw_samples.len(), 4);
            assert_eq!(d.processed_voltage_samples.len(), 4);
            for ch in 0..4 {
                assert_eq!(d.raw_samples[ch].len(), 3);
                // (2 * 16384 - 2^15) * 5000 == 0: mid-scale is zero volts
                assert_eq!(d.processed_voltage_samples[ch], vec![0, 0, 0]);
            }
            assert_eq!(d.voltage_scale_den, 65_536_000);
        },
        _ => panic!("a batch was scripted"),
    }
}

/// With spectral analysis disabled no record ever carries spectra; enabled,
/// the spectra and bins arrive together.
#[test]
fn spectral_presence_follows_configuration() {
    let mut mock = MockDriver::new();
    mock.push_step(MockStep::Batch { samples: 2, code: 7 });
    let sys = EegSystem::new(DriverType::Mock, mock, test_config(1), no_spectra());
    let mut sys = sys.unwrap_or_else(|_| panic!("configuration was valid"));
    assert!(sys.start().is_ok());
    match sys.poll(10) {
        PollOutcome::Record(d) => assert!(d.spectral.is_none()),
        _ => panic!("a batch was scripted"),
    }

    let mut mock = MockDriver::new();
    mock.push_step(MockStep::Batch { samples: 2, code: 7 });
    let dspc = DspConfig { spectral_enabled: true, window: WindowKind::Hann };
    let sys = EegSystem::new(DriverType::Mock, mock, test_config(1), dspc);
    let mut sys = sys.unwrap_or_else(|_| panic!("configuration was valid"));
    assert!(sys.start().is_ok());
    match sys.poll(10) {
        PollOutcome::Record(d) => {
            let sd = d.spectral.expect("spectra expected");
            assert_eq!(sd.power_spectrums.len(), 1);
            assert_eq!(sd.frequency_bins.len(), 1);
            assert_eq!(sd.power_spectrums[0].len(), 2);
            assert_eq!(sd.frequency_bins[0].len(), 2);
        },
        _ => panic!("a batch was scripted"),
    }
}

/// A DSP failure on one batch does not prevent the next batch from
/// producing an error-free record, and the session keeps running.
#[test]
fn dsp_failure_is_isolated_to_its_batch() {
    let mut mock = MockDriver::new();
    mock.push_step(MockStep::Batch { samples: 0, code: 0 });
    mock.push_step(MockStep::Batch { samples: 2, code: 0 });
    let dspc = DspConfig { spectral_enabled: true, window: WindowKind::Rectangular };
    let sys = EegSystem::new(DriverType::Mock, mock, test_config(1), dspc);
    let mut sys = sys.unwrap_or_else(|_| panic!("configuration was valid"));
    assert!(sys.start().is_ok());
    match sys.poll(10) {
        PollOutcome::Record(d) => {
            assert_eq!(d.error, Some(DspError::SpectralAnalysisFailed));
            assert!(d.spectral.is_none());
            // raw data is still populated: acquisition itself succeeded
            assert_eq!(d.raw_samples, vec![vec![]]);
        },
        _ => panic!("a batch was scripted"),
    }
    assert!(sys.is_running());
    match sys.poll(10) {
        PollOutcome::Record(d) => {
            assert!(d.error.is_none());
            assert!(d.spectral.is_some());
        },
        _ => panic!("a batch was scripted"),
    }
}
