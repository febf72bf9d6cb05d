use eeg_driver::board_drivers::types::AdcConfig;
use eeg_driver::dsp::process_batch;
use eeg_driver::dsp::spectrum::cos_q20_exec;
use eeg_driver::dsp::spectrum::frequency_bins_for;
use eeg_driver::dsp::spectrum::window_q20_exec;
use eeg_driver::dsp::voltage_denominator;
use eeg_driver::dsp::voltage_numerator;
use eeg_driver::dsp::DspConfig;
use eeg_driver::dsp::DspError;
use eeg_driver::dsp::WindowKind;

fn test_config() -> AdcConfig {
    AdcConfig { sample_rate: 250, channels: 1, resolution: 16, vref_mv: 5000, gain_milli: 1000 }
}

/// 1 channel, 16 bits, 5 V reference, unity gain: raw code 0 is exactly
/// -2.5 V and raw code 32767 is just under +2.5 V.
#[test]
fn voltage_scenario_sixteen_bit_five_volt() {
    let cfg = test_config();
    let num0 = voltage_numerator(&cfg, 0);
    let den = voltage_denominator(&cfg);
    assert_eq!(num0, -163_840_000);
    assert_eq!(den, 65_536_000);
    assert_eq!(num0 as f64 / den as f64, -2.5);

    let num_top = voltage_numerator(&cfg, 32767);
    assert_eq!(num_top, 163_830_000);
    let v = num_top as f64 / den as f64;
    assert!((v - 2.4999).abs() < 2e-4, "got {v}");
}

/// Identical configuration and code always give the identical voltage, and
/// the conversion is linear in the code.
#[test]
fn voltage_conversion_deterministic_and_linear() {
    let cfg = test_config();
    for code in [-40000, -1, 0, 1, 12345, 32767] {
        assert_eq!(voltage_numerator(&cfg, code), voltage_numerator(&cfg, code));
        assert_eq!(voltage_denominator(&cfg), voltage_denominator(&cfg));
    }
    let d10 = voltage_numerator(&cfg, 11) - voltage_numerator(&cfg, 1);
    let d20 = voltage_numerator(&cfg, 300) - voltage_numerator(&cfg, 280);
    assert_eq!(d10, 2 * 5000 * 10);
    assert_eq!(d20, 2 * 5000 * 20);
}

#[test]
fn wrong_channel_count_is_shape_mismatch() {
    let cfg = test_config();
    let dspc = DspConfig { spectral_enabled: false, window: WindowKind::Rectangular };
    let batch = vec![vec![0, 1], vec![2, 3]];
    let out = process_batch(&cfg, &dspc, &batch);
    assert_eq!(out.error, Some(DspError::ShapeMismatch));
    assert!(out.voltages.is_empty());
    assert!(out.spectral.is_none());
}

#[test]
fn ragged_rows_are_shape_mismatch() {
    let mut cfg = test_config();
    cfg.channels = 2;
    let dspc = DspConfig { spectral_enabled: false, window: WindowKind::Rectangular };
    let batch = vec![vec![0, 1, 2], vec![3, 4]];
    let out = process_batch(&cfg, &dspc, &batch);
    assert_eq!(out.error, Some(DspError::ShapeMismatch));
    assert!(out.voltages.is_empty());
    assert!(out.spectral.is_none());
}

#[test]
fn disabled_spectral_analysis_produces_no_spectra() {
    let cfg = test_config();
    let dspc = DspConfig { spectral_enabled: false, window: WindowKind::Hann };
    let out = process_batch(&cfg, &dspc, &vec![vec![0, 1, 2, 3]]);
    assert_eq!(out.error, None);
    assert!(out.spectral.is_none());
    assert_eq!(out.voltages.len(), 1);
    assert_eq!(out.voltages[0].len(), 4);
}

/// Exact transform output for a constant two-sample channel under the
/// rectangular window: all energy in the DC bin.
#[test]
fn spectral_analysis_exact_two_sample_batch() {
    let cfg = test_config();
    let dspc = DspConfig { spectral_enabled: true, window: WindowKind::Rectangular };
    let out = process_batch(&cfg, &dspc, &vec![vec![0, 0]]);
    assert_eq!(out.error, None);
    let sd = out.spectral.expect("spectra expected");
    assert_eq!(sd.power_spectrums, vec![vec![104_857_600_000_000u128, 0]]);
    assert_eq!(sd.frequency_bins, vec![vec![0u64, 125_000]]);
    assert_eq!(out.voltages, vec![vec![-163_840_000i64, -163_840_000]]);
}

/// An empty channel is a numerical degeneracy: the record keeps its
/// voltages and only the error is set.
#[test]
fn empty_channel_fails_spectral_analysis_only() {
    let cfg = test_config();
    let dspc = DspConfig { spectral_enabled: true, window: WindowKind::Hann };
    let out = process_batch(&cfg, &dspc, &vec![vec![]]);
    assert_eq!(out.error, Some(DspError::SpectralAnalysisFailed));
    assert!(out.spectral.is_none());
    assert_eq!(out.voltages, vec![vec![]]);
}

/// Identical input gives bit-identical spectra.
#[test]
fn spectral_analysis_deterministic() {
    let cfg = test_config();
    let dspc = DspConfig { spectral_enabled: true, window: WindowKind::Hann };
    let batch = vec![vec![17, -3000, 421, 9999, 32000]];
    let a = process_batch(&cfg, &dspc, &batch);
    let b = process_batch(&cfg, &dspc, &batch);
    let sa = a.spectral.expect("spectra expected");
    let sb = b.spectral.expect("spectra expected");
    assert_eq!(sa.power_spectrums, sb.power_spectrums);
    assert_eq!(sa.frequency_bins, sb.frequency_bins);
}

/// Exact transform output under the Hann window: for three samples the
/// window is `[0, 1, 0]` in Q20, so each bin reduces to the middle sample
/// rotated by the fixed-point trig values.
#[test]
fn spectral_analysis_exact_hann_batch() {
    let cfg = test_config();
    let dspc = DspConfig { spectral_enabled: true, window: WindowKind::Hann };
    let out = process_batch(&cfg, &dspc, &vec![vec![0, 0, 0]]);
    assert_eq!(out.error, None);
    let sd = out.spectral.expect("spectra expected");
    assert_eq!(sd.power_spectrums, vec![vec![26_214_400_000_000u128, 26_158_280_748_410]]);
    assert_eq!(sd.frequency_bins, vec![vec![0u64, 83_333]]);
}

/// A 24-bit board with a 4.5 V reference and gain 24.
#[test]
fn voltage_formula_twenty_four_bit() {
    let cfg = AdcConfig {
        sample_rate: 250,
        channels: 1,
        resolution: 24,
        vref_mv: 4500,
        gain_milli: 24_000,
    };
    assert_eq!(voltage_numerator(&cfg, 1000), -37_739_736_000);
    assert_eq!(voltage_denominator(&cfg), 402_653_184_000);
    // mid-scale is exactly zero volts
    assert_eq!(voltage_numerator(&cfg, 1 << 22), 0);
}

#[test]
fn fixed_point_cosine_values() {
    assert_eq!(cos_q20_exec(0, 4), 1_048_576);
    assert_eq!(cos_q20_exec(1, 4), 0);
    assert_eq!(cos_q20_exec(2, 4), -1_048_576);
    assert_eq!(cos_q20_exec(3, 4), 0);
    assert_eq!(cos_q20_exec(1, 8), 741_455);
    assert_eq!(cos_q20_exec(7, 8), 741_455);
    assert_eq!(cos_q20_exec(3, 8), -741_455);
    // a full turn wraps
    assert_eq!(cos_q20_exec(5, 4), cos_q20_exec(1, 4));
    assert_eq!(cos_q20_exec(6, 4), -1_048_576);
}

#[test]
fn hann_window_values() {
    assert_eq!(window_q20_exec(WindowKind::Hann, 0, 3), 0);
    assert_eq!(window_q20_exec(WindowKind::Hann, 1, 3), 1_048_576);
    assert_eq!(window_q20_exec(WindowKind::Hann, 2, 3), 0);
    assert_eq!(window_q20_exec(WindowKind::Rectangular, 1, 3), 1_048_576);
    assert_eq!(window_q20_exec(WindowKind::Hann, 0, 1), 1_048_576);
}

#[test]
fn frequency_bin_centres() {
    assert_eq!(frequency_bins_for(250, 4), vec![0, 62_500, 125_000]);
    assert_eq!(frequency_bins_for(250, 2), vec![0, 125_000]);
    assert_eq!(frequency_bins_for(1000, 8), vec![0, 125_000, 250_000, 375_000, 500_000]);
}
