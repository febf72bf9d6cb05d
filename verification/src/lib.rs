//! Acquisition-and-processing pipeline for a multi-channel ADC front-end.
//!
//! Raw integer ADC codes are read in per-channel batches from a board driver,
//! converted to calibrated voltages, optionally run through a deterministic
//! fixed-point spectral analysis, and emitted as timestamped [`ProcessedData`]
//! records.  Voltages are kept as exact scaled rationals (numerator per
//! sample, one common denominator per record) so that every arithmetic step
//! of the pipeline is verified; rendering to floating point is left to
//! unverified consumers of the record.

pub mod board_drivers;
pub mod dsp;
pub mod eeg_system;

use vstd::prelude::*;

use crate::dsp::DspError;
use crate::dsp::SpectralData;

pub use crate::board_drivers::types::AdcConfig;
pub use crate::board_drivers::types::DriverStatus;
pub use crate::board_drivers::types::DriverType;
pub use crate::eeg_system::EegSystem;

verus! {

/// One immutable record per sampling batch.
///
/// `raw_samples` is always populated when acquisition itself succeeded, so
/// raw data is never lost to a downstream DSP fault.  The voltage of sample
/// `j` of channel `i` is the exact rational
/// `processed_voltage_samples[i][j] / voltage_scale_den` volts.  The two
/// spectral sequences travel together inside [`SpectralData`], so a record
/// either carries both or neither.
#[derive(Clone, Debug)]
pub struct ProcessedData {
    /// Monotonic timestamp, in nanoseconds; strictly increasing across the
    /// records of one session.
    pub timestamp: u64,
    /// One ordered sequence of raw ADC codes per channel.
    pub raw_samples: Vec<Vec<i32>>,
    /// Voltage numerators, in the same shape as `raw_samples`.
    pub processed_voltage_samples: Vec<Vec<i64>>,
    /// Common denominator of every voltage numerator of this record.
    pub voltage_scale_den: u64,
    /// Spectral analysis of this batch, when enabled and computable.
    pub spectral: Option<SpectralData>,
    /// Set when DSP or partial processing failed for this record.
    pub error: Option<DspError>,
}

impl Default for ProcessedData {
    /// An empty record: zero timestamp, no samples, a neutral voltage scale,
    /// no spectra and no error.
    fn default() -> (d: Self)
        ensures
            d.timestamp == 0,
            d.raw_samples@.len() == 0,
            d.processed_voltage_samples@.len() == 0,
            d.voltage_scale_den == 1,
            d.spectral is None,
            d.error is None,
    {
        ProcessedData {
            timestamp: 0,
            raw_samples: Vec::new(),
            processed_voltage_samples: Vec::new(),
            voltage_scale_den: 1,
            spectral: None,
            error: None,
        }
    }
}

} // verus!
