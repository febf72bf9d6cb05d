//! Value types shared by the board drivers and the orchestrator.

use vstd::prelude::*;

verus! {

/// Immutable per-session ADC configuration.
///
/// The reference voltage is held in millivolts and the programmable gain in
/// thousandths, so that the whole configuration is plain integers and the
/// voltage conversion of the DSP stage stays exact.  A gain of `1.0` is
/// `gain_milli == 1000`; a 5 V reference is `vref_mv == 5000`.
#[derive(Clone, Copy, Debug, PartialEq, Eq, Structural)]
pub struct AdcConfig {
    /// Samples per second and channel, in hertz.
    pub sample_rate: u32,
    /// Number of channels sampled in parallel.
    pub channels: usize,
    /// ADC resolution in bits.
    pub resolution: u32,
    /// Reference voltage in millivolts.
    pub vref_mv: u32,
    /// Programmable gain in thousandths.
    pub gain_milli: u32,
}

impl AdcConfig {
    /// The envelope this library supports.  The bounds are machine limits:
    /// they keep every intermediate value of the DSP stage inside 64- and
    /// 128-bit integer arithmetic.
    pub open spec fn valid(self) -> bool {
        &&& 1 <= self.sample_rate <= 1_000_000
        &&& 1 <= self.channels <= 4096
        &&& 2 <= self.resolution <= 32
        &&& 1 <= self.vref_mv <= 100_000
        &&& 1 <= self.gain_milli <= 1_000_000
    }

    /// Runtime check of [`AdcConfig::valid`].
    pub fn validate(&self) -> (b: bool)
        ensures
            b == self.valid(),
    {
        1 <= self.sample_rate && self.sample_rate <= 1_000_000
            && 1 <= self.channels && self.channels <= 4096
            && 2 <= self.resolution && self.resolution <= 32
            && 1 <= self.vref_mv && self.vref_mv <= 100_000
            && 1 <= self.gain_milli && self.gain_milli <= 1_000_000
    }
}

/// Closed set of concrete board implementations the orchestrator can drive.
#[derive(Clone, Copy, Debug, PartialEq, Eq, Structural)]
pub enum DriverType {
    /// Deterministic scripted driver, used for tests and dry runs.
    Mock,
    /// A physical ADS1299-based acquisition board.
    Ads1299,
}

/// Errors reported by a board driver or by the orchestrator on its behalf.
#[derive(Clone, Copy, Debug, PartialEq, Eq, Structural)]
pub enum DriverError {
    /// The requested configuration is outside the board's envelope.
    UnsupportedConfig,
    /// `start` was called while an acquisition was already running.
    AlreadyRunning,
    /// No batch arrived within the read timeout; recoverable, the caller may
    /// retry.
    Timeout,
    /// The connection to the board was lost; fatal, the caller must stop.
    HardwareFault,
}

/// Length every channel of a raw batch shares (the first channel's, if any).
pub open spec fn batch_len(b: Seq<Vec<i32>>) -> int {
    if b.len() == 0 {
        0
    } else {
        b[0]@.len() as int
    }
}

/// The batch has one row per configured channel and all rows have the same
/// length.
pub open spec fn batch_shape_ok(b: Seq<Vec<i32>>, channels: int) -> bool {
    &&& b.len() == channels
    &&& forall|i: int| 0 <= i < b.len() ==> (#[trigger] b[i]@.len()) as int == batch_len(b)
}

/// Snapshot of driver health.
#[derive(Clone, Copy, Debug, PartialEq, Eq, Structural)]
pub enum DriverStatus {
    /// Configured (or fresh) and not acquiring.
    Idle,
    /// Acquisition in progress.
    Running,
    /// The driver failed; the reason is attached.
    Error(DriverError),
}

} // verus!
