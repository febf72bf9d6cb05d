//! Orchestrator: owns one driver instance, drives the acquisition cadence,
//! invokes the DSP stage per batch, assembles [`ProcessedData`] records and
//! hands them to the caller for publication.
//!
//! The session is the state machine `Configured -> Running -> Stopped`; a
//! fatal driver failure moves it straight to `Stopped`, with the driver's
//! `stop` invoked exactly once during that transition.  A session that
//! failed to configure is never constructed at all, so no partial state can
//! be observed.

use vstd::prelude::*;

use crate::board_drivers::types::batch_len;
use crate::board_drivers::types::batch_shape_ok;
use crate::board_drivers::types::AdcConfig;
use crate::board_drivers::types::DriverError;
use crate::board_drivers::types::DriverStatus;
use crate::board_drivers::types::DriverType;
use crate::board_drivers::BoardDriver;
use crate::dsp;
use crate::dsp::DspConfig;
use crate::dsp::DspOutput;
use crate::ProcessedData;

verus! {

/// Lifecycle of one acquisition session.
#[derive(Clone, Copy, Debug, PartialEq, Eq, Structural)]
pub enum SystemState {
    /// Driver configured, cadence not started.
    Configured,
    /// Acquisition cadence in progress.
    Running,
    /// Session over; the driver has been torn down.
    Stopped,
}

/// Result of one cadence iteration.
#[derive(Debug)]
pub enum PollOutcome {
    /// A batch was read and processed into a record.
    Record(ProcessedData),
    /// No data arrived in time; recoverable, nothing was emitted.
    TimedOut,
    /// The driver failed fatally; the session is over.
    Fatal(DriverError),
}

/// Highest timestamp from which one more cadence iteration is allowed; a
/// machine limit (the advance of a single batch always fits above it).
pub const TS_CEILING: u64 = 0xFFC0_0000_0000_0000;

/// Nanoseconds a batch of `n` samples per channel advances the session
/// timestamp: the batch's duration at the configured rate, clamped to a
/// million samples, and at least one nanosecond so that timestamps strictly
/// increase.
pub open spec fn ts_advance(rate: int, n: int) -> int {
    let nc = if n > 1_000_000 {
        1_000_000int
    } else {
        n
    };
    let adv = nc * 1_000_000_000 / rate;
    if adv < 1 {
        1
    } else {
        adv
    }
}

proof fn lemma_div_le(a: int, b: int, q: int)
    by (nonlinear_arith)
    requires
        0 <= a,
        a <= b * q,
        0 < q,
        0 <= b,
    ensures
        0 <= a / q <= b,
{
}

fn ts_advance_exec(rate: u32, n: usize) -> (r: u64)
    requires
        1 <= rate <= 1_000_000,
    ensures
        r as int == ts_advance(rate as int, n as int),
        1 <= r <= 1_000_000_000_000_000,
{
    let nc: u64 = if n > 1_000_000 {
        1_000_000
    } else {
        n as u64
    };
    proof {
        lemma_div_le(nc as int * 1_000_000_000, 1_000_000_000_000_000, rate as int);
    }
    let adv: u64 = nc * 1_000_000_000 / (rate as u64);
    if adv < 1 {
        1
    } else {
        adv
    }
}

/// One acquisition session: the driver it owns, its immutable configuration
/// and its progress.
pub struct EegSystem<D: BoardDriver> {
    driver: D,
    driver_type: DriverType,
    config: AdcConfig,
    dsp_config: DspConfig,
    state: SystemState,
    last_ts: u64,
}

impl<D: BoardDriver> EegSystem<D> {
    /// The session's lifecycle state.
    pub closed spec fn sys_state(&self) -> SystemState {
        self.state
    }

    /// The session's immutable ADC configuration.
    pub closed spec fn adc_config(&self) -> AdcConfig {
        self.config
    }

    /// The session's immutable DSP configuration.
    pub closed spec fn dsp_cfg(&self) -> DspConfig {
        self.dsp_config
    }

    /// The board this session's driver stands for.
    pub closed spec fn board(&self) -> DriverType {
        self.driver_type
    }

    /// Timestamp of the last emitted record (zero before the first).
    pub closed spec fn last_ts(&self) -> u64 {
        self.last_ts
    }

    /// The owned driver.
    pub closed spec fn driver_view(&self) -> D {
        self.driver
    }

    /// How many times the session has invoked the driver's `stop`.
    pub closed spec fn driver_stops(&self) -> nat {
        self.driver.stops()
    }

    /// Internal consistency: the configuration is valid and adopted by the
    /// driver, and the driver runs exactly while the session does.
    pub closed spec fn wf(&self) -> bool {
        &&& self.config.valid()
        &&& self.driver.configured() == Some(self.config)
        &&& (self.driver.running() <==> self.state == SystemState::Running)
    }

    /// Instantiate a session over `driver` and adopt `config`.
    ///
    /// An invalid configuration, or one the board rejects, surfaces as
    /// [`DriverError::UnsupportedConfig`] and nothing is constructed.
    pub fn new(driver_type: DriverType, driver: D, config: AdcConfig, dsp_config: DspConfig) -> (r:
        Result<EegSystem<D>, DriverError>)
        requires
            !driver.running(),
        ensures
            match r {
                Ok(s) => {
                    &&& s.wf()
                    &&& s.sys_state() == SystemState::Configured
                    &&& s.adc_config() == config
                    &&& s.dsp_cfg() == dsp_config
                    &&& s.board() == driver_type
                    &&& s.last_ts() == 0
                    &&& config.valid()
                },
                Err(e) => e == DriverError::UnsupportedConfig,
            },
            !config.valid() ==> r is Err,
    {
        if !config.validate() {
            return Err(DriverError::UnsupportedConfig);
        }
        let mut d = driver;
        match d.configure(&config) {
            Ok(()) => Ok(
                EegSystem {
                    driver: d,
                    driver_type,
                    config,
                    dsp_config,
                    state: SystemState::Configured,
                    last_ts: 0,
                },
            ),
            Err(e) => Err(e),
        }
    }

    /// Start the acquisition cadence.
    ///
    /// A failure of the board's own `start` is fatal: the driver is torn
    /// down once and the session is over.
    pub fn start(&mut self) -> (r: Result<(), DriverError>)
        requires
            old(self).wf(),
        ensures
            final(self).wf(),
            final(self).adc_config() == old(self).adc_config(),
            final(self).dsp_cfg() == old(self).dsp_cfg(),
            final(self).last_ts() == old(self).last_ts(),
            match r {
                Ok(()) => {
                    &&& old(self).sys_state() != SystemState::Running
                    &&& final(self).sys_state() == SystemState::Running
                    &&& final(self).driver_stops() == old(self).driver_stops()
                },
                Err(e) => {
                    ||| {
                        &&& e == DriverError::AlreadyRunning
                        &&& old(self).sys_state() == SystemState::Running
                        &&& final(self).sys_state() == SystemState::Running
                        &&& final(self).driver_stops() == old(self).driver_stops()
                    }
                    ||| {
                        &&& e == DriverError::HardwareFault
                        &&& final(self).sys_state() == SystemState::Stopped
                        &&& final(self).driver_stops() == old(self).driver_stops() + 1
                    }
                },
            },
    {
        match self.state {
            SystemState::Running => Err(DriverError::AlreadyRunning),
            _ => {
                match self.driver.start() {
                    Ok(()) => {
                        self.state = SystemState::Running;
                        Ok(())
                    },
                    Err(e) => {
                        let _ = self.driver.stop();
                        self.state = SystemState::Stopped;
                        Err(e)
                    },
                }
            },
        }
    }

    /// One cadence iteration: read a batch within `timeout_ms`, run the DSP
    /// stage on it and assemble the record.
    ///
    /// A timeout skips the iteration and is retried transparently; nothing
    /// is emitted for it.  A record's timestamp strictly exceeds every
    /// earlier one, its raw batch has one row per configured channel, its
    /// error depends on its own batch alone, and a DSP failure leaves the
    /// session running, so later batches still produce records.  A hardware
    /// fault ends the session, tearing the driver down exactly once.
    pub fn poll(&mut self, timeout_ms: u64) -> (r: PollOutcome)
        requires
            old(self).wf(),
            old(self).sys_state() == SystemState::Running,
            old(self).last_ts() < TS_CEILING,
        ensures
            final(self).wf(),
            final(self).adc_config() == old(self).adc_config(),
            final(self).dsp_cfg() == old(self).dsp_cfg(),
            match r {
                PollOutcome::Record(d) => {
                    &&& final(self).sys_state() == SystemState::Running
                    &&& final(self).driver_stops() == old(self).driver_stops()
                    &&& d.timestamp == final(self).last_ts()
                    &&& old(self).last_ts() < d.timestamp
                    &&& d.timestamp as int == old(self).last_ts() + ts_advance(
                        old(self).adc_config().sample_rate as int,
                        batch_len(d.raw_samples@),
                    )
                    &&& batch_shape_ok(d.raw_samples@, old(self).adc_config().channels as int)
                    &&& dsp::voltages_match(
                        old(self).adc_config(),
                        d.raw_samples@,
                        d.processed_voltage_samples@,
                    )
                    &&& d.voltage_scale_den as int == dsp::voltage_den(old(self).adc_config())
                    &&& d.error == dsp::record_error(
                        old(self).adc_config(),
                        old(self).dsp_cfg(),
                        d.raw_samples@,
                    )
                    &&& !old(self).dsp_cfg().spectral_enabled ==> d.spectral is None
                    &&& (d.spectral is Some) == (old(self).dsp_cfg().spectral_enabled
                        && dsp::spectral_len_ok(batch_len(d.raw_samples@)))
                    &&& d.spectral is Some ==> dsp::spectral_matches(
                        d.spectral.unwrap(),
                        old(self).adc_config(),
                        old(self).dsp_cfg().window,
                        d.processed_voltage_samples@,
                    )
                },
                PollOutcome::TimedOut => {
                    &&& final(self).sys_state() == SystemState::Running
                    &&& final(self).last_ts() == old(self).last_ts()
                    &&& final(self).driver_stops() == old(self).driver_stops()
                },
                PollOutcome::Fatal(e) => {
                    &&& e == DriverError::HardwareFault
                    &&& final(self).sys_state() == SystemState::Stopped
                    &&& final(self).last_ts() == old(self).last_ts()
                    &&& final(self).driver_stops() == old(self).driver_stops() + 1
                },
            },
    {
        match self.driver.read_batch(timeout_ms) {
            Err(DriverError::Timeout) => PollOutcome::TimedOut,
            Err(DriverError::HardwareFault) => {
                let _ = self.driver.stop();
                self.state = SystemState::Stopped;
                PollOutcome::Fatal(DriverError::HardwareFault)
            },
            Err(e) => {
                proof {
                    assert(false);
                }
                PollOutcome::Fatal(e)
            },
            Ok(batch) => {
                let out: DspOutput = dsp::process_batch(&self.config, &self.dsp_config, &batch);
                let n: usize = batch[0].len();
                let adv: u64 = ts_advance_exec(self.config.sample_rate, n);
                self.last_ts = self.last_ts + adv;
                let den: u64 = dsp::voltage_denominator(&self.config);
                let d = ProcessedData {
                    timestamp: self.last_ts,
                    raw_samples: batch,
                    processed_voltage_samples: out.voltages,
                    voltage_scale_den: den,
                    spectral: out.spectral,
                    error: out.error,
                };
                PollOutcome::Record(d)
            },
        }
    }

    /// End the session, best-effort.
    ///
    /// Teardown always completes: afterwards the session is `Stopped`
    /// whatever the driver reported, and an error is only relayed.  A
    /// second `stop` is a no-op success and does not reach the driver, so
    /// its `stop` runs exactly once per session.
    pub fn stop(&mut self) -> (r: Result<(), DriverError>)
        requires
            old(self).wf(),
        ensures
            final(self).wf(),
            final(self).sys_state() == SystemState::Stopped,
            final(self).adc_config() == old(self).adc_config(),
            final(self).dsp_cfg() == old(self).dsp_cfg(),
            final(self).last_ts() == old(self).last_ts(),
            old(self).sys_state() == SystemState::Stopped ==> {
                &&& r is Ok
                &&& final(self).driver_stops() == old(self).driver_stops()
            },
            old(self).sys_state() != SystemState::Stopped ==> final(self).driver_stops() == old(
                self,
            ).driver_stops() + 1,
            old(self).sys_state() != SystemState::Running ==> r is Ok,
    {
        match self.state {
            SystemState::Stopped => Ok(()),
            _ => {
                let r = self.driver.stop();
                self.state = SystemState::Stopped;
                r
            },
        }
    }

    /// Health snapshot of the owned driver; non-blocking.
    pub fn status(&self) -> (r: DriverStatus)
        requires
            self.wf(),
        ensures
            (r == DriverStatus::Running) <==> self.sys_state() == SystemState::Running,
    {
        self.driver.status()
    }

    /// The session's lifecycle state.
    pub fn state(&self) -> (r: SystemState)
        ensures
            r == self.sys_state(),
    {
        self.state
    }

    /// Whether the cadence is in progress.
    pub fn is_running(&self) -> (r: bool)
        ensures
            r == (self.sys_state() == SystemState::Running),
    {
        matches!(self.state, SystemState::Running)
    }

    /// The session's ADC configuration.
    pub fn config(&self) -> (r: AdcConfig)
        ensures
            r == self.adc_config(),
    {
        self.config
    }

    /// The session's DSP configuration.
    pub fn dsp_configuration(&self) -> (r: DspConfig)
        ensures
            r == self.dsp_cfg(),
    {
        self.dsp_config
    }

    /// The board this session's driver stands for.
    pub fn driver_type(&self) -> (r: DriverType)
        ensures
            r == self.board(),
    {
        self.driver_type
    }

    /// Timestamp of the last emitted record (zero before the first).
    pub fn last_timestamp(&self) -> (r: u64)
        ensures
            r == self.last_ts(),
    {
        self.last_ts
    }

    /// Read access to the owned driver.
    pub fn driver(&self) -> (r: &D)
        ensures
            *r == self.driver_view(),
    {
        &self.driver
    }
}

} // verus!
