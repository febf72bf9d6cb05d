//! Board-driver abstraction: value types describing hardware capability and
//! configuration, the polymorphic [`BoardDriver`] contract, and a
//! deterministic scripted driver for tests and simulation.

pub mod mock;
pub mod types;

use vstd::prelude::*;

use crate::board_drivers::types::batch_shape_ok;
use crate::board_drivers::types::AdcConfig;
use crate::board_drivers::types::DriverError;
use crate::board_drivers::types::DriverStatus;

verus! {

/// Contract every concrete acquisition board satisfies.
///
/// Callers never need board-specific branching: the orchestrator is written,
/// and verified, against this interface alone.
///
/// * `configure` must be called before `start`; it validates the requested
///   envelope and either adopts the configuration or rejects it with
///   [`DriverError::UnsupportedConfig`], changing nothing else.
/// * `start` moves an idle driver to running; a running driver refuses with
///   [`DriverError::AlreadyRunning`], and hardware may always fail with
///   [`DriverError::HardwareFault`].
/// * `read_batch` blocks for at most the given timeout and yields one batch
///   with exactly one row of equal length per configured channel.
///   [`DriverError::Timeout`] is recoverable (the driver keeps running);
///   [`DriverError::HardwareFault`] is fatal and the caller must stop.
/// * `stop` always leaves the driver not running and is a no-op success when
///   it was already stopped; `stops` counts its invocations so that callers
///   can state their teardown guarantees.
/// * `status` is a non-blocking health snapshot and always succeeds.
pub trait BoardDriver: Sized {
    /// Configuration adopted by the last successful `configure`, if any.
    spec fn configured(&self) -> Option<AdcConfig>;

    /// Whether an acquisition is in progress.
    spec fn running(&self) -> bool;

    /// How many times `stop` has been invoked on this driver.
    spec fn stops(&self) -> nat;

    fn configure(&mut self, cfg: &AdcConfig) -> (r: Result<(), DriverError>)
        requires
            cfg.valid(),
            !old(self).running(),
        ensures
            final(self).running() == old(self).running(),
            final(self).stops() == old(self).stops(),
            match r {
                Ok(()) => final(self).configured() == Some(*cfg),
                Err(e) => {
                    &&& e == DriverError::UnsupportedConfig
                    &&& final(self).configured() == old(self).configured()
                },
            },
    ;

    fn start(&mut self) -> (r: Result<(), DriverError>)
        requires
            old(self).configured() is Some,
        ensures
            final(self).configured() == old(self).configured(),
            final(self).stops() == old(self).stops(),
            match r {
                Ok(()) => !old(self).running() && final(self).running(),
                Err(e) => {
                    ||| {
                        &&& e == DriverError::AlreadyRunning
                        &&& old(self).running()
                        &&& final(self).running()
                    }
                    ||| e == DriverError::HardwareFault
                },
            },
    ;

    fn read_batch(&mut self, timeout_ms: u64) -> (r: Result<Vec<Vec<i32>>, DriverError>)
        requires
            old(self).running(),
            old(self).configured() is Some,
        ensures
            final(self).configured() == old(self).configured(),
            final(self).stops() == old(self).stops(),
            match r {
                Ok(b) => {
                    &&& batch_shape_ok(b@, old(self).configured().unwrap().channels as int)
                    &&& final(self).running()
                },
                Err(DriverError::Timeout) => final(self).running(),
                Err(DriverError::HardwareFault) => true,
                Err(_) => false,
            },
    ;

    fn stop(&mut self) -> (r: Result<(), DriverError>)
        ensures
            !final(self).running(),
            final(self).configured() == old(self).configured(),
            final(self).stops() == old(self).stops() + 1,
            !old(self).running() ==> r is Ok,
    ;

    fn status(&self) -> (r: DriverStatus)
        ensures
            (r == DriverStatus::Running) <==> self.running(),
    ;
}

} // verus!
