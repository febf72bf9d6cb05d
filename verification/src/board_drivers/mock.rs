//! Deterministic scripted driver.
//!
//! A [`MockDriver`] replays a fixed script of read outcomes, one per
//! `read_batch` call: a timeout, a hardware fault, or a well-shaped
//! synthetic batch.  An exhausted script keeps reporting timeouts.  It backs
//! tests of the orchestrator and dry runs without hardware.

use vstd::prelude::*;

use crate::board_drivers::types::batch_len;
use crate::board_drivers::types::batch_shape_ok;
use crate::board_drivers::types::AdcConfig;
use crate::board_drivers::types::DriverError;
use crate::board_drivers::types::DriverStatus;
use crate::board_drivers::BoardDriver;

verus! {

/// One scripted outcome of a `read_batch` call.
#[derive(Clone, Copy, Debug, PartialEq, Eq, Structural)]
pub enum MockStep {
    /// Report that no data arrived within the timeout.
    Timeout,
    /// Report a lost connection.
    Fault,
    /// Produce a batch of `samples` codes per channel, every code equal to
    /// `code`.
    Batch { samples: usize, code: i32 },
}

/// Scripted board driver; see the module documentation.
pub struct MockDriver {
    config: Option<AdcConfig>,
    running: bool,
    faulted: bool,
    script: Vec<MockStep>,
    cursor: usize,
    stop_calls: u64,
    stop_count: Ghost<nat>,
}

impl MockDriver {
    /// A fresh driver: unconfigured, idle, with an empty script.
    pub fn new() -> (r: MockDriver)
        ensures
            r.configured() is None,
            !r.running(),
            r.stops() == 0,
    {
        MockDriver {
            config: None,
            running: false,
            faulted: false,
            script: Vec::new(),
            cursor: 0,
            stop_calls: 0,
            stop_count: Ghost(0),
        }
    }

    /// Append one outcome to the script.
    pub fn push_step(&mut self, step: MockStep)
        ensures
            final(self).configured() == old(self).configured(),
            final(self).running() == old(self).running(),
            final(self).stops() == old(self).stops(),
    {
        self.script.push(step);
    }

    /// How many times `stop` has been called, saturating at `u64::MAX`.
    pub fn stop_calls(&self) -> (r: u64) {
        self.stop_calls
    }
}

fn build_batch(channels: usize, samples: usize, code: i32) -> (b: Vec<Vec<i32>>)
    ensures
        batch_shape_ok(b@, channels as int),
        channels > 0 ==> batch_len(b@) == samples,
{
    let mut b: Vec<Vec<i32>> = Vec::new();
    let mut i: usize = 0;
    while i < channels
        invariant
            0 <= i <= channels,
            b@.len() == i,
            forall|m: int| 0 <= m < i ==> (#[trigger] b@[m]@.len()) == samples,
        decreases channels - i,
    {
        let mut row: Vec<i32> = Vec::new();
        let mut j: usize = 0;
        while j < samples
            invariant
                0 <= j <= samples,
                row@.len() == j,
            decreases samples - j,
        {
            row.push(code);
            j = j + 1;
        }
        b.push(row);
        i = i + 1;
    }
    b
}

impl BoardDriver for MockDriver {
    closed spec fn configured(&self) -> Option<AdcConfig> {
        self.config
    }

    closed spec fn running(&self) -> bool {
        self.running
    }

    closed spec fn stops(&self) -> nat {
        self.stop_count@
    }

    fn configure(&mut self, cfg: &AdcConfig) -> (r: Result<(), DriverError>) {
        self.config = Some(*cfg);
        Ok(())
    }

    fn start(&mut self) -> (r: Result<(), DriverError>) {
        if self.running {
            Err(DriverError::AlreadyRunning)
        } else {
            self.running = true;
            Ok(())
        }
    }

    fn read_batch(&mut self, timeout_ms: u64) -> (r: Result<Vec<Vec<i32>>, DriverError>) {
        if self.cursor < self.script.len() {
            let step: MockStep = self.script[self.cursor];
            self.cursor = self.cursor + 1;
            match step {
                MockStep::Timeout => Err(DriverError::Timeout),
                MockStep::Fault => {
                    self.running = false;
                    self.faulted = true;
                    Err(DriverError::HardwareFault)
                },
                MockStep::Batch { samples, code } => {
                    let cfg: AdcConfig = self.config.unwrap();
                    Ok(build_batch(cfg.channels, samples, code))
                },
            }
        } else {
            Err(DriverError::Timeout)
        }
    }

    fn stop(&mut self) -> (r: Result<(), DriverError>) {
        self.running = false;
        self.stop_count = Ghost(self.stop_count@ + 1);
        if self.stop_calls < u64::MAX {
            self.stop_calls = self.stop_calls + 1;
        }
        Ok(())
    }

    fn status(&self) -> (r: DriverStatus) {
        if self.running {
            DriverStatus::Running
        } else if self.faulted {
            DriverStatus::Error(DriverError::HardwareFault)
        } else {
            DriverStatus::Idle
        }
    }
}

} // verus!
