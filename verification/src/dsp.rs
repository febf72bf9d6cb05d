//! DSP stage: voltage conversion and optional spectral analysis.
//!
//! Voltage conversion is exact.  A raw code `c` on a channel with resolution
//! `R` bits, reference voltage `Vref` and gain `G` stands for the voltage
//! `(2*c - 2^(R-1)) / 2^R * (Vref / G)`; with `Vref` in millivolts and `G`
//! in thousandths this is the rational `voltage_num / voltage_den` with
//! `voltage_num = (2*c - 2^(R-1)) * vref_mv` and
//! `voltage_den = 2^R * gain_milli`.  The numerator is computed per sample,
//! the denominator once per configuration; consumers divide when they render.
//!
//! A spectral-analysis failure never discards the voltages already computed:
//! [`process_batch`] returns partial results (voltages populated, spectra
//! absent, error set) rather than dropping the batch.

pub mod spectrum;

use vstd::arithmetic::power2::lemma2_to64;
use vstd::arithmetic::power2::lemma2_to64_rest;
use vstd::arithmetic::power2::lemma_pow2_strictly_increases;
use vstd::arithmetic::power2::pow2;
use vstd::prelude::*;

use crate::board_drivers::types::batch_len;
use crate::board_drivers::types::batch_shape_ok;
use crate::board_drivers::types::AdcConfig;
use crate::dsp::spectrum::MAX_SPECTRUM_LEN;
use crate::dsp::spectrum::VOLT_NUM_BOUND;

verus! {

/// Windowing function applied before the transform.
#[derive(Clone, Copy, Debug, PartialEq, Eq, Structural)]
pub enum WindowKind {
    /// No shaping: every coefficient is unity.
    Rectangular,
    /// Raised-cosine (Hann) window.
    Hann,
}

/// Per-session configuration of the DSP stage.
#[derive(Clone, Copy, Debug, PartialEq, Eq, Structural)]
pub struct DspConfig {
    /// Whether spectra are derived at all.
    pub spectral_enabled: bool,
    /// Window applied when they are.
    pub window: WindowKind,
}

/// Errors of the DSP stage.  Both are recovered locally: they are recorded
/// on the batch's record and never stop the acquisition stream.
#[derive(Clone, Copy, Debug, PartialEq, Eq, Structural)]
pub enum DspError {
    /// The batch did not have one row per configured channel, or its rows
    /// had differing lengths.
    ShapeMismatch,
    /// The spectral stage could not run: a channel was empty, or longer than
    /// [`MAX_SPECTRUM_LEN`].
    SpectralAnalysisFailed,
}

/// Jointly-present spectral output: one power sequence and one sequence of
/// bin centres per channel.  Holding both in one value makes "present
/// together or both absent" structural.
#[derive(Clone, Debug)]
pub struct SpectralData {
    /// Squared magnitudes per channel, in the fixed scale of
    /// [`spectrum::spectral_power`].
    pub power_spectrums: Vec<Vec<u128>>,
    /// Bin centres per channel, in millihertz.
    pub frequency_bins: Vec<Vec<u64>>,
}

/// Numerator of the exact voltage of raw code `code`: see the module
/// documentation.
pub open spec fn voltage_num(cfg: AdcConfig, code: int) -> int {
    (2 * code - pow2((cfg.resolution - 1) as nat)) * cfg.vref_mv
}

/// Denominator shared by every sample converted under `cfg`.
pub open spec fn voltage_den(cfg: AdcConfig) -> int {
    pow2(cfg.resolution as nat) * cfg.gain_milli
}

proof fn lemma_mul_abs_le(a: int, b: int, ab: int, bb: int)
    by (nonlinear_arith)
    requires
        -ab <= a <= ab,
        0 <= b <= bb,
        0 <= ab,
    ensures
        -(ab * bb) <= a * b <= ab * bb,
{
}

/// `2^k` as a machine word.
fn pow2_u64(k: u32) -> (r: u64)
    requires
        k <= 32,
    ensures
        r as nat == pow2(k as nat),
        1 <= r,
{
    proof {
        lemma2_to64();
        lemma2_to64_rest();
        if (k as nat) < 32 {
            lemma_pow2_strictly_increases(k as nat, 32);
        }
        vstd::bits::lemma_u64_shl_is_mul(1u64, k as u64);
    }
    1u64 << (k as u64)
}

/// Voltage numerator of one raw sample.
///
/// Identical configuration and code always yield the identical numerator,
/// and the denominator does not depend on the code at all: conversion is
/// deterministic.
pub fn voltage_numerator(cfg: &AdcConfig, code: i32) -> (r: i64)
    requires
        cfg.valid(),
    ensures
        r as int == voltage_num(*cfg, code as int),
        -VOLT_NUM_BOUND <= r <= VOLT_NUM_BOUND,
{
    let mid: u64 = pow2_u64(cfg.resolution - 1);
    proof {
        lemma2_to64();
        lemma2_to64_rest();
        if ((cfg.resolution - 1) as nat) < 31 {
            lemma_pow2_strictly_increases((cfg.resolution - 1) as nat, 31);
        }
    }
    let t: i64 = 2 * (code as i64) - (mid as i64);
    proof {
        lemma_mul_abs_le(t as int, cfg.vref_mv as int, 0x1_8000_0000, 100_000);
    }
    t * (cfg.vref_mv as i64)
}

/// Denominator shared by all samples of a session.
pub fn voltage_denominator(cfg: &AdcConfig) -> (r: u64)
    requires
        cfg.valid(),
    ensures
        r as int == voltage_den(*cfg),
        1 <= r,
{
    let sc: u64 = pow2_u64(cfg.resolution);
    proof {
        lemma2_to64();
        lemma2_to64_rest();
        if (cfg.resolution as nat) < 32 {
            lemma_pow2_strictly_increases(cfg.resolution as nat, 32);
        }
        lemma_mul_abs_le(sc as int, cfg.gain_milli as int, 0x1_0000_0000, 1_000_000);
        assert(1 <= sc as int * cfg.gain_milli as int) by (nonlinear_arith)
            requires
                1 <= sc as int,
                1 <= cfg.gain_milli as int,
        ;
    }
    sc * (cfg.gain_milli as u64)
}

/// Voltage conversion is linear in the raw code: a fixed configuration maps
/// code differences to numerator differences by the constant factor
/// `2 * vref_mv`, over the constant denominator [`voltage_den`].
pub proof fn lemma_voltage_conversion_linear(cfg: AdcConfig, c1: int, c2: int)
    requires
        cfg.valid(),
    ensures
        voltage_num(cfg, c2) - voltage_num(cfg, c1) == 2 * cfg.vref_mv * (c2 - c1),
{
    let m = pow2((cfg.resolution - 1) as nat) as int;
    let v = cfg.vref_mv as int;
    assert((2 * c2 - m) * v - (2 * c1 - m) * v == 2 * v * (c2 - c1)) by (nonlinear_arith);
}

/// Runtime check of [`batch_shape_ok`].
pub fn check_shape(batch: &Vec<Vec<i32>>, channels: usize) -> (ok: bool)
    ensures
        ok == batch_shape_ok(batch@, channels as int),
{
    if batch.len() != channels {
        return false;
    }
    if batch.len() == 0 {
        return true;
    }
    let n: usize = batch[0].len();
    let mut i: usize = 0;
    while i < batch.len()
        invariant
            0 <= i <= batch@.len(),
            batch@.len() == channels,
            batch@.len() >= 1,
            n == batch_len(batch@),
            forall|j: int| 0 <= j < i ==> (#[trigger] batch@[j]@.len()) == n,
        decreases batch@.len() - i,
    {
        if batch[i].len() != n {
            return false;
        }
        i = i + 1;
    }
    true
}

/// `v` holds, channel for channel and sample for sample, the voltage
/// numerators of the raw batch `b` under `cfg`.
pub open spec fn voltages_match(cfg: AdcConfig, b: Seq<Vec<i32>>, v: Seq<Vec<i64>>) -> bool {
    &&& v.len() == b.len()
    &&& forall|i: int| 0 <= i < b.len() ==> (#[trigger] v[i]@.len()) == b[i]@.len()
    &&& forall|i: int, j: int|
        0 <= i < b.len() && 0 <= j < b[i]@.len() ==> (#[trigger] v[i]@[j]) as int == voltage_num(
            cfg,
            b[i]@[j] as int,
        )
}

/// Convert one channel of raw codes to voltage numerators.
pub fn convert_channel(cfg: &AdcConfig, row: &Vec<i32>) -> (r: Vec<i64>)
    requires
        cfg.valid(),
    ensures
        r@.len() == row@.len(),
        forall|j: int|
            0 <= j < row@.len() ==> (#[trigger] r@[j]) as int == voltage_num(
                *cfg,
                row@[j] as int,
            ),
        spectrum::samples_bounded(r@),
{
    let mut r: Vec<i64> = Vec::new();
    let mut j: usize = 0;
    while j < row.len()
        invariant
            0 <= j <= row@.len(),
            cfg.valid(),
            r@.len() == j,
            forall|m: int|
                0 <= m < j ==> (#[trigger] r@[m]) as int == voltage_num(*cfg, row@[m] as int),
            spectrum::samples_bounded(r@),
        decreases row@.len() - j,
    {
        let v: i64 = voltage_numerator(cfg, row[j]);
        r.push(v);
        j = j + 1;
    }
    r
}

/// Convert a whole batch to voltage numerators, keeping its shape.
pub fn convert_batch(cfg: &AdcConfig, batch: &Vec<Vec<i32>>) -> (r: Vec<Vec<i64>>)
    requires
        cfg.valid(),
    ensures
        voltages_match(*cfg, batch@, r@),
        forall|i: int| 0 <= i < r@.len() ==> spectrum::samples_bounded(#[trigger] r@[i]@),
{
    let mut r: Vec<Vec<i64>> = Vec::new();
    let mut i: usize = 0;
    while i < batch.len()
        invariant
            0 <= i <= batch@.len(),
            cfg.valid(),
            r@.len() == i,
            forall|m: int| 0 <= m < i ==> (#[trigger] r@[m]@.len()) == batch@[m]@.len(),
            forall|m: int, j: int|
                0 <= m < i && 0 <= j < batch@[m]@.len() ==> (#[trigger] r@[m]@[j]) as int
                    == voltage_num(*cfg, batch@[m]@[j] as int),
            forall|m: int| 0 <= m < i ==> spectrum::samples_bounded(#[trigger] r@[m]@),
        decreases batch@.len() - i,
    {
        let row: Vec<i64> = convert_channel(cfg, &batch[i]);
        r.push(row);
        i = i + 1;
    }
    r
}

/// The spectral stage can run on channels of this length.
pub open spec fn spectral_len_ok(len: int) -> bool {
    1 <= len <= MAX_SPECTRUM_LEN
}

/// The error a batch's record carries, as a function of the batch alone.
///
/// A failure is a property of the one batch it occurred on; nothing of the
/// session's history enters this definition.
pub open spec fn record_error(cfg: AdcConfig, dspc: DspConfig, b: Seq<Vec<i32>>) -> Option<
    DspError,
> {
    if !batch_shape_ok(b, cfg.channels as int) {
        Some(DspError::ShapeMismatch)
    } else if dspc.spectral_enabled && !spectral_len_ok(batch_len(b)) {
        Some(DspError::SpectralAnalysisFailed)
    } else {
        None
    }
}

/// A DSP failure is confined to the batch it occurred on: the error a
/// record carries is a function of that record's own raw batch and the
/// immutable session configuration, never of earlier batches; and a
/// well-shaped batch whose channels fit the spectral stage always yields an
/// error-free record, whatever happened before it.
pub proof fn lemma_dsp_failure_isolation(cfg: AdcConfig, dspc: DspConfig, b: Seq<Vec<i32>>)
    requires
        batch_shape_ok(b, cfg.channels as int),
        dspc.spectral_enabled ==> spectral_len_ok(batch_len(b)),
    ensures
        record_error(cfg, dspc, b) is None,
{
}

/// `sd` is the spectral analysis of the voltage numerators `v` under window
/// `w`: per channel, the power of every one-sided bin and its centre
/// frequency.
pub open spec fn spectral_matches(
    sd: SpectralData,
    cfg: AdcConfig,
    w: WindowKind,
    v: Seq<Vec<i64>>,
) -> bool {
    let n = if v.len() == 0 {
        0int
    } else {
        v[0]@.len() as int
    };
    &&& sd.power_spectrums@.len() == v.len()
    &&& sd.frequency_bins@.len() == v.len()
    &&& forall|c: int|
        0 <= c < v.len() ==> (#[trigger] sd.power_spectrums@[c]@.len()) as int
            == spectrum::bin_count(n)
    &&& forall|c: int|
        0 <= c < v.len() ==> (#[trigger] sd.frequency_bins@[c]@.len()) as int
            == spectrum::bin_count(n)
    &&& forall|c: int, k: int|
        0 <= c < v.len() && 0 <= k < spectrum::bin_count(n) ==> (
        #[trigger] sd.power_spectrums@[c]@[k]) as int == spectrum::spectral_power(v[c]@, w, k)
    &&& forall|c: int, k: int|
        0 <= c < v.len() && 0 <= k < spectrum::bin_count(n) ==> (
        #[trigger] sd.frequency_bins@[c]@[k]) as int == spectrum::bin_centre_mhz(
            cfg.sample_rate as int,
            n,
            k,
        )
}

/// Everything the DSP stage produced for one batch.
pub struct DspOutput {
    /// Voltage numerators, channel for channel; empty on a shape mismatch.
    pub voltages: Vec<Vec<i64>>,
    /// Spectral analysis, when enabled and computable.
    pub spectral: Option<SpectralData>,
    /// The batch's error, if any stage failed on it.
    pub error: Option<DspError>,
}

/// Run the DSP stage on one raw batch.
///
/// Voltage conversion cannot fail on a well-shaped batch.  A spectral
/// failure leaves the voltages in place and only sets the error: the record
/// still carries everything that succeeded.  When spectral analysis is
/// disabled no spectra are ever produced.
pub fn process_batch(cfg: &AdcConfig, dspc: &DspConfig, batch: &Vec<Vec<i32>>) -> (r: DspOutput)
    requires
        cfg.valid(),
    ensures
        r.error == record_error(*cfg, *dspc, batch@),
        batch_shape_ok(batch@, cfg.channels as int) ==> voltages_match(*cfg, batch@, r.voltages@),
        !batch_shape_ok(batch@, cfg.channels as int) ==> r.voltages@.len() == 0,
        !dspc.spectral_enabled ==> r.spectral is None,
        (r.spectral is Some) == (batch_shape_ok(batch@, cfg.channels as int)
            && dspc.spectral_enabled && spectral_len_ok(batch_len(batch@))),
        r.spectral is Some ==> spectral_matches(
            r.spectral.unwrap(),
            *cfg,
            dspc.window,
            r.voltages@,
        ),
{
    if !check_shape(batch, cfg.channels) {
        return DspOutput { voltages: Vec::new(), spectral: None, error: Some(
            DspError::ShapeMismatch,
        ) };
    }
    let voltages: Vec<Vec<i64>> = convert_batch(cfg, batch);
    if !dspc.spectral_enabled {
        return DspOutput { voltages, spectral: None, error: None };
    }
    let n: usize = batch[0].len();
    if n == 0 || n > MAX_SPECTRUM_LEN {
        return DspOutput { voltages, spectral: None, error: Some(
            DspError::SpectralAnalysisFailed,
        ) };
    }
    let mut powers: Vec<Vec<u128>> = Vec::new();
    let mut bins: Vec<Vec<u64>> = Vec::new();
    let mut c: usize = 0;
    while c < voltages.len()
        invariant
            0 <= c <= voltages@.len(),
            cfg.valid(),
            1 <= n <= MAX_SPECTRUM_LEN,
            voltages@.len() == batch@.len(),
            forall|m: int| 0 <= m < voltages@.len() ==> (#[trigger] voltages@[m]@.len()) == n,
            forall|m: int|
                0 <= m < voltages@.len() ==> spectrum::samples_bounded(#[trigger] voltages@[m]@),
            powers@.len() == c,
            bins@.len() == c,
            forall|m: int|
                0 <= m < c ==> (#[trigger] powers@[m]@.len()) as int == spectrum::bin_count(
                    n as int,
                ),
            forall|m: int|
                0 <= m < c ==> (#[trigger] bins@[m]@.len()) as int == spectrum::bin_count(n as int),
            forall|m: int, k: int|
                0 <= m < c && 0 <= k < spectrum::bin_count(n as int) ==> (
                #[trigger] powers@[m]@[k]) as int == spectrum::spectral_power(
                    voltages@[m]@,
                    dspc.window,
                    k,
                ),
            forall|m: int, k: int|
                0 <= m < c && 0 <= k < spectrum::bin_count(n as int) ==> (#[trigger] bins@[m]@[k])
                    as int == spectrum::bin_centre_mhz(cfg.sample_rate as int, n as int, k),
        decreases voltages@.len() - c,
    {
        let p: Vec<u128> = spectrum::channel_power_spectrum(&voltages[c], dspc.window);
        let b: Vec<u64> = spectrum::frequency_bins_for(cfg.sample_rate, n);
        powers.push(p);
        bins.push(b);
        c = c + 1;
    }
    DspOutput {
        voltages,
        spectral: Some(SpectralData { power_spectrums: powers, frequency_bins: bins }),
        error: None,
    }
}

} // verus!
