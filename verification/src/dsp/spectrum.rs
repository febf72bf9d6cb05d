//! Deterministic fixed-point spectral analysis.
//!
//! Spectra are computed with integer arithmetic only: a Q20 fixed-point
//! cosine (quarter-wave table with linear interpolation), an optional Hann
//! window in the same format, and a direct discrete Fourier transform whose
//! accumulators live in 128-bit integers.  The output is a power value per
//! frequency bin in an arbitrary but fixed scale, so identical input always
//! yields identical output, bit for bit.

use vstd::prelude::*;

use crate::dsp::WindowKind;

verus! {

/// Unity in the Q20 fixed-point format used by the window and the cosine.
pub const Q20: u64 = 1048576;

/// Largest per-channel sample count the spectral stage accepts; beyond it the
/// 128-bit accumulators of the transform could no longer be proved in range.
pub const MAX_SPECTRUM_LEN: usize = 65536;

/// Bound on the magnitude of every voltage numerator that may enter the
/// transform (`2^50`; the conversion stage stays well below it).
pub const VOLT_NUM_BOUND: i64 = 0x4_0000_0000_0000;

/// Divisor applied to the accumulated real and imaginary parts before they
/// are squared (`2^45`), keeping the power value inside 128 bits.
pub const MAG_DOWNSCALE: u128 = 0x2000_0000_0000;

/// Quarter-wave cosine table: `cos(2*pi*i/64)` in Q20, for `i` in `0..=16`.
pub open spec fn quarter_cos_table(i: int) -> int {
    if i == 0 {
        1048576
    } else if i == 1 {
        1043527
    } else if i == 2 {
        1028428
    } else if i == 3 {
        1003425
    } else if i == 4 {
        968758
    } else if i == 5 {
        924761
    } else if i == 6 {
        871859
    } else if i == 7 {
        810560
    } else if i == 8 {
        741455
    } else if i == 9 {
        665210
    } else if i == 10 {
        582558
    } else if i == 11 {
        494295
    } else if i == 12 {
        401273
    } else if i == 13 {
        304386
    } else if i == 14 {
        204567
    } else if i == 15 {
        102778
    } else {
        0
    }
}

fn quarter_cos_table_exec(i: u64) -> (r: u64)
    ensures
        r as int == quarter_cos_table(i as int),
        r <= Q20,
{
    match i {
        0 => 1048576,
        1 => 1043527,
        2 => 1028428,
        3 => 1003425,
        4 => 968758,
        5 => 924761,
        6 => 871859,
        7 => 810560,
        8 => 741455,
        9 => 665210,
        10 => 582558,
        11 => 494295,
        12 => 401273,
        13 => 304386,
        14 => 204567,
        15 => 102778,
        _ => 0,
    }
}

/// Q20 cosine of the fraction `p / q` of a full turn, for the first quadrant
/// (`4 * p <= q`), by linear interpolation in [`quarter_cos_table`].
pub open spec fn quarter_cos_q20(p: int, q: int) -> int
    recommends
        1 <= q,
        0 <= p,
        4 * p <= q,
{
    let s = 64 * p;
    let idx = s / q;
    let rem = s % q;
    if idx >= 16 {
        0
    } else {
        (quarter_cos_table(idx) * (q - rem) + quarter_cos_table(idx + 1) * rem) / q
    }
}

proof fn lemma_mul_abs_bound(a: int, b: int, ab: int, bb: int)
    by (nonlinear_arith)
    requires
        -ab <= a <= ab,
        -bb <= b <= bb,
        0 <= ab,
        0 <= bb,
    ensures
        -(ab * bb) <= a * b <= ab * bb,
{
}

proof fn lemma_div_bound(a: int, b: int, q: int)
    by (nonlinear_arith)
    requires
        0 <= a,
        a <= b * q,
        0 < q,
        0 <= b,
    ensures
        0 <= a / q <= b,
{
}

fn quarter_cos_exec(p: u64, q: u64) -> (r: u64)
    requires
        1 <= q <= 0x2_0000_0000,
        4 * p <= q,
    ensures
        r as int == quarter_cos_q20(p as int, q as int),
        r <= Q20,
{
    let s: u64 = 64 * p;
    let idx: u64 = s / q;
    let rem: u64 = s % q;
    assert(idx <= 16) by {
        lemma_div_bound(s as int, 16, q as int);
    };
    if idx >= 16 {
        0
    } else {
        let a: u64 = quarter_cos_table_exec(idx);
        let b: u64 = quarter_cos_table_exec(idx + 1);
        proof {
            lemma_mul_abs_bound(a as int, (q - rem) as int, Q20 as int, q as int);
            lemma_mul_abs_bound(b as int, rem as int, Q20 as int, q as int);
        }
        let num: u64 = a * (q - rem) + b * rem;
        let r: u64 = num / q;
        assert(r <= Q20) by {
            assert(num as int <= (Q20 as int) * (q as int)) by (nonlinear_arith)
                requires
                    num == a * (q - rem) + b * rem,
                    a <= Q20,
                    b <= Q20,
                    rem < q,
            ;
            lemma_div_bound(num as int, Q20 as int, q as int);
        };
        r
    }
}

/// Q20 cosine of the fraction `j / n` of a full turn, reduced by the
/// symmetries of the cosine to the first quadrant.
pub open spec fn cos_q20(j: int, n: int) -> int
    recommends
        1 <= n,
        0 <= j,
{
    let j0 = j % n;
    let j1 = if 2 * j0 > n {
        n - j0
    } else {
        j0
    };
    if 4 * j1 > n {
        -quarter_cos_q20(n - 2 * j1, 2 * n)
    } else {
        quarter_cos_q20(j1, n)
    }
}

/// Q20 sine of the fraction `j / n` of a full turn, as the cosine a quarter
/// turn behind.
pub open spec fn sin_q20(j: int, n: int) -> int
    recommends
        1 <= n,
        0 <= j,
{
    cos_q20((4 * (j % n) + 3 * n) % (4 * n), 4 * n)
}

pub fn cos_q20_exec(j: u64, n: u64) -> (r: i64)
    requires
        1 <= n <= 0x1_0000_0000,
    ensures
        r as int == cos_q20(j as int, n as int),
        -(Q20 as int) <= r as int <= Q20 as int,
{
    let j0: u64 = j % n;
    let j1: u64 = if 2 * j0 > n {
        n - j0
    } else {
        j0
    };
    if 4 * j1 > n {
        let m: u64 = quarter_cos_exec(n - 2 * j1, 2 * n);
        -(m as i64)
    } else {
        let m: u64 = quarter_cos_exec(j1, n);
        m as i64
    }
}

pub fn sin_q20_exec(j: u64, n: u64) -> (r: i64)
    requires
        1 <= n <= 0x1000_0000,
    ensures
        r as int == sin_q20(j as int, n as int),
        -(Q20 as int) <= r as int <= Q20 as int,
{
    let j0: u64 = j % n;
    cos_q20_exec((4 * j0 + 3 * n) % (4 * n), 4 * n)
}

/// Q20 window coefficient for sample `i` of a channel of length `len`.
pub open spec fn window_q20(w: WindowKind, i: int, len: int) -> int
    recommends
        1 <= len,
        0 <= i < len,
{
    match w {
        WindowKind::Rectangular => Q20 as int,
        WindowKind::Hann => if len <= 1 {
            Q20 as int
        } else {
            (Q20 as int - cos_q20(i, len - 1)) / 2
        },
    }
}

pub fn window_q20_exec(w: WindowKind, i: u64, len: u64) -> (r: u64)
    requires
        1 <= len <= 0x1_0000_0000,
        i < len,
    ensures
        r as int == window_q20(w, i as int, len as int),
        r <= Q20,
{
    match w {
        WindowKind::Rectangular => Q20,
        WindowKind::Hann => {
            if len <= 1 {
                Q20
            } else {
                let c: i64 = cos_q20_exec(i, len - 1);
                let v: i64 = Q20 as i64 - c;
                (v as u64) / 2
            }
        },
    }
}

/// Partial sum (over the first `m` samples) of the real part of bin `k` of
/// the windowed transform.
pub open spec fn dft_re_partial(xs: Seq<i64>, w: WindowKind, k: int, m: int) -> int
    decreases m,
{
    if m <= 0 {
        0
    } else {
        dft_re_partial(xs, w, k, m - 1) + window_q20(w, m - 1, xs.len() as int) * xs[m - 1]
            * cos_q20((k * (m - 1)) % (xs.len() as int), xs.len() as int)
    }
}

/// Partial sum of the imaginary part, as [`dft_re_partial`].
pub open spec fn dft_im_partial(xs: Seq<i64>, w: WindowKind, k: int, m: int) -> int
    decreases m,
{
    if m <= 0 {
        0
    } else {
        dft_im_partial(xs, w, k, m - 1) + window_q20(w, m - 1, xs.len() as int) * xs[m - 1]
            * sin_q20((k * (m - 1)) % (xs.len() as int), xs.len() as int)
    }
}

/// Power of bin `k`: squared magnitude of the windowed transform, after the
/// real and imaginary parts are scaled down by [`MAG_DOWNSCALE`].
pub open spec fn spectral_power(xs: Seq<i64>, w: WindowKind, k: int) -> int
    recommends
        1 <= xs.len(),
{
    let re = dft_re_partial(xs, w, k, xs.len() as int);
    let im = dft_im_partial(xs, w, k, xs.len() as int);
    let mr = vstd::math::abs(re) / (MAG_DOWNSCALE as nat);
    let mi = vstd::math::abs(im) / (MAG_DOWNSCALE as nat);
    (mr * mr + mi * mi) as int
}

/// All samples of a channel lie within [`VOLT_NUM_BOUND`].
pub open spec fn samples_bounded(xs: Seq<i64>) -> bool {
    forall|i: int|
        0 <= i < xs.len() ==> -(VOLT_NUM_BOUND as int) <= #[trigger] xs[i] <= VOLT_NUM_BOUND as int
}

/// Power of one frequency bin, computed with a direct transform.
pub fn dft_bin(xs: &Vec<i64>, w: WindowKind, k: u64) -> (p: u128)
    requires
        1 <= xs@.len() <= MAX_SPECTRUM_LEN,
        k <= xs@.len(),
        samples_bounded(xs@),
    ensures
        p as int == spectral_power(xs@, w, k as int),
{
    let n: u64 = xs.len() as u64;
    let mut re: i128 = 0;
    let mut im: i128 = 0;
    let mut i: u64 = 0;
    while i < n
        invariant
            0 <= i <= n,
            n == xs@.len(),
            1 <= n <= MAX_SPECTRUM_LEN,
            k <= n,
            samples_bounded(xs@),
            re as int == dft_re_partial(xs@, w, k as int, i as int),
            im as int == dft_im_partial(xs@, w, k as int, i as int),
            -0x400_0000_0000_0000_0000_0000 * (i as int) <= re as int,
            re as int <= 0x400_0000_0000_0000_0000_0000 * (i as int),
            -0x400_0000_0000_0000_0000_0000 * (i as int) <= im as int,
            im as int <= 0x400_0000_0000_0000_0000_0000 * (i as int),
        decreases n - i,
    {
        let xi: i64 = xs[i as usize];
        let wv: u64 = window_q20_exec(w, i, n);
        proof {
            // |window * sample| <= 2^20 * 2^50 == 2^70
            lemma_mul_abs_bound(wv as int, xi as int, Q20 as int, VOLT_NUM_BOUND as int);
            // k * i stays well inside u64
            lemma_mul_abs_bound(k as int, i as int, 65536, 65536);
        }
        let x: i128 = (wv as i128) * (xi as i128);
        let a: u64 = (k * i) % n;
        let c: i64 = cos_q20_exec(a, n);
        let s: i64 = sin_q20_exec(a, n);
        proof {
            // |term| <= 2^70 * 2^20 == 2^90
            lemma_mul_abs_bound(x as int, c as int, 0x40_0000_0000_0000_0000, Q20 as int);
            lemma_mul_abs_bound(x as int, s as int, 0x40_0000_0000_0000_0000, Q20 as int);
        }
        let tre: i128 = x * (c as i128);
        let tim: i128 = x * (s as i128);
        re = re + tre;
        im = im + tim;
        proof {
            assert(re as int == dft_re_partial(xs@, w, k as int, i as int + 1));
            assert(im as int == dft_im_partial(xs@, w, k as int, i as int + 1));
        }
        i = i + 1;
    }
    // |re|, |im| <= 2^90 * 2^16 == 2^106
    let ra: u128 = if re < 0 {
        (-re) as u128
    } else {
        re as u128
    };
    let ia: u128 = if im < 0 {
        (-im) as u128
    } else {
        im as u128
    };
    assert(ra as int == vstd::math::abs(re as int));
    assert(ia as int == vstd::math::abs(im as int));
    let mr: u128 = ra / MAG_DOWNSCALE;
    let mi: u128 = ia / MAG_DOWNSCALE;
    proof {
        // 2^106 / 2^45 == 2^61
        lemma_div_bound(ra as int, 0x2000_0000_0000_0000, MAG_DOWNSCALE as int);
        lemma_div_bound(ia as int, 0x2000_0000_0000_0000, MAG_DOWNSCALE as int);
        lemma_mul_abs_bound(mr as int, mr as int, 0x2000_0000_0000_0000, 0x2000_0000_0000_0000);
        lemma_mul_abs_bound(mi as int, mi as int, 0x2000_0000_0000_0000, 0x2000_0000_0000_0000);
    }
    mr * mr + mi * mi
}

/// Number of one-sided frequency bins for a channel of length `len`.
pub open spec fn bin_count(len: int) -> int {
    len / 2 + 1
}

/// Centre of bin `k`, in millihertz, for sampling rate `rate` and channel
/// length `len`.
pub open spec fn bin_centre_mhz(rate: int, len: int, k: int) -> int
    recommends
        1 <= len,
{
    k * rate * 1000 / len
}

/// Power spectrum of one channel of voltage numerators.
pub fn channel_power_spectrum(xs: &Vec<i64>, w: WindowKind) -> (r: Vec<u128>)
    requires
        1 <= xs@.len() <= MAX_SPECTRUM_LEN,
        samples_bounded(xs@),
    ensures
        r@.len() as int == bin_count(xs@.len() as int),
        forall|k: int| 0 <= k < r@.len() ==> (#[trigger] r@[k]) as int == spectral_power(xs@, w, k),
{
    let n: usize = xs.len();
    let bins: usize = n / 2 + 1;
    let mut r: Vec<u128> = Vec::new();
    let mut k: usize = 0;
    while k < bins
        invariant
            0 <= k <= bins,
            bins == n / 2 + 1,
            n == xs@.len(),
            1 <= n <= MAX_SPECTRUM_LEN,
            samples_bounded(xs@),
            r@.len() == k,
            forall|j: int| 0 <= j < k ==> (#[trigger] r@[j]) as int == spectral_power(xs@, w, j),
        decreases bins - k,
    {
        let p: u128 = dft_bin(xs, w, k as u64);
        r.push(p);
        k = k + 1;
    }
    r
}

/// Frequency-bin centres, in millihertz, for one channel.
pub fn frequency_bins_for(rate: u32, len: usize) -> (r: Vec<u64>)
    requires
        1 <= len <= MAX_SPECTRUM_LEN,
        1 <= rate <= 1_000_000,
    ensures
        r@.len() as int == bin_count(len as int),
        forall|k: int|
            0 <= k < r@.len() ==> (#[trigger] r@[k]) as int == bin_centre_mhz(
                rate as int,
                len as int,
                k,
            ),
{
    let bins: usize = len / 2 + 1;
    let mut r: Vec<u64> = Vec::new();
    let mut k: usize = 0;
    while k < bins
        invariant
            0 <= k <= bins,
            bins == len / 2 + 1,
            1 <= len <= MAX_SPECTRUM_LEN,
            1 <= rate <= 1_000_000,
            r@.len() == k,
            forall|j: int|
                0 <= j < k ==> (#[trigger] r@[j]) as int == bin_centre_mhz(
                    rate as int,
                    len as int,
                    j,
                ),
        decreases bins - k,
    {
        proof {
            lemma_mul_abs_bound(k as int, rate as int, 65536, 1_000_000);
        }
        let v: u64 = (k as u64) * (rate as u64) * 1000 / (len as u64);
        r.push(v);
        k = k + 1;
    }
    r
}

} // verus!
