//! Rescaling of a spectrum to the number of columns on the display.
//!
//! A spectrum is a sequence of levels, one per frequency bin, lowest
//! frequency first. A level is a fixed-point number of decibels: a count of
//! thousandths of one decibel, held in an `i32`.

use vstd::prelude::*;

verus! {

/// The sum of a run of levels.
pub open spec fn total(s: Seq<i32>) -> int
    decreases s.len(),
{
    if s.len() == 0 {
        0
    } else {
        total(s.drop_last()) + s.last()
    }
}

/// The mean of a non-empty run of levels, rounded down.
pub open spec fn mean(s: Seq<i32>) -> int
    recommends
        s.len() > 0,
{
    total(s) / (s.len() as int)
}

/// How many bins each band but the last takes when `len` bins are grouped
/// into `new_len` bands.
pub open spec fn band_size(len: nat, new_len: nat) -> int
    recommends
        0 < new_len,
{
    (len as int) / (new_len as int)
}

/// The first bin of band `i`.
pub open spec fn band_start(len: nat, new_len: nat, i: int) -> int {
    i * band_size(len, new_len)
}

/// One past the last bin of band `i`. The last band also takes the bins
/// that are left over when `len` is no multiple of `new_len`.
pub open spec fn band_end(len: nat, new_len: nat, i: int) -> int {
    if i + 1 == new_len {
        len as int
    } else {
        (i + 1) * band_size(len, new_len)
    }
}

/// The bins of band `i`.
pub open spec fn band(input: Seq<i32>, new_len: nat, i: int) -> Seq<i32> {
    input.subrange(band_start(input.len(), new_len, i), band_end(input.len(), new_len, i))
}

/// A spectrum scaled down to `new_len` values: unchanged where it is no
/// longer than that, else the mean of each of `new_len` contiguous bands.
pub open spec fn scaled(input: Seq<i32>, new_len: nat) -> Seq<i32> {
    if new_len >= input.len() {
        input
    } else {
        Seq::new(new_len, |i: int| mean(band(input, new_len, i)) as i32)
    }
}

/// Every band of a rescaling lies inside the spectrum and is not empty.
pub proof fn lemma_band_bounds(len: nat, new_len: nat, i: int)
    requires
        0 < new_len < len,
        0 <= i < new_len,
    ensures
        band_size(len, new_len) >= 1,
        0 <= band_start(len, new_len, i) < band_end(len, new_len, i) <= len,
        band_start(len, new_len, i) + band_size(len, new_len) <= band_end(len, new_len, i),
{
    let b = band_size(len, new_len);
    let n = new_len as int;
    let l = len as int;
    assert(b >= 1 && b * n <= l) by (nonlinear_arith)
        requires
            b == l / n,
            0 < n < l,
    ;
    assert(0 <= i * b && (i + 1) * b == i * b + b && (i + 1) * b <= n * b) by (nonlinear_arith)
        requires
            0 <= i < n,
            b >= 1,
    ;
    assert(n * b == b * n) by (nonlinear_arith);
}

/// Extending a run by one level adds that level to its sum.
pub proof fn lemma_total_extend(s: Seq<i32>, from: int, to: int)
    requires
        0 <= from <= to < s.len(),
    ensures
        total(s.subrange(from, to + 1)) == total(s.subrange(from, to)) + s[to],
{
    assert(s.subrange(from, to + 1).drop_last() =~= s.subrange(from, to));
}

/// The sum of a run is bounded by its length times the extreme levels.
pub proof fn lemma_total_bounds(s: Seq<i32>)
    ensures
        s.len() * (i32::MIN as int) <= total(s) <= s.len() * (i32::MAX as int),
    decreases s.len(),
{
    if s.len() > 0 {
        lemma_total_bounds(s.drop_last());
        let n = s.len() as int;
        assert((n - 1) * (i32::MIN as int) + (i32::MIN as int) == n * (i32::MIN as int))
            by (nonlinear_arith);
        assert((n - 1) * (i32::MAX as int) + (i32::MAX as int) == n * (i32::MAX as int))
            by (nonlinear_arith);
    }
}

/// The mean of a non-empty run is itself a level.
pub proof fn lemma_mean_is_level(s: Seq<i32>)
    requires
        s.len() > 0,
    ensures
        i32::MIN <= mean(s) <= i32::MAX,
{
    lemma_total_bounds(s);
    let n = s.len() as int;
    let t = total(s);
    let q = t / n;
    assert(-0x8000_0000 <= q <= 0x7fff_ffff) by (nonlinear_arith)
        requires
            n > 0,
            n * (-0x8000_0000) <= t <= n * 0x7fff_ffff,
            q == t / n,
    ;
}

/// Division that rounds down, for a positive divisor.
fn floor_div(sum: i128, count: i128) -> (q: i128)
    requires
        0 < count <= 0x1_0000_0000_0000_0000,
        -0x1_0000_0000_0000_0000_0000_0000 <= sum <= 0x1_0000_0000_0000_0000_0000_0000,
    ensures
        q == sum / count,
{
    if sum >= 0 {
        sum / count
    } else {
        let up: i128 = (count - 1 - sum) / count;
        assert(-up == sum / count) by (nonlinear_arith)
            requires
                count > 0,
                sum < 0,
                up == (count - 1 - sum) / (count as int),
        ;
        -up
    }
}

/// The mean of the bins `from..to` of a spectrum, rounded down.
fn mean_of(input: &Vec<i32>, from: usize, to: usize) -> (m: i32)
    requires
        from < to <= input.len(),
    ensures
        m == mean(input@.subrange(from as int, to as int)),
{
    let mut sum: i128 = 0;
    let mut j: usize = from;
    while j < to
        invariant
            from <= j <= to <= input.len(),
            sum == total(input@.subrange(from as int, j as int)),
            (j - from) * (i32::MIN as int) <= sum <= (j - from) * (i32::MAX as int),
        decreases to - j,
    {
        proof {
            lemma_total_extend(input@, from as int, j as int);
            let k = (j - from) as int;
            assert(k * (i32::MIN as int) + (i32::MIN as int) == (k + 1) * (i32::MIN as int))
                by (nonlinear_arith);
            assert(k * (i32::MAX as int) + (i32::MAX as int) == (k + 1) * (i32::MAX as int))
                by (nonlinear_arith);
            assert(-0x1_0000_0000_0000_0000_0000_0000 <= k * (i32::MIN as int) && k * (
            i32::MAX as int) <= 0x1_0000_0000_0000_0000_0000_0000) by (nonlinear_arith)
                requires
                    0 <= k <= 0xffff_ffff_ffff_ffff,
            ;
        }
        sum = sum + input[j] as i128;
        j = j + 1;
    }
    let count: usize = to - from;
    proof {
        let k = count as int;
        assert(-0x1_0000_0000_0000_0000_0000_0000 <= k * (i32::MIN as int) && k * (
        i32::MAX as int) <= 0x1_0000_0000_0000_0000_0000_0000) by (nonlinear_arith)
            requires
                0 <= k <= 0xffff_ffff_ffff_ffff,
        ;
        lemma_mean_is_level(input@.subrange(from as int, to as int));
    }
    let q: i128 = floor_div(sum, count as i128);
    q as i32
}

/// Scales a spectrum down to `new_len` values.
///
/// A spectrum that has no more than `new_len` values is returned as it is.
/// A longer one is grouped into `new_len` contiguous bands of
/// `input.len() / new_len` bins, the last band taking the bins that are left
/// over, and each band gives its mean, rounded down.
pub fn scale_fft_output(input: &Vec<i32>, new_len: usize) -> (output: Vec<i32>)
    ensures
        output@ == scaled(input@, new_len as nat),
{
    let len: usize = input.len();
    if new_len >= len {
        let same = input.clone();
        assert(same@ =~= input@);
        return same;
    }
    let mut output: Vec<i32> = Vec::with_capacity(new_len);
    if new_len == 0 {
        assert(output@ =~= scaled(input@, 0));
        return output;
    }
    let size: usize = len / new_len;
    let mut i: usize = 0;
    while i < new_len
        invariant
            0 < new_len < len,
            len == input.len(),
            size == band_size(len as nat, new_len as nat),
            i <= new_len,
            output@.len() == i,
            forall|k: int|
                0 <= k < i ==> output@[k] == mean(band(input@, new_len as nat, k)) as i32,
        decreases new_len - i,
    {
        proof {
            lemma_band_bounds(len as nat, new_len as nat, i as int);
        }
        let from: usize = i * size;
        let to: usize = if i + 1 == new_len {
            len
        } else {
            from + size
        };
        assert(to == band_end(len as nat, new_len as nat, i as int)) by (nonlinear_arith)
            requires
                to == if i + 1 == new_len {
                    len as int
                } else {
                    i * size + size
                },
                size == band_size(len as nat, new_len as nat),
        ;
        let m: i32 = mean_of(input, from, to);
        output.push(m);
        i = i + 1;
    }
    assert(output@ =~= scaled(input@, new_len as nat));
    output
}

/// How many values a rescaling gives: the target, or all of them where the
/// spectrum is shorter than the target.
pub proof fn lemma_scaled_len(input: Seq<i32>, new_len: nat)
    ensures
        scaled(input, new_len).len() == if new_len >= input.len() {
            input.len()
        } else {
            new_len
        },
{
}

/// Rescaling to a width and then to the same width again changes nothing:
/// the spectrum that comes out of the first step already fits.
pub proof fn lemma_scale_idempotent(input: Seq<i32>, cols: nat)
    ensures
        scaled(scaled(input, cols), cols) == scaled(input, cols),
{
    lemma_scaled_len(input, cols);
}

} // verus!
