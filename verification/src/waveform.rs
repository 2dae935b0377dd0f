use vstd::prelude::*;

verus! {

/// Where sample `i` of a waveform resampled from `old_count` points to
/// `new_count` points is taken from: `floor(i * old_count / new_count)`, kept
/// below `old_count`.
pub open spec fn source_index(i: int, old_count: int, new_count: int) -> int {
    let q = i * old_count / new_count;
    if q < old_count - 1 { q } else { old_count - 1 }
}

/// The samples `old` stretched or squeezed to `new_count` points, each point
/// taking the old sample at the proportional position.
pub open spec fn resampled<T>(old: Seq<T>, new_count: nat) -> Seq<T> {
    Seq::new(new_count, |i: int| old[source_index(i, old.len() as int, new_count as int)])
}

/// A waveform given by sample points: amplitude values at evenly spaced times.
pub struct WaveformData<T> {
    /// Number of sample points.
    pub sample_count: usize,
    /// Amplitude values at each sample point.
    pub samples: Vec<T>,
}

impl<T: Copy> WaveformData<T> {
    /// The number of stored samples agrees with `sample_count`.
    pub open spec fn well_formed(&self) -> bool {
        self.samples@.len() == self.sample_count
    }

    /// A waveform of `sample_count` points, each holding `zero`.
    pub fn new(sample_count: usize, zero: T) -> (w: Self)
        ensures
            w.sample_count == sample_count,
            w.samples@ == Seq::new(sample_count as nat, |_i: int| zero),
            w.well_formed(),
    {
        let mut samples: Vec<T> = Vec::new();
        let mut i: usize = 0;
        while i < sample_count
            invariant
                i <= sample_count,
                samples@ == Seq::new(i as nat, |_i: int| zero),
            decreases sample_count - i,
        {
            samples.push(zero);
            i = i + 1;
        }
        WaveformData { sample_count, samples }
    }

    /// An independent copy with the same count and the same samples.
    pub fn duplicate(&self) -> (w: Self)
        ensures
            w.sample_count == self.sample_count,
            w.samples@ == self.samples@,
    {
        let mut samples: Vec<T> = Vec::new();
        let mut i: usize = 0;
        let n = self.samples.len();
        while i < n
            invariant
                i <= n,
                n == self.samples@.len(),
                samples@ == self.samples@.subrange(0, i as int),
            decreases n - i,
        {
            samples.push(self.samples[i]);
            i = i + 1;
        }
        WaveformData { sample_count: self.sample_count, samples }
    }

    /// This waveform's shape carried over to `new_count` points: point `i` takes
    /// the sample at the proportional position `floor(i * sample_count / new_count)`.
    pub fn resampled_to(&self, new_count: usize) -> (w: Self)
        requires
            self.well_formed(),
            self.sample_count >= 1,
        ensures
            w.sample_count == new_count,
            w.samples@ == resampled(self.samples@, new_count as nat),
            w.well_formed(),
    {
        let mut samples: Vec<T> = Vec::new();
        let old_count = self.sample_count;
        let mut i: usize = 0;
        while i < new_count
            invariant
                i <= new_count,
                old_count == self.sample_count,
                self.well_formed(),
                old_count >= 1,
                samples@ == resampled(self.samples@, new_count as nat).subrange(0, i as int),
            decreases new_count - i,
        {
            let j = source_position(i, old_count, new_count);
            samples.push(self.samples[j]);
            i = i + 1;
        }
        WaveformData { sample_count: new_count, samples }
    }
}

/// The proportional source position of point `i`: `floor(i * old_count / new_count)`,
/// at most `old_count - 1`.
pub fn source_position(i: usize, old_count: usize, new_count: usize) -> (j: usize)
    requires
        old_count >= 1,
        new_count >= 1,
    ensures
        j == source_index(i as int, old_count as int, new_count as int),
        j < old_count,
{
    let a: u128 = i as u128;
    let b: u128 = old_count as u128;
    assert(a * b <= u128::MAX) by (nonlinear_arith)
        requires
            a < 0x1_0000_0000_0000_0000,
            b < 0x1_0000_0000_0000_0000,
    ;
    let q: u128 = a * b / (new_count as u128);
    if q < (old_count - 1) as u128 {
        q as usize
    } else {
        old_count - 1
    }
}

/// Point `i` of `n` resampled from `m` old points reads old sample
/// `floor(i * m / n)`: the source position `s` satisfies
/// `n * s <= i * m < n * (s + 1)`, and it is one of the old positions.
pub proof fn lemma_source_index_is_proportional_floor(i: int, m: int, n: int)
    requires
        0 <= i < n,
        m >= 1,
    ensures
        n * source_index(i, m, n) <= i * m,
        i * m < n * (source_index(i, m, n) + 1),
        0 <= source_index(i, m, n) < m,
{
    let q = i * m / n;
    assert(n * q <= i * m && i * m < n * (q + 1)) by (nonlinear_arith)
        requires
            n > 0,
            q == i * m / n,
    ;
    assert(0 <= q < m) by (nonlinear_arith)
        requires
            n > 0,
            0 <= i < n,
            m >= 1,
            n * q <= i * m,
            i * m < n * (q + 1),
    ;
}

/// Resampling to the count one already has gives back the same samples.
pub proof fn lemma_resample_same_count<T>(s: Seq<T>)
    requires
        s.len() >= 1,
    ensures
        resampled(s, s.len()) == s,
{
    let n = s.len() as int;
    assert forall|i: int| 0 <= i < n implies source_index(i, n, n) == i by {
        assert(i * n / n == i) by (nonlinear_arith)
            requires
                n > 0,
        ;
    }
    assert(resampled(s, s.len()) =~= s);
}

/// Every point of a resampled waveform is one of the old samples, and the
/// positions it is read from never decrease along the waveform.
pub proof fn lemma_resample_reads_old_samples<T>(s: Seq<T>, new_count: nat, i: int, k: int)
    requires
        s.len() >= 1,
        new_count >= 1,
        0 <= i <= k < new_count,
    ensures
        0 <= source_index(i, s.len() as int, new_count as int) < s.len(),
        resampled(s, new_count)[i] == s[source_index(i, s.len() as int, new_count as int)],
        source_index(i, s.len() as int, new_count as int)
            <= source_index(k, s.len() as int, new_count as int),
{
    let m = s.len() as int;
    let n = new_count as int;
    assert(0 <= i * m / n) by (nonlinear_arith)
        requires
            0 <= i,
            m >= 1,
            n >= 1,
    ;
    assert(i * m / n <= k * m / n) by (nonlinear_arith)
        requires
            0 <= i <= k,
            m >= 1,
            n >= 1,
    ;
}

} // verus!
