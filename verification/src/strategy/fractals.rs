use vstd::prelude::*;
use crate::scalar::Scalar;

verus! {

/// The detector was given fewer points than it needs to confirm one pivot.
#[derive(Copy, Clone, PartialEq, Eq, Structural, Debug)]
pub struct InsufficientDataError;

impl InsufficientDataError {
    /// A short description of the error.
    pub fn message(&self) -> (r: &'static str)
        ensures
            r@ == "Insufficient price data"@,
    {
        "Insufficient price data"
    }
}

/// Whether a series of `len` points is too short for the given period.
pub open spec fn too_short(len: nat, period: nat) -> bool {
    len < period + 2
}

/// Whether index `i` lies in `[period, len - period)`, the part of a series of
/// `len` points that is evaluated. Outside it no pivot is ever reported.
pub open spec fn in_margin(len: nat, period: nat, i: int) -> bool {
    period <= i && i + period < len
}

/// Whether `series[i]` has two neighbours on each side.
pub open spec fn has_neighbours(len: nat, i: int) -> bool {
    2 <= i && i + 2 < len
}

/// A bearish (high-side) pivot: `highs[i]` strictly exceeds its two neighbours
/// on each side. An index that lacks one of the four neighbours is no pivot.
pub open spec fn high_pivot_at(highs: Seq<Scalar>, i: int) -> bool {
    &&& has_neighbours(highs.len(), i)
    &&& highs[i].spec_gt(highs[i - 2])
    &&& highs[i].spec_gt(highs[i - 1])
    &&& highs[i].spec_gt(highs[i + 1])
    &&& highs[i].spec_gt(highs[i + 2])
}

/// A bullish (low-side) pivot: `lows[i]` is strictly below its two neighbours
/// on each side. An index that lacks one of the four neighbours is no pivot.
pub open spec fn low_pivot_at(lows: Seq<Scalar>, i: int) -> bool {
    &&& has_neighbours(lows.len(), i)
    &&& lows[i].spec_lt(lows[i - 2])
    &&& lows[i].spec_lt(lows[i - 1])
    &&& lows[i].spec_lt(lows[i + 1])
    &&& lows[i].spec_lt(lows[i + 2])
}

/// Whether the detector reports a high-side pivot at `i`.
pub open spec fn reports_high(highs: Seq<Scalar>, period: nat, i: int) -> bool {
    in_margin(highs.len(), period, i) && high_pivot_at(highs, i)
}

/// Whether the detector reports a low-side pivot at `i`. The index has to lie
/// in the evaluated part of both series.
pub open spec fn reports_low(highs: Seq<Scalar>, lows: Seq<Scalar>, period: nat, i: int) -> bool {
    in_margin(highs.len(), period, i) && in_margin(lows.len(), period, i) && low_pivot_at(lows, i)
}

/// The mask entry at `i`: a pivot of either side.
pub open spec fn pivot_at(highs: Seq<Scalar>, lows: Seq<Scalar>, period: nat, i: int) -> bool {
    reports_high(highs, period, i) || reports_low(highs, lows, period, i)
}

/// The pivot mask of two series: one entry for each high.
pub open spec fn pivot_mask(highs: Seq<Scalar>, lows: Seq<Scalar>, period: nat) -> Seq<bool> {
    Seq::new(highs.len(), |i: int| pivot_at(highs, lows, period, i))
}

/// What the detector returns: an error when either series is too short,
/// otherwise the pivot mask.
pub open spec fn detection(highs: Seq<Scalar>, lows: Seq<Scalar>, period: nat) -> Result<
    Seq<bool>,
    InsufficientDataError,
> {
    if too_short(highs.len(), period) || too_short(lows.len(), period) {
        Err(InsufficientDataError)
    } else {
        Ok(pivot_mask(highs, lows, period))
    }
}

/// The model of a detector result.
pub open spec fn outcome(r: Result<Vec<bool>, InsufficientDataError>) -> Result<
    Seq<bool>,
    InsufficientDataError,
> {
    match r {
        Ok(mask) => Ok(mask@),
        Err(e) => Err(e),
    }
}

/// Whether `highs[i]` is a high-side pivot; `false` where a neighbour is missing.
pub fn is_high_pivot(highs: &[Scalar], i: usize) -> (r: bool)
    ensures
        r == high_pivot_at(highs@, i as int),
{
    if i < 2 || highs.len() < 3 || i >= highs.len() - 2 {
        return false;
    }
    let n: Scalar = highs[i];
    n.gt(&highs[i - 2]) && n.gt(&highs[i - 1]) && n.gt(&highs[i + 1]) && n.gt(&highs[i + 2])
}

/// Whether `lows[i]` is a low-side pivot; `false` where a neighbour is missing.
pub fn is_low_pivot(lows: &[Scalar], i: usize) -> (r: bool)
    ensures
        r == low_pivot_at(lows@, i as int),
{
    if i < 2 || lows.len() < 3 || i >= lows.len() - 2 {
        return false;
    }
    let n: Scalar = lows[i];
    n.lt(&lows[i - 2]) && n.lt(&lows[i - 1]) && n.lt(&lows[i + 1]) && n.lt(&lows[i + 2])
}

/// Marks the fractal pivots of two aligned series.
///
/// Fails when either series has fewer than `period + 2` points. Otherwise the
/// mask has one entry for each high. The entry at `i` is `true` exactly when
/// `i` lies in `[period, len - period)` and `highs[i]` is a high-side pivot or
/// `lows[i]` is a low-side pivot. The highs are examined in a first pass, the
/// lows in a second one, and the two results are merged.
pub fn detect(highs: &[Scalar], lows: &[Scalar], period: usize) -> (r: Result<
    Vec<bool>,
    InsufficientDataError,
>)
    ensures
        outcome(r) == detection(highs@, lows@, period as nat),
        r is Err <==> highs@.len() < period + 2 || lows@.len() < period + 2,
        r matches Ok(mask) ==> {
            &&& mask@.len() == highs@.len()
            &&& forall|i: int|
                0 <= i < mask@.len() ==> mask@[i] == pivot_at(highs@, lows@, period as nat, i)
            &&& forall|i: int|
                0 <= i < mask@.len() && !(period <= i < highs@.len() - period) ==> !mask@[i]
        },
{
    let n: usize = highs.len();
    let m: usize = lows.len();
    if n < 2 || n - 2 < period || m < 2 || m - 2 < period {
        return Err(InsufficientDataError);
    }
    let mut mask: Vec<bool> = vec![false; n];
    let high_end: usize = n - period;
    let mut i: usize = period;
    while i < high_end
        invariant
            n == highs@.len(),
            high_end == n - period,
            period <= i,
            mask@.len() == n,
            forall|j: int| 0 <= j < n ==> mask@[j] == (j < i && reports_high(highs@, period as nat, j)),
        decreases high_end - i,
    {
        let found: bool = is_high_pivot(highs, i);
        mask.set(i, found);
        i += 1;
    }
    let low_end: usize = if m < n {
        m - period
    } else {
        high_end
    };
    let mut k: usize = period;
    while k < low_end
        invariant
            n == highs@.len(),
            m == lows@.len(),
            period + 2 <= n,
            period + 2 <= m,
            low_end == (if m < n { m - period } else { n - period }),
            period <= k,
            mask@.len() == n,
            forall|j: int|
                0 <= j < n ==> mask@[j] == (reports_high(highs@, period as nat, j) || (j < k
                    && reports_low(highs@, lows@, period as nat, j))),
        decreases low_end - k,
    {
        let found: bool = is_low_pivot(lows, k);
        let merged: bool = mask[k] || found;
        mask.set(k, merged);
        k += 1;
    }
    proof {
        assert(mask@ =~= pivot_mask(highs@, lows@, period as nat));
    }
    Ok(mask)
}

/// With a period of two or more, every index in the evaluated part of a
/// series has its four neighbours, so a pivot there is decided by the four
/// comparisons alone.
pub proof fn lemma_evaluated_index_has_neighbours(len: nat, period: nat, i: int)
    requires
        period >= 2,
        in_margin(len, period, i),
    ensures
        has_neighbours(len, i),
{
}

/// Whether each point of the run is strictly below the next one.
pub open spec fn strictly_increasing(run: Seq<Scalar>) -> bool {
    forall|j: int| 0 <= j && j + 1 < run.len() ==> (#[trigger] run[j]).spec_lt(run[j + 1])
}

/// A rising run holds no local maximum: when a strictly increasing run of more
/// than `2 * period + 1` highs is appended to a series, no index of the run is
/// reported as a high-side pivot, so the mask there shows low-side pivots only.
pub proof fn lemma_rising_run_has_no_high_pivot(
    prefix: Seq<Scalar>,
    run: Seq<Scalar>,
    lows: Seq<Scalar>,
    period: nat,
    i: int,
)
    requires
        strictly_increasing(run),
        run.len() > 2 * period + 1,
        prefix.len() <= i < prefix.len() + run.len(),
    ensures
        !high_pivot_at(prefix + run, i),
        !reports_high(prefix + run, period, i),
        pivot_mask(prefix + run, lows, period)[i] == reports_low(prefix + run, lows, period, i),
{
    let highs = prefix + run;
    let j = i - prefix.len();
    if i + 2 < highs.len() {
        assert(highs[i] == run[j]);
        assert(highs[i + 1] == run[j + 1]);
        assert(run[j].spec_lt(run[j + 1]));
    }
}

/// Detection is a function of its inputs: equal series and equal periods give
/// equal results, whenever and however often they are asked for.
pub proof fn lemma_detection_is_deterministic(
    highs1: Seq<Scalar>,
    lows1: Seq<Scalar>,
    period1: nat,
    highs2: Seq<Scalar>,
    lows2: Seq<Scalar>,
    period2: nat,
)
    requires
        highs1 =~= highs2,
        lows1 =~= lows2,
        period1 == period2,
    ensures
        detection(highs1, lows1, period1) == detection(highs2, lows2, period2),
{
}

/// The shape of a mask: detection succeeds exactly on series of at least
/// `period + 2` points, and then the mask is as long as the highs and `false`
/// at every index outside `[period, len - period)`.
pub proof fn lemma_detection_shape(highs: Seq<Scalar>, lows: Seq<Scalar>, period: nat)
    ensures
        detection(highs, lows, period) is Err <==> highs.len() < period + 2 || lows.len() < period
            + 2,
        detection(highs, lows, period) matches Ok(mask) ==> {
            &&& mask.len() == highs.len()
            &&& forall|i: int|
                0 <= i < mask.len() && !(period <= i < highs.len() - period) ==> !mask[i]
        },
{
}

/// Computes fractal pivots with a fixed period.
#[derive(Copy, Clone, Debug)]
pub struct FractalIndicator {
    period: usize,
}

impl FractalIndicator {
    /// The period that the indicator was made with.
    pub closed spec fn spec_period(&self) -> usize {
        self.period
    }

    /// An indicator with the given period.
    pub fn new(period: usize) -> (r: Self)
        ensures
            r.spec_period() == period,
    {
        FractalIndicator { period }
    }

    /// The period that the indicator was made with.
    pub fn period(&self) -> (r: usize)
        ensures
            r == self.spec_period(),
    {
        self.period
    }

    /// Marks the fractal pivots of two aligned series, as `detect` does with
    /// the indicator's period.
    pub fn calculate(&self, highs: &[Scalar], lows: &[Scalar]) -> (r: Result<
        Vec<bool>,
        InsufficientDataError,
    >)
        ensures
            outcome(r) == detection(highs@, lows@, self.spec_period() as nat),
            r is Err <==> highs@.len() < self.spec_period() + 2 || lows@.len() < self.spec_period()
                + 2,
            r matches Ok(mask) ==> {
                &&& mask@.len() == highs@.len()
                &&& forall|i: int|
                    0 <= i < mask@.len() ==> mask@[i] == pivot_at(
                        highs@,
                        lows@,
                        self.spec_period() as nat,
                        i,
                    )
                &&& forall|i: int|
                    0 <= i < mask@.len() && !(self.spec_period() <= i < highs@.len()
                        - self.spec_period()) ==> !mask@[i]
            },
    {
        detect(highs, lows, self.period)
    }
}

} // verus!
