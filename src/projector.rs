use vstd::prelude::*;
use vstd::arithmetic::div_mod::lemma_fundamental_div_mod_converse;
use crate::snapshot::{BatterySnapshot, SnapshotStatus};

verus! {

/// Width of the x range that the points of a projection span: from 0 to 4.
pub const X_SPAN: u128 = 4;

/// Which charging state dominates a sampled window.
#[derive(Clone, Copy, Debug, PartialEq, Eq, Structural)]
pub enum DominantState {
    Discharging,
    Charging,
    Full,
    Unclassified,
}

/// Distance between kept elements when `n` elements are fitted into `width` columns.
pub open spec fn stride_of(n: int, width: int) -> int {
    if n > width && width > 0 {
        n / width
    } else {
        1
    }
}

/// How many elements decimation by `stride` keeps out of `n`.
pub open spec fn sample_count(n: int, stride: int) -> int {
    if n <= 0 {
        0
    } else {
        (n - 1) / stride + 1
    }
}

/// Every `stride`-th element of `s`, starting at the first.
pub open spec fn decimated(s: Seq<BatterySnapshot>, stride: int) -> Seq<BatterySnapshot> {
    Seq::new(sample_count(s.len() as int, stride) as nat, |i: int| s[i * stride])
}

/// How many snapshots of `s` have status `st`.
pub open spec fn status_count(s: Seq<BatterySnapshot>, st: SnapshotStatus) -> nat
    decreases s.len(),
{
    if s.len() == 0 {
        0
    } else {
        status_count(s.drop_last(), st) + if s.last().status == st {
            1nat
        } else {
            0nat
        }
    }
}

/// The state with the strictly highest count wins; ties go to discharging, then charging,
/// then full; with no such sample at all the window is unclassified.
pub open spec fn dominant_of(discharging: nat, charging: nat, full: nat) -> DominantState {
    if discharging > 0 && discharging >= charging && discharging >= full {
        DominantState::Discharging
    } else if charging > 0 && charging >= full {
        DominantState::Charging
    } else if full > 0 {
        DominantState::Full
    } else {
        DominantState::Unclassified
    }
}

pub open spec fn dominant_of_samples(s: Seq<BatterySnapshot>) -> DominantState {
    dominant_of(
        status_count(s, SnapshotStatus::Discharging),
        status_count(s, SnapshotStatus::Charging),
        status_count(s, SnapshotStatus::Full),
    )
}

/// The stride used to fit `n` elements into `width` columns.
pub fn sample_stride(n: usize, width: usize) -> (r: usize)
    ensures
        r as int == stride_of(n as int, width as int),
        r >= 1,
{
    if n > width && width > 0 {
        proof {
            vstd::arithmetic::div_mod::lemma_div_is_ordered(width as int, n as int, width as int);
            vstd::arithmetic::div_mod::lemma_div_by_self(width as int);
        }
        n / width
    } else {
        1
    }
}

/// Keeps every `stride`-th snapshot, starting with the first; skipped ones are dropped.
pub fn decimate(logs: &Vec<BatterySnapshot>, stride: usize) -> (r: Vec<BatterySnapshot>)
    requires
        stride >= 1,
    ensures
        r@ == decimated(logs@, stride as int),
{
    let n = logs.len();
    let mut r: Vec<BatterySnapshot> = Vec::new();
    if n == 0 {
        assert(r@ =~= decimated(logs@, stride as int));
        return r;
    }
    let mut i: usize = 0;
    assert(r@.len() * stride == 0) by (nonlinear_arith)
        requires
            r@.len() == 0,
    ;
    loop
        invariant
            n == logs@.len(),
            n > 0,
            stride >= 1,
            i < n,
            i == r@.len() * stride,
            forall|k: int| 0 <= k < r@.len() ==> #[trigger] r@[k] == logs@[k * stride],
        decreases n - i,
    {
        r.push(logs[i]);
        proof {
            assert(r@[r@.len() - 1] == logs@[(r@.len() - 1) * stride]);
        }
        if n - i <= stride {
            proof {
                let k = r@.len() as int;
                lemma_fundamental_div_mod_converse(
                    n - 1,
                    stride as int,
                    k - 1,
                    n - 1 - (k - 1) * stride,
                );
                assert(sample_count(n as int, stride as int) == k);
                assert(r@ =~= decimated(logs@, stride as int));
            }
            return r;
        }
        i = i + stride;
        proof {
            assert((r@.len() as int) * stride == (r@.len() - 1) * stride + stride) by (nonlinear_arith);
        }
    }
}

/// Counts the discharging, charging and full snapshots of `samples`.
pub fn status_counts(samples: &Vec<BatterySnapshot>) -> (r: (usize, usize, usize))
    ensures
        r.0 == status_count(samples@, SnapshotStatus::Discharging),
        r.1 == status_count(samples@, SnapshotStatus::Charging),
        r.2 == status_count(samples@, SnapshotStatus::Full),
{
    let mut d: usize = 0;
    let mut c: usize = 0;
    let mut f: usize = 0;
    let mut i: usize = 0;
    while i < samples.len()
        invariant
            0 <= i <= samples@.len(),
            d <= i,
            c <= i,
            f <= i,
            d == status_count(samples@.subrange(0, i as int), SnapshotStatus::Discharging),
            c == status_count(samples@.subrange(0, i as int), SnapshotStatus::Charging),
            f == status_count(samples@.subrange(0, i as int), SnapshotStatus::Full),
        decreases samples@.len() - i,
    {
        proof {
            assert(samples@.subrange(0, i + 1).drop_last() =~= samples@.subrange(0, i as int));
        }
        match samples[i].status {
            SnapshotStatus::Discharging => d = d + 1,
            SnapshotStatus::Charging => c = c + 1,
            SnapshotStatus::Full => f = f + 1,
            _ => {},
        }
        i = i + 1;
    }
    proof {
        assert(samples@.subrange(0, i as int) =~= samples@);
    }
    (d, c, f)
}

/// The dominant state for the given counts of discharging, charging and full samples.
pub fn dominant_state(discharging: usize, charging: usize, full: usize) -> (r: DominantState)
    ensures
        r == dominant_of(discharging as nat, charging as nat, full as nat),
{
    if discharging > 0 && discharging >= charging && discharging >= full {
        DominantState::Discharging
    } else if charging > 0 && charging >= full {
        DominantState::Charging
    } else if full > 0 {
        DominantState::Full
    } else {
        DominantState::Unclassified
    }
}

/// A time series fitted to a plot: the kept snapshots, oldest first, where the
/// `i`-th one stands at x = `x_numerators[i] / x_denominator`, within 0 to 4.
#[derive(Debug)]
pub struct Projection {
    pub samples: Vec<BatterySnapshot>,
    pub x_numerators: Vec<u128>,
    pub x_denominator: u128,
    pub dominant: DominantState,
}

/// Numerator of the x position of the `i`-th point.
pub open spec fn x_numerator_of(i: int) -> int {
    X_SPAN * i
}

/// Denominator of the x positions of `m` points: `max(1, m - 1)`.
pub open spec fn x_denominator_of(m: int) -> int {
    if m > 1 {
        m - 1
    } else {
        1
    }
}

/// Fits `logs`, ordered oldest first, into `width` plot columns. `None` means no data.
pub fn project(logs: &Vec<BatterySnapshot>, width: usize) -> (r: Option<Projection>)
    ensures
        r is None <==> logs@.len() == 0,
        r matches Some(p) ==> {
            let m = p.samples@.len();
            &&& p.samples@ == decimated(logs@, stride_of(logs@.len() as int, width as int))
            &&& p.x_denominator == x_denominator_of(m as int)
            &&& p.x_numerators@.len() == m
            &&& forall|i: int| 0 <= i < m ==> #[trigger] p.x_numerators@[i] == x_numerator_of(i)
            &&& p.dominant == dominant_of_samples(p.samples@)
        },
{
    if logs.len() == 0 {
        return None;
    }
    let stride = sample_stride(logs.len(), width);
    let samples = decimate(logs, stride);
    let m = samples.len();
    let mut xs: Vec<u128> = Vec::new();
    let mut i: usize = 0;
    while i < m
        invariant
            m == samples@.len(),
            0 <= i <= m,
            xs@.len() == i,
            forall|k: int| 0 <= k < i ==> #[trigger] xs@[k] == X_SPAN * k,
        decreases m - i,
    {
        xs.push(X_SPAN * (i as u128));
        i = i + 1;
    }
    let denominator: u128 = if m > 1 {
        (m - 1) as u128
    } else {
        1
    };
    let (d, c, f) = status_counts(&samples);
    Some(Projection { samples, x_numerators: xs, x_denominator: denominator, dominant: dominant_state(d, c, f) })
}

/// The points of a projection stand at strictly increasing x positions; the first at 0,
/// and, when there are two or more, the last at 4, so together they span 0 to 4.
pub proof fn lemma_x_positions_span(logs: Seq<BatterySnapshot>, width: int)
    ensures
        ({
            let m = decimated(logs, stride_of(logs.len() as int, width)).len() as int;
            &&& forall|i: int, j: int|
                0 <= i < j < m ==> #[trigger] x_numerator_of(i) < #[trigger] x_numerator_of(j)
            &&& x_numerator_of(0) == 0
            &&& m > 1 ==> x_numerator_of(m - 1) == X_SPAN * x_denominator_of(m)
        }),
{
}

/// Decimation never keeps more elements than it was given, and keeps at least one of a
/// non-empty input.
pub proof fn lemma_decimated_len(logs: Seq<BatterySnapshot>, width: int)
    ensures
        decimated(logs, stride_of(logs.len() as int, width)).len() <= logs.len(),
        logs.len() > 0 ==> decimated(logs, stride_of(logs.len() as int, width)).len() > 0,
{
    let n = logs.len() as int;
    let s = stride_of(n, width);
    if n > width && width > 0 {
        vstd::arithmetic::div_mod::lemma_div_is_ordered(width, n, width);
        vstd::arithmetic::div_mod::lemma_div_by_self(width);
    }
    if n > 0 {
        vstd::arithmetic::div_mod::lemma_div_is_ordered_by_denominator(n - 1, 1, s);
        vstd::arithmetic::div_mod::lemma_div_basics(n - 1);
    }
}

/// An input that already fits the width is not decimated: stride 1, every element kept.
pub proof fn lemma_fitting_input_kept(logs: Seq<BatterySnapshot>, width: int)
    requires
        logs.len() <= width,
    ensures
        stride_of(logs.len() as int, width) == 1,
        decimated(logs, stride_of(logs.len() as int, width)) == logs,
{
    let n = logs.len() as int;
    if n > 0 {
        vstd::arithmetic::div_mod::lemma_div_basics(n - 1);
    }
    assert(decimated(logs, 1) =~= logs);
}

/// Ties resolve by precedence: discharging before charging, charging before full.
pub proof fn lemma_tie_precedence(discharging: nat, charging: nat, full: nat)
    ensures
        discharging > 0 && discharging == charging && discharging >= full
            ==> dominant_of(discharging, charging, full) == DominantState::Discharging,
        discharging > 0 && discharging == full && discharging >= charging
            ==> dominant_of(discharging, charging, full) == DominantState::Discharging,
        charging > 0 && charging == full && charging > discharging
            ==> dominant_of(discharging, charging, full) == DominantState::Charging,
{
}

/// A state whose count is strictly the highest is the dominant one.
pub proof fn lemma_strict_majority_wins(discharging: nat, charging: nat, full: nat)
    ensures
        discharging > charging && discharging > full
            ==> dominant_of(discharging, charging, full) == DominantState::Discharging,
        charging > discharging && charging > full
            ==> dominant_of(discharging, charging, full) == DominantState::Charging,
        full > discharging && full > charging
            ==> dominant_of(discharging, charging, full) == DominantState::Full,
        discharging == 0 && charging == 0 && full == 0
            ==> dominant_of(discharging, charging, full) == DominantState::Unclassified,
{
}

} // verus!
