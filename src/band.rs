use vstd::prelude::*;
use vstd::arithmetic::div_mod::lemma_div_is_ordered;
use vstd::arithmetic::div_mod::lemma_div_multiples_vanish;
use vstd::arithmetic::mul::lemma_mul_inequality;

verus! {

/// A half-open range `start..end` of image columns handed to one worker.
#[derive(Clone, Copy, Debug, PartialEq, Eq, Structural)]
pub struct Band {
    pub start: usize,
    pub end: usize,
}

/// First column of band `t` when `width` columns are split among `workers` bands.
pub open spec fn band_start(width: nat, workers: nat, t: nat) -> nat {
    (t * width) / workers
}

/// Whether `column` lies in band `t`.
pub open spec fn in_band(width: nat, workers: nat, t: nat, column: nat) -> bool {
    band_start(width, workers, t) <= column < band_start(width, workers, t + 1)
}

/// Whether some band among the `workers` bands holds `column`.
pub open spec fn covered(width: nat, workers: nat, column: nat) -> bool {
    exists|t: nat| t < workers && #[trigger] in_band(width, workers, t, column)
}

/// Band `t` of `workers` bands over `width` columns.  Consecutive bands meet
/// exactly, so the bands split the columns into disjoint ranges, and their
/// widths differ by at most one column.
pub fn band_of(width: usize, workers: usize, t: usize) -> (b: Band)
    requires
        0 < workers,
        t < workers,
        width * workers <= usize::MAX,
    ensures
        b.start == band_start(width as nat, workers as nat, t as nat),
        b.end == band_start(width as nat, workers as nat, t as nat + 1),
        b.start <= b.end <= width,
{
    proof {
        lemma_band_start_monotone(width as nat, workers as nat, t as nat, t as nat + 1);
        lemma_band_start_monotone(width as nat, workers as nat, t as nat + 1, workers as nat);
        lemma_band_start_last(width as nat, workers as nat);
        lemma_mul_inequality(t as int, workers as int, width as int);
        lemma_mul_inequality(t as int + 1, workers as int, width as int);
        assert(workers * width == width * workers) by (nonlinear_arith);
    }
    let start = t * width / workers;
    let end = (t + 1) * width / workers;
    Band { start, end }
}

pub proof fn lemma_band_start_monotone(width: nat, workers: nat, t1: nat, t2: nat)
    requires
        0 < workers,
        t1 <= t2,
    ensures
        band_start(width, workers, t1) <= band_start(width, workers, t2),
{
    lemma_mul_inequality(t1 as int, t2 as int, width as int);
    lemma_div_is_ordered((t1 * width) as int, (t2 * width) as int, workers as int);
}

pub proof fn lemma_band_start_last(width: nat, workers: nat)
    requires
        0 < workers,
    ensures
        band_start(width, workers, 0) == 0,
        band_start(width, workers, workers) == width,
{
    assert(workers * width == width * workers) by (nonlinear_arith);
    lemma_div_multiples_vanish(width as int, workers as int);
}

/// The bands partition the columns: every column `0 <= c < width` lies in
/// exactly one band, and no band reaches past the last column.  Workers that
/// write only inside their own band therefore never touch the same pixel.
pub proof fn lemma_bands_partition(width: nat, workers: nat)
    requires
        0 < workers,
    ensures
        forall|c: nat| c < width ==> #[trigger] covered(width, workers, c),
        forall|c: nat, t1: nat, t2: nat|
            in_band(width, workers, t1, c) && in_band(width, workers, t2, c) ==> t1 == t2,
        forall|t: nat| t <= workers ==> #[trigger] band_start(width, workers, t) <= width,
{
    lemma_band_start_last(width, workers);
    assert forall|c: nat, t1: nat, t2: nat|
        in_band(width, workers, t1, c) && in_band(width, workers, t2, c) implies t1 == t2 by {
        if t1 < t2 {
            lemma_band_start_monotone(width, workers, t1 + 1, t2);
        } else if t2 < t1 {
            lemma_band_start_monotone(width, workers, t2 + 1, t1);
        }
    }
    assert forall|t: nat| t <= workers implies #[trigger] band_start(width, workers, t) <= width by {
        lemma_band_start_monotone(width, workers, t, workers);
    }
    assert forall|c: nat| c < width implies #[trigger] covered(width, workers, c) by {
        lemma_column_has_band(width, workers, c, workers);
    }
}

/// Some band below `limit` holds column `c`, when `c` lies below the start of band `limit`.
proof fn lemma_column_has_band(width: nat, workers: nat, c: nat, limit: nat)
    requires
        0 < workers,
        c < band_start(width, workers, limit),
    ensures
        exists|t: nat| t < limit && #[trigger] in_band(width, workers, t, c),
    decreases limit,
{
    lemma_band_start_last(width, workers);
    if limit == 0 {
    } else if band_start(width, workers, (limit - 1) as nat) <= c {
        assert(in_band(width, workers, (limit - 1) as nat, c));
    } else {
        lemma_column_has_band(width, workers, c, (limit - 1) as nat);
    }
}

} // verus!
