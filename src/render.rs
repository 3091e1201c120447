use vstd::prelude::*;
use crate::band::{Band, band_of, band_start, in_band, lemma_bands_partition, covered};
use crate::pixels::{dims_fit, slot_spec, lemma_slot_injective};
use vstd::arithmetic::div_mod::lemma_fundamental_div_mod;
use vstd::arithmetic::div_mod::lemma_mod_bound;

verus! {

/// Every how many completed passes the display buffer is rebuilt.
pub const REFRESH_EVERY: u64 = 10;

/// Whether the display buffer is rebuilt after `sample_count` completed passes.
pub open spec fn refresh_due(sample_count: nat) -> bool {
    sample_count == 1 || (sample_count > 0 && sample_count % (REFRESH_EVERY as nat) == 0)
}

/// Whether the display buffer is rebuilt after `sample_count` completed passes:
/// after the first pass, then after every tenth.
pub fn should_refresh(sample_count: u64) -> (r: bool)
    ensures
        r == refresh_due(sample_count as nat),
{
    sample_count == 1 || (sample_count > 0 && sample_count % REFRESH_EVERY == 0)
}

/// Conditions under which rendering reports failure rather than a value.
#[derive(Clone, Copy, Debug, PartialEq, Eq, Structural)]
pub enum RenderError {
    /// No pass has completed yet, so there is nothing to normalise.
    NotReady,
    /// A worker did not finish its band.
    RenderWorkerFailed,
}

/// Where the render driver stands between two ticks.
#[derive(Clone, Copy, Debug, PartialEq, Eq, Structural)]
pub enum Phase {
    /// No pass is running; the next tick dispatches one.
    Idle,
    /// Workers are running a pass.
    InFlight,
    /// Every worker has reported completion; the pass awaits joining.
    Collecting,
}

/// What the caller does after a tick.
#[derive(Clone, Copy, Debug, PartialEq, Eq, Structural)]
pub enum Step {
    /// Start one worker per band, each adding one sample per pixel of its band.
    Dispatch,
    /// Workers are still running: come back on the next tick.
    Wait,
    /// Join every worker, then report the outcome with `finish_pass`.
    Collect,
}

/// The state of a progressive render: image size, number of workers, passes
/// completed and the driver's phase.
pub struct RenderSession {
    width: usize,
    height: usize,
    workers: usize,
    samples: u64,
    phase: Phase,
}

/// Whether a session over `width` by `height` pixels and `workers` bands can exist.
pub open spec fn session_dims_ok(width: nat, height: nat, workers: nat) -> bool {
    &&& 0 < width
    &&& 0 < height
    &&& 0 < workers
    &&& width * workers <= usize::MAX
    &&& dims_fit(width, height)
}

/// Whether, in one pass, worker `t` adds its sample for column `i`, row `j`
/// into buffer slot `slot`.
pub open spec fn writes(width: nat, height: nat, workers: nat, t: nat, i: nat, j: nat, slot: nat) -> bool {
    &&& t < workers
    &&& in_band(width, workers, t, i)
    &&& j < height
    &&& slot_spec(width, height, i, j) == slot
}

/// Whether some worker writes into `slot` during a pass.
pub open spec fn slot_written(width: nat, height: nat, workers: nat, slot: nat) -> bool {
    exists|t: nat, i: nat, j: nat| #[trigger] writes(width, height, workers, t, i, j, slot)
}

/// In one pass every slot of the buffer receives exactly one sample, from
/// exactly one worker, and no worker writes outside the buffer.  Each slot's
/// sum therefore gains the same single term whatever order the workers
/// finish in.
pub proof fn lemma_pass_writes_each_slot_once(width: nat, height: nat, workers: nat)
    requires
        0 < width,
        0 < workers,
    ensures
        forall|slot: nat| slot < width * height ==> #[trigger] slot_written(width, height, workers, slot),
        forall|t1: nat, i1: nat, j1: nat, t2: nat, i2: nat, j2: nat, slot: nat|
            #[trigger] writes(width, height, workers, t1, i1, j1, slot)
                && #[trigger] writes(width, height, workers, t2, i2, j2, slot)
                ==> t1 == t2 && i1 == i2 && j1 == j2,
        forall|t: nat, i: nat, j: nat, slot: nat|
            #[trigger] writes(width, height, workers, t, i, j, slot) ==> slot < width * height,
{
    lemma_bands_partition(width, workers);
    assert forall|slot: nat| slot < width * height implies #[trigger] slot_written(width, height, workers, slot) by {
        let row = slot / width;
        let i = slot % width;
        lemma_fundamental_div_mod(slot as int, width as int);
        lemma_mod_bound(slot as int, width as int);
        assert(row < height) by (nonlinear_arith)
            requires
                slot == width * row + i,
                slot < width * height,
                0 <= i,
        ;
        let j = (height - 1 - row) as nat;
        assert(slot_spec(width, height, i as nat, j) == slot) by (nonlinear_arith)
            requires
                slot == width * row + i,
                j == height - 1 - row,
                row < height,
                slot_spec(width, height, i as nat, j) == ((height - 1 - j) as nat) * width + i,
        ;
        assert(covered(width, workers, i as nat));
        let t = choose|t: nat| t < workers && #[trigger] in_band(width, workers, t, i as nat);
        assert(writes(width, height, workers, t, i as nat, j, slot));
    }
    assert forall|t1: nat, i1: nat, j1: nat, t2: nat, i2: nat, j2: nat, slot: nat|
        #[trigger] writes(width, height, workers, t1, i1, j1, slot)
            && #[trigger] writes(width, height, workers, t2, i2, j2, slot)
            implies t1 == t2 && i1 == i2 && j1 == j2 by {
        assert(i1 < width && i2 < width);
        lemma_slot_injective(width, height, i1, j1, i2, j2);
    }
    assert forall|t: nat, i: nat, j: nat, slot: nat|
        #[trigger] writes(width, height, workers, t, i, j, slot) implies slot < width * height by {
        let row = (height - 1 - j) as nat;
        assert(row * width + i < width * height) by (nonlinear_arith)
            requires
                row < height,
                i < width,
        ;
    }
}

/// Whether every one of `finished` is true.
pub open spec fn all_true(finished: Seq<bool>) -> bool {
    forall|k: int| 0 <= k < finished.len() ==> finished[k]
}

/// Whether every worker of a pass has finished, given each worker's status.
pub fn all_finished(finished: &Vec<bool>) -> (r: bool)
    ensures
        r == all_true(finished@),
{
    let mut k: usize = 0;
    while k < finished.len()
        invariant
            k <= finished@.len(),
            forall|m: int| 0 <= m < k ==> finished@[m],
        decreases finished@.len() - k,
    {
        if !finished[k] {
            return false;
        }
        k = k + 1;
    }
    true
}

impl RenderSession {
    pub closed spec fn width_spec(&self) -> nat {
        self.width as nat
    }

    pub closed spec fn height_spec(&self) -> nat {
        self.height as nat
    }

    pub closed spec fn workers_spec(&self) -> nat {
        self.workers as nat
    }

    pub closed spec fn samples_spec(&self) -> nat {
        self.samples as nat
    }

    pub closed spec fn phase_spec(&self) -> Phase {
        self.phase
    }

    pub open spec fn wf(&self) -> bool {
        &&& session_dims_ok(self.width_spec(), self.height_spec(), self.workers_spec())
        &&& self.samples_spec() <= u64::MAX
    }

    /// A session with no pass run yet, idle.
    pub fn new(width: usize, height: usize, workers: usize) -> (s: Self)
        requires
            session_dims_ok(width as nat, height as nat, workers as nat),
        ensures
            s.wf(),
            s.width_spec() == width,
            s.height_spec() == height,
            s.workers_spec() == workers,
            s.samples_spec() == 0,
            s.phase_spec() == Phase::Idle,
    {
        RenderSession { width, height, workers, samples: 0, phase: Phase::Idle }
    }

    pub fn width(&self) -> (r: usize)
        ensures
            r == self.width_spec(),
    {
        self.width
    }

    pub fn height(&self) -> (r: usize)
        ensures
            r == self.height_spec(),
    {
        self.height
    }

    pub fn workers(&self) -> (r: usize)
        ensures
            r == self.workers_spec(),
    {
        self.workers
    }

    /// Number of passes completed so far.
    pub fn sample_count(&self) -> (r: u64)
        ensures
            r == self.samples_spec(),
    {
        self.samples
    }

    pub fn phase(&self) -> (r: Phase)
        ensures
            r == self.phase_spec(),
    {
        self.phase
    }

    /// The band of columns that worker `t` owns.
    pub fn band(&self, t: usize) -> (b: Band)
        requires
            self.wf(),
            t < self.workers_spec(),
        ensures
            b.start == band_start(self.width_spec(), self.workers_spec(), t as nat),
            b.end == band_start(self.width_spec(), self.workers_spec(), t as nat + 1),
            b.start <= b.end <= self.width_spec(),
    {
        band_of(self.width, self.workers, t)
    }

    /// Advances the driver by at most one transition.  An idle session
    /// dispatches a pass; a pass in flight moves to collecting once every
    /// worker has finished, and waits otherwise.  A collecting session waits
    /// for `finish_pass`.  Image size, workers and the sample count stay.
    pub fn tick(&mut self, workers_finished: bool) -> (s: Step)
        ensures
            final(self).width_spec() == old(self).width_spec(),
            final(self).height_spec() == old(self).height_spec(),
            final(self).workers_spec() == old(self).workers_spec(),
            final(self).samples_spec() == old(self).samples_spec(),
            old(self).phase_spec() == Phase::Idle ==> s == Step::Dispatch && final(self).phase_spec()
                == Phase::InFlight,
            old(self).phase_spec() == Phase::InFlight && workers_finished ==> s == Step::Collect
                && final(self).phase_spec() == Phase::Collecting,
            old(self).phase_spec() == Phase::InFlight && !workers_finished ==> s == Step::Wait
                && final(self).phase_spec() == Phase::InFlight,
            old(self).phase_spec() == Phase::Collecting ==> s == Step::Wait && final(self).phase_spec()
                == Phase::Collecting,
    {
        match self.phase {
            Phase::Idle => {
                self.phase = Phase::InFlight;
                Step::Dispatch
            },
            Phase::InFlight => {
                if workers_finished {
                    self.phase = Phase::Collecting;
                    Step::Collect
                } else {
                    Step::Wait
                }
            },
            Phase::Collecting => Step::Wait,
        }
    }

    /// Ends a collected pass and returns the session to idle.  When every
    /// worker succeeded the sample count grows by one and the result tells
    /// whether the display buffer is due for a rebuild; when one failed the
    /// pass is discarded and `RenderWorkerFailed` comes back.
    pub fn finish_pass(&mut self, worker_failed: bool) -> (r: Result<bool, RenderError>)
        requires
            old(self).phase_spec() == Phase::Collecting,
            old(self).samples_spec() < u64::MAX,
        ensures
            final(self).width_spec() == old(self).width_spec(),
            final(self).height_spec() == old(self).height_spec(),
            final(self).workers_spec() == old(self).workers_spec(),
            final(self).phase_spec() == Phase::Idle,
            worker_failed ==> r == Err::<bool, RenderError>(RenderError::RenderWorkerFailed)
                && final(self).samples_spec() == old(self).samples_spec(),
            !worker_failed ==> final(self).samples_spec() == old(self).samples_spec() + 1 && r
                == Ok::<bool, RenderError>(refresh_due(final(self).samples_spec())),
    {
        self.phase = Phase::Idle;
        if worker_failed {
            Err(RenderError::RenderWorkerFailed)
        } else {
            self.samples = self.samples + 1;
            Ok(should_refresh(self.samples))
        }
    }

    /// The number of samples each pixel's sum holds, by which the display
    /// divides; `NotReady` before the first pass has completed.
    pub fn display_divisor(&self) -> (r: Result<u64, RenderError>)
        ensures
            self.samples_spec() == 0 ==> r == Err::<u64, RenderError>(RenderError::NotReady),
            self.samples_spec() > 0 ==> r == Ok::<u64, RenderError>(self.samples_spec() as u64),
    {
        if self.samples == 0 {
            Err(RenderError::NotReady)
        } else {
            Ok(self.samples)
        }
    }
}

} // verus!
