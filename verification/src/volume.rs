use vstd::prelude::*;

use crate::levels::{VolumeLevels, CHANNELS_MAX, VOLUME_MAX};

verus! {

/// How a multi-channel volume is folded into the single level a slider
/// shows, and how a slider position is spread back over the channels.
/// Streams use the loudest channel; the hardware master uses the average,
/// so that the relative balance of the channels survives dragging one
/// slider.
#[derive(Clone, Copy, Debug, PartialEq, Eq, Structural)]
pub enum Strategy {
    /// The loudest channel stands for the whole volume.
    Peak,
    /// The mean of the channels stands for the whole volume.
    Average,
}

/// Largest element of a level sequence, 0 for the empty one.
pub open spec fn seq_max(s: Seq<u32>) -> int
    decreases s.len(),
{
    if s.len() == 0 {
        0
    } else {
        let rest = seq_max(s.drop_last());
        if s.last() as int > rest {
            s.last() as int
        } else {
            rest
        }
    }
}

/// Sum of a level sequence.
pub open spec fn seq_sum(s: Seq<u32>) -> int
    decreases s.len(),
{
    if s.len() == 0 {
        0
    } else {
        seq_sum(s.drop_last()) + s.last()
    }
}

/// Whether every channel is at silence.
pub open spec fn all_muted(s: Seq<u32>) -> bool {
    forall|i: int| 0 <= i < s.len() ==> s[i] == 0
}

/// One channel level rescaled by the ratio `p / base`, clamped to the
/// native scale.
pub open spec fn scale_level(x: u32, p: u32, base: int) -> u32 {
    let scaled = (x as int * p as int) / base;
    if scaled > VOLUME_MAX as int {
        VOLUME_MAX
    } else {
        scaled as u32
    }
}

/// The channel levels after a `set_percent(p)` call on a volume whose
/// folded level was `base`: proportional rescaling while some channel is
/// live, an absolute flat write when resuming from full silence.
pub open spec fn set_percent_spec(levels: Seq<u32>, p: u32, base: int) -> Seq<u32> {
    Seq::new(
        levels.len(),
        |i: int|
            if base > 0 {
                scale_level(levels[i], p, base)
            } else {
                p
            },
    )
}

/// A multi-channel volume together with the strategy that folds it into a
/// single slider level.
pub struct Volume {
    /// The per-channel raw levels.
    pub levels: VolumeLevels,
    /// How the channels fold into one slider level.
    pub strategy: Strategy,
}

proof fn lemma_seq_sum_bound(s: Seq<u32>, bound: int)
    requires
        forall|i: int| 0 <= i < s.len() ==> s[i] <= bound,
    ensures
        0 <= seq_sum(s),
        seq_sum(s) <= (s.len() as int) * bound,
    decreases s.len(),
{
    if s.len() > 0 {
        assert(forall|i: int| 0 <= i < s.len() - 1 ==> s.drop_last()[i] == s[i]);
        lemma_seq_sum_bound(s.drop_last(), bound);
        assert(s.last() <= bound);
        let n = s.len() as int;
        assert(seq_sum(s) == seq_sum(s.drop_last()) + s.last());
        assert(seq_sum(s.drop_last()) <= (n - 1) * bound);
        assert((n - 1) * bound + bound == n * bound) by (nonlinear_arith);
        assert(seq_sum(s) <= n * bound);
    } else {
        assert((s.len() as int) * bound == 0) by (nonlinear_arith)
            requires
                s.len() as int == 0,
        ;
    }
}

proof fn lemma_seq_max_bound(s: Seq<u32>, bound: int)
    requires
        bound >= 0,
        forall|i: int| 0 <= i < s.len() ==> s[i] <= bound,
    ensures
        0 <= seq_max(s) <= bound,
    decreases s.len(),
{
    if s.len() > 0 {
        assert(forall|i: int| 0 <= i < s.len() - 1 ==> s.drop_last()[i] == s[i]);
        lemma_seq_max_bound(s.drop_last(), bound);
        assert(s.last() <= bound);
    }
}

proof fn lemma_seq_max_zero_all_muted(s: Seq<u32>)
    requires
        seq_max(s) == 0,
    ensures
        all_muted(s),
    decreases s.len(),
{
    if s.len() > 0 {
        lemma_seq_max_zero_all_muted(s.drop_last());
        assert(forall|i: int|
            0 <= i < s.len() ==> s[i] == if i < s.len() - 1 {
                s.drop_last()[i]
            } else {
                s.last()
            });
    }
}

impl Volume {
    /// Validity: the levels are a valid channel vector.
    pub open spec fn wf(&self) -> bool {
        self.levels.wf()
    }

    /// The strategy this volume folds with.
    pub open spec fn spec_strategy(&self) -> Strategy {
        self.strategy
    }

    /// The folded single level of this volume: the loudest channel under
    /// [`Strategy::Peak`], the mean channel under [`Strategy::Average`].
    pub open spec fn spec_percent(&self) -> int {
        match self.spec_strategy() {
            Strategy::Peak => seq_max(self.levels@),
            Strategy::Average => if self.levels@.len() > 0 {
                seq_sum(self.levels@) / self.levels@.len() as int
            } else {
                0
            },
        }
    }

    /// Pair channel levels with a folding strategy.
    pub fn new(levels: VolumeLevels, strategy: Strategy) -> (r: Volume)
        ensures
            r.levels@ == levels@,
            r.spec_strategy() == strategy,
    {
        Volume { levels, strategy }
    }

    /// An independent copy.
    pub fn clone(&self) -> (r: Volume)
        ensures
            r.levels@ == self.levels@,
            r.spec_strategy() == self.spec_strategy(),
    {
        Volume { levels: self.levels.clone(), strategy: self.strategy }
    }

    /// The folded single level, on the raw scale ([`crate::levels::VOLUME_NORM`]
    /// is 100%).
    pub fn percent(&self) -> (r: u32)
        requires
            self.wf(),
        ensures
            r as int == self.spec_percent(),
            r <= VOLUME_MAX,
    {
        let n = self.levels.len();
        match self.strategy {
            Strategy::Peak => {
                let mut m: u32 = 0;
                let mut i: usize = 0;
                while i < n
                    invariant
                        self.wf(),
                        n == self.levels@.len(),
                        i <= n,
                        m as int == seq_max(self.levels@.take(i as int)),
                        m <= VOLUME_MAX,
                    decreases n - i,
                {
                    let x = self.levels.get(i);
                    proof {
                        assert(self.levels@.take(i + 1).drop_last() =~= self.levels@.take(
                            i as int,
                        ));
                    }
                    if x > m {
                        m = x;
                    }
                    i += 1;
                }
                proof {
                    assert(self.levels@.take(n as int) =~= self.levels@);
                }
                m
            },
            Strategy::Average => {
                let mut sum: u64 = 0;
                let mut i: usize = 0;
                while i < n
                    invariant
                        self.wf(),
                        n == self.levels@.len(),
                        i <= n,
                        sum as int == seq_sum(self.levels@.take(i as int)),
                        sum <= i as int * VOLUME_MAX as int,
                    decreases n - i,
                {
                    let x = self.levels.get(i);
                    proof {
                        assert(self.levels@.take(i + 1).drop_last() =~= self.levels@.take(
                            i as int,
                        ));
                        assert((i + 1) as int * VOLUME_MAX as int == i as int * VOLUME_MAX as int
                            + VOLUME_MAX as int) by (nonlinear_arith);
                        assert(i as int * VOLUME_MAX as int <= CHANNELS_MAX as int
                            * VOLUME_MAX as int) by (nonlinear_arith)
                            requires
                                0 <= i as int <= CHANNELS_MAX as int,
                        ;
                    }
                    sum = sum + x as u64;
                    i += 1;
                }
                proof {
                    assert(self.levels@.take(n as int) =~= self.levels@);
                    lemma_seq_sum_bound(self.levels@, VOLUME_MAX as int);
                    assert(seq_sum(self.levels@) / n as int <= VOLUME_MAX as int)
                        by (nonlinear_arith)
                        requires
                            n as int >= 1,
                            0 <= seq_sum(self.levels@) <= n as int * VOLUME_MAX as int,
                    ;
                }
                (sum / n as u64) as u32
            },
        }
    }

    /// Write a folded level back: rescale every channel by `p` against the
    /// current folded level, or set `p` flat on every channel when all of
    /// them are silent.  The channel count never changes.
    pub fn set_percent(&mut self, p: u32)
        requires
            old(self).wf(),
            p <= VOLUME_MAX,
        ensures
            final(self).wf(),
            final(self).spec_strategy() == old(self).spec_strategy(),
            final(self).levels@.len() == old(self).levels@.len(),
            final(self).levels@ == set_percent_spec(
                old(self).levels@,
                p,
                old(self).spec_percent(),
            ),
    {
        let base = self.percent();
        let n = self.levels.len();
        let ghost target = set_percent_spec(self.levels@, p, self.spec_percent());
        let mut i: usize = 0;
        while i < n
            invariant
                n == self.levels@.len(),
                n == old(self).levels@.len(),
                i <= n,
                self.strategy == old(self).strategy,
                base as int == old(self).spec_percent(),
                base <= VOLUME_MAX,
                p <= VOLUME_MAX,
                target == set_percent_spec(old(self).levels@, p, old(self).spec_percent()),
                forall|j: int| 0 <= j < i ==> self.levels@[j] == target[j],
                forall|j: int| i <= j < n ==> self.levels@[j] == old(self).levels@[j],
                forall|j: int| 0 <= j < n ==> old(self).levels@[j] <= VOLUME_MAX,
            decreases n - i,
        {
            let x = self.levels.get(i);
            proof {
                assert(x <= VOLUME_MAX);
                assert(x as int * p as int <= VOLUME_MAX as int * VOLUME_MAX as int)
                    by (nonlinear_arith)
                    requires
                        0 <= x as int <= VOLUME_MAX as int,
                        0 <= p as int <= VOLUME_MAX as int,
                ;
            }
            let v: u32 = if base > 0 {
                let scaled = (x as u64) * (p as u64) / (base as u64);
                if scaled > VOLUME_MAX as u64 {
                    VOLUME_MAX
                } else {
                    scaled as u32
                }
            } else {
                p
            };
            self.levels.set(i, v);
            i += 1;
        }
        proof {
            assert(self.levels@ =~= target);
        }
    }
}

impl PartialEq for Volume {
    /// Two volumes count as equal when their first channels agree; the
    /// other channels follow the first through every proportional write.
    fn eq(&self, other: &Volume) -> (r: bool) {
        if self.levels.len() >= 1 && other.levels.len() >= 1 {
            self.levels.get(0) == other.levels.get(0)
        } else {
            self.levels.len() == other.levels.len()
        }
    }
}

impl vstd::std_specs::cmp::PartialEqSpecImpl for Volume {
    open spec fn obeys_eq_spec() -> bool {
        true
    }

    open spec fn eq_spec(&self, other: &Volume) -> bool {
        if self.levels@.len() >= 1 && other.levels@.len() >= 1 {
            self.levels@[0] == other.levels@[0]
        } else {
            self.levels@.len() == other.levels@.len()
        }
    }
}

/// Round-trip law under the peak strategy: for every valid volume, writing
/// back the level that `percent` folds to leaves every channel exactly as
/// it was.
pub proof fn lemma_round_trip_peak(v: Volume)
    requires
        v.wf(),
        v.spec_strategy() == Strategy::Peak,
    ensures
        set_percent_spec(v.levels@, v.spec_percent() as u32, v.spec_percent()) == v.levels@,
{
    lemma_seq_max_bound(v.levels@, VOLUME_MAX as int);
    lemma_round_trip_at_base(v.levels@, v.spec_percent());
    if v.spec_percent() == 0 {
        lemma_seq_max_zero_all_muted(v.levels@);
        assert(set_percent_spec(v.levels@, 0u32, 0int) =~= v.levels@);
    }
}

/// Round-trip law under the averaging strategy: the same, for every valid
/// volume whose mean level is not the degenerate zero-with-live-channels
/// position.
pub proof fn lemma_round_trip_average(v: Volume)
    requires
        v.wf(),
        v.spec_strategy() == Strategy::Average,
        v.spec_percent() > 0 || all_muted(v.levels@),
    ensures
        set_percent_spec(v.levels@, v.spec_percent() as u32, v.spec_percent()) == v.levels@,
{
    let n = v.levels@.len() as int;
    lemma_seq_sum_bound(v.levels@, VOLUME_MAX as int);
    assert(0 <= seq_sum(v.levels@) / n <= VOLUME_MAX as int) by (nonlinear_arith)
        requires
            n >= 1,
            0 <= seq_sum(v.levels@) <= n * (VOLUME_MAX as int),
    ;
    lemma_round_trip_at_base(v.levels@, v.spec_percent());
    if v.spec_percent() == 0 {
        assert(set_percent_spec(v.levels@, 0u32, 0int) =~= v.levels@);
    }
}

proof fn lemma_round_trip_at_base(s: Seq<u32>, base: int)
    requires
        0 <= base <= VOLUME_MAX as int,
        forall|i: int| 0 <= i < s.len() ==> s[i] <= VOLUME_MAX,
    ensures
        base > 0 ==> set_percent_spec(s, base as u32, base) == s,
{
    if base > 0 {
        assert forall|i: int| 0 <= i < s.len() implies set_percent_spec(s, base as u32, base)[i]
            == s[i] by {
            assert((s[i] as int * base) / base == s[i] as int) by (nonlinear_arith)
                requires
                    base > 0,
            ;
        }
        assert(set_percent_spec(s, base as u32, base) =~= s);
    }
}

} // verus!
