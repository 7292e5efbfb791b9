//! Three-phase rollup state: per rollup key, four windows holding the
//! frame-wide real and reactive power totals of each local phase.
//!
//! The rollup is keyed by the ingest subscription's topic identifier, not by
//! stream name: every stream arriving over one subscription contributes to a
//! single rollup series.  That keying is preserved from the system this
//! engine serves.

use crate::bucket::{
    bucket_stats_model, lemma_two_pushes, push_model, window_of, Bucket, BucketSnapshot,
    DEFAULT_CAPACITY,
};
use crate::table::{
    lemma_table_get_index, lemma_table_upsert_existing, lemma_table_upsert_new, table_contains,
    table_get, table_upsert, StreamTable,
};
use vstd::prelude::*;

verus! {

/// The four frame-total scalars pushed into a rollup per processed frame.
#[derive(Clone, Copy, PartialEq, Eq, Structural, Debug)]
pub struct RollupSample {
    pub real_a: i64,
    pub reactive_a: i64,
    pub real_b: i64,
    pub reactive_b: i64,
}

/// The contents of the four windows of one rollup series.
pub struct RollupModel {
    pub real_a: Seq<i64>,
    pub reactive_a: Seq<i64>,
    pub real_b: Seq<i64>,
    pub reactive_b: Seq<i64>,
}

/// Four empty windows.
pub open spec fn rollup_empty() -> RollupModel {
    RollupModel {
        real_a: Seq::empty(),
        reactive_a: Seq::empty(),
        real_b: Seq::empty(),
        reactive_b: Seq::empty(),
    }
}

/// One frame's totals pushed into the four windows of a rollup.
pub open spec fn rollup_apply_model(m: RollupModel, cap: nat, s: RollupSample) -> RollupModel {
    RollupModel {
        real_a: push_model(m.real_a, cap, s.real_a),
        reactive_a: push_model(m.reactive_a, cap, s.reactive_a),
        real_b: push_model(m.real_b, cap, s.real_b),
        reactive_b: push_model(m.reactive_b, cap, s.reactive_b),
    }
}

/// The reducer outputs of the four rollup windows, for export.
#[derive(Clone, Copy, PartialEq, Eq, Debug)]
pub struct RollupSnapshot {
    pub real_a: BucketSnapshot,
    pub reactive_a: BucketSnapshot,
    pub real_b: BucketSnapshot,
    pub reactive_b: BucketSnapshot,
}

/// What a snapshot of a rollup holding `m` reports.
pub open spec fn rollup_stats_model(m: RollupModel) -> RollupSnapshot {
    RollupSnapshot {
        real_a: bucket_stats_model(m.real_a),
        reactive_a: bucket_stats_model(m.reactive_a),
        real_b: bucket_stats_model(m.real_b),
        reactive_b: bucket_stats_model(m.reactive_b),
    }
}

/// The four windows of one rollup series, all of one capacity.
pub struct ThreePhaseMeasurements {
    three_phase_real_a: Bucket,
    three_phase_reactive_a: Bucket,
    three_phase_real_b: Bucket,
    three_phase_reactive_b: Bucket,
}

impl View for ThreePhaseMeasurements {
    type V = RollupModel;

    closed spec fn view(&self) -> RollupModel {
        RollupModel {
            real_a: self.three_phase_real_a@,
            reactive_a: self.three_phase_reactive_a@,
            real_b: self.three_phase_real_b@,
            reactive_b: self.three_phase_reactive_b@,
        }
    }
}

impl ThreePhaseMeasurements {
    /// All four windows retain at most this many samples.
    pub closed spec fn spec_capacity(&self) -> nat {
        self.three_phase_real_a.spec_capacity()
    }

    /// Every window is well formed and they all share one capacity.
    pub closed spec fn wf(&self) -> bool {
        &&& self.three_phase_real_a.wf()
        &&& self.three_phase_reactive_a.wf()
        &&& self.three_phase_real_b.wf()
        &&& self.three_phase_reactive_b.wf()
        &&& self.three_phase_reactive_a.spec_capacity() == self.spec_capacity()
        &&& self.three_phase_real_b.spec_capacity() == self.spec_capacity()
        &&& self.three_phase_reactive_b.spec_capacity() == self.spec_capacity()
    }

    /// Four empty windows of capacity `capacity`.
    pub fn new(capacity: usize) -> (r: ThreePhaseMeasurements)
        requires
            capacity >= 1,
        ensures
            r.wf(),
            r@ == rollup_empty(),
            r.spec_capacity() == capacity,
    {
        let r = ThreePhaseMeasurements {
            three_phase_real_a: Bucket::new(capacity),
            three_phase_reactive_a: Bucket::new(capacity),
            three_phase_real_b: Bucket::new(capacity),
            three_phase_reactive_b: Bucket::new(capacity),
        };
        proof {
            assert(r@ =~= rollup_empty());
        }
        r
    }

    /// Pushes one frame's four totals, one sample per window.
    pub fn apply(&mut self, s: RollupSample)
        requires
            old(self).wf(),
        ensures
            final(self).wf(),
            final(self).spec_capacity() == old(self).spec_capacity(),
            final(self)@ == rollup_apply_model(old(self)@, old(self).spec_capacity(), s),
    {
        self.three_phase_real_a.push(s.real_a);
        self.three_phase_reactive_a.push(s.reactive_a);
        self.three_phase_real_b.push(s.real_b);
        self.three_phase_reactive_b.push(s.reactive_b);
    }

    /// The current reducer outputs of the four windows.
    pub fn snapshot(&self) -> (r: RollupSnapshot)
        ensures
            r == rollup_stats_model(self@),
    {
        RollupSnapshot {
            real_a: self.three_phase_real_a.stats(),
            reactive_a: self.three_phase_reactive_a.stats(),
            real_b: self.three_phase_real_b.stats(),
            reactive_b: self.three_phase_reactive_b.stats(),
        }
    }
}

impl Default for ThreePhaseMeasurements {
    /// Four empty windows of the default capacity.
    fn default() -> (r: ThreePhaseMeasurements)
        ensures
            r.wf(),
            r@ == rollup_empty(),
            r.spec_capacity() == DEFAULT_CAPACITY,
    {
        ThreePhaseMeasurements::new(DEFAULT_CAPACITY)
    }
}

/// The per-rollup effect of one frame's totals, as a function to thread
/// through a table update.
pub open spec fn rollup_apply_fn(s: RollupSample) -> spec_fn(RollupModel) -> RollupModel {
    |m: RollupModel| rollup_apply_model(m, DEFAULT_CAPACITY as nat, s)
}

/// What recording one frame's totals does to the rollup state: the series
/// stored under `key` — a fresh, empty one if the key is unseen — takes the
/// four totals as one sample each.
pub open spec fn all_three_phase_apply_model(
    m: Seq<(Seq<char>, RollupModel)>,
    key: Seq<char>,
    s: RollupSample,
) -> Seq<(Seq<char>, RollupModel)> {
    table_upsert(m, key, rollup_empty(), rollup_apply_fn(s))
}

/// Frame independence: recording two frames' totals in sequence pushes two
/// separate samples into each rollup window, one per frame, never a batch:
/// afterwards each window holds its previous history followed by the two
/// frame totals in order, trimmed to the most recent `cap` samples.
pub proof fn lemma_frame_independence(
    m: RollupModel,
    cap: nat,
    s1: RollupSample,
    s2: RollupSample,
)
    requires
        1 <= cap,
        m.real_a.len() <= cap,
        m.reactive_a.len() <= cap,
        m.real_b.len() <= cap,
        m.reactive_b.len() <= cap,
    ensures
        ({
            let r = rollup_apply_model(rollup_apply_model(m, cap, s1), cap, s2);
            &&& r.real_a == window_of(m.real_a + seq![s1.real_a, s2.real_a], cap)
            &&& r.reactive_a == window_of(m.reactive_a + seq![s1.reactive_a, s2.reactive_a], cap)
            &&& r.real_b == window_of(m.real_b + seq![s1.real_b, s2.real_b], cap)
            &&& r.reactive_b == window_of(m.reactive_b + seq![s1.reactive_b, s2.reactive_b], cap)
        }),
{
    lemma_two_pushes(m.real_a, cap, s1.real_a, s2.real_a);
    lemma_two_pushes(m.reactive_a, cap, s1.reactive_a, s2.reactive_a);
    lemma_two_pushes(m.real_b, cap, s1.real_b, s2.real_b);
    lemma_two_pushes(m.reactive_b, cap, s1.reactive_b, s2.reactive_b);
}

/// The three-phase rollup state: one rollup series per rollup key, with all
/// windows at the default capacity.  It only ever grows.
pub struct AllThreePhase {
    table: StreamTable<ThreePhaseMeasurements>,
}

impl View for AllThreePhase {
    type V = Seq<(Seq<char>, RollupModel)>;

    closed spec fn view(&self) -> Seq<(Seq<char>, RollupModel)> {
        self.table@
    }
}

impl AllThreePhase {
    /// Rollup keys are unique and every stored series is well formed with
    /// default-capacity windows.
    pub closed spec fn wf(&self) -> bool {
        &&& self.table.wf()
        &&& self.table.values().len() == self.table@.len()
        &&& forall|i: int|
            0 <= i < self.table.values().len() ==> (#[trigger] self.table.values()[i]).wf()
                && self.table.values()[i].spec_capacity() == DEFAULT_CAPACITY
    }

    /// An empty rollup state.
    pub fn new() -> (r: AllThreePhase)
        ensures
            r.wf(),
            r@ == Seq::<(Seq<char>, RollupModel)>::empty(),
    {
        AllThreePhase { table: StreamTable::new() }
    }

    /// How many rollup keys have been seen.
    pub fn len(&self) -> (r: usize)
        ensures
            r == self@.len(),
    {
        self.table.len()
    }

    /// Records one processed frame's four totals under `key`, lazily
    /// creating the rollup series on first sight of the key.
    pub fn apply_and_update(&mut self, key: &str, s: RollupSample)
        requires
            old(self).wf(),
        ensures
            final(self).wf(),
            final(self)@ == all_three_phase_apply_model(old(self)@, key@, s),
    {
        let ghost f = rollup_apply_fn(s);
        let k = key.to_owned();
        proof {
            self.table.lemma_values();
        }
        match self.table.find_index(&k) {
            Some(i) => {
                let (nm, mut rollup) = self.table.take_at(i);
                rollup.apply(s);
                self.table.insert_at(i, nm, rollup);
                proof {
                    lemma_table_upsert_existing(old(self)@, key@, rollup_empty(), f, i as int);
                    assert(self@ =~= old(self)@.update(
                        i as int,
                        (key@, f(old(self)@[i as int].1)),
                    ));
                    assert(self.table.values() =~= old(self).table.values().update(
                        i as int,
                        rollup,
                    ));
                    self.table.lemma_values();
                }
            },
            None => {
                let mut rollup = ThreePhaseMeasurements::new(DEFAULT_CAPACITY);
                rollup.apply(s);
                self.table.push(k, rollup);
                proof {
                    lemma_table_upsert_new(old(self)@, key@, rollup_empty(), f);
                    self.table.lemma_values();
                }
            },
        }
    }

    /// The current reducer outputs of every rollup series, in first-seen
    /// order, for export.  Reading never changes the state.
    pub fn snapshot_all(&self) -> (r: Vec<(String, RollupSnapshot)>)
        ensures
            r@.len() == self@.len(),
            forall|i: int|
                0 <= i < self@.len() ==> (#[trigger] r@[i]).0@ == self@[i].0 && r@[i].1
                    == rollup_stats_model(self@[i].1),
    {
        let n = self.table.len();
        let mut out: Vec<(String, RollupSnapshot)> = Vec::new();
        let mut i: usize = 0;
        while i < n
            invariant
                0 <= i <= n,
                n == self@.len(),
                out@.len() == i,
                forall|j: int|
                    0 <= j < i ==> (#[trigger] out@[j]).0@ == self@[j].0 && out@[j].1
                        == rollup_stats_model(self@[j].1),
            decreases n - i,
        {
            let (name, rollup) = self.table.entry_at(i);
            out.push((name.clone(), rollup.snapshot()));
            i = i + 1;
        }
        out
    }

    /// The current reducer outputs for a rollup key, if one frame has ever
    /// been recorded under it.  Looking up a key never changes the state.
    pub fn snapshot_for(&self, key: &str) -> (r: Option<RollupSnapshot>)
        requires
            self.wf(),
        ensures
            table_contains(self@, key@) ==> (r matches Some(s) && s == rollup_stats_model(
                table_get(self@, key@),
            )),
            !table_contains(self@, key@) ==> r is None,
    {
        let k = key.to_owned();
        match self.table.find_index(&k) {
            Some(i) => {
                let (_nm, rollup) = self.table.entry_at(i);
                proof {
                    lemma_table_get_index(self@, key@, i as int);
                    self.table.lemma_values();
                }
                Some(rollup.snapshot())
            },
            None => None,
        }
    }
}

} // verus!
