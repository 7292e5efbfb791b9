//! Measurement registry: one pair of channel sets (phase A, phase B) per
//! stream name, created lazily on first sight of a name and never removed.

use crate::bucket::DEFAULT_CAPACITY;
use crate::channels::{
    channels_apply_model, channels_empty, channels_stats_model, ChannelSetSnapshot, ChannelsModel,
    MeasurementBuckets,
};
use crate::frame::{payload_aggregable, payload_phases, DataProduct, PhaseCalculation, TwoPhaseCalculation};
use crate::table::{
    lemma_table_get_index, lemma_table_upsert_existing, lemma_table_upsert_new, table_contains,
    table_get, table_unique_keys, table_upsert, StreamTable,
};
use vstd::prelude::*;

verus! {

/// The contents of both phases' channel sets for one stream.
pub struct PairModel {
    pub phase_a: ChannelsModel,
    pub phase_b: ChannelsModel,
}

/// A freshly created pair: eighteen empty windows.
pub open spec fn pair_empty() -> PairModel {
    PairModel { phase_a: channels_empty(), phase_b: channels_empty() }
}

/// One aggregable entry applied to a stream's pair: phase A data into the
/// phase A channel set, phase B data into the phase B one.
pub open spec fn pair_apply_model(
    m: PairModel,
    cap: nat,
    a: PhaseCalculation,
    b: PhaseCalculation,
) -> PairModel {
    PairModel {
        phase_a: channels_apply_model(m.phase_a, cap, a),
        phase_b: channels_apply_model(m.phase_b, cap, b),
    }
}

/// The channel sets of both phases of one stream.
pub struct ConjoinedMeasurements {
    phase_a: MeasurementBuckets,
    phase_b: MeasurementBuckets,
}

impl View for ConjoinedMeasurements {
    type V = PairModel;

    closed spec fn view(&self) -> PairModel {
        PairModel { phase_a: self.phase_a@, phase_b: self.phase_b@ }
    }
}

impl ConjoinedMeasurements {
    /// Both channel sets share this window capacity.
    pub closed spec fn spec_capacity(&self) -> nat {
        self.phase_a.spec_capacity()
    }

    /// Both channel sets are well formed and have one capacity.
    pub closed spec fn wf(&self) -> bool {
        &&& self.phase_a.wf()
        &&& self.phase_b.wf()
        &&& self.phase_b.spec_capacity() == self.spec_capacity()
    }

    /// Two empty channel sets of capacity `capacity`.
    pub fn new(capacity: usize) -> (r: ConjoinedMeasurements)
        requires
            capacity >= 1,
        ensures
            r.wf(),
            r@ == pair_empty(),
            r.spec_capacity() == capacity,
    {
        ConjoinedMeasurements {
            phase_a: MeasurementBuckets::new(capacity),
            phase_b: MeasurementBuckets::new(capacity),
        }
    }

    /// Routes a complete two-phase calculation into the two channel sets.
    /// Completeness is validated by the caller before this point.
    pub fn apply(&mut self, calcs: &TwoPhaseCalculation)
        requires
            old(self).wf(),
            calcs.phase_a is Some,
            calcs.phase_b is Some,
        ensures
            final(self).wf(),
            final(self).spec_capacity() == old(self).spec_capacity(),
            final(self)@ == pair_apply_model(
                old(self)@,
                old(self).spec_capacity(),
                calcs.phase_a->Some_0,
                calcs.phase_b->Some_0,
            ),
    {
        match calcs.phase_a {
            Some(a) => self.phase_a.apply(&a),
            None => (),
        }
        match calcs.phase_b {
            Some(b) => self.phase_b.apply(&b),
            None => (),
        }
    }

    /// The reducer outputs of both phases.
    pub fn snapshot(&self) -> (r: (ChannelSetSnapshot, ChannelSetSnapshot))
        ensures
            r.0 == channels_stats_model(self@.phase_a),
            r.1 == channels_stats_model(self@.phase_b),
    {
        (self.phase_a.snapshot(), self.phase_b.snapshot())
    }
}

impl Default for ConjoinedMeasurements {
    /// Two empty channel sets of the default capacity.
    fn default() -> (r: ConjoinedMeasurements)
        ensures
            r.wf(),
            r@ == pair_empty(),
            r.spec_capacity() == DEFAULT_CAPACITY,
    {
        ConjoinedMeasurements::new(DEFAULT_CAPACITY)
    }
}

/// The per-pair effect of an aggregable payload, as a function to thread
/// through a table update.
pub open spec fn pair_apply_fn(payload: DataProduct) -> spec_fn(PairModel) -> PairModel {
    |pm: PairModel|
        pair_apply_model(
            pm,
            DEFAULT_CAPACITY as nat,
            payload_phases(payload).0,
            payload_phases(payload).1,
        )
}

/// What applying one entry does to the registry: nothing for payloads that
/// are not aggregable; otherwise the pair stored under `name` — a fresh,
/// empty pair if the name is unseen — takes the entry's two phases.
pub open spec fn registry_apply_model(
    m: Seq<(Seq<char>, PairModel)>,
    name: Seq<char>,
    payload: DataProduct,
) -> Seq<(Seq<char>, PairModel)> {
    if payload_aggregable(payload) {
        table_upsert(m, name, pair_empty(), pair_apply_fn(payload))
    } else {
        m
    }
}

/// Unknown-variant no-op: applying an entry whose payload is not an
/// aggregable two-phase calculation leaves every existing channel set
/// unchanged — the registry is exactly what it was.
pub proof fn lemma_unknown_variant_no_op(
    m: Seq<(Seq<char>, PairModel)>,
    name: Seq<char>,
    payload: DataProduct,
)
    requires
        !payload_aggregable(payload),
    ensures
        registry_apply_model(m, name, payload) == m,
{
}

/// Registry lazy creation: applying an aggregable entry for an unseen
/// stream name creates exactly one new channel-set pair — fresh, fed with
/// that one entry, appended after the existing streams, which are left
/// unchanged.  A second apply for the same name mutates the existing pair
/// in place and creates no duplicate: the stream count stays the same.
pub proof fn lemma_registry_lazy_creation(
    m: Seq<(Seq<char>, PairModel)>,
    name: Seq<char>,
    p1: DataProduct,
    p2: DataProduct,
)
    requires
        table_unique_keys(m),
        !table_contains(m, name),
        payload_aggregable(p1),
        payload_aggregable(p2),
    ensures
        registry_apply_model(m, name, p1) == m.push(
            (
                name,
                pair_apply_model(
                    pair_empty(),
                    DEFAULT_CAPACITY as nat,
                    payload_phases(p1).0,
                    payload_phases(p1).1,
                ),
            ),
        ),
        registry_apply_model(registry_apply_model(m, name, p1), name, p2).len() == m.len() + 1,
        forall|i: int|
            0 <= i < m.len() ==> #[trigger] registry_apply_model(
                registry_apply_model(m, name, p1),
                name,
                p2,
            )[i] == m[i],
{
    let f1 = pair_apply_fn(p1);
    let f2 = pair_apply_fn(p2);
    lemma_table_upsert_new(m, name, pair_empty(), f1);
    let m1 = m.push((name, f1(pair_empty())));
    assert(table_unique_keys(m1)) by {
        assert(forall|i: int| 0 <= i < m.len() ==> (#[trigger] m1[i]) == m[i]);
    }
    assert(m1[m.len() as int].0 == name);
    lemma_table_upsert_existing(m1, name, pair_empty(), f2, m.len() as int);
    assert(forall|i: int|
        0 <= i < m.len() ==> #[trigger] m1.update(
            m.len() as int,
            (name, f2(m1[m.len() as int].1)),
        )[i] == m[i]);
}

/// How one entry is disposed of: aggregated into the registry, skipped as a
/// recognized-but-ignored product, or skipped as malformed.
#[derive(Clone, Copy, PartialEq, Eq, Structural, Debug)]
pub enum ApplyOutcome {
    Applied,
    Ignored,
    Malformed,
}

/// The expected disposition of a payload.
pub open spec fn apply_outcome_model(payload: DataProduct) -> ApplyOutcome {
    match payload {
        DataProduct::Calculations(t) => {
            if t.phase_a is Some && t.phase_b is Some {
                ApplyOutcome::Applied
            } else {
                ApplyOutcome::Malformed
            }
        },
        DataProduct::Unrecognized => ApplyOutcome::Ignored,
    }
}

/// One stream's export row: its name and the reducer outputs of both
/// phases' channel sets.
pub struct StreamSnapshot {
    pub name: String,
    pub phase_a: ChannelSetSnapshot,
    pub phase_b: ChannelSetSnapshot,
}

/// The measurement registry: per stream name, one channel-set pair, with
/// all windows at the default capacity.  It only ever grows.
pub struct AllMeasurements {
    table: StreamTable<ConjoinedMeasurements>,
}

impl View for AllMeasurements {
    type V = Seq<(Seq<char>, PairModel)>;

    closed spec fn view(&self) -> Seq<(Seq<char>, PairModel)> {
        self.table@
    }
}

impl AllMeasurements {
    /// Stream names are unique and every stored pair is a well-formed pair
    /// of default-capacity channel sets.
    pub closed spec fn wf(&self) -> bool {
        &&& self.table.wf()
        &&& self.table.values().len() == self.table@.len()
        &&& forall|i: int|
            0 <= i < self.table.values().len() ==> (#[trigger] self.table.values()[i]).wf()
                && self.table.values()[i].spec_capacity() == DEFAULT_CAPACITY
    }

    /// An empty registry.
    pub fn new() -> (r: AllMeasurements)
        ensures
            r.wf(),
            r@ == Seq::<(Seq<char>, PairModel)>::empty(),
    {
        AllMeasurements { table: StreamTable::new() }
    }

    /// How many stream names have been seen.
    pub fn len(&self) -> (r: usize)
        ensures
            r == self@.len(),
    {
        self.table.len()
    }

    /// Routes one entry.  A payload that is not the two-phase variant is a
    /// no-op; a two-phase payload missing either phase is skipped as
    /// malformed; a complete one is pushed into the channel sets of
    /// `name`, lazily creating them on first sight of the name.
    pub fn apply(&mut self, name: &str, product: DataProduct) -> (r: ApplyOutcome)
        requires
            old(self).wf(),
        ensures
            final(self).wf(),
            final(self)@ == registry_apply_model(old(self)@, name@, product),
            r == apply_outcome_model(product),
    {
        let calcs = match product {
            DataProduct::Calculations(calcs) => calcs,
            DataProduct::Unrecognized => {
                return ApplyOutcome::Ignored;
            },
        };
        if !(matches!(calcs.phase_a, Some(_)) && matches!(calcs.phase_b, Some(_))) {
            return ApplyOutcome::Malformed;
        }
        let ghost f = pair_apply_fn(product);
        let key = name.to_owned();
        proof {
            self.table.lemma_values();
        }
        match self.table.find_index(&key) {
            Some(i) => {
                let (nm, mut pair) = self.table.take_at(i);
                pair.apply(&calcs);
                self.table.insert_at(i, nm, pair);
                proof {
                    lemma_table_upsert_existing(old(self)@, name@, pair_empty(), f, i as int);
                    assert(self@ =~= old(self)@.update(
                        i as int,
                        (name@, f(old(self)@[i as int].1)),
                    ));
                    assert(self.table.values() =~= old(self).table.values().update(
                        i as int,
                        pair,
                    ));
                    self.table.lemma_values();
                }
            },
            None => {
                let mut pair = ConjoinedMeasurements::new(DEFAULT_CAPACITY);
                pair.apply(&calcs);
                self.table.push(key, pair);
                proof {
                    lemma_table_upsert_new(old(self)@, name@, pair_empty(), f);
                    self.table.lemma_values();
                }
            },
        }
        ApplyOutcome::Applied
    }

    /// The current reducer outputs of every stream, in first-seen order:
    /// what the metric export adapter publishes on each scrape.  Reading
    /// never changes the registry.
    pub fn snapshot_all(&self) -> (r: Vec<StreamSnapshot>)
        ensures
            r@.len() == self@.len(),
            forall|i: int|
                0 <= i < self@.len() ==> (#[trigger] r@[i]).name@ == self@[i].0 && r@[i].phase_a
                    == channels_stats_model(self@[i].1.phase_a) && r@[i].phase_b
                    == channels_stats_model(self@[i].1.phase_b),
    {
        let n = self.table.len();
        let mut out: Vec<StreamSnapshot> = Vec::new();
        let mut i: usize = 0;
        while i < n
            invariant
                0 <= i <= n,
                n == self@.len(),
                out@.len() == i,
                forall|j: int|
                    0 <= j < i ==> (#[trigger] out@[j]).name@ == self@[j].0 && out@[j].phase_a
                        == channels_stats_model(self@[j].1.phase_a) && out@[j].phase_b
                        == channels_stats_model(self@[j].1.phase_b),
            decreases n - i,
        {
            let (name, pair) = self.table.entry_at(i);
            let (phase_a, phase_b) = pair.snapshot();
            out.push(StreamSnapshot { name: name.clone(), phase_a, phase_b });
            i = i + 1;
        }
        out
    }

    /// The current reducer outputs for a stream, if that stream has ever
    /// been seen; `None` means there is nothing to export yet.  Looking up
    /// a stream never changes the registry.
    pub fn snapshot_for(&self, name: &str) -> (r: Option<
        (ChannelSetSnapshot, ChannelSetSnapshot),
    >)
        requires
            self.wf(),
        ensures
            table_contains(self@, name@) ==> (r matches Some(p) && p.0 == channels_stats_model(
                table_get(self@, name@).phase_a,
            ) && p.1 == channels_stats_model(table_get(self@, name@).phase_b)),
            !table_contains(self@, name@) ==> r is None,
    {
        let key = name.to_owned();
        match self.table.find_index(&key) {
            Some(i) => {
                let (_nm, pair) = self.table.entry_at(i);
                proof {
                    lemma_table_get_index(self@, name@, i as int);
                    self.table.lemma_values();
                }
                Some(pair.snapshot())
            },
            None => None,
        }
    }
}

} // verus!
