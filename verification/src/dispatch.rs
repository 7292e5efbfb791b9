//! Frame dispatch: consumes one decoded frame at a time, routing each entry
//! to the measurement registry and folding the frame-wide three-phase
//! totals, which are recorded once per frame after all entries are done.
//!
//! Frames are stateless inputs processed at most once, in arrival order;
//! between calls the engine is idle and holds no reference to any frame.

use crate::frame::{payload_aggregable, payload_phases, DataProduct, DecodedFrame, EntryModel};
use crate::registry::{
    apply_outcome_model, registry_apply_model, AllMeasurements, ApplyOutcome, PairModel,
};
use crate::three_phase::{all_three_phase_apply_model, AllThreePhase, RollupSample};
use std::ops::Index;
use vstd::prelude::*;

verus! {

/// Addition on fixed-point readings, saturating at the representable range.
pub open spec fn sat_add_model(a: int, b: int) -> int {
    if a + b > i64::MAX {
        i64::MAX as int
    } else if a + b < i64::MIN {
        i64::MIN as int
    } else {
        a + b
    }
}

/// Saturating addition of two fixed-point readings.
pub fn sat_add(a: i64, b: i64) -> (r: i64)
    ensures
        r == sat_add_model(a as int, b as int),
{
    match a.checked_add(b) {
        Some(v) => v,
        None => {
            if b > 0 {
                i64::MAX
            } else {
                i64::MIN
            }
        },
    }
}

/// The four totals accumulated over a frame: for every aggregable entry, in
/// order, phase A's real and reactive power go into the A totals and phase
/// B's into the B totals, each addition saturating.  Entries that are not
/// aggregable contribute nothing.
pub open spec fn frame_sums_model(entries: Seq<EntryModel>) -> RollupSample
    decreases entries.len(),
{
    if entries.len() == 0 {
        RollupSample { real_a: 0, reactive_a: 0, real_b: 0, reactive_b: 0 }
    } else {
        let prev = frame_sums_model(entries.drop_last());
        let e = entries.last();
        if payload_aggregable(e.payload) {
            let a = payload_phases(e.payload).0;
            let b = payload_phases(e.payload).1;
            RollupSample {
                real_a: sat_add_model(prev.real_a as int, a.real_power as int) as i64,
                reactive_a: sat_add_model(prev.reactive_a as int, a.reactive_power as int) as i64,
                real_b: sat_add_model(prev.real_b as int, b.real_power as int) as i64,
                reactive_b: sat_add_model(prev.reactive_b as int, b.reactive_power as int) as i64,
            }
        } else {
            prev
        }
    }
}

/// The registry after a frame's entries are applied one by one, in order.
pub open spec fn registry_fold_model(
    m: Seq<(Seq<char>, PairModel)>,
    entries: Seq<EntryModel>,
) -> Seq<(Seq<char>, PairModel)>
    decreases entries.len(),
{
    if entries.len() == 0 {
        m
    } else {
        registry_apply_model(
            registry_fold_model(m, entries.drop_last()),
            entries.last().name,
            entries.last().payload,
        )
    }
}

/// How many of a frame's entries are disposed of with outcome `o`.
pub open spec fn count_outcomes(entries: Seq<EntryModel>, o: ApplyOutcome) -> int
    decreases entries.len(),
{
    if entries.len() == 0 {
        0int
    } else {
        count_outcomes(entries.drop_last(), o) + (if apply_outcome_model(
            entries.last().payload,
        ) == o {
            1int
        } else {
            0int
        })
    }
}

/// The four frame-wide totals of one decoded frame.
pub fn frame_sums(frame: &DecodedFrame) -> (r: RollupSample)
    ensures
        r == frame_sums_model(frame@),
{
    let n = frame.calculations.len();
    let mut real_a: i64 = 0;
    let mut reactive_a: i64 = 0;
    let mut real_b: i64 = 0;
    let mut reactive_b: i64 = 0;
    let mut i: usize = 0;
    assert(frame@.take(0) =~= Seq::<EntryModel>::empty());
    while i < n
        invariant
            0 <= i <= n,
            n == frame@.len(),
            n == frame.calculations@.len(),
            (RollupSample { real_a, reactive_a, real_b, reactive_b }) == frame_sums_model(
                frame@.take(i as int),
            ),
        decreases n - i,
    {
        let entry = frame.calculations.index(i);
        proof {
            assert(frame@.take(i + 1).drop_last() =~= frame@.take(i as int));
            assert(frame@.take(i + 1).last() == frame@[i as int]);
            assert(frame@[i as int] == entry@);
        }
        match entry.payload {
            DataProduct::Calculations(calcs) => {
                match (calcs.phase_a, calcs.phase_b) {
                    (Some(a), Some(b)) => {
                        real_a = sat_add(real_a, a.real_power);
                        reactive_a = sat_add(reactive_a, a.reactive_power);
                        real_b = sat_add(real_b, b.real_power);
                        reactive_b = sat_add(reactive_b, b.reactive_power);
                    },
                    _ => {},
                }
            },
            DataProduct::Unrecognized => {},
        }
        i = i + 1;
    }
    proof {
        assert(frame@.take(n as int) =~= frame@);
    }
    RollupSample { real_a, reactive_a, real_b, reactive_b }
}

/// Per-frame observability: how the frame's entries were disposed of.
#[derive(Clone, Copy, PartialEq, Eq, Structural, Debug)]
pub struct FrameReport {
    pub applied: usize,
    pub ignored: usize,
    pub malformed: usize,
}

/// Processes one decoded frame.
///
/// Every entry is routed to the measurement registry; malformed and
/// unrecognized entries are skipped without aborting the frame.  After all
/// entries are consumed, the frame-wide three-phase totals are recorded
/// under `rollup_key` — one sample per window per frame, holding sums, not
/// per-entry values.  The returned report counts each disposition.
pub fn process_frame(
    measurements: &mut AllMeasurements,
    three_phase: &mut AllThreePhase,
    rollup_key: &str,
    frame: &DecodedFrame,
) -> (r: FrameReport)
    requires
        old(measurements).wf(),
        old(three_phase).wf(),
    ensures
        final(measurements).wf(),
        final(three_phase).wf(),
        final(measurements)@ == registry_fold_model(old(measurements)@, frame@),
        final(three_phase)@ == all_three_phase_apply_model(
            old(three_phase)@,
            rollup_key@,
            frame_sums_model(frame@),
        ),
        r.applied == count_outcomes(frame@, ApplyOutcome::Applied),
        r.ignored == count_outcomes(frame@, ApplyOutcome::Ignored),
        r.malformed == count_outcomes(frame@, ApplyOutcome::Malformed),
{
    let n = frame.calculations.len();
    let mut real_a: i64 = 0;
    let mut reactive_a: i64 = 0;
    let mut real_b: i64 = 0;
    let mut reactive_b: i64 = 0;
    let mut applied: usize = 0;
    let mut ignored: usize = 0;
    let mut malformed: usize = 0;
    let mut i: usize = 0;
    assert(frame@.take(0) =~= Seq::<EntryModel>::empty());
    while i < n
        invariant
            0 <= i <= n,
            n == frame@.len(),
            n == frame.calculations@.len(),
            measurements.wf(),
            measurements@ == registry_fold_model(old(measurements)@, frame@.take(i as int)),
            three_phase == old(three_phase),
            (RollupSample { real_a, reactive_a, real_b, reactive_b }) == frame_sums_model(
                frame@.take(i as int),
            ),
            applied + ignored + malformed == i,
            applied == count_outcomes(frame@.take(i as int), ApplyOutcome::Applied),
            ignored == count_outcomes(frame@.take(i as int), ApplyOutcome::Ignored),
            malformed == count_outcomes(frame@.take(i as int), ApplyOutcome::Malformed),
        decreases n - i,
    {
        let entry = frame.calculations.index(i);
        proof {
            assert(frame@.take(i + 1).drop_last() =~= frame@.take(i as int));
            assert(frame@.take(i + 1).last() == frame@[i as int]);
            assert(frame@[i as int] == entry@);
        }
        let outcome = measurements.apply(entry.name.as_str(), entry.payload);
        match outcome {
            ApplyOutcome::Applied => {
                applied = applied + 1;
            },
            ApplyOutcome::Ignored => {
                ignored = ignored + 1;
            },
            ApplyOutcome::Malformed => {
                malformed = malformed + 1;
            },
        }
        match entry.payload {
            DataProduct::Calculations(calcs) => {
                match (calcs.phase_a, calcs.phase_b) {
                    (Some(a), Some(b)) => {
                        real_a = sat_add(real_a, a.real_power);
                        reactive_a = sat_add(reactive_a, a.reactive_power);
                        real_b = sat_add(real_b, b.real_power);
                        reactive_b = sat_add(reactive_b, b.reactive_power);
                    },
                    _ => {},
                }
            },
            DataProduct::Unrecognized => {},
        }
        i = i + 1;
    }
    proof {
        assert(frame@.take(n as int) =~= frame@);
    }
    three_phase.apply_and_update(
        rollup_key,
        RollupSample { real_a, reactive_a, real_b, reactive_b },
    );
    FrameReport { applied, ignored, malformed }
}

} // verus!
