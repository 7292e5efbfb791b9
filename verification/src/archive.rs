//! Archival records: the structured per-frame reduction handed to the
//! storage collaborator — per entry name, both phases' channel values plus
//! the frame-wide three-phase power totals.  The storage collaborator owns
//! serialization and the write-time timestamp; this module owns the shape
//! and the numbers.

use crate::dispatch::{frame_sums, frame_sums_model};
use crate::frame::{payload_aggregable, payload_phases, DataProduct, DecodedFrame, EntryModel, PhaseCalculation};
use crate::table::{
    lemma_table_upsert_existing, lemma_table_upsert_new, table_upsert, StreamTable,
};
use crate::three_phase::RollupSample;
use std::ops::Index;
use vstd::prelude::*;

verus! {

/// One phase's archived values: the eight measured channels of the entry
/// plus the frame-wide three-phase totals for that local phase.
#[derive(Clone, Copy, PartialEq, Eq, Structural, Debug)]
pub struct ArchivePhase {
    pub rms_current: i64,
    pub rms_voltage: i64,
    pub dc_offset_voltage: i64,
    pub dc_offset_current: i64,
    pub real_power: i64,
    pub apparent_power: i64,
    pub reactive_power: i64,
    pub power_factor: i64,
    pub three_phase_real_power: i64,
    pub three_phase_reactive_power: i64,
}

/// The archived record of one entry: both phases.
#[derive(Clone, Copy, PartialEq, Eq, Structural, Debug)]
pub struct ArchiveCalculation {
    pub phase_a: ArchivePhase,
    pub phase_b: ArchivePhase,
}

impl View for ArchiveCalculation {
    type V = ArchiveCalculation;

    open spec fn view(&self) -> ArchiveCalculation {
        *self
    }
}

/// One phase's archived values assembled from its calculation and the
/// frame-wide totals of that phase.
pub open spec fn archive_phase_model(p: PhaseCalculation, real_total: i64, reactive_total: i64) -> ArchivePhase {
    ArchivePhase {
        rms_current: p.rms_current,
        rms_voltage: p.rms_voltage,
        dc_offset_voltage: p.dc_offset_voltage,
        dc_offset_current: p.dc_offset_current,
        real_power: p.real_power,
        apparent_power: p.apparent_power,
        reactive_power: p.reactive_power,
        power_factor: p.power_factor,
        three_phase_real_power: real_total,
        three_phase_reactive_power: reactive_total,
    }
}

/// The record archived for one aggregable entry, given the frame totals.
pub open spec fn archive_entry_model(e: EntryModel, s: RollupSample) -> ArchiveCalculation
    recommends
        payload_aggregable(e.payload),
{
    ArchiveCalculation {
        phase_a: archive_phase_model(payload_phases(e.payload).0, s.real_a, s.reactive_a),
        phase_b: archive_phase_model(payload_phases(e.payload).1, s.real_b, s.reactive_b),
    }
}

/// Replacement of whatever was stored before with `c`.
pub open spec fn replace_with_fn(c: ArchiveCalculation) -> spec_fn(ArchiveCalculation) -> ArchiveCalculation {
    |prev: ArchiveCalculation| c
}

/// The archive of a frame: one record per aggregable entry name.  Entries
/// are folded in order; a later entry with a name already recorded replaces
/// the earlier record.  Entries that are not aggregable are skipped.
pub open spec fn archive_fold_model(entries: Seq<EntryModel>, s: RollupSample) -> Seq<
    (Seq<char>, ArchiveCalculation),
>
    decreases entries.len(),
{
    if entries.len() == 0 {
        Seq::empty()
    } else {
        let prev = archive_fold_model(entries.drop_last(), s);
        let e = entries.last();
        if payload_aggregable(e.payload) {
            table_upsert(prev, e.name, archive_entry_model(e, s), replace_with_fn(archive_entry_model(e, s)))
        } else {
            prev
        }
    }
}

/// Builds the archival record of one frame: the frame-wide three-phase
/// totals are folded first, then every aggregable entry yields one record
/// under its name, holding that entry's channel values of both phases and
/// the shared frame totals.  Malformed and unrecognized entries are
/// skipped, never a failure.
pub fn archive_frame(frame: &DecodedFrame) -> (r: StreamTable<ArchiveCalculation>)
    ensures
        r.wf(),
        r@ == archive_fold_model(frame@, frame_sums_model(frame@)),
{
    let sums = frame_sums(frame);
    let mut out: StreamTable<ArchiveCalculation> = StreamTable::new();
    let n = frame.calculations.len();
    let mut i: usize = 0;
    assert(frame@.take(0) =~= Seq::<EntryModel>::empty());
    while i < n
        invariant
            0 <= i <= n,
            n == frame@.len(),
            n == frame.calculations@.len(),
            sums == frame_sums_model(frame@),
            out.wf(),
            out@ == archive_fold_model(frame@.take(i as int), sums),
        decreases n - i,
    {
        let entry = frame.calculations.index(i);
        proof {
            assert(frame@.take(i + 1).drop_last() =~= frame@.take(i as int));
            assert(frame@.take(i + 1).last() == frame@[i as int]);
            assert(frame@[i as int] == entry@);
        }
        match entry.payload {
            DataProduct::Calculations(calcs) => {
                match (calcs.phase_a, calcs.phase_b) {
                    (Some(a), Some(b)) => {
                        let calc = ArchiveCalculation {
                            phase_a: ArchivePhase {
                                rms_current: a.rms_current,
                                rms_voltage: a.rms_voltage,
                                dc_offset_voltage: a.dc_offset_voltage,
                                dc_offset_current: a.dc_offset_current,
                                real_power: a.real_power,
                                apparent_power: a.apparent_power,
                                reactive_power: a.reactive_power,
                                power_factor: a.power_factor,
                                three_phase_real_power: sums.real_a,
                                three_phase_reactive_power: sums.reactive_a,
                            },
                            phase_b: ArchivePhase {
                                rms_current: b.rms_current,
                                rms_voltage: b.rms_voltage,
                                dc_offset_voltage: b.dc_offset_voltage,
                                dc_offset_current: b.dc_offset_current,
                                real_power: b.real_power,
                                apparent_power: b.apparent_power,
                                reactive_power: b.reactive_power,
                                power_factor: b.power_factor,
                                three_phase_real_power: sums.real_b,
                                three_phase_reactive_power: sums.reactive_b,
                            },
                        };
                        let ghost f = replace_with_fn(archive_entry_model(entry@, sums));
                        proof {
                            assert(calc == archive_entry_model(entry@, sums));
                        }
                        match out.find_index(&entry.name) {
                            Some(j) => {
                                let ghost before = out@;
                                let (nm, _old_calc) = out.take_at(j);
                                out.insert_at(j, nm, calc);
                                proof {
                                    lemma_table_upsert_existing(
                                        before,
                                        entry@.name,
                                        archive_entry_model(entry@, sums),
                                        f,
                                        j as int,
                                    );
                                    assert(out@ =~= before.update(
                                        j as int,
                                        (entry@.name, f(before[j as int].1)),
                                    ));
                                }
                            },
                            None => {
                                let ghost before = out@;
                                out.push(entry.name.clone(), calc);
                                proof {
                                    lemma_table_upsert_new(
                                        before,
                                        entry@.name,
                                        archive_entry_model(entry@, sums),
                                        f,
                                    );
                                }
                            },
                        }
                    },
                    _ => {},
                }
            },
            DataProduct::Unrecognized => {},
        }
        i = i + 1;
    }
    proof {
        assert(frame@.take(n as int) =~= frame@);
    }
    out
}

} // verus!
