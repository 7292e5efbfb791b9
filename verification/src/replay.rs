//! Replay grouping: turns a flat, time-ordered sequence of per-phase
//! measurement rows (one row per stream per phase per instant) into decoded
//! frames that conform exactly to the decoded-entry contract, both phases
//! populated.
//!
//! Rows sharing one timestamp form one frame.  Within a frame, rows are
//! grouped by stream name; a stream missing its phase B row has phase A
//! duplicated into phase B, since every consumer assumes both phases are
//! present.  A stream with no phase A row yields no entry.

use crate::frame::{
    CalculationEntry, DataProduct, DecodedFrame, EntryModel, PhaseCalculation,
    TwoPhaseCalculation,
};
use crate::table::{
    lemma_table_upsert_existing, lemma_table_upsert_new, table_upsert, StreamTable,
};
use std::ops::Index;
use vstd::prelude::*;
use vstd::string::StringExecFns;

verus! {

/// One row of pre-recorded measurement data: one phase of one stream at one
/// instant, with fixed-point channel values.
pub struct ReplayRow {
    /// Milliseconds since the epoch; rows with one `time` form one frame.
    pub time: i64,
    pub stream_name: String,
    /// The phase label as recorded: `phase_a`, `phase_b`, or something
    /// unrecognized (such a row contributes no channel data).
    pub phase: String,
    pub rms_voltage: i64,
    pub dc_offset_voltage: i64,
    pub rms_current: i64,
    pub dc_offset_current: i64,
    pub real_power: i64,
    pub apparent_power: i64,
    pub reactive_power: i64,
    pub power_factor: i64,
    pub sequence_number: Option<u64>,
}

/// The view of a row: strings as character sequences, channels gathered
/// into one phase calculation.
pub struct RowModel {
    pub time: i64,
    pub stream_name: Seq<char>,
    pub phase: Seq<char>,
    pub channels: PhaseCalculation,
    pub sequence_number: Option<u64>,
}

impl View for ReplayRow {
    type V = RowModel;

    open spec fn view(&self) -> RowModel {
        RowModel {
            time: self.time,
            stream_name: self.stream_name@,
            phase: self.phase@,
            channels: row_channels(self),
            sequence_number: self.sequence_number,
        }
    }
}

impl DeepView for ReplayRow {
    type V = RowModel;

    open spec fn deep_view(&self) -> RowModel {
        self@
    }
}

/// The eight channel values of a row, as one phase calculation.
pub open spec fn row_channels(r: &ReplayRow) -> PhaseCalculation {
    PhaseCalculation {
        rms_voltage: r.rms_voltage,
        dc_offset_voltage: r.dc_offset_voltage,
        rms_current: r.rms_current,
        dc_offset_current: r.dc_offset_current,
        real_power: r.real_power,
        apparent_power: r.apparent_power,
        reactive_power: r.reactive_power,
        power_factor: r.power_factor,
    }
}

/// The eight channel values of a row, as one phase calculation.
pub fn build_composite(row: &ReplayRow) -> (r: PhaseCalculation)
    ensures
        r == row@.channels,
{
    PhaseCalculation {
        rms_voltage: row.rms_voltage,
        dc_offset_voltage: row.dc_offset_voltage,
        rms_current: row.rms_current,
        dc_offset_current: row.dc_offset_current,
        real_power: row.real_power,
        apparent_power: row.apparent_power,
        reactive_power: row.reactive_power,
        power_factor: row.power_factor,
    }
}

/// The rows seen so far for one stream within the current frame.
#[derive(Clone, Copy, PartialEq, Eq, Structural, Debug)]
pub struct PhaseGroup {
    pub phase_a: Option<PhaseCalculation>,
    pub phase_b: Option<PhaseCalculation>,
}

impl View for PhaseGroup {
    type V = PhaseGroup;

    open spec fn view(&self) -> PhaseGroup {
        *self
    }
}

/// A group with neither phase yet.
pub open spec fn group_empty() -> PhaseGroup {
    PhaseGroup { phase_a: Option::None, phase_b: Option::None }
}

/// How one row changes its stream's group: a `phase_a` row fills phase A,
/// a `phase_b` row fills phase B, an unrecognized label changes nothing
/// (though the group itself is still created).
pub open spec fn row_update_fn(row: RowModel) -> spec_fn(PhaseGroup) -> PhaseGroup {
    |g: PhaseGroup|
        if row.phase == "phase_a"@ {
            PhaseGroup { phase_a: Option::Some(row.channels), phase_b: g.phase_b }
        } else if row.phase == "phase_b"@ {
            PhaseGroup { phase_a: g.phase_a, phase_b: Option::Some(row.channels) }
        } else {
            g
        }
}

/// One row folded into the current frame's groups.
pub open spec fn group_insert(
    groups: Seq<(Seq<char>, PhaseGroup)>,
    row: RowModel,
) -> Seq<(Seq<char>, PhaseGroup)> {
    table_upsert(groups, row.stream_name, group_empty(), row_update_fn(row))
}

/// The frame built from the current groups, in first-seen stream order:
/// one entry per stream with a phase A row, named `threephase/<stream>`,
/// phase B duplicated from phase A when absent.
pub open spec fn frame_of_groups(groups: Seq<(Seq<char>, PhaseGroup)>) -> Seq<EntryModel>
    decreases groups.len(),
{
    if groups.len() == 0 {
        Seq::empty()
    } else {
        let prev = frame_of_groups(groups.drop_last());
        let g = groups.last();
        match g.1.phase_a {
            Option::Some(a) => prev.push(
                EntryModel {
                    name: "threephase/"@ + g.0,
                    payload: DataProduct::Calculations(
                        TwoPhaseCalculation {
                            phase_a: Option::Some(a),
                            phase_b: Option::Some(
                                match g.1.phase_b {
                                    Option::Some(b) => b,
                                    Option::None => a,
                                },
                            ),
                        },
                    ),
                },
            ),
            Option::None => prev,
        }
    }
}

/// A new timestamp with work in hand means the previous frame is complete.
pub open spec fn frame_boundary(last_time: Option<i64>, groups_len: nat, t: i64) -> bool {
    last_time matches Some(lt) && lt != t && groups_len > 0
}

/// Accumulates rows into frames, one frame per distinct timestamp run.
pub struct FrameBuilder {
    current: StreamTable<PhaseGroup>,
    last_time: Option<i64>,
}

impl FrameBuilder {
    /// The groups of the frame being assembled.
    pub closed spec fn groups(&self) -> Seq<(Seq<char>, PhaseGroup)> {
        self.current@
    }

    /// The timestamp of the most recently added row.
    pub closed spec fn spec_last_time(&self) -> Option<i64> {
        self.last_time
    }

    /// Stream names within the frame being assembled are unique.
    pub closed spec fn wf(&self) -> bool {
        self.current.wf()
    }

    /// A builder with no rows seen.
    pub fn new() -> (r: FrameBuilder)
        ensures
            r.wf(),
            r.groups() == Seq::<(Seq<char>, PhaseGroup)>::empty(),
            r.spec_last_time() is None,
    {
        FrameBuilder { current: StreamTable::new(), last_time: None }
    }

    /// Adds one row.  If the row's timestamp differs from the previous
    /// row's and a frame is in hand, that frame is completed and returned,
    /// and the row starts the next frame; otherwise the row joins the
    /// current frame.
    pub fn add_row(&mut self, row: &ReplayRow) -> (r: Option<DecodedFrame>)
        requires
            old(self).wf(),
        ensures
            final(self).wf(),
            final(self).spec_last_time() == Option::Some(row.time),
            if frame_boundary(old(self).spec_last_time(), old(self).groups().len(), row.time) {
                &&& r matches Some(f) && f@ == frame_of_groups(old(self).groups())
                &&& final(self).groups() == group_insert(
                    Seq::<(Seq<char>, PhaseGroup)>::empty(),
                    row@,
                )
            } else {
                &&& r is None
                &&& final(self).groups() == group_insert(old(self).groups(), row@)
            },
    {
        let boundary = match self.last_time {
            Some(t) => t != row.time && self.current.len() > 0,
            None => false,
        };
        let flushed = if boundary {
            let f = build_frame(&self.current);
            self.current = StreamTable::new();
            Some(f)
        } else {
            None
        };
        self.last_time = Some(row.time);
        let ghost before = self.current@;
        let ghost f = row_update_fn(row@);
        let channels = build_composite(row);
        let is_a = {
            let label = "phase_a".to_owned();
            row.phase == label
        };
        let is_b = {
            let label = "phase_b".to_owned();
            row.phase == label
        };
        proof {
            self.current.lemma_values();
        }
        match self.current.find_index(&row.stream_name) {
            Some(i) => {
                let (nm, mut group) = self.current.take_at(i);
                if is_a {
                    group.phase_a = Some(channels);
                } else if is_b {
                    group.phase_b = Some(channels);
                }
                self.current.insert_at(i, nm, group);
                proof {
                    lemma_table_upsert_existing(before, row@.stream_name, group_empty(), f, i as int);
                    assert(self.current@ =~= before.update(
                        i as int,
                        (row@.stream_name, f(before[i as int].1)),
                    ));
                }
            },
            None => {
                let mut group = PhaseGroup { phase_a: None, phase_b: None };
                if is_a {
                    group.phase_a = Some(channels);
                } else if is_b {
                    group.phase_b = Some(channels);
                }
                self.current.push(row.stream_name.clone(), group);
                proof {
                    lemma_table_upsert_new(before, row@.stream_name, group_empty(), f);
                }
            },
        }
        flushed
    }

    /// Completes the frame in hand, if any rows are in it.
    pub fn finish(self) -> (r: Option<DecodedFrame>)
        requires
            self.wf(),
        ensures
            self.groups().len() > 0 ==> (r matches Some(f) && f@ == frame_of_groups(
                self.groups(),
            )),
            self.groups().len() == 0 ==> r is None,
    {
        if self.current.len() > 0 {
            Some(build_frame(&self.current))
        } else {
            None
        }
    }
}

/// The grouping state after some rows: the frames already completed, the
/// groups of the frame in hand, and the last timestamp seen.
pub struct GroupModel {
    pub frames: Seq<Seq<EntryModel>>,
    pub current: Seq<(Seq<char>, PhaseGroup)>,
    pub last_time: Option<i64>,
}

/// One row folded into the grouping state: at a frame boundary the frame
/// in hand is completed first, then the row joins the (possibly fresh)
/// current frame.
pub open spec fn group_step(st: GroupModel, row: RowModel) -> GroupModel {
    let flushed = frame_boundary(st.last_time, st.current.len(), row.time);
    let frames = if flushed {
        st.frames.push(frame_of_groups(st.current))
    } else {
        st.frames
    };
    let current = if flushed {
        Seq::<(Seq<char>, PhaseGroup)>::empty()
    } else {
        st.current
    };
    GroupModel {
        frames,
        current: group_insert(current, row),
        last_time: Option::Some(row.time),
    }
}

/// The grouping state after all of `rows`, in order.
pub open spec fn group_fold(rows: Seq<RowModel>) -> GroupModel
    decreases rows.len(),
{
    if rows.len() == 0 {
        GroupModel {
            frames: Seq::empty(),
            current: Seq::empty(),
            last_time: Option::None,
        }
    } else {
        group_step(group_fold(rows.drop_last()), rows.last())
    }
}

/// All frames produced from `rows`: every timestamp run becomes one frame,
/// including the last.
pub open spec fn replay_frames(rows: Seq<RowModel>) -> Seq<Seq<EntryModel>> {
    let st = group_fold(rows);
    if st.current.len() > 0 {
        st.frames.push(frame_of_groups(st.current))
    } else {
        st.frames
    }
}

/// Groups a time-ordered recording into frames, one per timestamp run.
pub fn group_rows(rows: &Vec<ReplayRow>) -> (r: Vec<DecodedFrame>)
    ensures
        r.deep_view() == replay_frames(rows.deep_view()),
{
    let n = rows.len();
    let mut builder = FrameBuilder::new();
    let mut frames: Vec<DecodedFrame> = Vec::new();
    let mut i: usize = 0;
    proof {
        assert(rows.deep_view().take(0) =~= Seq::<RowModel>::empty());
        assert(frames.deep_view() =~= Seq::<Seq<EntryModel>>::empty());
    }
    while i < n
        invariant
            0 <= i <= n,
            n == rows@.len(),
            rows.deep_view().len() == rows@.len(),
            builder.wf(),
            frames.deep_view() == group_fold(rows.deep_view().take(i as int)).frames,
            builder.groups() == group_fold(rows.deep_view().take(i as int)).current,
            builder.spec_last_time() == group_fold(rows.deep_view().take(i as int)).last_time,
        decreases n - i,
    {
        let row = rows.index(i);
        proof {
            assert(rows.deep_view().take(i + 1).drop_last() =~= rows.deep_view().take(i as int));
            assert(rows.deep_view().take(i + 1).last() == rows.deep_view()[i as int]);
            assert(rows.deep_view()[i as int] == row@);
        }
        let ghost prev = frames.deep_view();
        match builder.add_row(row) {
            Some(f) => {
                frames.push(f);
                proof {
                    assert(frames.deep_view() =~= prev.push(f@));
                }
            },
            None => {},
        }
        i = i + 1;
    }
    proof {
        assert(rows.deep_view().take(n as int) =~= rows.deep_view());
    }
    let ghost prev = frames.deep_view();
    match builder.finish() {
        Some(f) => {
            frames.push(f);
            proof {
                assert(frames.deep_view() =~= prev.push(f@));
            }
        },
        None => {},
    }
    frames
}

/// Builds one decoded frame from a set of per-stream groups.
pub fn build_frame(groups: &StreamTable<PhaseGroup>) -> (r: DecodedFrame)
    ensures
        r@ == frame_of_groups(groups@),
{
    let n = groups.len();
    let mut calculations: Vec<CalculationEntry> = Vec::new();
    let mut i: usize = 0;
    assert(groups@.take(0) =~= Seq::<(Seq<char>, PhaseGroup)>::empty());
    assert(calculations.deep_view() =~= frame_of_groups(groups@.take(0)));
    while i < n
        invariant
            0 <= i <= n,
            n == groups@.len(),
            calculations.deep_view() == frame_of_groups(groups@.take(i as int)),
        decreases n - i,
    {
        let (stream, group) = groups.entry_at(i);
        proof {
            assert(groups@.take(i + 1).drop_last() =~= groups@.take(i as int));
            assert(groups@.take(i + 1).last() == groups@[i as int]);
        }
        match group.phase_a {
            Some(a) => {
                let phase_b = match group.phase_b {
                    Some(b) => b,
                    None => a,
                };
                let mut name = "threephase/".to_owned();
                name.append(stream.as_str());
                let entry = CalculationEntry {
                    name,
                    payload: DataProduct::Calculations(
                        TwoPhaseCalculation { phase_a: Some(a), phase_b: Some(phase_b) },
                    ),
                };
                let ghost prev = calculations.deep_view();
                calculations.push(entry);
                proof {
                    assert(calculations.deep_view() =~= prev.push(entry@));
                }
            },
            None => {},
        }
        i = i + 1;
    }
    proof {
        assert(groups@.take(n as int) =~= groups@);
    }
    DecodedFrame { calculations }
}

} // verus!
