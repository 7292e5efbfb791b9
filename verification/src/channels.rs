//! Channel set: the nine named windows tracked for one phase of one stream.

use crate::bucket::{
    bucket_stats_model, lemma_two_pushes, push_model, window_of, Bucket, BucketSnapshot,
    DEFAULT_CAPACITY,
};
use crate::frame::PhaseCalculation;
use vstd::prelude::*;

verus! {

/// The contents of the nine windows of one channel set.
pub struct ChannelsModel {
    pub rms_voltage: Seq<i64>,
    pub dc_offset_voltage: Seq<i64>,
    pub rms_current: Seq<i64>,
    pub dc_offset_current: Seq<i64>,
    pub real_power: Seq<i64>,
    pub apparent_power: Seq<i64>,
    pub reactive_power: Seq<i64>,
    pub power_factor: Seq<i64>,
    pub active_power: Seq<i64>,
}

/// Nine empty windows.
pub open spec fn channels_empty() -> ChannelsModel {
    ChannelsModel {
        rms_voltage: Seq::empty(),
        dc_offset_voltage: Seq::empty(),
        rms_current: Seq::empty(),
        dc_offset_current: Seq::empty(),
        real_power: Seq::empty(),
        apparent_power: Seq::empty(),
        reactive_power: Seq::empty(),
        power_factor: Seq::empty(),
        active_power: Seq::empty(),
    }
}

/// One phase calculation pushed into a channel set of capacity `cap`: each
/// scalar goes into its own window, and `real_power` additionally feeds the
/// derived `active_power` window.
pub open spec fn channels_apply_model(m: ChannelsModel, cap: nat, p: PhaseCalculation) -> ChannelsModel {
    ChannelsModel {
        rms_voltage: push_model(m.rms_voltage, cap, p.rms_voltage),
        dc_offset_voltage: push_model(m.dc_offset_voltage, cap, p.dc_offset_voltage),
        rms_current: push_model(m.rms_current, cap, p.rms_current),
        dc_offset_current: push_model(m.dc_offset_current, cap, p.dc_offset_current),
        real_power: push_model(m.real_power, cap, p.real_power),
        apparent_power: push_model(m.apparent_power, cap, p.apparent_power),
        reactive_power: push_model(m.reactive_power, cap, p.reactive_power),
        power_factor: push_model(m.power_factor, cap, p.power_factor),
        active_power: push_model(m.active_power, cap, p.real_power),
    }
}

/// Every channel's window is no longer than `cap`.
pub open spec fn channels_within_capacity(m: ChannelsModel, cap: nat) -> bool {
    &&& m.rms_voltage.len() <= cap
    &&& m.dc_offset_voltage.len() <= cap
    &&& m.rms_current.len() <= cap
    &&& m.dc_offset_current.len() <= cap
    &&& m.real_power.len() <= cap
    &&& m.apparent_power.len() <= cap
    &&& m.reactive_power.len() <= cap
    &&& m.power_factor.len() <= cap
    &&& m.active_power.len() <= cap
}

/// Frame independence, per channel set: applying two phase calculations in
/// sequence pushes two separate samples into every one of the nine windows
/// — one per application, never a batch — with the derived `active_power`
/// window fed from `real_power`.
pub proof fn lemma_channels_two_applies(
    m: ChannelsModel,
    cap: nat,
    p1: PhaseCalculation,
    p2: PhaseCalculation,
)
    requires
        1 <= cap,
        channels_within_capacity(m, cap),
    ensures
        ({
            let r = channels_apply_model(channels_apply_model(m, cap, p1), cap, p2);
            &&& r.rms_voltage == window_of(m.rms_voltage + seq![p1.rms_voltage, p2.rms_voltage], cap)
            &&& r.dc_offset_voltage == window_of(
                m.dc_offset_voltage + seq![p1.dc_offset_voltage, p2.dc_offset_voltage],
                cap,
            )
            &&& r.rms_current == window_of(m.rms_current + seq![p1.rms_current, p2.rms_current], cap)
            &&& r.dc_offset_current == window_of(
                m.dc_offset_current + seq![p1.dc_offset_current, p2.dc_offset_current],
                cap,
            )
            &&& r.real_power == window_of(m.real_power + seq![p1.real_power, p2.real_power], cap)
            &&& r.apparent_power == window_of(
                m.apparent_power + seq![p1.apparent_power, p2.apparent_power],
                cap,
            )
            &&& r.reactive_power == window_of(
                m.reactive_power + seq![p1.reactive_power, p2.reactive_power],
                cap,
            )
            &&& r.power_factor == window_of(
                m.power_factor + seq![p1.power_factor, p2.power_factor],
                cap,
            )
            &&& r.active_power == window_of(
                m.active_power + seq![p1.real_power, p2.real_power],
                cap,
            )
        }),
{
    lemma_two_pushes(m.rms_voltage, cap, p1.rms_voltage, p2.rms_voltage);
    lemma_two_pushes(m.dc_offset_voltage, cap, p1.dc_offset_voltage, p2.dc_offset_voltage);
    lemma_two_pushes(m.rms_current, cap, p1.rms_current, p2.rms_current);
    lemma_two_pushes(m.dc_offset_current, cap, p1.dc_offset_current, p2.dc_offset_current);
    lemma_two_pushes(m.real_power, cap, p1.real_power, p2.real_power);
    lemma_two_pushes(m.apparent_power, cap, p1.apparent_power, p2.apparent_power);
    lemma_two_pushes(m.reactive_power, cap, p1.reactive_power, p2.reactive_power);
    lemma_two_pushes(m.power_factor, cap, p1.power_factor, p2.power_factor);
    lemma_two_pushes(m.active_power, cap, p1.real_power, p2.real_power);
}

/// The reducer outputs of all nine channels of one phase, for export.
#[derive(Clone, Copy, PartialEq, Eq, Debug)]
pub struct ChannelSetSnapshot {
    pub rms_voltage: BucketSnapshot,
    pub dc_offset_voltage: BucketSnapshot,
    pub rms_current: BucketSnapshot,
    pub dc_offset_current: BucketSnapshot,
    pub real_power: BucketSnapshot,
    pub apparent_power: BucketSnapshot,
    pub reactive_power: BucketSnapshot,
    pub power_factor: BucketSnapshot,
    pub active_power: BucketSnapshot,
}

/// What a snapshot of a channel set holding `m` reports.
pub open spec fn channels_stats_model(m: ChannelsModel) -> ChannelSetSnapshot {
    ChannelSetSnapshot {
        rms_voltage: bucket_stats_model(m.rms_voltage),
        dc_offset_voltage: bucket_stats_model(m.dc_offset_voltage),
        rms_current: bucket_stats_model(m.rms_current),
        dc_offset_current: bucket_stats_model(m.dc_offset_current),
        real_power: bucket_stats_model(m.real_power),
        apparent_power: bucket_stats_model(m.apparent_power),
        reactive_power: bucket_stats_model(m.reactive_power),
        power_factor: bucket_stats_model(m.power_factor),
        active_power: bucket_stats_model(m.active_power),
    }
}

/// The nine windows for one phase of one stream, all of one capacity.
pub struct MeasurementBuckets {
    rms_voltage: Bucket,
    dc_offset_voltage: Bucket,
    rms_current: Bucket,
    dc_offset_current: Bucket,
    real_power: Bucket,
    apparent_power: Bucket,
    reactive_power: Bucket,
    power_factor: Bucket,
    active_power: Bucket,
}

impl View for MeasurementBuckets {
    type V = ChannelsModel;

    closed spec fn view(&self) -> ChannelsModel {
        ChannelsModel {
            rms_voltage: self.rms_voltage@,
            dc_offset_voltage: self.dc_offset_voltage@,
            rms_current: self.rms_current@,
            dc_offset_current: self.dc_offset_current@,
            real_power: self.real_power@,
            apparent_power: self.apparent_power@,
            reactive_power: self.reactive_power@,
            power_factor: self.power_factor@,
            active_power: self.active_power@,
        }
    }
}

impl MeasurementBuckets {
    /// All nine windows retain at most this many samples.
    pub closed spec fn spec_capacity(&self) -> nat {
        self.rms_voltage.spec_capacity()
    }

    /// Every window is well formed and they all share one capacity.
    pub closed spec fn wf(&self) -> bool {
        &&& self.rms_voltage.wf()
        &&& self.dc_offset_voltage.wf()
        &&& self.rms_current.wf()
        &&& self.dc_offset_current.wf()
        &&& self.real_power.wf()
        &&& self.apparent_power.wf()
        &&& self.reactive_power.wf()
        &&& self.power_factor.wf()
        &&& self.active_power.wf()
        &&& self.dc_offset_voltage.spec_capacity() == self.spec_capacity()
        &&& self.rms_current.spec_capacity() == self.spec_capacity()
        &&& self.dc_offset_current.spec_capacity() == self.spec_capacity()
        &&& self.real_power.spec_capacity() == self.spec_capacity()
        &&& self.apparent_power.spec_capacity() == self.spec_capacity()
        &&& self.reactive_power.spec_capacity() == self.spec_capacity()
        &&& self.power_factor.spec_capacity() == self.spec_capacity()
        &&& self.active_power.spec_capacity() == self.spec_capacity()
    }

    /// Nine empty windows of capacity `capacity`.
    pub fn new(capacity: usize) -> (r: MeasurementBuckets)
        requires
            capacity >= 1,
        ensures
            r.wf(),
            r@ == channels_empty(),
            r.spec_capacity() == capacity,
    {
        let r = MeasurementBuckets {
            rms_voltage: Bucket::new(capacity),
            dc_offset_voltage: Bucket::new(capacity),
            rms_current: Bucket::new(capacity),
            dc_offset_current: Bucket::new(capacity),
            real_power: Bucket::new(capacity),
            apparent_power: Bucket::new(capacity),
            reactive_power: Bucket::new(capacity),
            power_factor: Bucket::new(capacity),
            active_power: Bucket::new(capacity),
        };
        proof {
            assert(r@ =~= channels_empty());
        }
        r
    }

    /// Pushes each of the nine scalars of `p` into its window.  No error
    /// conditions: a well-formed channel set always accepts a calculation.
    pub fn apply(&mut self, p: &PhaseCalculation)
        requires
            old(self).wf(),
        ensures
            final(self).wf(),
            final(self).spec_capacity() == old(self).spec_capacity(),
            final(self)@ == channels_apply_model(old(self)@, old(self).spec_capacity(), *p),
    {
        self.rms_voltage.push(p.rms_voltage);
        self.dc_offset_voltage.push(p.dc_offset_voltage);
        self.rms_current.push(p.rms_current);
        self.dc_offset_current.push(p.dc_offset_current);
        self.real_power.push(p.real_power);
        self.apparent_power.push(p.apparent_power);
        self.reactive_power.push(p.reactive_power);
        self.power_factor.push(p.power_factor);
        self.active_power.push(p.real_power);
    }

    /// The current reducer outputs of all nine windows.
    pub fn snapshot(&self) -> (r: ChannelSetSnapshot)
        ensures
            r == channels_stats_model(self@),
    {
        ChannelSetSnapshot {
            rms_voltage: self.rms_voltage.stats(),
            dc_offset_voltage: self.dc_offset_voltage.stats(),
            rms_current: self.rms_current.stats(),
            dc_offset_current: self.dc_offset_current.stats(),
            real_power: self.real_power.stats(),
            apparent_power: self.apparent_power.stats(),
            reactive_power: self.reactive_power.stats(),
            power_factor: self.power_factor.stats(),
            active_power: self.active_power.stats(),
        }
    }
}

impl Default for MeasurementBuckets {
    /// Nine empty windows of the default capacity.
    fn default() -> (r: MeasurementBuckets)
        ensures
            r.wf(),
            r@ == channels_empty(),
            r.spec_capacity() == DEFAULT_CAPACITY,
    {
        MeasurementBuckets::new(DEFAULT_CAPACITY)
    }
}

} // verus!
