//! The decoded-entry contract: the shapes a transport collaborator hands to
//! the aggregation engine, already decoded from the wire.
//!
//! Every scalar is a fixed-point reading (`i64` in caller-chosen scaled
//! units).  A frame is an ordered sequence of named calculation entries; the
//! engine consumes it fully and keeps no reference to it afterwards.

use vstd::prelude::*;

verus! {

/// The nine scalar channels measured for one phase of one stream.
///
/// `active_power` is a derived alias of `real_power` and is therefore not a
/// field here; the channel set tracks it as a separate window fed from
/// `real_power`.
#[derive(Clone, Copy, PartialEq, Eq, Structural, Debug)]
pub struct PhaseCalculation {
    pub rms_voltage: i64,
    pub dc_offset_voltage: i64,
    pub rms_current: i64,
    pub dc_offset_current: i64,
    pub real_power: i64,
    pub apparent_power: i64,
    pub reactive_power: i64,
    pub power_factor: i64,
}

/// A two-phase calculation product.  Both phases are required for the entry
/// to be aggregable; an absent phase makes the entry malformed (a local,
/// non-fatal failure), never a crash.
#[derive(Clone, Copy, PartialEq, Eq, Structural, Debug)]
pub struct TwoPhaseCalculation {
    pub phase_a: Option<PhaseCalculation>,
    pub phase_b: Option<PhaseCalculation>,
}

/// The payload of a calculation entry, polymorphic over calculation
/// products.  Only the two-phase variant carries data the engine
/// understands; any other product is recognized but ignored.
#[derive(Clone, Copy, PartialEq, Eq, Structural, Debug)]
pub enum DataProduct {
    Calculations(TwoPhaseCalculation),
    Unrecognized,
}

/// A named calculation result within a frame.
pub struct CalculationEntry {
    pub name: String,
    pub payload: DataProduct,
}

/// The view of an entry: its name as a character sequence, with the payload
/// as it stands.
pub struct EntryModel {
    pub name: Seq<char>,
    pub payload: DataProduct,
}

impl View for CalculationEntry {
    type V = EntryModel;

    open spec fn view(&self) -> EntryModel {
        EntryModel { name: self.name@, payload: self.payload }
    }
}

impl DeepView for CalculationEntry {
    type V = EntryModel;

    open spec fn deep_view(&self) -> EntryModel {
        self@
    }
}

/// One decoded unit of transport input: zero or more calculation entries.
pub struct DecodedFrame {
    pub calculations: Vec<CalculationEntry>,
}

impl View for DecodedFrame {
    type V = Seq<EntryModel>;

    open spec fn view(&self) -> Seq<EntryModel> {
        self.calculations.deep_view()
    }
}

impl DeepView for DecodedFrame {
    type V = Seq<EntryModel>;

    open spec fn deep_view(&self) -> Seq<EntryModel> {
        self@
    }
}

/// A payload can be aggregated only if it is the two-phase variant with
/// both phases present.
pub open spec fn payload_aggregable(p: DataProduct) -> bool {
    &&& p matches DataProduct::Calculations(t)
    &&& t.phase_a is Some
    &&& t.phase_b is Some
}

/// The two phases of an aggregable payload.
pub open spec fn payload_phases(p: DataProduct) -> (PhaseCalculation, PhaseCalculation)
    recommends
        payload_aggregable(p),
{
    (p->Calculations_0.phase_a->Some_0, p->Calculations_0.phase_b->Some_0)
}

} // verus!
