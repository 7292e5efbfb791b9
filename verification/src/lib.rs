//! Streaming aggregation engine for power-quality measurements.
//!
//! The engine consumes decoded measurement frames — one calculation entry per
//! monitored stream, each entry carrying a two-phase set of nine scalar
//! channels — and maintains per-stream, per-phase sliding-window statistics
//! plus a frame-wide three-phase power rollup.
//!
//! All samples are fixed-point readings: an `i64` carrying the measured value
//! in scaled units chosen by the caller (for instance milliwatts).  Callers
//! that measure in floating point convert at the boundary before handing
//! values to the engine.

pub mod args;
pub mod archive;
pub mod bucket;
pub mod channels;
pub mod dispatch;
pub mod frame;
pub mod registry;
pub mod replay;
pub mod table;
pub mod three_phase;
