use power_stats::dispatch::{process_frame, sat_add};
use power_stats::frame::{
    CalculationEntry, DataProduct, DecodedFrame, PhaseCalculation, TwoPhaseCalculation,
};
use power_stats::registry::{AllMeasurements, ApplyOutcome};
use power_stats::three_phase::{AllThreePhase, RollupSample};

fn phase(real_power: i64, reactive_power: i64) -> PhaseCalculation {
    PhaseCalculation {
        rms_voltage: 2300,
        dc_offset_voltage: 1,
        rms_current: 150,
        dc_offset_current: -2,
        real_power,
        apparent_power: real_power + 10,
        reactive_power,
        power_factor: 990,
    }
}

fn two_phase(a: PhaseCalculation, b: PhaseCalculation) -> DataProduct {
    DataProduct::Calculations(TwoPhaseCalculation {
        phase_a: Some(a),
        phase_b: Some(b),
    })
}

#[test]
fn registry_lazy_creation_no_duplicate() {
    let mut reg = AllMeasurements::new();
    assert_eq!(reg.len(), 0);
    let payload = two_phase(phase(100, 7), phase(10, 3));
    assert_eq!(reg.apply("alpha", payload), ApplyOutcome::Applied);
    assert_eq!(reg.len(), 1);
    assert_eq!(reg.apply("alpha", payload), ApplyOutcome::Applied);
    assert_eq!(reg.len(), 1);
    assert_eq!(reg.apply("beta", payload), ApplyOutcome::Applied);
    assert_eq!(reg.len(), 2);
}

#[test]
fn unknown_variant_is_a_no_op() {
    let mut reg = AllMeasurements::new();
    reg.apply("alpha", two_phase(phase(100, 7), phase(10, 3)));
    let before = reg.snapshot_for("alpha").unwrap();
    assert_eq!(reg.apply("alpha", DataProduct::Unrecognized), ApplyOutcome::Ignored);
    assert_eq!(reg.apply("gamma", DataProduct::Unrecognized), ApplyOutcome::Ignored);
    assert_eq!(reg.len(), 1);
    let after = reg.snapshot_for("alpha").unwrap();
    assert_eq!(before, after);
}

#[test]
fn malformed_entry_is_skipped_not_fatal() {
    let mut reg = AllMeasurements::new();
    let missing_b = DataProduct::Calculations(TwoPhaseCalculation {
        phase_a: Some(phase(1, 1)),
        phase_b: None,
    });
    assert_eq!(reg.apply("alpha", missing_b), ApplyOutcome::Malformed);
    assert_eq!(reg.len(), 0);
    assert!(reg.snapshot_for("alpha").is_none());
}

#[test]
fn registry_routes_channels_per_phase() {
    let mut reg = AllMeasurements::new();
    reg.apply("alpha", two_phase(phase(100, 7), phase(10, 3)));
    let (a, b) = reg.snapshot_for("alpha").unwrap();
    assert_eq!(a.real_power.latest, Some(100));
    assert_eq!(a.active_power.latest, Some(100));
    assert_eq!(a.reactive_power.latest, Some(7));
    assert_eq!(a.rms_voltage.latest, Some(2300));
    assert_eq!(a.apparent_power.latest, Some(110));
    assert_eq!(b.real_power.latest, Some(10));
    assert_eq!(b.reactive_power.latest, Some(3));
}

#[test]
fn snapshot_for_unseen_stream_is_none() {
    let reg = AllMeasurements::new();
    assert!(reg.snapshot_for("nobody").is_none());
}

#[test]
fn three_phase_summation_single_push_per_frame() {
    let mut reg = AllMeasurements::new();
    let mut rollup = AllThreePhase::new();
    let frame = DecodedFrame {
        calculations: vec![
            CalculationEntry {
                name: "s1".to_string(),
                payload: two_phase(phase(100, 7), phase(10, 3)),
            },
            CalculationEntry {
                name: "s2".to_string(),
                payload: two_phase(phase(50, 2), phase(5, 1)),
            },
        ],
    };
    let report = process_frame(&mut reg, &mut rollup, "topic", &frame);
    assert_eq!(report.applied, 2);
    let s = rollup.snapshot_for("topic").unwrap();
    // one push holding the frame-wide sums, not four separate pushes
    assert_eq!(s.real_a.latest, Some(150));
    assert_eq!(s.real_a.average, Some(150));
    assert_eq!(s.real_a.peak, Some(150));
    assert_eq!(s.real_a.trough, Some(150));
    assert_eq!(s.real_b.latest, Some(15));
    assert_eq!(s.real_b.average, Some(15));
    assert_eq!(s.reactive_a.latest, Some(9));
    assert_eq!(s.reactive_b.latest, Some(4));
}

#[test]
fn frame_independence_two_frames_two_pushes() {
    let mut reg = AllMeasurements::new();
    let mut rollup = AllThreePhase::new();
    let frame1 = DecodedFrame {
        calculations: vec![CalculationEntry {
            name: "s1".to_string(),
            payload: two_phase(phase(100, 0), phase(10, 0)),
        }],
    };
    let frame2 = DecodedFrame {
        calculations: vec![CalculationEntry {
            name: "s1".to_string(),
            payload: two_phase(phase(200, 0), phase(20, 0)),
        }],
    };
    process_frame(&mut reg, &mut rollup, "topic", &frame1);
    process_frame(&mut reg, &mut rollup, "topic", &frame2);
    let s = rollup.snapshot_for("topic").unwrap();
    // two samples: 100 then 200
    assert_eq!(s.real_a.latest, Some(200));
    assert_eq!(s.real_a.peak, Some(200));
    assert_eq!(s.real_a.trough, Some(100));
    assert_eq!(s.real_a.average, Some(150));
    // the per-stream windows also grew by exactly one sample per frame
    let (a, _b) = reg.snapshot_for("s1").unwrap();
    assert_eq!(a.real_power.trough, Some(100));
    assert_eq!(a.real_power.peak, Some(200));
    assert_eq!(a.real_power.average, Some(150));
}

#[test]
fn dispatch_counts_every_disposition() {
    let mut reg = AllMeasurements::new();
    let mut rollup = AllThreePhase::new();
    let frame = DecodedFrame {
        calculations: vec![
            CalculationEntry {
                name: "good".to_string(),
                payload: two_phase(phase(1, 1), phase(1, 1)),
            },
            CalculationEntry {
                name: "other".to_string(),
                payload: DataProduct::Unrecognized,
            },
            CalculationEntry {
                name: "broken".to_string(),
                payload: DataProduct::Calculations(TwoPhaseCalculation {
                    phase_a: None,
                    phase_b: Some(phase(1, 1)),
                }),
            },
        ],
    };
    let report = process_frame(&mut reg, &mut rollup, "topic", &frame);
    assert_eq!(report.applied, 1);
    assert_eq!(report.ignored, 1);
    assert_eq!(report.malformed, 1);
    assert_eq!(reg.len(), 1);
    assert!(reg.snapshot_for("broken").is_none());
}

#[test]
fn empty_frame_still_records_zero_totals() {
    let mut reg = AllMeasurements::new();
    let mut rollup = AllThreePhase::new();
    let frame = DecodedFrame { calculations: vec![] };
    process_frame(&mut reg, &mut rollup, "topic", &frame);
    let s = rollup.snapshot_for("topic").unwrap();
    assert_eq!(s.real_a.latest, Some(0));
    assert_eq!(s.reactive_b.latest, Some(0));
    assert_eq!(reg.len(), 0);
}

#[test]
fn rollup_snapshot_all_lists_each_key() {
    let mut rollup = AllThreePhase::new();
    rollup.apply_and_update(
        "east",
        RollupSample { real_a: 1, reactive_a: 2, real_b: 3, reactive_b: 4 },
    );
    rollup.apply_and_update(
        "west",
        RollupSample { real_a: 5, reactive_a: 6, real_b: 7, reactive_b: 8 },
    );
    let all = rollup.snapshot_all();
    assert_eq!(all.len(), 2);
    assert_eq!(all[0].0, "east");
    assert_eq!(all[0].1.real_a.latest, Some(1));
    assert_eq!(all[1].0, "west");
    assert_eq!(all[1].1.reactive_b.latest, Some(8));
}

#[test]
fn registry_snapshot_all_lists_each_stream() {
    let mut reg = AllMeasurements::new();
    reg.apply("alpha", two_phase(phase(100, 7), phase(10, 3)));
    reg.apply("beta", two_phase(phase(50, 2), phase(5, 1)));
    let all = reg.snapshot_all();
    assert_eq!(all.len(), 2);
    assert_eq!(all[0].name, "alpha");
    assert_eq!(all[0].phase_a.real_power.latest, Some(100));
    assert_eq!(all[1].name, "beta");
    assert_eq!(all[1].phase_b.real_power.latest, Some(5));
}

#[test]
fn saturating_addition_clamps_at_the_bounds() {
    assert_eq!(sat_add(i64::MAX, 1), i64::MAX);
    assert_eq!(sat_add(i64::MIN, -1), i64::MIN);
    assert_eq!(sat_add(40, 2), 42);
    assert_eq!(sat_add(i64::MAX, i64::MIN), -1);
}
