use power_stats::archive::archive_frame;
use power_stats::frame::{
    CalculationEntry, DataProduct, DecodedFrame, PhaseCalculation, TwoPhaseCalculation,
};
use power_stats::replay::{group_rows, ReplayRow};

fn phase(real_power: i64, reactive_power: i64) -> PhaseCalculation {
    PhaseCalculation {
        rms_voltage: 2300,
        dc_offset_voltage: 1,
        rms_current: 150,
        dc_offset_current: -2,
        real_power,
        apparent_power: real_power + 10,
        reactive_power,
        power_factor: 990,
    }
}

fn two_phase(a: PhaseCalculation, b: PhaseCalculation) -> DataProduct {
    DataProduct::Calculations(TwoPhaseCalculation {
        phase_a: Some(a),
        phase_b: Some(b),
    })
}

fn row(time: i64, stream: &str, phase_label: &str, real_power: i64) -> ReplayRow {
    ReplayRow {
        time,
        stream_name: stream.to_string(),
        phase: phase_label.to_string(),
        rms_voltage: 2300,
        dc_offset_voltage: 1,
        rms_current: 150,
        dc_offset_current: -2,
        real_power,
        apparent_power: real_power + 10,
        reactive_power: 4,
        power_factor: 990,
        sequence_number: None,
    }
}

#[test]
fn rows_of_one_timestamp_form_one_frame() {
    let rows = vec![
        row(1000, "s1", "phase_a", 100),
        row(1000, "s1", "phase_b", 10),
        row(1000, "s2", "phase_a", 50),
        row(2000, "s1", "phase_a", 200),
    ];
    let frames = group_rows(&rows);
    assert_eq!(frames.len(), 2);
    assert_eq!(frames[0].calculations.len(), 2);
    assert_eq!(frames[0].calculations[0].name, "threephase/s1");
    assert_eq!(frames[0].calculations[1].name, "threephase/s2");
    assert_eq!(frames[1].calculations.len(), 1);
    assert_eq!(frames[1].calculations[0].name, "threephase/s1");
}

#[test]
fn missing_phase_b_is_duplicated_from_phase_a() {
    let rows = vec![row(1000, "solo", "phase_a", 77)];
    let frames = group_rows(&rows);
    assert_eq!(frames.len(), 1);
    let entry = &frames[0].calculations[0];
    match entry.payload {
        DataProduct::Calculations(t) => {
            let a = t.phase_a.unwrap();
            let b = t.phase_b.unwrap();
            assert_eq!(a.real_power, 77);
            assert_eq!(b, a);
        }
        DataProduct::Unrecognized => panic!("expected a two-phase payload"),
    }
}

#[test]
fn both_phases_are_kept_apart_when_present() {
    let rows = vec![
        row(1000, "s1", "phase_a", 100),
        row(1000, "s1", "phase_b", 10),
    ];
    let frames = group_rows(&rows);
    let entry = &frames[0].calculations[0];
    match entry.payload {
        DataProduct::Calculations(t) => {
            assert_eq!(t.phase_a.unwrap().real_power, 100);
            assert_eq!(t.phase_b.unwrap().real_power, 10);
        }
        DataProduct::Unrecognized => panic!("expected a two-phase payload"),
    }
}

#[test]
fn unknown_phase_label_contributes_no_channel_data() {
    let rows = vec![row(1000, "s1", "phase_q", 100)];
    let frames = group_rows(&rows);
    // the stream was seen but no phase A row exists, so the frame is empty
    assert_eq!(frames.len(), 1);
    assert_eq!(frames[0].calculations.len(), 0);
}

#[test]
fn no_rows_no_frames() {
    let frames = group_rows(&vec![]);
    assert_eq!(frames.len(), 0);
}

#[test]
fn archive_holds_channel_values_and_frame_totals() {
    let frame = DecodedFrame {
        calculations: vec![
            CalculationEntry {
                name: "a".to_string(),
                payload: two_phase(phase(100, 7), phase(10, 3)),
            },
            CalculationEntry {
                name: "b".to_string(),
                payload: two_phase(phase(50, 2), phase(5, 1)),
            },
        ],
    };
    let records = archive_frame(&frame);
    assert_eq!(records.len(), 2);
    let (name, calc) = records.entry_at(0);
    assert_eq!(name, "a");
    assert_eq!(calc.phase_a.real_power, 100);
    assert_eq!(calc.phase_a.rms_voltage, 2300);
    assert_eq!(calc.phase_a.three_phase_real_power, 150);
    assert_eq!(calc.phase_a.three_phase_reactive_power, 9);
    assert_eq!(calc.phase_b.real_power, 10);
    assert_eq!(calc.phase_b.three_phase_real_power, 15);
    assert_eq!(calc.phase_b.three_phase_reactive_power, 4);
    let (name2, calc2) = records.entry_at(1);
    assert_eq!(name2, "b");
    // the frame-wide totals are shared by every record of the frame
    assert_eq!(calc2.phase_a.three_phase_real_power, 150);
    assert_eq!(calc2.phase_a.real_power, 50);
}

#[test]
fn archive_skips_non_aggregable_entries() {
    let frame = DecodedFrame {
        calculations: vec![
            CalculationEntry {
                name: "ok".to_string(),
                payload: two_phase(phase(1, 1), phase(1, 1)),
            },
            CalculationEntry {
                name: "other".to_string(),
                payload: DataProduct::Unrecognized,
            },
            CalculationEntry {
                name: "broken".to_string(),
                payload: DataProduct::Calculations(TwoPhaseCalculation {
                    phase_a: Some(phase(1, 1)),
                    phase_b: None,
                }),
            },
        ],
    };
    let records = archive_frame(&frame);
    assert_eq!(records.len(), 1);
    let (name, _) = records.entry_at(0);
    assert_eq!(name, "ok");
}

#[test]
fn archive_later_entry_with_same_name_wins() {
    let frame = DecodedFrame {
        calculations: vec![
            CalculationEntry {
                name: "x".to_string(),
                payload: two_phase(phase(1, 0), phase(1, 0)),
            },
            CalculationEntry {
                name: "x".to_string(),
                payload: two_phase(phase(2, 0), phase(2, 0)),
            },
        ],
    };
    let records = archive_frame(&frame);
    assert_eq!(records.len(), 1);
    let (_, calc) = records.entry_at(0);
    assert_eq!(calc.phase_a.real_power, 2);
}
