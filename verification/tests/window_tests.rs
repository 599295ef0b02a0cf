use kickmess::window::{FrameTimeMeasurement, FrameTimeStats};

#[test]
fn measurement_starts_empty() {
    let mut m = FrameTimeMeasurement::new("img");
    assert_eq!(m.label(), "img");
    assert_eq!(m.end_measure(), None);
}

#[test]
fn report_after_a_full_ring() {
    let mut m = FrameTimeMeasurement::new("redraw");
    // Slot 0 keeps its initial zero; 59 durations fill slots 1..59.
    for i in 1..60u128 {
        assert_eq!(m.record_duration(i * 10), None);
    }
    // The ring is full now: the next duration reports it and wraps.
    let stats = m.record_duration(7).unwrap();
    let sum: u128 = (1..60u128).map(|i| i * 10).sum();
    assert_eq!(stats, FrameTimeStats { min: 0, max: 590, avg: sum / 60 });
    for _ in 1..60 {
        assert_eq!(m.record_duration(1000), None);
    }
    let stats = m.record_duration(1).unwrap();
    assert_eq!(stats.min, 7);
    assert_eq!(stats.max, 1000);
}

#[test]
fn minimum_is_capped() {
    let mut m = FrameTimeMeasurement::new("x");
    for _ in 0..60 {
        m.record_duration(200_000_000);
    }
    let mut last = None;
    for _ in 0..60 {
        if let Some(s) = m.record_duration(200_000_000) {
            last = Some(s);
        }
    }
    let s = last.unwrap();
    assert_eq!(s.min, 99_999_999);
    assert_eq!(s.max, 200_000_000);
    assert_eq!(s.avg, 200_000_000);
}

#[test]
fn measuring_records_one_slot() {
    let mut m = FrameTimeMeasurement::new("frame");
    m.start_measure();
    assert_eq!(m.end_measure(), None);
    // A second end without a start records nothing.
    assert_eq!(m.end_measure(), None);
    for _ in 2..60 {
        m.start_measure();
        assert_eq!(m.end_measure(), None);
    }
    m.start_measure();
    assert!(m.end_measure().is_some());
}
