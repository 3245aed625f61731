use conus::engine::{Generator, SinkError};
use conus::sink::{FailingSink, MemorySink};

#[test]
fn failing_sink_halts_generation_at_its_index() {
    let mut g = Generator::new(30, 4).unwrap();
    g.init();
    let mut sink = FailingSink::new(2);
    let result = g.generate(&mut sink);
    assert_eq!(result, Err(SinkError { row_index: 2 }));
    // rows 0 and 1 were accepted; the call for row 2 failed; no call came
    // for any row index greater than 2
    assert_eq!(sink.calls, vec![0, 1, 2]);
    assert_eq!(sink.rows.len(), 2);

    let mut g2 = Generator::new(30, 4).unwrap();
    g2.init();
    let mut all = MemorySink::new();
    g2.generate(&mut all).unwrap();
    assert_eq!(sink.rows[..], all.rows[..2]);
}

#[test]
fn sink_failure_on_first_row_accepts_nothing() {
    let mut g = Generator::new(110, 3).unwrap();
    g.init();
    let mut sink = FailingSink::new(0);
    let result = g.generate(&mut sink);
    assert_eq!(result, Err(SinkError { row_index: 0 }));
    assert_eq!(sink.calls, vec![0]);
    assert!(sink.rows.is_empty());
}

#[test]
fn sink_that_never_fails_sees_every_row_in_order() {
    let mut g = Generator::new(110, 3).unwrap();
    g.init();
    let mut sink = FailingSink::new(100);
    g.generate(&mut sink).unwrap();
    assert_eq!(sink.calls, vec![0, 1, 2, 3]);
    assert_eq!(sink.rows.len(), 4);
}

#[test]
fn memory_sink_rows_match_engine_history() {
    let rule = 30u8;
    let steps = 4u32;
    let mut g = Generator::new(rule, steps).unwrap();
    g.init();
    let mut snapshots = vec![g.current_row()];
    for _ in 0..steps {
        g.step();
        snapshots.push(g.current_row());
    }
    let mut g2 = Generator::new(rule, steps).unwrap();
    g2.init();
    let mut sink = MemorySink::new();
    g2.generate(&mut sink).unwrap();
    assert_eq!(sink.rows, snapshots);
}
