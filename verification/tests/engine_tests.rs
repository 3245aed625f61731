use conus::engine::Generator;
use conus::sink::MemorySink;

fn bits(pattern: &str) -> Vec<bool> {
    pattern.chars().map(|c| c == '1').collect()
}

fn full_run(rule: u8, steps: u32) -> Vec<Vec<bool>> {
    let mut g = Generator::new(rule, steps).unwrap();
    g.init();
    let mut sink = MemorySink::new();
    g.generate(&mut sink).unwrap();
    sink.rows
}

#[test]
fn zero_steps_emits_one_true_cell() {
    let rows = full_run(30, 0);
    assert_eq!(rows, vec![vec![true]]);
}

#[test]
fn emits_steps_plus_one_rows_of_fixed_width() {
    let rows = full_run(110, 5);
    assert_eq!(rows.len(), 6);
    for row in &rows {
        assert_eq!(row.len(), 11);
    }
}

#[test]
fn initial_row_has_single_center_cell() {
    let rows = full_run(90, 3);
    assert_eq!(rows[0], bits("0001000"));
}

#[test]
fn rule_0_rows_after_first_are_all_false() {
    let rows = full_run(0, 3);
    assert_eq!(rows[0], bits("0001000"));
    for row in &rows[1..] {
        assert!(row.iter().all(|&c| !c));
    }
}

#[test]
fn rule_255_rows_after_first_are_all_true() {
    let rows = full_run(255, 3);
    assert_eq!(rows[0], bits("0001000"));
    for row in &rows[1..] {
        assert!(row.iter().all(|&c| c));
    }
}

#[test]
fn rule_30_four_steps_canonical_fixture() {
    let rows = full_run(30, 4);
    let expected = vec![
        bits("000010000"),
        bits("000111000"),
        bits("001100100"),
        bits("011011110"),
        bits("110010001"),
    ];
    assert_eq!(rows, expected);
}

#[test]
fn current_row_is_idempotent() {
    let mut g = Generator::new(30, 2).unwrap();
    g.init();
    let a = g.current_row();
    let b = g.current_row();
    assert_eq!(a, b);
    g.step();
    let c = g.current_row();
    let d = g.current_row();
    assert_eq!(c, d);
}

#[test]
fn init_again_changes_nothing() {
    let mut g = Generator::new(30, 2).unwrap();
    g.init();
    let a = g.current_row();
    g.init();
    let b = g.current_row();
    assert_eq!(a, b);
    assert_eq!(a, bits("00100"));
}

#[test]
fn step_before_init_keeps_degenerate_all_false_row() {
    let mut g = Generator::new(30, 2).unwrap();
    let before = g.current_row();
    assert_eq!(before, bits("00000"));
    g.step();
    assert_eq!(g.current_row(), bits("00000"));
}

#[test]
fn step_tracks_rule_90() {
    // rule 90: next cell is the XOR of its two neighbors
    let mut g = Generator::new(90, 2).unwrap();
    g.init();
    g.step();
    assert_eq!(g.current_row(), bits("01010"));
    g.step();
    assert_eq!(g.current_row(), bits("10001"));
}
