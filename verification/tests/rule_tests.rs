use conus::rule::{index, next_state};

#[test]
fn index_all_neighborhoods() {
    assert_eq!(index(false, false, false), 0);
    assert_eq!(index(false, false, true), 1);
    assert_eq!(index(false, true, false), 2);
    assert_eq!(index(false, true, true), 3);
    assert_eq!(index(true, false, false), 4);
    assert_eq!(index(true, false, true), 5);
    assert_eq!(index(true, true, false), 6);
    assert_eq!(index(true, true, true), 7);
}

#[test]
fn next_state_matches_rule_bit_exhaustively() {
    for rule in 0..=255u8 {
        for &l in &[false, true] {
            for &c in &[false, true] {
                for &r in &[false, true] {
                    let idx = (l as u8) * 4 + (c as u8) * 2 + (r as u8);
                    let expected = (rule >> idx) & 1 == 1;
                    assert_eq!(next_state(rule, l, c, r), expected);
                }
            }
        }
    }
}

#[test]
fn rule_30_table() {
    // rule 30 = 0b00011110: neighborhoods 1, 2, 3, 4 map to true
    let expected = [false, true, true, true, true, false, false, false];
    for idx in 0..8u8 {
        let l = idx & 4 != 0;
        let c = idx & 2 != 0;
        let r = idx & 1 != 0;
        assert_eq!(next_state(30, l, c, r), expected[idx as usize]);
    }
}
