use conus::render::{pack_row, render_row};

#[test]
fn render_empty_row_is_bare_newline() {
    assert_eq!(render_row(&vec![]), "\n");
}

#[test]
fn render_maps_cells_to_block_and_space() {
    let row = vec![true, false, true];
    assert_eq!(render_row(&row), "\u{2588} \u{2588}\n");
}

#[test]
fn render_all_false_row_is_blank_line() {
    let row = vec![false; 4];
    assert_eq!(render_row(&row), "    \n");
}

#[test]
fn pack_empty_row_is_empty() {
    assert_eq!(pack_row(&vec![]), Vec::<u8>::new());
}

#[test]
fn pack_single_true_cell_fills_top_bit() {
    assert_eq!(pack_row(&vec![true]), vec![0x80]);
}

#[test]
fn pack_eight_false_cells_is_one_zero_byte() {
    assert_eq!(pack_row(&vec![false; 8]), vec![0x00]);
}

#[test]
fn pack_is_most_significant_bit_first() {
    // 1100_1000 | 1 then seven bits of padding
    let row: Vec<bool> = "110010001".chars().map(|c| c == '1').collect();
    assert_eq!(pack_row(&row), vec![0xC8, 0x80]);
}

#[test]
fn pack_nine_true_cells_pads_final_byte_with_zeros() {
    assert_eq!(pack_row(&vec![true; 9]), vec![0xFF, 0x80]);
}
