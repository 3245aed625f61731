use vstd::prelude::*;

use crate::rule::next_state_spec;

verus! {

/// The fixed width of every row of a run of `steps` steps: `2 * steps + 1`.
pub open spec fn width(steps: nat) -> nat {
    2 * steps + 1
}

/// The initial row of a run of `steps` steps: a single true cell at the
/// center, index `steps`, every other cell false.
pub open spec fn initial_row(steps: nat) -> Seq<bool> {
    Seq::new(width(steps), |i: int| i == steps)
}

/// The cell at index `i`, reading the virtual false padding beyond either
/// end of the row.
pub open spec fn padded_cell(row: Seq<bool>, i: int) -> bool {
    if 0 <= i < row.len() {
        row[i]
    } else {
        false
    }
}

/// One synchronous transition of a whole row: every cell moves to its next
/// state at once, and the neighbors of the two edge cells that fall outside
/// the row are read as false (no wraparound).
pub open spec fn step_row(rule: u8, row: Seq<bool>) -> Seq<bool> {
    Seq::new(
        row.len(),
        |i: int| next_state_spec(rule, padded_cell(row, i - 1), row[i], padded_cell(row, i + 1)),
    )
}

/// The row reached from `row` after `k` transitions under `rule`.
pub open spec fn iterate(rule: u8, row: Seq<bool>, k: nat) -> Seq<bool>
    decreases k,
{
    if k == 0 {
        row
    } else {
        step_row(rule, iterate(rule, row, (k - 1) as nat))
    }
}

/// The first `count` rows emitted from the starting row `row`: `row` itself,
/// then each successive transition.
pub open spec fn run(rule: u8, row: Seq<bool>, count: nat) -> Seq<Seq<bool>> {
    Seq::new(count, |k: int| iterate(rule, row, k as nat))
}

/// The full emission sequence of a canonical run: `steps + 1` rows, starting
/// from the initial row.
pub open spec fn generation(rule: u8, steps: nat) -> Seq<Seq<bool>> {
    run(rule, initial_row(steps), steps + 1)
}

/// A transition never changes the length of a row, so iteration keeps it.
pub proof fn lemma_iterate_len(rule: u8, row: Seq<bool>, k: nat)
    ensures
        iterate(rule, row, k).len() == row.len(),
    decreases k,
{
    if k > 0 {
        lemma_iterate_len(rule, row, (k - 1) as nat);
    }
}

} // verus!
