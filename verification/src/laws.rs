use vstd::prelude::*;

use crate::model::{generation, initial_row, iterate, lemma_iterate_len, step_row};

verus! {

/// A run of zero steps emits exactly one row: the single-cell row whose one
/// cell is true.
pub proof fn lemma_zero_steps(rule: u8)
    ensures
        generation(rule, 0).len() == 1,
        generation(rule, 0)[0] == seq![true],
{
    assert(generation(rule, 0)[0] =~= seq![true]);
}

/// Every run of `steps` steps emits exactly `steps + 1` rows, and every one
/// of them has length exactly `2 * steps + 1`.
pub proof fn lemma_generation_shape(rule: u8, steps: nat)
    ensures
        generation(rule, steps).len() == steps + 1,
        forall|k: int|
            0 <= k <= steps ==> #[trigger] generation(rule, steps)[k].len() == 2 * steps + 1,
{
    assert forall|k: int| 0 <= k <= steps implies #[trigger] generation(rule, steps)[k].len() == 2
        * steps + 1 by {
        lemma_iterate_len(rule, initial_row(steps), k as nat);
    }
}

/// Rule 0 maps every neighborhood to false, so one transition of any row
/// under rule 0 yields an all-false row.
pub proof fn lemma_rule_zero_step(row: Seq<bool>)
    ensures
        step_row(0, row).len() == row.len(),
        forall|i: int| 0 <= i < row.len() ==> !#[trigger] step_row(0, row)[i],
{
    assert(forall|n: u8| n < 8 ==> ((0u8 >> n) & 1) != 1) by (bit_vector);
}

/// In a run under rule 0, every row after row 0 is all false.
pub proof fn lemma_rule_zero_blank(steps: nat, k: int)
    requires
        1 <= k <= steps,
    ensures
        forall|i: int|
            0 <= i < generation(0, steps)[k].len() ==> !#[trigger] generation(0, steps)[k][i],
{
    let prev = iterate(0, initial_row(steps), (k - 1) as nat);
    lemma_rule_zero_step(prev);
}

/// Rule 255 maps every neighborhood to true, so one transition of any row
/// under rule 255 yields an all-true row.
pub proof fn lemma_rule_full_step(row: Seq<bool>)
    ensures
        step_row(255, row).len() == row.len(),
        forall|i: int| 0 <= i < row.len() ==> #[trigger] step_row(255, row)[i],
{
    assert(forall|n: u8| n < 8 ==> ((255u8 >> n) & 1) == 1) by (bit_vector);
}

/// In a run under rule 255, every cell of every row after row 0 is true:
/// all eight entries of rule 255's table are true, so even the edge cells,
/// whose outside neighbor reads as the false padding, come out true.
pub proof fn lemma_rule_full_all_true(steps: nat, k: int)
    requires
        1 <= k <= steps,
    ensures
        forall|i: int|
            0 <= i < generation(255, steps)[k].len() ==> #[trigger] generation(255, steps)[k][i],
{
    let prev = iterate(255, initial_row(steps), (k - 1) as nat);
    lemma_rule_full_step(prev);
}

} // verus!
