use vstd::prelude::*;

verus! {

/// Packs a three-cell neighborhood into a number in `0..8`:
/// the left cell gives bit 2, the center cell bit 1, the right cell bit 0.
pub open spec fn neighborhood(l: bool, c: bool, r: bool) -> u8 {
    ((if l { 4u8 } else { 0u8 }) + (if c { 2u8 } else { 0u8 }) + (if r {
        1u8
    } else {
        0u8
    })) as u8
}

/// Bit `i` of `rule`, as a boolean; meaningful for `i < 8`.
pub open spec fn rule_bit(rule: u8, i: u8) -> bool
    recommends
        i < 8,
{
    (rule >> i) & 1 == 1
}

/// The next state of a cell whose neighborhood is `(l, c, r)`, under `rule`:
/// bit `neighborhood(l, c, r)` of the rule's lookup table.
pub open spec fn next_state_spec(rule: u8, l: bool, c: bool, r: bool) -> bool {
    rule_bit(rule, neighborhood(l, c, r))
}

/// Converts three booleans into a `u8` of value `[0, 8)`:
/// `l` gives bit 2, `c` bit 1, `r` bit 0.
pub fn index(l: bool, c: bool, r: bool) -> (i: u8)
    ensures
        i == neighborhood(l, c, r),
        i < 8,
{
    (if l { 4u8 } else { 0u8 }) + (if c { 2u8 } else { 0u8 }) + (if r { 1u8 } else { 0u8 })
}

/// Decides the next state of the center cell from its neighborhood and the
/// rule code: the result is bit `index(l, c, r)` of `rule`.
pub fn next_state(rule: u8, l: bool, c: bool, r: bool) -> (b: bool)
    ensures
        b == next_state_spec(rule, l, c, r),
{
    let i = index(l, c, r);
    (rule >> i) & 1 == 1
}

} // verus!
