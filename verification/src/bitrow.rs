use vstd::prelude::*;

verus! {

#[verifier::external_type_specification]
#[verifier::external_body]
#[verifier::reject_recursive_types(B)]
pub struct ExBitVec<B>(bit_vec::BitVec<B>);

/// The bits a `BitVec` holds, in index order.
pub uninterp spec fn bits_of(bv: bit_vec::BitVec<u32>) -> Seq<bool>;

/// Relies on `BitVec::from_elem`: builds a vector of `len` bits, every one
/// equal to `bit`.
#[verifier::external_body]
pub(crate) fn bv_from_elem(len: usize, bit: bool) -> (r: bit_vec::BitVec<u32>)
    ensures
        bits_of(r) == Seq::new(len as nat, |i: int| bit),
{
    bit_vec::BitVec::from_elem(len, bit)
}

/// Relies on `BitVec::set`: overwrites the bit at `i` in place. The call
/// panics only on an out-of-bounds index, which the precondition rules out.
#[verifier::external_body]
pub(crate) fn bv_set(bv: &mut bit_vec::BitVec<u32>, i: usize, x: bool)
    requires
        i < bits_of(*old(bv)).len(),
    ensures
        bits_of(*final(bv)) == bits_of(*old(bv)).update(i as int, x),
{
    bv.set(i, x)
}

/// Relies on `BitVec::get`: reads the bit at `i`, which is `Some` exactly
/// when `i` is in bounds.
#[verifier::external_body]
pub(crate) fn bv_get(bv: &bit_vec::BitVec<u32>, i: usize) -> (r: bool)
    requires
        i < bits_of(*bv).len(),
    ensures
        r == bits_of(*bv)[i as int],
{
    bv.get(i).unwrap_or(false)
}

/// Relies on `BitVec::len`: the number of bits the vector holds.
#[verifier::external_body]
pub(crate) fn bv_len(bv: &bit_vec::BitVec<u32>) -> (r: usize)
    ensures
        r as nat == bits_of(*bv).len(),
{
    bv.len()
}

} // verus!
