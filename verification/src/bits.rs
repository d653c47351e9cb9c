//! Trusted boundary to the `bit_vec` crate.
//!
//! The filter stores its bits in a `bit_vec::BitVec`.  That type is opaque to
//! the verifier, so its contents are named by the uninterpreted function
//! [`bits_of`], and each method the filter calls is wrapped in a function
//! whose contract states, over that name, what the crate's code does.

use vstd::prelude::*;

use bit_vec::BitVec;

verus! {

/// `bit_vec::BitVec` declared for the verifier; values of it are opaque.
#[verifier::external_type_specification]
#[verifier::external_body]
#[verifier::reject_recursive_types(B)]
pub struct ExBitVec<B>(BitVec<B>);

/// The sequence of boolean flags that a `BitVec` holds, in index order.
pub uninterp spec fn bits_of(v: BitVec) -> Seq<bool>;

/// Relies on `bit_vec::BitVec::from_elem`: a vector of `len` bits, each
/// equal to `bit`.
#[verifier::external_body]
pub(crate) fn bv_from_elem(len: usize, bit: bool) -> (r: BitVec)
    ensures
        bits_of(r) == Seq::new(len as nat, |i: int| bit),
{
    BitVec::from_elem(len, bit)
}

/// Relies on `bit_vec::BitVec::set`: writes `x` at index `i`, leaving every
/// other bit and the length unchanged.  It panics on an out-of-range index,
/// so that index is excluded here.
#[verifier::external_body]
pub(crate) fn bv_set(v: &mut BitVec, i: usize, x: bool)
    requires
        i < bits_of(*old(v)).len(),
    ensures
        bits_of(*final(v)) == bits_of(*old(v)).update(i as int, x),
{
    v.set(i, x)
}

/// Relies on `bit_vec::BitVec::get`: `Some` of the bit at index `i`, or
/// `None` when `i` is out of range.
#[verifier::external_body]
pub(crate) fn bv_get(v: &BitVec, i: usize) -> (r: Option<bool>)
    ensures
        r == if i < bits_of(*v).len() {
            Some(bits_of(*v)[i as int])
        } else {
            None::<bool>
        },
{
    v.get(i)
}

/// Relies on `bit_vec::BitVec::fill`: assigns the given value to every bit,
/// leaving the length unchanged.
#[verifier::external_body]
pub(crate) fn bv_fill(v: &mut BitVec, bit: bool)
    ensures
        bits_of(*final(v)) == Seq::new(bits_of(*old(v)).len(), |i: int| bit),
{
    v.fill(bit)
}

} // verus!
