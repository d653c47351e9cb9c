//! The filter itself: a fixed-length bit array addressed by a single hash.

use vstd::prelude::*;

use std::collections::hash_map::DefaultHasher;
use std::hash::Hasher;

use bit_vec::BitVec;

use crate::bits::bits_of;
use crate::bits::bv_fill;
use crate::bits::bv_from_elem;
use crate::bits::bv_get;
use crate::bits::bv_set;
use vstd::std_specs::hash::DefaultHasherAdditionalSpecFns;
use vstd::utf8::encode_utf8;

verus! {

/// The all-false bit array of length `n`: the state of a fresh or freshly
/// cleared filter.
pub open spec fn all_false(n: nat) -> Seq<bool> {
    Seq::new(n, |i: int| false)
}

/// The digest an item hashes to: the item's UTF-8 bytes fed to a
/// `DefaultHasher` in a single write.  A pure function of the item's
/// characters, so equal items always collide with themselves.
pub open spec fn spec_hash(item: Seq<char>) -> u64 {
    DefaultHasher::spec_finish(seq![encode_utf8(item)])
}

/// A probabilistic set-membership filter over string items.
///
/// Its view (`self@`) is the sequence of bits; `capacity()` is the fixed
/// length of that sequence, chosen at construction.
pub struct BloomFilter {
    bitvector: BitVec,
    nbits: u64,
}

impl View for BloomFilter {
    type V = Seq<bool>;

    closed spec fn view(&self) -> Seq<bool> {
        bits_of(self.bitvector)
    }
}

impl BloomFilter {
    /// The number of bits the filter was constructed with.
    pub closed spec fn capacity(&self) -> u64 {
        self.nbits
    }

    /// Well-formedness: a positive, addressable capacity that matches the
    /// bit array's length.  Established by `new`, preserved by every method.
    pub open spec fn wf(&self) -> bool {
        &&& 0 < self.capacity() <= usize::MAX
        &&& self@.len() == self.capacity()
    }

    /// The bit offset an item maps to: its digest reduced modulo capacity.
    pub open spec fn spec_offset(&self, item: Seq<char>) -> int {
        spec_hash(item) as int % self.capacity() as int
    }

    /// What a query answers: the bit at the item's offset.
    pub open spec fn spec_check(&self, item: Seq<char>) -> bool {
        self@[self.spec_offset(item)]
    }

    /// Builds a filter of `nbits` bits, all clear.
    ///
    /// A filter of zero bits admits no offset, so that capacity is excluded
    /// outright rather than reported as a recoverable error.
    pub fn new(nbits: u64) -> (r: BloomFilter)
        requires
            0 < nbits <= usize::MAX,
        ensures
            r.wf(),
            r.capacity() == nbits,
            r@ == all_false(nbits as nat),
    {
        let r = BloomFilter { bitvector: bv_from_elem(nbits as usize, false), nbits };
        proof {
            assert(r@ =~= all_false(nbits as nat));
        }
        r
    }

    /// Hashes an item to its 64-bit digest.
    fn hash(item: &str) -> (r: u64)
        ensures
            r == spec_hash(item@),
    {
        let mut hasher = DefaultHasher::new();
        hasher.write(item.as_bytes());
        proof {
            assert(hasher@ =~= seq![encode_utf8(item@)]);
        }
        hasher.finish()
    }

    /// Computes the bit offset of an item; always below capacity.
    fn offset(&self, item: &str) -> (r: usize)
        requires
            self.wf(),
        ensures
            r as int == self.spec_offset(item@),
            r < self@.len(),
    {
        let hash = Self::hash(item);
        (hash % self.nbits) as usize
    }

    /// Sets the bit at the item's offset, leaving every other bit alone.
    /// The item is a member from here on: querying it answers `true` until
    /// the filter is cleared.
    pub fn set(&mut self, item: &str)
        requires
            old(self).wf(),
        ensures
            final(self).wf(),
            final(self).capacity() == old(self).capacity(),
            final(self)@ == old(self)@.update(old(self).spec_offset(item@), true),
            final(self).spec_check(item@),
    {
        let offset = self.offset(item);
        bv_set(&mut self.bitvector, offset, true);
    }

    /// Reads the bit at the item's offset: `true` means "possibly present"
    /// (the item itself, or a colliding one, was inserted), `false` means
    /// "definitely absent".  Pure: the filter is unchanged.
    pub fn check(&self, item: &str) -> (r: bool)
        requires
            self.wf(),
        ensures
            r == self.spec_check(item@),
    {
        let offset = self.offset(item);
        match bv_get(&self.bitvector, offset) {
            Some(true) => true,
            _ => false,
        }
    }

    /// Reports membership as of just before the call, then inserts the item:
    /// the returned value is what `check` would have answered, and the item
    /// is a member once the call returns.
    pub fn check_and_set(&mut self, item: &str) -> (r: bool)
        requires
            old(self).wf(),
        ensures
            final(self).wf(),
            final(self).capacity() == old(self).capacity(),
            r == old(self).spec_check(item@),
            final(self)@ == old(self)@.update(old(self).spec_offset(item@), true),
            final(self).spec_check(item@),
    {
        let checked = self.check(item);
        self.set(item);
        checked
    }

    /// Resets every bit to false; the capacity is unchanged.  No prior
    /// insertion survives: afterwards the filter answers as a fresh one.
    pub fn clear(&mut self)
        requires
            old(self).wf(),
        ensures
            final(self).wf(),
            final(self).capacity() == old(self).capacity(),
            final(self)@ == all_false(old(self)@.len()),
    {
        bv_fill(&mut self.bitvector, false);
        proof {
            assert(self@ =~= all_false(old(self)@.len()));
        }
    }

    /// The capacity the filter was constructed with.
    pub fn nbits(&self) -> (r: u64)
        ensures
            r == self.capacity(),
    {
        self.nbits
    }

    /// Whether every bit is clear, as in a fresh or freshly cleared filter.
    pub fn none(&self) -> (r: bool)
        requires
            self.wf(),
        ensures
            r <==> (forall|i: int| 0 <= i < self@.len() ==> !self@[i]),
    {
        let n = self.nbits as usize;
        let mut i: usize = 0;
        while i < n
            invariant
                self.wf(),
                n == self.capacity(),
                i <= n,
                forall|j: int| 0 <= j < i ==> !self@[j],
            decreases n - i,
        {
            match bv_get(&self.bitvector, i) {
                Some(true) => {
                    return false;
                },
                _ => {},
            }
            i = i + 1;
        }
        true
    }
}

/// Every item's offset is a valid index into the bit array.
pub proof fn lemma_offset_in_range(f: BloomFilter, item: Seq<char>)
    requires
        f.wf(),
    ensures
        0 <= f.spec_offset(item) < f@.len(),
{
}

/// No false negatives: a filter whose bits are those of `pre` with `item`'s
/// offset set — the state `set(item)` leaves behind — answers `true` when
/// queried for `item`.
pub proof fn lemma_no_false_negatives(pre: BloomFilter, post: BloomFilter, item: Seq<char>)
    requires
        pre.wf(),
        post.wf(),
        post.capacity() == pre.capacity(),
        post@ == pre@.update(pre.spec_offset(item), true),
    ensures
        post.spec_check(item),
{
    lemma_offset_in_range(pre, item);
}

/// Membership persists across later insertions: once a filter answers `true`
/// for `item`, it still does after any `other` item is set.  Only `clear`
/// can take membership away.
pub proof fn lemma_membership_persists(
    pre: BloomFilter,
    post: BloomFilter,
    item: Seq<char>,
    other: Seq<char>,
)
    requires
        pre.wf(),
        post.wf(),
        post.capacity() == pre.capacity(),
        post@ == pre@.update(pre.spec_offset(other), true),
        pre.spec_check(item),
    ensures
        post.spec_check(item),
{
    lemma_offset_in_range(pre, item);
    lemma_offset_in_range(pre, other);
}

/// A filter with every bit clear — fresh from `new`, or just cleared —
/// answers `false` for every item: no positives without an insertion.
pub proof fn lemma_all_clear_no_positives(f: BloomFilter, item: Seq<char>)
    requires
        f.wf(),
        f@ == all_false(f.capacity() as nat),
    ensures
        !f.spec_check(item),
{
    lemma_offset_in_range(f, item);
}

/// Setting an item twice leaves the same bit array as setting it once:
/// `once` is the state after one `set(item)` from `pre`, `twice` the state
/// after another, and their bits are equal.
pub proof fn lemma_set_idempotent(
    pre: BloomFilter,
    once: BloomFilter,
    twice: BloomFilter,
    item: Seq<char>,
)
    requires
        pre.wf(),
        once.wf(),
        twice.wf(),
        once.capacity() == pre.capacity(),
        twice.capacity() == once.capacity(),
        once@ == pre@.update(pre.spec_offset(item), true),
        twice@ == once@.update(once.spec_offset(item), true),
    ensures
        twice@ == once@,
{
    lemma_offset_in_range(pre, item);
    assert(twice@ =~= once@);
}

/// With a single bit every item maps to offset zero, so after any insertion
/// every query — for the inserted item or any other — answers `true`: a
/// full collision rate is the expected behaviour at capacity one.
pub proof fn lemma_capacity_one_collides(
    pre: BloomFilter,
    post: BloomFilter,
    inserted: Seq<char>,
    queried: Seq<char>,
)
    requires
        pre.wf(),
        pre.capacity() == 1,
        post.wf(),
        post.capacity() == 1,
        post@ == pre@.update(pre.spec_offset(inserted), true),
    ensures
        post.spec_check(queried),
{
    lemma_offset_in_range(pre, inserted);
    lemma_offset_in_range(post, queried);
}

} // verus!
