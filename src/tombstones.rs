use vstd::prelude::*;

use bitvec::vec::BitVec;

verus! {

/// Deletion flags over point offsets, held in a bitvec `BitVec`: `true` marks
/// a deleted vector.
#[verifier::external_body]
pub struct Tombstones {
    bits: BitVec,
}

/// The flags held by a tombstone bitmap, in offset order.
pub uninterp spec fn flags_of(t: Tombstones) -> Seq<bool>;

/// Largest number of flags a tombstone bitmap holds: bitvec caps a bit-vector
/// at `usize::MAX >> 3` bits, which is at least this on every target.
pub const MAX_FLAGS: usize = 0x1FFF_FFFF;

/// Number of `true` entries of `s`.
pub open spec fn count_true(s: Seq<bool>) -> nat
    decreases s.len(),
{
    if s.len() == 0 {
        0
    } else {
        count_true(s.drop_last()) + if s.last() { 1nat } else { 0nat }
    }
}

/// Setting one flag changes the count by the difference of the old and the
/// new value.
pub proof fn lemma_count_true_update(s: Seq<bool>, i: int, b: bool)
    requires
        0 <= i < s.len(),
    ensures
        count_true(s.update(i, b)) + (if s[i] { 1nat } else { 0nat }) == count_true(s) + (if b {
            1nat
        } else {
            0nat
        }),
    decreases s.len(),
{
    let u = s.update(i, b);
    if i == s.len() - 1 {
        assert(u.drop_last() == s.drop_last());
    } else {
        lemma_count_true_update(s.drop_last(), i, b);
        assert(u.drop_last() == s.drop_last().update(i, b));
    }
}

impl View for Tombstones {
    type V = Seq<bool>;

    open spec fn view(&self) -> Seq<bool> {
        flags_of(*self)
    }
}

impl Tombstones {
    /// Relies on bitvec's `BitVec::repeat`: `len` copies of the bit; it panics
    /// only past `usize::MAX >> 3` bits.
    #[verifier::external_body]
    fn repeat_unset(len: usize) -> (r: Tombstones)
        requires
            len <= MAX_FLAGS,
        ensures
            flags_of(r) == Seq::new(len as nat, |_i: int| false),
    {
        Tombstones { bits: BitVec::repeat(false, len) }
    }

    /// Relies on bitvec's `BitSlice::len`: the number of bits held.
    #[verifier::external_body]
    fn bit_len(&self) -> (r: usize)
        ensures
            r == flags_of(*self).len(),
    {
        self.bits.len()
    }

    /// Relies on bitvec's `Index<usize>` for `BitSlice`: the bit at `index`,
    /// which must be in bounds.
    #[verifier::external_body]
    fn bit_at(&self, index: usize) -> (r: bool)
        requires
            index < flags_of(*self).len(),
        ensures
            r == flags_of(*self)[index as int],
    {
        self.bits[index]
    }

    /// Relies on bitvec's `BitSlice::replace`: writes one bit and returns its
    /// previous value; it panics when `index` is out of bounds.
    #[verifier::external_body]
    fn replace_bit(&mut self, index: usize, value: bool) -> (r: bool)
        requires
            index < flags_of(*old(self)).len(),
        ensures
            r == flags_of(*old(self))[index as int],
            flags_of(*final(self)) == flags_of(*old(self)).update(index as int, value),
    {
        self.bits.replace(index, value)
    }

    /// Relies on bitvec's `BitVec::push`: appends one bit; it panics only past
    /// `usize::MAX >> 3` bits.
    #[verifier::external_body]
    fn push_bit(&mut self, value: bool)
        requires
            flags_of(*old(self)).len() < MAX_FLAGS,
        ensures
            flags_of(*final(self)) == flags_of(*old(self)).push(value),
    {
        self.bits.push(value)
    }

    /// Relies on bitvec's `BitSlice::count_ones`: the number of set bits.
    #[verifier::external_body]
    fn count_ones(&self) -> (r: usize)
        ensures
            r == count_true(flags_of(*self)),
    {
        self.bits.count_ones()
    }

    /// `len` flags, none set.
    pub fn new(len: usize) -> (r: Tombstones)
        requires
            len <= MAX_FLAGS,
        ensures
            r@ == Seq::new(len as nat, |_i: int| false),
    {
        Tombstones::repeat_unset(len)
    }

    pub fn len(&self) -> (r: usize)
        ensures
            r == self@.len(),
    {
        self.bit_len()
    }

    /// Writes one flag and returns its previous value.
    pub fn set(&mut self, index: usize, value: bool) -> (r: bool)
        requires
            index < old(self)@.len(),
        ensures
            r == old(self)@[index as int],
            final(self)@ == old(self)@.update(index as int, value),
    {
        self.replace_bit(index, value)
    }

    /// Appends one flag.
    pub fn push(&mut self, value: bool)
        requires
            old(self)@.len() < MAX_FLAGS,
        ensures
            final(self)@ == old(self)@.push(value),
    {
        self.push_bit(value)
    }

    /// Number of flags set.
    pub fn count(&self) -> (r: usize)
        ensures
            r == count_true(self@),
    {
        self.count_ones()
    }

    /// Whether `index` is flagged; an index past the end reads as not flagged.
    pub fn is_set(&self, index: usize) -> (r: bool)
        ensures
            r == (index < self@.len() && self@[index as int]),
    {
        if index < self.bit_len() {
            self.bit_at(index)
        } else {
            false
        }
    }
}

} // verus!
