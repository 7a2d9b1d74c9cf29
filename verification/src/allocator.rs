//! Fixed-capacity identifier pool. A bitset of capacity `n`, fixed at
//! construction, where a bit is set exactly when its index is currently
//! allocated; `alloc` hands out the lowest free index and `free` clears one.
//!
//! Exhaustion is a recoverable error returned to the caller, never an abort;
//! freeing an out-of-range id is a silent no-op.

use vstd::prelude::*;

use fixedbitset::FixedBitSet;

use crate::error::Error;

verus! {

#[verifier::external_type_specification]
#[verifier::external_body]
pub struct ExFixedBitSet(FixedBitSet);

/// The bits a `fixedbitset::FixedBitSet` holds, lowest index first.
pub uninterp spec fn bits_of(s: FixedBitSet) -> Seq<bool>;

/// Relies on `FixedBitSet::with_capacity`: a set with `bits` bits, all
/// initially clear.
#[verifier::external_body]
fn bitset_with_capacity(bits: usize) -> (r: FixedBitSet)
    ensures
        bits_of(r).len() == bits,
        forall|j: int| 0 <= j < bits ==> !bits_of(r)[j],
{
    FixedBitSet::with_capacity(bits)
}

/// Relies on `FixedBitSet::len`: the number of bits the set was created
/// with, not the number of set bits.
#[verifier::external_body]
fn bitset_len(s: &FixedBitSet) -> (r: usize)
    ensures
        r == bits_of(*s).len(),
{
    s.len()
}

/// Relies on `FixedBitSet::contains`: whether the bit at `bit` is enabled;
/// bits outside the capacity read as disabled.
#[verifier::external_body]
fn bitset_contains(s: &FixedBitSet, bit: usize) -> (r: bool)
    ensures
        r == (bit < bits_of(*s).len() && bits_of(*s)[bit as int]),
{
    s.contains(bit)
}

/// Relies on `FixedBitSet::set`: writes `enabled` at `bit`, panicking only
/// when `bit` is out of bounds, which the precondition rules out.
#[verifier::external_body]
fn bitset_set(s: &mut FixedBitSet, bit: usize, enabled: bool)
    requires
        bit < bits_of(*old(s)).len(),
    ensures
        bits_of(*final(s)) == bits_of(*old(s)).update(bit as int, enabled),
{
    s.set(bit, enabled)
}

/// Every index below `k` is allocated.
pub open spec fn all_set_below(bits: Seq<bool>, k: int) -> bool {
    forall|j: int| 0 <= j < k ==> bits[j]
}

/// Every slot is allocated: nothing left to hand out.
pub open spec fn is_full(bits: Seq<bool>) -> bool {
    all_set_below(bits, bits.len() as int)
}

/// `i` is the smallest free index: free itself, with everything below it
/// allocated.
pub open spec fn is_lowest_free(bits: Seq<bool>, i: int) -> bool {
    &&& 0 <= i < bits.len()
    &&& !bits[i]
    &&& all_set_below(bits, i)
}

/// At most one index is the lowest free one.
pub proof fn lemma_lowest_free_unique(bits: Seq<bool>, i: int, j: int)
    requires
        is_lowest_free(bits, i),
        is_lowest_free(bits, j),
    ensures
        i == j,
{
}

/// A freed id is immediately eligible for reuse: once every slot below `id`
/// is allocated, clearing `id` makes it the lowest free index, so the next
/// allocation returns it.
pub proof fn lemma_freed_id_reused(bits: Seq<bool>, id: int)
    requires
        0 <= id < bits.len(),
        all_set_below(bits, id),
    ensures
        is_lowest_free(bits.update(id, false), id),
{
}

/// A fixed-capacity pool of small integer identifiers.
pub struct Allocator {
    ids: FixedBitSet,
}

impl View for Allocator {
    type V = Seq<bool>;

    /// One entry per slot; `true` exactly when the slot is allocated.
    closed spec fn view(&self) -> Seq<bool> {
        bits_of(self.ids)
    }
}

impl Allocator {
    /// Every id this pool hands out fits the wire's signed 32-bit ids.
    pub open spec fn wf(&self) -> bool {
        self@.len() <= 0x7FFF_FFFF
    }

    /// A pool with `size` slots, all free.
    pub fn with_capacity(size: usize) -> (r: Self)
        requires
            size <= 0x7FFF_FFFF,
        ensures
            r.wf(),
            r@.len() == size,
            forall|j: int| 0 <= j < size ==> !r@[j],
    {
        Allocator { ids: bitset_with_capacity(size) }
    }

    /// How many slots the pool was created with.
    pub fn capacity(&self) -> (r: usize)
        ensures
            r == self@.len(),
    {
        bitset_len(&self.ids)
    }

    /// Scan ascending from 0 and return the first free slot, marking it
    /// allocated. When every slot is taken, fail with
    /// [`Error::ResourceExhausted`] and leave the pool unchanged.
    pub fn allocate(&mut self) -> (r: Result<i32, Error>)
        requires
            old(self).wf(),
        ensures
            final(self).wf(),
            final(self)@.len() == old(self)@.len(),
            r is Err <==> is_full(old(self)@),
            match r {
                Ok(id) => {
                    &&& is_lowest_free(old(self)@, id as int)
                    &&& final(self)@ == old(self)@.update(id as int, true)
                },
                Err(e) => {
                    &&& e == Error::ResourceExhausted
                    &&& final(self)@ == old(self)@
                },
            },
    {
        let n = bitset_len(&self.ids);
        let mut i: usize = 0;
        while i < n
            invariant
                i <= n,
                n == self@.len(),
                n <= 0x7FFF_FFFF,
                self == old(self),
                all_set_below(self@, i as int),
            decreases n - i,
        {
            if !bitset_contains(&self.ids, i) {
                bitset_set(&mut self.ids, i, true);
                return Ok(i as i32);
            }
            i += 1;
        }
        Err(Error::ResourceExhausted)
    }

    /// Clear the slot `id` if `0 <= id < n`; ids outside the range are a
    /// silent no-op, so double-free and free-of-never-allocated pass without
    /// effect.
    pub fn free(&mut self, id: i32)
        ensures
            final(self)@.len() == old(self)@.len(),
            0 <= id < old(self)@.len() ==> final(self)@ == old(self)@.update(
                id as int,
                false,
            ),
            !(0 <= id < old(self)@.len()) ==> final(self)@ == old(self)@,
    {
        let n = bitset_len(&self.ids);
        if id >= 0 && (id as usize) < n {
            bitset_set(&mut self.ids, id as usize, false);
        }
    }
}

} // verus!
