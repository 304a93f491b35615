use vstd::prelude::*;

verus! {

/// A held rank whose code is at least `code` makes acquiring `code` an
/// ordering violation: every new acquisition must strictly outrank
/// everything the thread already holds.
pub open spec fn violates(held: Set<u32>, code: u32) -> bool {
    exists|c: u32| held.contains(c) && c >= code
}

/// A thread-local set of the rank codes currently held, kept as a single
/// 64-bit mask: bit `i` is set iff rank code `i` is held. All operations
/// are O(1) bit arithmetic; codes must be below the mask width.
pub struct RankSet {
    bits: u64,
}

impl View for RankSet {
    type V = Set<u32>;

    closed spec fn view(&self) -> Set<u32> {
        Set::new(|c: u32| c < 64 && (self.bits >> c) & 1u64 == 1u64)
    }
}

proof fn lemma_set_bit(bits: u64, k: u32)
    by (bit_vector)
    requires
        k < 64,
    ensures
        forall|c: u32| c < 64 ==> ((#[trigger] ((bits | (1u64 << k)) >> c)) & 1u64 == 1u64
            <==> ((bits >> c) & 1u64 == 1u64 || c == k)),
{
}

proof fn lemma_clear_bit(bits: u64, k: u32)
    by (bit_vector)
    requires
        k < 64,
    ensures
        forall|c: u32| c < 64 ==> ((#[trigger] ((bits & !(1u64 << k)) >> c)) & 1u64 == 1u64
            <==> ((bits >> c) & 1u64 == 1u64 && c != k)),
{
}

proof fn lemma_bit_implies_mask(bits: u64, k: u32)
    by (bit_vector)
    requires
        k < 64,
    ensures
        forall|c: u32| c < 64 && k <= c && (#[trigger] (bits >> c)) & 1u64 == 1u64
            ==> bits & !(((1u64 << k) - 1) as u64) != 0,
{
}

/// From a non-empty "greater than or equal" intersection, produce the
/// position of a set bit at or above `k` by scanning upward.
proof fn find_set_bit(bits: u64, k: u32) -> (c: u32)
    requires
        k < 64,
        bits & !(((1u64 << k) - 1) as u64) != 0,
    ensures
        k <= c < 64,
        (bits >> c) & 1u64 == 1u64,
    decreases 64 - k,
{
    if (bits >> k) & 1u64 == 1u64 {
        k
    } else {
        assert(k < 63) by (bit_vector)
            requires
                k < 64,
                bits & !(((1u64 << k) - 1) as u64) != 0,
                (bits >> k) & 1u64 != 1u64,
        ;
        assert(bits & !(((1u64 << ((k + 1) as u32)) - 1) as u64) != 0) by (bit_vector)
            requires
                k < 63,
                bits & !(((1u64 << k) - 1) as u64) != 0,
                (bits >> k) & 1u64 != 1u64,
        ;
        find_set_bit(bits, (k + 1) as u32)
    }
}

impl RankSet {
    pub fn new() -> (r: Self)
        ensures
            r@ == Set::<u32>::empty(),
    {
        let r = RankSet { bits: 0 };
        proof {
            assert(forall|c: u32| (0u64 >> c) & 1u64 == 0u64) by (bit_vector);
            assert(r@ =~= Set::<u32>::empty());
        }
        r
    }

    /// Report whether the set holds anything of rank `code` or above,
    /// without changing the set. Computed with a "greater than or equal"
    /// mask: all bits from `code` upward.
    pub fn conflicts(&self, code: u32) -> (r: bool)
        requires
            code < 64,
        ensures
            r == violates(self@, code),
    {
        let bit: u64 = 1u64 << code;
        proof {
            assert(1u64 << code >= 1) by (bit_vector)
                requires
                    code < 64,
            ;
        }
        // Create a bitmask that includes `bit` and all bits of higher value.
        let greater_than_or_equal: u64 = !(bit - 1);
        let r = self.bits & greater_than_or_equal != 0;
        proof {
            let bits = self.bits;
            assert(greater_than_or_equal == !(((1u64 << code) - 1) as u64));
            if r {
                let c = find_set_bit(bits, code);
                assert(self@.contains(c) && c >= code);
            }
            if violates(self@, code) {
                let c = choose|c: u32| self@.contains(c) && c >= code;
                lemma_bit_implies_mask(bits, code);
                assert((bits >> c) & 1u64 == 1u64);
                assert(bits & !(((1u64 << code) - 1) as u64) != 0);
            }
        }
        r
    }

    /// Insert `elt` into this set, and return `true` if the set
    /// previously contained anything greater than or equal to `elt`.
    pub fn insert(&mut self, elt: u32) -> (r: bool)
        requires
            elt < 64,
        ensures
            final(self)@ == old(self)@.insert(elt),
            r == violates(old(self)@, elt),
    {
        let r = self.conflicts(elt);
        let bit: u64 = 1u64 << elt;
        self.bits = self.bits | bit;
        proof {
            lemma_set_bit(old(self).bits, elt);
            assert(self@ =~= old(self)@.insert(elt));
        }
        r
    }

    /// Clear `elt`'s bit unconditionally; removing an absent code is a no-op.
    pub fn remove(&mut self, elt: u32)
        requires
            elt < 64,
        ensures
            final(self)@ == old(self)@.remove(elt),
    {
        let bit: u64 = 1u64 << elt;
        self.bits = self.bits & !bit;
        proof {
            lemma_clear_bit(old(self).bits, elt);
            assert(self@ =~= old(self)@.remove(elt));
        }
    }
}

} // verus!
