//! The ordering discipline's guarantees, stated and proved over the
//! per-thread model: a set of held rank codes, changed one acquisition
//! or release at a time.

use vstd::prelude::*;

verus! {

use crate::rank_set::violates;

/// Every acquisition in `codes`, made in order from `held` with no
/// intervening release, passes the ordering check.
pub open spec fn acquires_succeed(held: Set<u32>, codes: Seq<u32>) -> bool
    decreases codes.len(),
{
    codes.len() == 0 || (!violates(held, codes[0]) && acquires_succeed(
        held.insert(codes[0]),
        codes.drop_first(),
    ))
}

/// Monotonicity: in any run of successful acquisitions with no
/// intervening release, the rank codes are strictly increasing; each one
/// also strictly outranks everything held when the run began.
pub proof fn lemma_monotonic(held: Set<u32>, codes: Seq<u32>)
    requires
        acquires_succeed(held, codes),
    ensures
        forall|i: int, j: int| 0 <= i < j < codes.len() ==> codes[i] < codes[j],
        forall|j: int, h: u32|
            0 <= j < codes.len() && held.contains(h) ==> h < codes[j],
    decreases codes.len(),
{
    if codes.len() > 0 {
        let c0 = codes[0];
        let held1 = held.insert(c0);
        let rest = codes.drop_first();
        lemma_monotonic(held1, rest);
        assert forall|h: u32| held.contains(h) implies h < c0 by {
            if h >= c0 {
                assert(violates(held, c0));
            }
        }
        assert forall|i: int, j: int| 0 <= i < j < codes.len() implies codes[i]
            < codes[j] by {
            assert(rest[j - 1] == codes[j]);
            if i == 0 {
                assert(held1.contains(c0));
            } else {
                assert(rest[i - 1] == codes[i]);
            }
        }
        assert forall|j: int, h: u32|
            0 <= j < codes.len() && held.contains(h) implies h < codes[j] by {
            if j > 0 {
                assert(held1.contains(h));
                assert(rest[j - 1] == codes[j]);
            }
        }
    }
}

/// Violation detection: once a rank of code `a` is held, acquiring any
/// code `b` with `a >= b` is reported as a violation.
pub proof fn lemma_violation_detected(held: Set<u32>, a: u32, b: u32)
    requires
        a >= b,
    ensures
        violates(held.insert(a), b),
{
    assert(held.insert(a).contains(a));
}

/// Release independence: after acquiring `a` then `b` and releasing the
/// two in either order, the record is exactly what it was, so `a` can
/// at once be acquired again.
pub proof fn lemma_release_any_order(held: Set<u32>, a: u32, b: u32)
    requires
        a < b,
        !violates(held, a),
        !violates(held.insert(a), b),
    ensures
        held.insert(a).insert(b).remove(a).remove(b) == held,
        held.insert(a).insert(b).remove(b).remove(a) == held,
        !violates(held.insert(a).insert(b).remove(a).remove(b), a),
{
    if held.contains(a) {
        assert(violates(held, a));
    }
    if held.contains(b) {
        assert(held.insert(a).contains(b));
        assert(violates(held.insert(a), b));
    }
    assert(held.insert(a).insert(b).remove(a).remove(b) =~= held);
    assert(held.insert(a).insert(b).remove(b).remove(a) =~= held);
}

/// Release retains others: after acquiring `a` then `b`, releasing `a`
/// alone leaves `b` held, so acquiring `a` again is still a violation.
pub proof fn lemma_release_retains(held: Set<u32>, a: u32, b: u32)
    requires
        !violates(held, a),
        !violates(held.insert(a), b),
    ensures
        violates(held.insert(a).insert(b).remove(a), a),
{
    assert(held.insert(a).contains(a));
    assert(a < b);
    assert(held.insert(a).insert(b).remove(a).contains(b));
}

/// Thread isolation: the record is kept per thread, so two threads may
/// each acquire ranks that, interleaved in one thread's record, would be
/// a violation; starting from nothing held, each single acquisition
/// passes on its own.
pub proof fn lemma_thread_isolation(a: u32, b: u32)
    requires
        a >= b,
    ensures
        violates(Set::<u32>::empty().insert(a), b),
        !violates(Set::<u32>::empty(), a),
        !violates(Set::<u32>::empty(), b),
{
    assert(Set::<u32>::empty().insert(a).contains(a));
}

/// Round trip: acquiring any rank and releasing it again returns the
/// record exactly to the empty set, as if nothing had been acquired.
pub proof fn lemma_round_trip(r: u32)
    ensures
        Set::<u32>::empty().insert(r).remove(r) == Set::<u32>::empty(),
{
    assert(Set::<u32>::empty().insert(r).remove(r) =~= Set::<u32>::empty());
}

} // verus!
