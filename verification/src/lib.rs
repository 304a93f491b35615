//! Runtime deadlock prevention for mutual-exclusion locks.
//!
//! Every lock is given a rank from a program-defined ordering, and each
//! thread keeps a record of the ranks it currently holds. An acquisition
//! is legal only if its rank strictly outranks everything the thread
//! already holds; an illegal acquisition is reported before the
//! underlying lock is ever touched. The analysis is purely thread-local,
//! so a misbehaving thread is caught without any deadlock occurring.

use vstd::prelude::*;

mod rank_set;
mod laws;

pub use rank_set::RankSet;
pub use rank_set::violates;
pub use laws::acquires_succeed;
pub use laws::lemma_monotonic;
pub use laws::lemma_release_any_order;
pub use laws::lemma_release_retains;
pub use laws::lemma_round_trip;
pub use laws::lemma_thread_isolation;
pub use laws::lemma_violation_detected;

verus! {

/// The record of which rank codes one thread currently holds.
pub struct ThreadState {
    current_rank: RankSet,
}

impl View for ThreadState {
    type V = Set<u32>;

    closed spec fn view(&self) -> Set<u32> {
        self.current_rank@
    }
}

/// The error reported when a thread attempts to acquire a rank no higher
/// than one it already holds.
#[derive(Debug, PartialEq, Eq, Structural)]
pub struct OrderViolation;

/// Witness of a successful rank registration: releasing it removes
/// exactly the rank it was created with from the thread's record. It can
/// be released only once (releasing consumes it) and cannot be cloned.
#[derive(Debug)]
pub struct SavedState {
    rank: u32,
}

impl SavedState {
    #[verifier::type_invariant]
    spec fn inv(self) -> bool {
        self.rank < 64
    }

    pub closed spec fn rank(self) -> u32 {
        self.rank
    }
}

impl ThreadState {
    pub fn new() -> (r: Self)
        ensures
            r@ == Set::<u32>::empty(),
    {
        ThreadState { current_rank: RankSet::new() }
    }

    /// Register `rank` as held. Succeeds exactly when the thread holds
    /// nothing of rank `rank` or above; on a violation the record is left
    /// untouched and the underlying lock must not be acquired.
    pub fn lock(&mut self, rank: u32) -> (r: Result<SavedState, OrderViolation>)
        requires
            rank < 64,
        ensures
            r is Ok <==> !violates(old(self)@, rank),
            r matches Ok(s) ==> s.rank() == rank && final(self)@ == old(self)@.insert(rank),
            r is Err ==> final(self)@ == old(self)@,
    {
        if self.current_rank.conflicts(rank) {
            Err(OrderViolation)
        } else {
            let _ = self.current_rank.insert(rank);
            Ok(SavedState { rank })
        }
    }

    /// Release a registration, clearing exactly the rank it was made for.
    pub fn unlock(&mut self, saved: SavedState)
        ensures
            final(self)@ == old(self)@.remove(saved.rank()),
    {
        proof {
            use_type_invariant(&saved);
        }
        self.current_rank.remove(saved.rank);
    }
}

/// `std::sync::Mutex`, the underlying mutual-exclusion primitive, taken
/// as an opaque external collaborator.
#[verifier::external_type_specification]
#[verifier::external_body]
#[verifier::reject_recursive_types(T)]
pub struct ExSysMutex<T: ?Sized>(std::sync::Mutex<T>);

/// `std::sync::MutexGuard`, the primitive's own scope guard.
#[verifier::external_type_specification]
#[verifier::external_body]
#[verifier::reject_recursive_types(T)]
pub struct ExSysMutexGuard<'a, T: ?Sized + 'a>(std::sync::MutexGuard<'a, T>);

/// `std::sync::PoisonError`, the primitive's report that a previous
/// holder panicked while holding it.
#[verifier::external_type_specification]
#[verifier::external_body]
#[verifier::reject_recursive_types(T)]
pub struct ExSysPoisonError<T>(std::sync::PoisonError<T>);

/// Relies on `std::sync::Mutex::new`: wraps `value` in a new, unlocked
/// mutex.
#[verifier::external_body]
fn sys_mutex_new<T>(value: T) -> std::sync::Mutex<T> {
    std::sync::Mutex::new(value)
}

/// Relies on `std::sync::Mutex::lock`: blocks until the calling thread
/// holds the mutex, then returns its guard — inside a poison error
/// exactly when a previous holder panicked while holding the mutex.
#[verifier::external_body]
fn sys_mutex_lock<'a, T>(m: &'a std::sync::Mutex<T>) -> Result<
    std::sync::MutexGuard<'a, T>,
    std::sync::PoisonError<std::sync::MutexGuard<'a, T>>,
> {
    m.lock()
}

/// Relies on `std::sync::PoisonError::into_inner`: hands back the guard
/// the error was carrying.
#[verifier::external_body]
fn sys_poison_into_inner<T>(err: std::sync::PoisonError<T>) -> T {
    err.into_inner()
}

/// Relies on the `Drop` impl of `std::sync::MutexGuard`: consuming the
/// guard releases the underlying mutex.
#[verifier::external_body]
fn sys_guard_drop<'a, T>(guard: std::sync::MutexGuard<'a, T>) {
    drop(guard)
}

/// Relies on the `Deref` impl of `std::sync::MutexGuard`: a shared
/// borrow of the value the underlying mutex protects.
#[verifier::external_body]
fn sys_guard_get<'a, 'b, T>(guard: &'b std::sync::MutexGuard<'a, T>) -> &'b T {
    &**guard
}

/// Relies on the `DerefMut` impl of `std::sync::MutexGuard`: an
/// exclusive borrow of the value the underlying mutex protects.
#[verifier::external_body]
fn sys_guard_get_mut<'a, 'b, T>(guard: &'b mut std::sync::MutexGuard<'a, T>) -> &'b mut T {
    &mut **guard
}

/// A mutual-exclusion lock bound to a fixed rank for its whole lifetime.
/// Acquisition registers the rank with the calling thread's record
/// before the underlying mutex is ever touched, so an out-of-order
/// acquisition is reported without blocking.
#[verifier::reject_recursive_types(T)]
pub struct Mutex<T> {
    inner: std::sync::Mutex<T>,
    rank: u32,
}

/// A held lock: the underlying mutex's guard together with the rank
/// registration. Releasing it unlocks the mutex and clears exactly this
/// lock's rank from the thread's record.
#[verifier::reject_recursive_types(T)]
pub struct MutexGuard<'a, T> {
    inner: std::sync::MutexGuard<'a, T>,
    saved_state: SavedState,
}

/// Why `Mutex::lock` did not return a plain guard.
#[verifier::reject_recursive_types(T)]
pub enum LockError<'a, T> {
    /// The calling thread already held a rank at or above the lock's;
    /// the underlying mutex was not acquired and the thread's record is
    /// unchanged.
    Violation(OrderViolation),
    /// A previous holder panicked while holding the underlying mutex.
    /// The mutex was still acquired and the rank still registered: the
    /// guard is carried here so the caller may inspect the value anyway.
    Poisoned(MutexGuard<'a, T>),
}

impl<T> Mutex<T> {
    #[verifier::type_invariant]
    spec fn inv(self) -> bool {
        self.rank < 64
    }

    /// The rank this lock was created with.
    pub closed spec fn rank(self) -> u32 {
        self.rank
    }

    pub fn new(value: T, rank: u32) -> (r: Self)
        requires
            rank < 64,
        ensures
            r.rank() == rank,
    {
        Mutex { inner: sys_mutex_new(value), rank }
    }

    /// Acquire: register this lock's rank with the calling thread's
    /// record, and only if that passes, acquire the underlying mutex.
    pub fn lock<'a>(&'a self, thread: &mut ThreadState) -> (r: Result<
        MutexGuard<'a, T>,
        LockError<'a, T>,
    >)
        ensures
            (r matches Err(LockError::Violation(_))) <==> violates(old(thread)@, self.rank()),
            violates(old(thread)@, self.rank()) ==> final(thread)@ == old(thread)@,
            !violates(old(thread)@, self.rank()) ==> final(thread)@ == old(thread)@.insert(
                self.rank(),
            ),
            r matches Ok(g) ==> g.rank() == self.rank(),
            r matches Err(LockError::Poisoned(g)) ==> g.rank() == self.rank(),
    {
        proof {
            use_type_invariant(self);
        }
        let saved_state = match thread.lock(self.rank) {
            Ok(s) => s,
            Err(v) => {
                return Err(LockError::Violation(v));
            },
        };
        match sys_mutex_lock(&self.inner) {
            Ok(inner) => Ok(MutexGuard { inner, saved_state }),
            Err(inner_poison_error) => {
                let inner = sys_poison_into_inner(inner_poison_error);
                Err(LockError::Poisoned(MutexGuard { inner, saved_state }))
            },
        }
    }
}

impl<'a, T> MutexGuard<'a, T> {
    /// The rank whose registration this guard holds.
    pub closed spec fn rank(self) -> u32 {
        self.saved_state.rank()
    }

    /// Read the protected value.
    pub fn get(&self) -> &T {
        sys_guard_get(&self.inner)
    }

    /// Write the protected value.
    pub fn get_mut(&mut self) -> (r: &mut T)
        ensures
            final(self).rank() == old(self).rank(),
    {
        sys_guard_get_mut(&mut self.inner)
    }

    /// Release: drop the underlying mutex's guard, unlocking it, then
    /// clear exactly this guard's rank from the thread's record.
    pub fn release(self, thread: &mut ThreadState)
        ensures
            final(thread)@ == old(thread)@.remove(self.rank()),
    {
        let MutexGuard { inner, saved_state } = self;
        sys_guard_drop(inner);
        thread.unlock(saved_state);
    }
}

} // verus!
