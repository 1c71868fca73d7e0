//! The counter shared between concurrent callers, behind one exclusive lock.

use vstd::prelude::*;
use crate::state::{delta, AppState, CounterError, Mutation, StatePayload};

verus! {

/// parking_lot's raw lock, carried opaquely inside the mutex type.
#[verifier::external_type_specification]
#[verifier::external_body]
pub struct ExRawMutex(parking_lot::RawMutex);

/// lock_api's mutex, which `parking_lot::Mutex` names; opaque to proofs.
#[verifier::external_type_specification]
#[verifier::external_body]
#[verifier::reject_recursive_types(R)]
#[verifier::reject_recursive_types(T)]
pub struct ExMutex<R, T: ?Sized>(parking_lot::lock_api::Mutex<R, T>);

/// Exclusive access to the counter while it lives; dropping it releases
/// the lock. Holds parking_lot's guard, whose type Verus cannot declare.
#[verifier::external_body]
pub struct StateGuard<'a> {
    guard: parking_lot::MutexGuard<'a, AppState>,
}

/// The state that a held guard gives access to.
pub uninterp spec fn guarded(g: StateGuard<'_>) -> AppState;

/// Relies on parking_lot::Mutex::new: a lock around `s`, not held.
#[verifier::external_body]
fn new_lock(s: AppState) -> (r: parking_lot::Mutex<AppState>) {
    parking_lot::Mutex::new(s)
}

/// Relies on parking_lot::Mutex::lock: blocks until no other guard is
/// alive, then hands out the one guard; the lock is released when it drops.
/// What it holds then depends on earlier callers, so nothing is said of it.
#[verifier::external_body]
fn acquire(m: &parking_lot::Mutex<AppState>) -> (r: StateGuard<'_>) {
    StateGuard { guard: m.lock() }
}

/// Relies on the guard's `Deref`: reads the guarded state.
#[verifier::external_body]
fn read_guarded(g: &StateGuard<'_>) -> (r: AppState)
    ensures
        r == guarded(*g),
{
    *g.guard
}

/// Relies on the guard's `DerefMut`: replaces the guarded state.
#[verifier::external_body]
fn write_guarded(g: &mut StateGuard<'_>, s: AppState)
    ensures
        guarded(*final(g)) == s,
{
    *g.guard = s;
}

impl<'a> StateGuard<'a> {
    /// The state as it stands while this guard is held.
    pub fn state(&self) -> (r: AppState)
        ensures
            r == guarded(*self),
    {
        read_guarded(self)
    }

    /// Applies `m` to the guarded state: the write is exactly the step of
    /// what was read under the same guard, so no other caller's change is lost.
    pub fn apply(&mut self, m: Mutation) -> (r: Result<StatePayload, CounterError>)
        ensures
            guarded(*final(self)) == match guarded(*old(self)).stepped(m) {
                Some(n) => n,
                None => guarded(*old(self)),
            },
            match r {
                Ok(p) => guarded(*old(self)).outcome(m) == Ok::<int, CounterError>(p.spec_count()),
                Err(e) => guarded(*old(self)).outcome(m) == Err::<int, CounterError>(e),
            },
    {
        let mut s = read_guarded(self);
        let r = s.apply(m);
        write_guarded(self, s);
        r
    }
}

/// The counter as the host runtime shares it among all commands.
pub struct AppStateWrapper(pub parking_lot::Mutex<AppState>);

impl AppStateWrapper {
    /// A shared counter that starts at zero.
    pub fn new() -> (r: AppStateWrapper) {
        AppStateWrapper(new_lock(AppState::new()))
    }

    /// Waits for exclusive access to the counter. The access ends when the
    /// guard is dropped, on every path out of the caller's scope.
    pub fn lock(&self) -> (r: StateGuard<'_>) {
        acquire(&self.0)
    }

    /// Applies `m` under the lock and releases it before returning. What
    /// earlier callers left is not known here: the result is the outcome of
    /// `m` on some count in the range of `i32`.
    pub fn apply(&self, m: Mutation) -> (r: Result<StatePayload, CounterError>)
        ensures
            match r {
                Ok(p) => i32::MIN <= p.spec_count() - delta(m) <= i32::MAX,
                Err(e) => e == CounterError::Overflow,
            },
    {
        let mut g = self.lock();
        g.apply(m)
    }

    /// Adds one to the shared count; the payload announces the new count.
    pub fn increment(&self) -> (r: Result<StatePayload, CounterError>)
        ensures
            match r {
                Ok(p) => i32::MIN < p.spec_count(),
                Err(e) => e == CounterError::Overflow,
            },
    {
        self.apply(Mutation::Increment)
    }

    /// Subtracts one from the shared count; the payload announces the new count.
    pub fn decrement(&self) -> (r: Result<StatePayload, CounterError>)
        ensures
            match r {
                Ok(p) => p.spec_count() < i32::MAX,
                Err(e) => e == CounterError::Overflow,
            },
    {
        self.apply(Mutation::Decrement)
    }

    /// The shared count as it stands when the lock is taken.
    pub fn get_initial_state(&self) -> (r: i32) {
        let g = self.lock();
        g.state().get_initial_state()
    }
}

} // verus!
