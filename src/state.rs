//! The counter and the single step that each mutation applies to it.

use vstd::prelude::*;

verus! {

/// The one piece of process-wide state: a signed counter, zero at start.
#[derive(Debug, Clone, Copy, PartialEq, Eq, Structural)]
pub struct AppState {
    pub count: i32,
}

/// What a `state_changed` notification carries: the count after a change.
#[derive(Debug, Clone, Copy, PartialEq, Eq, Structural)]
pub struct StatePayload {
    count: i32,
}

/// The two changes a caller can make to the counter.
#[derive(Debug, Clone, Copy, PartialEq, Eq, Structural)]
pub enum Mutation {
    Increment,
    Decrement,
}

/// Why a mutation was refused: the new count would leave the range of `i32`.
#[derive(Debug, Clone, Copy, PartialEq, Eq, Structural)]
pub enum CounterError {
    Overflow,
}

/// How much a mutation moves the counter.
pub open spec fn delta(m: Mutation) -> int {
    match m {
        Mutation::Increment => 1,
        Mutation::Decrement => -1,
    }
}

impl StatePayload {
    pub closed spec fn spec_count(self) -> int {
        self.count as int
    }

    /// The payload that announces `count`.
    pub fn new(count: i32) -> (r: StatePayload)
        ensures
            r.spec_count() == count,
    {
        StatePayload { count }
    }

    /// The count that the payload announces.
    pub fn count(&self) -> (r: i32)
        ensures
            r == self.spec_count(),
    {
        self.count
    }
}

impl AppState {
    /// The state after applying `m`, or `None` where the count would leave `i32`.
    pub open spec fn stepped(self, m: Mutation) -> Option<AppState> {
        let n = self.count + delta(m);
        if i32::MIN <= n && n <= i32::MAX {
            Some(AppState { count: n as i32 })
        } else {
            None
        }
    }

    /// What a mutation command reports: the payload announcing the new
    /// count, or the reason it was refused.
    pub open spec fn outcome(self, m: Mutation) -> Result<int, CounterError> {
        match self.stepped(m) {
            Some(n) => Ok(n.count as int),
            None => Err(CounterError::Overflow),
        }
    }

    /// The state a process starts with: a count of zero.
    pub fn new() -> (r: AppState)
        ensures
            r.count == 0,
    {
        AppState { count: 0 }
    }

    /// Applies `m`. On success the count moves by one and the payload
    /// announces the new count; on overflow the state is left as it was.
    pub fn apply(&mut self, m: Mutation) -> (r: Result<StatePayload, CounterError>)
        ensures
            *final(self) == match old(self).stepped(m) {
                Some(n) => n,
                None => *old(self),
            },
            match r {
                Ok(p) => old(self).outcome(m) == Ok::<int, CounterError>(p.spec_count()),
                Err(e) => old(self).outcome(m) == Err::<int, CounterError>(e),
            },
    {
        let next = match m {
            Mutation::Increment => self.count.checked_add(1),
            Mutation::Decrement => self.count.checked_sub(1),
        };
        match next {
            Some(n) => {
                self.count = n;
                Ok(StatePayload::new(n))
            },
            None => Err(CounterError::Overflow),
        }
    }

    /// Adds one to the count.
    pub fn increment(&mut self) -> (r: Result<StatePayload, CounterError>)
        ensures
            *final(self) == match old(self).stepped(Mutation::Increment) {
                Some(n) => n,
                None => *old(self),
            },
            match r {
                Ok(p) => old(self).outcome(Mutation::Increment) == Ok::<int, CounterError>(p.spec_count()),
                Err(e) => old(self).outcome(Mutation::Increment) == Err::<int, CounterError>(e),
            },
    {
        self.apply(Mutation::Increment)
    }

    /// Subtracts one from the count; there is no lower bound but `i32::MIN`.
    pub fn decrement(&mut self) -> (r: Result<StatePayload, CounterError>)
        ensures
            *final(self) == match old(self).stepped(Mutation::Decrement) {
                Some(n) => n,
                None => *old(self),
            },
            match r {
                Ok(p) => old(self).outcome(Mutation::Decrement) == Ok::<int, CounterError>(p.spec_count()),
                Err(e) => old(self).outcome(Mutation::Decrement) == Err::<int, CounterError>(e),
            },
    {
        self.apply(Mutation::Decrement)
    }

    /// The current count.
    pub fn get_initial_state(&self) -> (r: i32)
        ensures
            r == self.count,
    {
        self.count
    }
}

impl Default for AppState {
    fn default() -> (r: AppState)
        ensures
            r.count == 0,
    {
        AppState::new()
    }
}

} // verus!
