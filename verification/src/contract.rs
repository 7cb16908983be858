//! The plain counter: a stored count that anyone may raise or lower, and
//! that saturates at both ends instead of wrapping.

use crate::host::{Env, EnvView};
use vstd::prelude::*;

verus! {

/// The keys under which a plain counter stores its values.
#[derive(Clone, Copy, Debug, PartialEq, Eq, Structural)]
pub enum DataKey {
    /// The count, an unsigned 64-bit integer.
    Count,
}

impl DataKey {
    /// Whether `env` stores a value under this key.
    pub fn held_in(&self, env: &Env) -> (held: bool)
        ensures
            held == (env@.count is Some),
    {
        env.count.is_some()
    }
}

/// The count that a stored value stands for: a counter that was never
/// written counts zero.
pub open spec fn stored_count(slot: Option<int>) -> int {
    match slot {
        Some(count) => count,
        None => 0,
    }
}

/// `count + amount`, held at the largest value of an unsigned 64-bit integer.
pub open spec fn saturating_sum(count: int, amount: int) -> int {
    if count + amount > u64::MAX {
        u64::MAX as int
    } else {
        count + amount
    }
}

/// `count - amount`, held at zero.
pub open spec fn saturating_difference(count: int, amount: int) -> int {
    if count - amount < 0 {
        0
    } else {
        count - amount
    }
}

/// The operations of a plain counter.
pub trait CounterTrait {
    /// The current count: zero if the counter was never written.
    fn count(env: &Env) -> (count: u64)
        ensures
            count == stored_count(env@.count),
    ;

    /// Raises the count by `amount`, saturating, stores it and returns it.
    fn add(env: &mut Env, amount: u64) -> (count: u64)
        ensures
            count == saturating_sum(stored_count(old(env)@.count), amount as int),
            final(env)@ == (EnvView { count: Some(count as int), ..old(env)@ }),
    ;

    /// Lowers the count by `amount`, saturating, stores it and returns it.
    fn subtract(env: &mut Env, amount: u64) -> (count: u64)
        ensures
            count == saturating_difference(stored_count(old(env)@.count), amount as int),
            final(env)@ == (EnvView { count: Some(count as int), ..old(env)@ }),
    ;
}

/// The plain counter.
pub struct CounterContract;

impl CounterTrait for CounterContract {
    fn count(env: &Env) -> (count: u64) {
        env.count.unwrap_or(0u64)
    }

    fn add(env: &mut Env, amount: u64) -> (count: u64) {
        let count: u64 = env.count.unwrap_or(0u64);
        let new_count: u64 = count.saturating_add(amount);
        env.count = Some(new_count);
        new_count
    }

    fn subtract(env: &mut Env, amount: u64) -> (count: u64) {
        let count: u64 = env.count.unwrap_or(0u64);
        let new_count: u64 = count.saturating_sub(amount);
        env.count = Some(new_count);
        new_count
    }
}

} // verus!
