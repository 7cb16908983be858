//! The controlled counter: raising the count takes the counter role at the
//! registry, and a raise past the threshold costs the principal that role.

use crate::address::Address;
use crate::contract::{saturating_difference, saturating_sum, stored_count};
use crate::error::Error;
use crate::host::{Env, EnvView};
use crate::registry::{role_of, Role};
use vstd::prelude::*;

verus! {

/// The largest count that a raise may reach without penalty.
pub const THRESHOLD: u64 = 100;

/// The keys under which a controlled counter stores its values.
#[derive(Clone, Copy, Debug, PartialEq, Eq, Structural)]
pub enum DataKey {
    /// The count, an unsigned 64-bit integer.
    Count,
    /// The address of the authorization registry.
    AccessControl,
}

impl DataKey {
    /// Whether `env` stores a value under this key.
    pub fn held_in(&self, env: &Env) -> (held: bool)
        ensures
            held == match self {
                DataKey::Count => env@.count is Some,
                DataKey::AccessControl => env@.access_control is Some,
            },
    {
        match self {
            DataKey::Count => env.count.is_some(),
            DataKey::AccessControl => env.access_control.is_some(),
        }
    }
}

/// Whether raising `count` by `amount` carries it past the threshold. The
/// sum is taken before it is held at the largest `u64`.
pub open spec fn exceeds_threshold(count: int, amount: int) -> bool {
    count + amount > THRESHOLD
}

/// Whether `counter` may raise the count in `env`, and if not, why: the
/// registry must be known, it must grant `counter` the counter role, and
/// `counter` must have authorized the invocation itself, asked in this order.
pub open spec fn admission(env: EnvView, counter: Seq<char>) -> Result<(), Error> {
    if env.access_control is None {
        Err(Error::NotInitialized)
    } else if role_of(env.roles, counter) != Role::Counter {
        Err(Error::Unauthorized)
    } else if !env.authenticates(counter) {
        Err(Error::Unauthenticated)
    } else {
        Ok(())
    }
}

/// What `add` returns.
pub open spec fn add_result(env: EnvView, counter: Seq<char>, amount: int) -> Result<u64, Error> {
    match admission(env, counter) {
        Err(error) => Err(error),
        Ok(_) => if exceeds_threshold(stored_count(env.count), amount) {
            Ok(0)
        } else {
            Ok(saturating_sum(stored_count(env.count), amount) as u64)
        },
    }
}

/// The environment that `add` leaves behind: unchanged where the call is
/// refused; with the count at zero and the role of `counter` cleared where
/// the raise exceeds the threshold; with the raised count otherwise.
pub open spec fn after_add(env: EnvView, counter: Seq<char>, amount: int) -> EnvView {
    if admission(env, counter) is Err {
        env
    } else if exceeds_threshold(stored_count(env.count), amount) {
        EnvView { count: Some(0), roles: env.roles.remove(counter), ..env }
    } else {
        EnvView { count: Some(saturating_sum(stored_count(env.count), amount)), ..env }
    }
}

/// What `subtract` returns.
pub open spec fn subtract_result(env: EnvView, counter: Seq<char>, amount: int) -> Result<
    u64,
    Error,
> {
    if env.authenticates(counter) {
        Ok(saturating_difference(stored_count(env.count), amount) as u64)
    } else {
        Err(Error::Unauthenticated)
    }
}

/// The environment that `subtract` leaves behind.
pub open spec fn after_subtract(env: EnvView, counter: Seq<char>, amount: int) -> EnvView {
    if env.authenticates(counter) {
        EnvView { count: Some(saturating_difference(stored_count(env.count), amount)), ..env }
    } else {
        env
    }
}

/// The one-time initializer of a controlled counter.
pub trait ConstructorTrait {
    /// Stores `controller` as the address of the registry. It runs once,
    /// when the counter is deployed.
    fn __constructor(e: &mut Env, controller: Address)
        requires
            old(e)@.access_control is None,
        ensures
            final(e)@ == (EnvView { access_control: Some(controller@), ..old(e)@ }),
    ;
}

/// The operations of a controlled counter.
pub trait ControlledCounterTrait {
    /// The current count: zero if the counter was never written. Anyone may
    /// ask.
    fn count(env: &Env) -> (count: u64)
        ensures
            count == stored_count(env@.count),
    ;

    /// Raises the count by `amount` on behalf of `counter`.
    ///
    /// The call is refused, and changes nothing, unless the counter was
    /// constructed, the registry grants `counter` the counter role, and
    /// `counter` authorized the invocation. A raise past the threshold
    /// clears the role of `counter` and sets the count to zero; any other
    /// raise stores the sum.
    fn add(env: &mut Env, counter: Address, amount: u64) -> (outcome: Result<u64, Error>)
        ensures
            outcome == add_result(old(env)@, counter@, amount as int),
            final(env)@ == after_add(old(env)@, counter@, amount as int),
    ;

    /// Lowers the count by `amount` on behalf of `counter`, saturating at
    /// zero. Only the authorization of `counter` itself is required; the
    /// registry is not consulted.
    fn subtract(env: &mut Env, counter: Address, amount: u64) -> (outcome: Result<u64, Error>)
        ensures
            outcome == subtract_result(old(env)@, counter@, amount as int),
            final(env)@ == after_subtract(old(env)@, counter@, amount as int),
    ;
}

/// The controlled counter.
pub struct CrossCounterContract;

impl ConstructorTrait for CrossCounterContract {
    fn __constructor(e: &mut Env, controller: Address) {
        e.access_control = Some(controller);
    }
}

impl ControlledCounterTrait for CrossCounterContract {
    fn count(env: &Env) -> (count: u64) {
        env.count.unwrap_or(0u64)
    }

    fn add(env: &mut Env, counter: Address, amount: u64) -> (outcome: Result<u64, Error>) {
        require_counter(env, &counter)?;
        let count: u64 = env.count.unwrap_or(0u64);
        let new_count: u64 = if count.saturating_add(amount) > THRESHOLD {
            remove_counter_role(env, &counter)?;
            0
        } else {
            count.saturating_add(amount)
        };
        env.count = Some(new_count);
        Ok(new_count)
    }

    fn subtract(env: &mut Env, counter: Address, amount: u64) -> (outcome: Result<u64, Error>) {
        env.require_auth(&counter)?;
        let count: u64 = env.count.unwrap_or(0u64);
        let new_count: u64 = count.saturating_sub(amount);
        env.count = Some(new_count);
        Ok(new_count)
    }
}

/// Admits `counter` to raising the count, or says why not.
pub fn require_counter(env: &Env, counter: &Address) -> (verdict: Result<(), Error>)
    ensures
        verdict == admission(env@, counter@),
{
    if env.access_control.is_none() {
        return Err(Error::NotInitialized);
    }
    env.registry.verify_auth(counter, Role::Counter)?;
    env.require_auth(counter)
}

/// Has the registry clear the role of `counter`, in the name of the counter
/// contract itself. Refused, with nothing changed, where the counter was
/// never constructed.
pub fn remove_counter_role(env: &mut Env, counter: &Address) -> (verdict: Result<(), Error>)
    ensures
        verdict == (if old(env)@.access_control is None {
            Err::<(), Error>(Error::NotInitialized)
        } else {
            Ok::<(), Error>(())
        }),
        final(env)@ == (if old(env)@.access_control is None {
            old(env)@
        } else {
            EnvView { roles: old(env)@.roles.remove(counter@), ..old(env)@ }
        }),
{
    if env.access_control.is_none() {
        return Err(Error::NotInitialized);
    }
    let contract = env.current_contract_address();
    env.registry.remove_role(counter, &contract);
    Ok(())
}

} // verus!
