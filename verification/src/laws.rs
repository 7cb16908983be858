//! What holds of a controlled counter on every environment, proved from the
//! contracts of its operations.

use crate::address::Address;
use crate::contract::{saturating_difference, saturating_sum, stored_count};
use crate::cross_contract::{
    add_result, admission, after_add, after_subtract, exceeds_threshold, subtract_result,
    THRESHOLD,
};
use crate::error::Error;
use crate::host::{Env, EnvView};
use crate::protocol::{
    add_begun, answers_owed, carried_out, pending, resumed, settled, subtract_begun, Call,
    Progress, Request,
};
use crate::registry::{role_of, Role};
use vstd::prelude::*;

verus! {

/// One operation on a controlled counter.
pub enum Operation {
    /// `add` on behalf of `counter`.
    Add { counter: Seq<char>, amount: u64 },
    /// `subtract` on behalf of `counter`.
    Subtract { counter: Seq<char>, amount: u64 },
}

/// The environment after `operation`.
pub open spec fn after(env: EnvView, operation: Operation) -> EnvView {
    match operation {
        Operation::Add { counter, amount } => after_add(env, counter, amount as int),
        Operation::Subtract { counter, amount } => after_subtract(env, counter, amount as int),
    }
}

/// The environment after all of `operations`, the first one first.
pub open spec fn after_all(env: EnvView, operations: Seq<Operation>) -> EnvView
    decreases operations.len(),
{
    if operations.len() == 0 {
        env
    } else {
        after(after_all(env, operations.drop_last()), operations.last())
    }
}

/// One operation on a plain counter.
pub enum PlainOperation {
    /// `add`.
    Add { amount: u64 },
    /// `subtract`.
    Subtract { amount: u64 },
}

/// The count of a plain counter after `operation`.
pub open spec fn count_after(count: int, operation: PlainOperation) -> int {
    match operation {
        PlainOperation::Add { amount } => saturating_sum(count, amount as int),
        PlainOperation::Subtract { amount } => saturating_difference(count, amount as int),
    }
}

/// The count of a plain counter after all of `operations`, the first one
/// first.
pub open spec fn count_after_all(count: int, operations: Seq<PlainOperation>) -> int
    decreases operations.len(),
{
    if operations.len() == 0 {
        count
    } else {
        count_after(count_after_all(count, operations.drop_last()), operations.last())
    }
}

/// What an environment holds is always within bounds: the stored count is an
/// unsigned 64-bit integer.
pub proof fn environments_are_in_bounds(env: Env)
    ensures
        env@.in_bounds(),
        0 <= stored_count(env@.count) <= u64::MAX,
{
}

/// A saturating sum or difference of two unsigned 64-bit integers is again
/// one: it neither exceeds the largest nor falls below zero.
pub proof fn saturating_arithmetic_stays_in_bounds(count: u64, amount: u64)
    ensures
        0 <= saturating_sum(count as int, amount as int) <= u64::MAX,
        0 <= saturating_difference(count as int, amount as int) <= u64::MAX,
        saturating_sum(count as int, amount as int) >= count,
        saturating_difference(count as int, amount as int) <= count,
{
}

/// Whatever operations are applied to a plain counter, in whatever order
/// and with whatever amounts, its count stays an unsigned 64-bit integer.
pub proof fn plain_saturation_bounds(count: int, operations: Seq<PlainOperation>)
    requires
        0 <= count <= u64::MAX,
    ensures
        0 <= count_after_all(count, operations) <= u64::MAX,
    decreases operations.len(),
{
    if operations.len() > 0 {
        plain_saturation_bounds(count, operations.drop_last());
    }
}

/// Whatever operations are applied to a controlled counter, in whatever
/// order and with whatever amounts and principals, the stored count stays
/// an unsigned 64-bit integer.
pub proof fn saturation_bounds(env: EnvView, operations: Seq<Operation>)
    requires
        env.in_bounds(),
    ensures
        after_all(env, operations).in_bounds(),
        0 <= stored_count(after_all(env, operations).count) <= u64::MAX,
    decreases operations.len(),
{
    if operations.len() > 0 {
        saturation_bounds(env, operations.drop_last());
    }
}

/// A count that is within the threshold stays within it, whatever
/// operations are applied: a raise that would carry it further stores zero
/// instead. So the count of a counter that started at zero never comes near
/// the largest unsigned 64-bit integer.
pub proof fn count_stays_within_threshold(env: EnvView, operations: Seq<Operation>)
    requires
        0 <= stored_count(env.count) <= THRESHOLD,
    ensures
        0 <= stored_count(after_all(env, operations).count) <= THRESHOLD,
    decreases operations.len(),
{
    if operations.len() > 0 {
        count_stays_within_threshold(env, operations.drop_last());
    }
}

/// An admitted raise whose sum exceeds the threshold returns zero, stores
/// zero and clears the principal's role, leaving every other role alone.
/// From then on the same principal is refused as unauthorized, whatever the
/// amount, and such a refused call changes nothing.
pub proof fn threshold_revocation(env: EnvView, counter: Seq<char>, amount: u64, next: u64)
    requires
        admission(env, counter) is Ok,
        exceeds_threshold(stored_count(env.count), amount as int),
    ensures
        add_result(env, counter, amount as int) == Ok::<u64, Error>(0),
        after_add(env, counter, amount as int).count == Some(0int),
        role_of(after_add(env, counter, amount as int).roles, counter) == Role::NoRole,
        forall|other: Seq<char>|
            other != counter ==> role_of(after_add(env, counter, amount as int).roles, other)
                == role_of(env.roles, other),
        add_result(after_add(env, counter, amount as int), counter, next as int) == Err::<
            u64,
            Error,
        >(Error::Unauthorized),
        after_add(after_add(env, counter, amount as int), counter, next as int) == after_add(
            env,
            counter,
            amount as int,
        ),
{
}

/// A raise that stays within the threshold stores and returns the plain sum
/// and leaves every role as it was.
pub proof fn raise_within_threshold(env: EnvView, counter: Seq<char>, amount: u64)
    requires
        env.in_bounds(),
        admission(env, counter) is Ok,
        !exceeds_threshold(stored_count(env.count), amount as int),
    ensures
        add_result(env, counter, amount as int) == Ok::<u64, Error>(
            (stored_count(env.count) + amount) as u64,
        ),
        after_add(env, counter, amount as int) == (EnvView {
            count: Some(stored_count(env.count) + amount),
            ..env
        }),
{
}

/// Lowering the count depends on the principal's own authorization and on
/// nothing else: the same call gives the same result and the same count
/// whatever the registry records and whether or not the counter was
/// constructed. In particular a principal without any role lowers the count.
pub proof fn subtract_bypass(
    env: EnvView,
    counter: Seq<char>,
    amount: u64,
    roles: Map<Seq<char>, Role>,
    access_control: Option<Seq<char>>,
)
    ensures
        subtract_result(EnvView { roles, access_control, ..env }, counter, amount as int)
            == subtract_result(env, counter, amount as int),
        after_subtract(EnvView { roles, access_control, ..env }, counter, amount as int) == (
        EnvView { roles, access_control, ..after_subtract(env, counter, amount as int) }),
        after_subtract(env, counter, amount as int).roles == env.roles,
        env.authenticates(counter) && env.in_bounds() ==> subtract_result(
            env,
            counter,
            amount as int,
        ) == Ok::<u64, Error>(
            saturating_difference(stored_count(env.count), amount as int) as u64,
        ),
        !env.authenticates(counter) ==> subtract_result(env, counter, amount as int) == Err::<
            u64,
            Error,
        >(Error::Unauthenticated),
{
}

/// Before construction every raise fails as not initialized and changes
/// nothing, whoever asks and whatever the amount. A counter that was never
/// written counts zero, and lowering it gives zero.
pub proof fn uninitialized_guard(env: EnvView, counter: Seq<char>, amount: u64)
    requires
        env.access_control is None,
    ensures
        add_result(env, counter, amount as int) == Err::<u64, Error>(Error::NotInitialized),
        after_add(env, counter, amount as int) == env,
        env.count is None ==> stored_count(env.count) == 0,
        env.count is None && env.authenticates(counter) ==> subtract_result(
            env,
            counter,
            amount as int,
        ) == Ok::<u64, Error>(0),
{
}

/// A call that is refused leaves the environment exactly as it was: the
/// count, the roles and everything else.
pub proof fn refused_calls_change_nothing(env: EnvView, counter: Seq<char>, amount: u64)
    ensures
        add_result(env, counter, amount as int) is Err ==> after_add(env, counter, amount as int)
            == env,
        subtract_result(env, counter, amount as int) is Err ==> after_subtract(
            env,
            counter,
            amount as int,
        ) == env,
{
}

/// No operation moves the counter or changes the registry that it was
/// constructed with, or who has signed.
pub proof fn registry_address_is_fixed(env: EnvView, operations: Seq<Operation>)
    ensures
        after_all(env, operations).access_control == env.access_control,
        after_all(env, operations).contract == env.contract,
        after_all(env, operations).signers == env.signers,
    decreases operations.len(),
{
    if operations.len() > 0 {
        registry_address_is_fixed(env, operations.drop_last());
    }
}

/// Each answer brings a call nearer to its end: after at most three answers
/// it has committed or aborted.
pub proof fn calls_end(call: Call, granted: bool)
    ensures
        answers_owed(resumed(call, granted)) < answers_owed(Progress::Pending(call)) <= 3,
{
}

/// A call changes something outside the counter only by clearing a role,
/// and once the role is cleared the call commits. So a call that aborts has
/// changed nothing, and every check is made before any effect.
pub proof fn checks_come_before_effects(call: Call)
    ensures
        pending(call) is RemoveRole ==> resumed(call, true) is Commit,
        !(pending(call) is RemoveRole) ==> forall|env: EnvView|
            carried_out(env, pending(call)) == env,
{
}

/// Lowering the count never turns to the registry: its one request is for
/// the principal's own authorization, and the answer settles the call.
pub proof fn subtract_asks_for_the_signature_only(
    env: Env,
    counter: Address,
    amount: u64,
    granted: bool,
)
    ensures
        subtract_begun(env, counter, amount) matches Progress::Pending(call) && pending(call)
            == (Request::RequireAuth { principal: counter }) && !(resumed(call, granted)
            is Pending),
{
}

/// A raise, driven request by request against an environment, ends as `add`
/// does on that environment: with the same result and the same changes.
pub proof fn protocol_agrees_on_add(env: Env, counter: Address, amount: u64)
    ensures
        settled(env@, env@, add_begun(env, counter, amount)) == (
            after_add(env@, counter@, amount as int),
            add_result(env@, counter@, amount as int),
        ),
{
    reveal_with_fuel(settled, 4);
}

/// A lowering, driven against an environment, ends as `subtract` does on
/// that environment.
pub proof fn protocol_agrees_on_subtract(env: Env, counter: Address, amount: u64)
    ensures
        settled(env@, env@, subtract_begun(env, counter, amount)) == (
            after_subtract(env@, counter@, amount as int),
            subtract_result(env@, counter@, amount as int),
        ),
{
    reveal_with_fuel(settled, 3);
}

} // verus!
