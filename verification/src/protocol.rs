//! The controlled counter as a protocol between the counter and its host.
//!
//! Where the registry and the signatures live outside the counter, the
//! counter cannot look anything up. It asks its host, one request at a time,
//! and decides on each answer what comes next. A call begins with
//! [`begin_add`] or [`begin_subtract`]; while it is [`Progress::Pending`] the
//! host carries out [`Call::request`] and hands the answer to
//! [`Call::resume`]; it ends when the counter commits a count or aborts.

use crate::address::Address;
use crate::contract::{saturating_difference, saturating_sum, stored_count};
use crate::cross_contract::{exceeds_threshold, THRESHOLD};
use crate::error::Error;
use crate::host::{Env, EnvView};
use crate::registry::{role_of, Role};
use vstd::prelude::*;

verus! {

/// What a counter asks of its host.
#[derive(Debug, PartialEq, Eq)]
pub enum Request {
    /// Ask the registry at `registry` whether `subject` holds `role`.
    VerifyAuth { registry: Address, subject: Address, role: Role },
    /// Check that `principal` authorized this invocation itself.
    RequireAuth { principal: Address },
    /// Have the registry at `registry` clear the role of `subject`, in the
    /// name of `revoked_by`.
    RemoveRole { registry: Address, subject: Address, revoked_by: Address },
}

/// A raise in flight: who asked for it, and what it started from.
#[derive(Debug, PartialEq, Eq)]
pub struct Raise {
    /// The registry that the counter was constructed with.
    pub registry: Address,
    /// The counter itself.
    pub contract: Address,
    /// The principal on whose behalf the count is raised.
    pub principal: Address,
    /// The count when the call began.
    pub count: u64,
    /// The amount to raise it by.
    pub amount: u64,
}

/// A call that waits for its host to answer a request.
#[derive(Debug, PartialEq, Eq)]
pub enum Call {
    /// A raise that waits for the registry's word on the counter role.
    VerifyingRole(Raise),
    /// A raise that waits for the principal's own authorization.
    Authenticating(Raise),
    /// A raise past the threshold that waits for the role to be cleared.
    Revoking(Raise),
    /// A lowering that waits for the principal's own authorization.
    Lowering { principal: Address, count: u64, amount: u64 },
}

/// Where a call stands.
#[derive(Debug, PartialEq, Eq)]
pub enum Progress {
    /// The host owes the answer to `Call::request`.
    Pending(Call),
    /// The call succeeds: the host stores `count` and returns it.
    Commit { count: u64 },
    /// The call fails: the host discards every effect of it.
    Abort { error: Error },
}

/// The request that `call` waits on.
pub open spec fn pending(call: Call) -> Request {
    match call {
        Call::VerifyingRole(raise) => Request::VerifyAuth {
            registry: raise.registry,
            subject: raise.principal,
            role: Role::Counter,
        },
        Call::Authenticating(raise) => Request::RequireAuth { principal: raise.principal },
        Call::Revoking(raise) => Request::RemoveRole {
            registry: raise.registry,
            subject: raise.principal,
            revoked_by: raise.contract,
        },
        Call::Lowering { principal, .. } => Request::RequireAuth { principal },
    }
}

/// Where `call` stands once its request was granted or refused.
///
/// A refused check aborts the call. A raise whose checks have passed commits
/// the saturated sum, unless the sum exceeds the threshold: then the role is
/// cleared first and zero is committed. A refused clearing aborts the call
/// like a refused role.
pub open spec fn resumed(call: Call, granted: bool) -> Progress {
    match call {
        Call::VerifyingRole(raise) => if granted {
            Progress::Pending(Call::Authenticating(raise))
        } else {
            Progress::Abort { error: Error::Unauthorized }
        },
        Call::Authenticating(raise) => if !granted {
            Progress::Abort { error: Error::Unauthenticated }
        } else if exceeds_threshold(raise.count as int, raise.amount as int) {
            Progress::Pending(Call::Revoking(raise))
        } else {
            Progress::Commit {
                count: saturating_sum(raise.count as int, raise.amount as int) as u64,
            }
        },
        Call::Revoking(_) => if granted {
            Progress::Commit { count: 0 }
        } else {
            Progress::Abort { error: Error::Unauthorized }
        },
        Call::Lowering { count, amount, .. } => if granted {
            Progress::Commit { count: saturating_difference(count as int, amount as int) as u64 }
        } else {
            Progress::Abort { error: Error::Unauthenticated }
        },
    }
}

/// Where a raise by `amount` on behalf of `counter` stands at its start: it
/// aborts at once where the counter was never constructed, and else asks the
/// registry about the counter role.
pub open spec fn add_begun(env: Env, counter: Address, amount: u64) -> Progress {
    match env.access_control {
        None => Progress::Abort { error: Error::NotInitialized },
        Some(registry) => Progress::Pending(
            Call::VerifyingRole(
                Raise {
                    registry,
                    contract: env.contract,
                    principal: counter,
                    count: stored_count(env@.count) as u64,
                    amount,
                },
            ),
        ),
    }
}

/// Where a lowering by `amount` on behalf of `counter` stands at its start.
pub open spec fn subtract_begun(env: Env, counter: Address, amount: u64) -> Progress {
    Progress::Pending(
        Call::Lowering { principal: counter, count: stored_count(env@.count) as u64, amount },
    )
}

/// The answer that the environment `env` gives to `request`.
pub open spec fn answer(env: EnvView, request: Request) -> bool {
    match request {
        Request::VerifyAuth { subject, role, .. } => role_of(env.roles, subject@) == role,
        Request::RequireAuth { principal } => env.authenticates(principal@),
        Request::RemoveRole { .. } => true,
    }
}

/// The environment once `request` was carried out in `env`.
pub open spec fn carried_out(env: EnvView, request: Request) -> EnvView {
    match request {
        Request::RemoveRole { subject, .. } => EnvView {
            roles: env.roles.remove(subject@),
            ..env
        },
        _ => env,
    }
}

/// The number of answers that a call may still need.
pub open spec fn answers_owed(progress: Progress) -> nat {
    match progress {
        Progress::Pending(Call::VerifyingRole(_)) => 3,
        Progress::Pending(Call::Authenticating(_)) => 2,
        Progress::Pending(Call::Revoking(_)) => 1,
        Progress::Pending(Call::Lowering { .. }) => 1,
        _ => 0,
    }
}

/// How a call ends when its host answers every request from one
/// environment: `now` is that environment as the call has changed it so
/// far, and `start` is what an abort goes back to.
pub open spec fn settled(start: EnvView, now: EnvView, progress: Progress) -> (
    EnvView,
    Result<u64, Error>,
)
    decreases answers_owed(progress),
{
    match progress {
        Progress::Commit { count } => (EnvView { count: Some(count as int), ..now }, Ok(count)),
        Progress::Abort { error } => (start, Err(error)),
        Progress::Pending(call) => if answer(now, pending(call)) {
            settled(start, carried_out(now, pending(call)), resumed(call, true))
        } else {
            settled(start, now, resumed(call, false))
        },
    }
}

impl Call {
    /// The request that the host is to carry out now.
    pub fn request(&self) -> (request: Request)
        ensures
            request == pending(*self),
    {
        match self {
            Call::VerifyingRole(raise) => Request::VerifyAuth {
                registry: raise.registry.clone(),
                subject: raise.principal.clone(),
                role: Role::Counter,
            },
            Call::Authenticating(raise) => Request::RequireAuth {
                principal: raise.principal.clone(),
            },
            Call::Revoking(raise) => Request::RemoveRole {
                registry: raise.registry.clone(),
                subject: raise.principal.clone(),
                revoked_by: raise.contract.clone(),
            },
            Call::Lowering { principal, .. } => Request::RequireAuth {
                principal: principal.clone(),
            },
        }
    }

    /// Takes the host's answer to the pending request, `granted` where it
    /// was carried out and `false` where it was refused, and decides what
    /// comes next.
    pub fn resume(self, granted: bool) -> (progress: Progress)
        ensures
            progress == resumed(self, granted),
    {
        match self {
            Call::VerifyingRole(raise) => {
                if granted {
                    Progress::Pending(Call::Authenticating(raise))
                } else {
                    Progress::Abort { error: Error::Unauthorized }
                }
            },
            Call::Authenticating(raise) => {
                if !granted {
                    Progress::Abort { error: Error::Unauthenticated }
                } else if raise.count.saturating_add(raise.amount) > THRESHOLD {
                    Progress::Pending(Call::Revoking(raise))
                } else {
                    Progress::Commit { count: raise.count.saturating_add(raise.amount) }
                }
            },
            Call::Revoking(_) => {
                if granted {
                    Progress::Commit { count: 0 }
                } else {
                    Progress::Abort { error: Error::Unauthorized }
                }
            },
            Call::Lowering { principal: _, count, amount } => {
                if granted {
                    Progress::Commit { count: count.saturating_sub(amount) }
                } else {
                    Progress::Abort { error: Error::Unauthenticated }
                }
            },
        }
    }
}

/// Begins a raise of the count that `env` stores, by `amount` and on behalf
/// of `counter`. Of `env` it reads what the counter itself owns: its
/// address and its two stored values.
pub fn begin_add(env: &Env, counter: Address, amount: u64) -> (progress: Progress)
    ensures
        progress == add_begun(*env, counter, amount),
{
    match &env.access_control {
        None => Progress::Abort { error: Error::NotInitialized },
        Some(registry) => Progress::Pending(
            Call::VerifyingRole(
                Raise {
                    registry: registry.clone(),
                    contract: env.contract.clone(),
                    principal: counter,
                    count: env.count.unwrap_or(0u64),
                    amount,
                },
            ),
        ),
    }
}

/// Begins a lowering of the count that `env` stores, by `amount` and on
/// behalf of `counter`.
pub fn begin_subtract(env: &Env, counter: Address, amount: u64) -> (progress: Progress)
    ensures
        progress == subtract_begun(*env, counter, amount),
{
    Progress::Pending(
        Call::Lowering { principal: counter, count: env.count.unwrap_or(0u64), amount },
    )
}

/// Answers `request` from `env`, as a host does that holds the registry and
/// the signatures itself: a check is looked up, a clearing is carried out.
pub fn perform(env: &mut Env, request: &Request) -> (granted: bool)
    ensures
        granted == answer(old(env)@, *request),
        final(env)@ == carried_out(old(env)@, *request),
{
    match request {
        Request::VerifyAuth { registry: _, subject, role } => {
            env.registry.verify_auth(subject, *role).is_ok()
        },
        Request::RequireAuth { principal } => env.require_auth(principal).is_ok(),
        Request::RemoveRole { registry: _, subject, revoked_by } => {
            env.registry.remove_role(subject, revoked_by);
            true
        },
    }
}

/// Drives a call to its end against `env`: answers each request from `env`
/// and stores the count that the call commits. A call that aborts leaves
/// `env` as it was.
pub fn settle(env: &mut Env, begun: Progress) -> (outcome: Result<u64, Error>)
    ensures
        (final(env)@, outcome) == settled(old(env)@, old(env)@, begun),
{
    let ghost start = env@;
    let mut progress = begun;
    loop
        invariant
            start == old(env)@,
            settled(start, env@, progress) == settled(start, start, begun),
            env@ == start || progress is Commit,
        decreases answers_owed(progress),
    {
        match progress {
            Progress::Pending(call) => {
                let request = call.request();
                let granted = perform(env, &request);
                progress = call.resume(granted);
            },
            Progress::Commit { count } => {
                env.count = Some(count);
                return Ok(count);
            },
            Progress::Abort { error } => {
                return Err(error);
            },
        }
    }
}

} // verus!
