use controlled_counter::address::Address;
use controlled_counter::cross_contract::{
    ConstructorTrait, ControlledCounterTrait, CrossCounterContract,
};
use controlled_counter::error::Error;
use controlled_counter::host::Env;
use controlled_counter::protocol::{
    begin_add, begin_subtract, perform, settle, Call, Progress, Raise, Request,
};
use controlled_counter::registry::Role;

/// A counter at `counter`, constructed with the registry at `registry`,
/// that stores `count`.
fn constructed(count: Option<u64>) -> Env {
    let mut env = Env::new(Address::new("counter"));
    CrossCounterContract::__constructor(&mut env, Address::new("registry"));
    env.count = count;
    env
}

fn raise(count: u64, amount: u64) -> Raise {
    Raise {
        registry: Address::new("registry"),
        contract: Address::new("counter"),
        principal: Address::new("A"),
        count,
        amount,
    }
}

#[test]
fn a_raise_before_construction_aborts_at_once() {
    let env = Env::new(Address::new("counter"));
    assert_eq!(
        Progress::Abort { error: Error::NotInitialized },
        begin_add(&env, Address::new("A"), 1)
    );
}

#[test]
fn a_raise_first_asks_the_registry_for_the_counter_role() {
    let env = constructed(Some(7));
    let progress = begin_add(&env, Address::new("A"), 4);
    assert_eq!(Progress::Pending(Call::VerifyingRole(raise(7, 4))), progress);
    let Progress::Pending(call) = progress else {
        panic!("the call is pending");
    };
    assert_eq!(
        Request::VerifyAuth {
            registry: Address::new("registry"),
            subject: Address::new("A"),
            role: Role::Counter,
        },
        call.request()
    );
}

#[test]
fn a_raise_on_a_counter_never_written_starts_from_zero() {
    let env = constructed(None);
    assert_eq!(
        Progress::Pending(Call::VerifyingRole(raise(0, 4))),
        begin_add(&env, Address::new("A"), 4)
    );
}

#[test]
fn a_refused_role_aborts_the_raise() {
    assert_eq!(
        Progress::Abort { error: Error::Unauthorized },
        Call::VerifyingRole(raise(7, 4)).resume(false)
    );
}

#[test]
fn a_granted_role_leads_to_the_signature() {
    let progress = Call::VerifyingRole(raise(7, 4)).resume(true);
    assert_eq!(Progress::Pending(Call::Authenticating(raise(7, 4))), progress);
    let Progress::Pending(call) = progress else {
        panic!("the call is pending");
    };
    assert_eq!(Request::RequireAuth { principal: Address::new("A") }, call.request());
}

#[test]
fn a_missing_signature_aborts_the_raise() {
    assert_eq!(
        Progress::Abort { error: Error::Unauthenticated },
        Call::Authenticating(raise(7, 4)).resume(false)
    );
    assert_eq!(
        Progress::Abort { error: Error::Unauthenticated },
        Call::Authenticating(raise(7, 400)).resume(false)
    );
}

#[test]
fn a_raise_within_the_threshold_commits_the_sum() {
    assert_eq!(
        Progress::Commit { count: 11 },
        Call::Authenticating(raise(7, 4)).resume(true)
    );
    assert_eq!(
        Progress::Commit { count: 100 },
        Call::Authenticating(raise(7, 93)).resume(true)
    );
    assert_eq!(
        Progress::Commit { count: 0 },
        Call::Authenticating(raise(0, 0)).resume(true)
    );
}

#[test]
fn a_raise_past_the_threshold_has_the_role_cleared_first() {
    let progress = Call::Authenticating(raise(7, 94)).resume(true);
    assert_eq!(Progress::Pending(Call::Revoking(raise(7, 94))), progress);
    let Progress::Pending(call) = progress else {
        panic!("the call is pending");
    };
    assert_eq!(
        Request::RemoveRole {
            registry: Address::new("registry"),
            subject: Address::new("A"),
            revoked_by: Address::new("counter"),
        },
        call.request()
    );
    assert_eq!(
        Progress::Pending(Call::Revoking(raise(u64::MAX, u64::MAX))),
        Call::Authenticating(raise(u64::MAX, u64::MAX)).resume(true)
    );
}

#[test]
fn a_cleared_role_commits_zero() {
    assert_eq!(Progress::Commit { count: 0 }, Call::Revoking(raise(7, 94)).resume(true));
}

#[test]
fn a_refused_clearing_aborts_the_raise() {
    assert_eq!(
        Progress::Abort { error: Error::Unauthorized },
        Call::Revoking(raise(7, 94)).resume(false)
    );
}

#[test]
fn a_lowering_asks_for_the_signature_only() {
    let env = Env::new(Address::new("counter"));
    let progress = begin_subtract(&env, Address::new("A"), 3);
    assert_eq!(
        Progress::Pending(Call::Lowering { principal: Address::new("A"), count: 0, amount: 3 }),
        progress
    );
    let Progress::Pending(call) = progress else {
        panic!("the call is pending");
    };
    assert_eq!(Request::RequireAuth { principal: Address::new("A") }, call.request());
    assert_eq!(Progress::Commit { count: 0 }, call.resume(true));

    let env = constructed(Some(10));
    let Progress::Pending(call) = begin_subtract(&env, Address::new("A"), 3) else {
        panic!("the call is pending");
    };
    assert_eq!(Progress::Commit { count: 7 }, call.resume(true));
}

#[test]
fn a_lowering_without_the_signature_aborts() {
    let env = constructed(Some(10));
    let Progress::Pending(call) = begin_subtract(&env, Address::new("A"), 3) else {
        panic!("the call is pending");
    };
    assert_eq!(Progress::Abort { error: Error::Unauthenticated }, call.resume(false));
}

#[test]
fn perform_answers_from_the_environment() {
    let a = Address::new("A");
    let mut env = constructed(Some(5));
    let check = Request::VerifyAuth {
        registry: Address::new("registry"),
        subject: a.clone(),
        role: Role::Counter,
    };
    let signature = Request::RequireAuth { principal: a.clone() };
    let clearing = Request::RemoveRole {
        registry: Address::new("registry"),
        subject: a.clone(),
        revoked_by: Address::new("counter"),
    };
    assert!(!perform(&mut env, &check));
    assert!(!perform(&mut env, &signature));

    env.registry.set_role(Role::Counter, &a);
    env.authenticate(&a);
    assert!(perform(&mut env, &check));
    assert!(perform(&mut env, &signature));
    assert_eq!(Role::Counter, env.registry.check_role(&a));

    assert!(perform(&mut env, &clearing));
    assert_eq!(Role::NoRole, env.registry.check_role(&a));
    assert!(!perform(&mut env, &check));
    assert_eq!(Some(5), env.count);
}

#[test]
fn settle_stores_what_the_call_commits() {
    let mut env = constructed(Some(5));
    assert_eq!(Ok(42), settle(&mut env, Progress::Commit { count: 42 }));
    assert_eq!(Some(42), env.count);
    assert_eq!(
        Err(Error::Unauthorized),
        settle(&mut env, Progress::Abort { error: Error::Unauthorized })
    );
    assert_eq!(Some(42), env.count);
}

#[test]
fn the_protocol_ends_as_the_operations_do() {
    let a = Address::new("A");
    let counts = [None, Some(0), Some(7), Some(100), Some(101), Some(u64::MAX)];
    let amounts = [0, 1, 93, 94, 100, 101, u64::MAX];
    for constructs in [false, true] {
        for role in [Role::NoRole, Role::Remover, Role::Counter] {
            for signs in [false, true] {
                for count in counts {
                    for amount in amounts {
                        let mut direct = Env::new(Address::new("counter"));
                        let mut driven = Env::new(Address::new("counter"));
                        for env in [&mut direct, &mut driven] {
                            if constructs {
                                CrossCounterContract::__constructor(
                                    env,
                                    Address::new("registry"),
                                );
                            }
                            env.count = count;
                            env.registry.set_role(role, &a);
                            if signs {
                                env.authenticate(&a);
                            }
                        }

                        let begun = begin_add(&driven, a.clone(), amount);
                        assert_eq!(
                            CrossCounterContract::add(&mut direct, a.clone(), amount),
                            settle(&mut driven, begun)
                        );
                        assert_eq!(direct.count, driven.count);
                        assert_eq!(direct.registry.check_role(&a), driven.registry.check_role(&a));

                        let begun = begin_subtract(&driven, a.clone(), amount);
                        assert_eq!(
                            CrossCounterContract::subtract(&mut direct, a.clone(), amount),
                            settle(&mut driven, begun)
                        );
                        assert_eq!(direct.count, driven.count);
                        assert_eq!(direct.registry.check_role(&a), driven.registry.check_role(&a));
                        assert_eq!(direct.access_control, driven.access_control);
                    }
                }
            }
        }
    }
}

#[test]
fn a_driven_raise_past_the_threshold_clears_the_role() {
    let a = Address::new("A");
    let mut env = constructed(Some(7));
    env.registry.set_role(Role::Counter, &a);
    env.authenticate(&a);
    let begun = begin_add(&env, a.clone(), 100);
    assert_eq!(Ok(0), settle(&mut env, begun));
    assert_eq!(Some(0), env.count);
    assert_eq!(Role::NoRole, env.registry.check_role(&a));

    let begun = begin_add(&env, a.clone(), 1);
    assert_eq!(Err(Error::Unauthorized), settle(&mut env, begun));
    assert_eq!(Some(0), env.count);
}
