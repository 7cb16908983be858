//! The authorization registry: who holds which role.
//!
//! A counter never reads the table of roles itself. It asks the registry to
//! verify a role or to clear one, and the registry answers.

use crate::address::Address;
use crate::error::Error;
use vstd::hash_map::StringHashMap;
use vstd::prelude::*;

verus! {

/// The tag that a registry assigns to a principal.
#[derive(Clone, Copy, Debug, PartialEq, Eq, Structural)]
pub enum Role {
    /// May raise the counter.
    Counter,
    /// May take a role away from a principal.
    Remover,
    /// Holds no role.
    NoRole,
}

impl Role {
    /// The symbol under which a registry knows each role.
    pub open spec fn spec_tag(self) -> Seq<char> {
        match self {
            Role::Counter => "COUNTER"@,
            Role::Remover => "REMOVER"@,
            Role::NoRole => "NO_ROLE"@,
        }
    }

    /// The symbol of this role.
    pub fn tag(&self) -> (symbol: &'static str)
        ensures
            symbol@ == self.spec_tag(),
    {
        match self {
            Role::Counter => "COUNTER",
            Role::Remover => "REMOVER",
            Role::NoRole => "NO_ROLE",
        }
    }
}

/// The role that the assignments `roles` give to `who`: the one recorded, or
/// `NoRole` where none is.
pub open spec fn role_of(roles: Map<Seq<char>, Role>, who: Seq<char>) -> Role {
    if roles.contains_key(who) {
        roles[who]
    } else {
        Role::NoRole
    }
}

/// The assignments after `who` was given `role`. Giving `NoRole` clears the
/// record, so that a principal has at most one role at any time.
pub open spec fn with_role(roles: Map<Seq<char>, Role>, who: Seq<char>, role: Role) -> Map<
    Seq<char>,
    Role,
> {
    if role == Role::NoRole {
        roles.remove(who)
    } else {
        roles.insert(who, role)
    }
}

/// A registry of roles. Its view is the table of recorded assignments.
pub struct Registry {
    roles: StringHashMap<Role>,
}

impl View for Registry {
    type V = Map<Seq<char>, Role>;

    closed spec fn view(&self) -> Map<Seq<char>, Role> {
        self.roles@
    }
}

impl Registry {
    /// A registry in which nobody holds a role.
    pub fn new() -> (registry: Self)
        ensures
            registry@ == Map::<Seq<char>, Role>::empty(),
    {
        Registry { roles: StringHashMap::new() }
    }

    /// Gives `user` the role `role`, in place of any role held before.
    pub fn set_role(&mut self, role: Role, user: &Address)
        ensures
            final(self)@ == with_role(old(self)@, user@, role),
    {
        match role {
            Role::NoRole => self.roles.remove(user.as_str()),
            _ => self.roles.insert(user.as_str().to_owned(), role),
        }
    }

    /// The role that `user` holds now.
    pub fn check_role(&self, user: &Address) -> (role: Role)
        ensures
            role == role_of(self@, user@),
    {
        match self.roles.get(user.as_str()) {
            Some(role) => *role,
            None => Role::NoRole,
        }
    }

    /// Succeeds exactly when `user` holds `role` now.
    pub fn verify_auth(&self, user: &Address, role: Role) -> (verdict: Result<(), Error>)
        ensures
            verdict == (if role_of(self@, user@) == role {
                Ok::<(), Error>(())
            } else {
                Err::<(), Error>(Error::Unauthorized)
            }),
    {
        if self.check_role(user) == role {
            Ok(())
        } else {
            Err(Error::Unauthorized)
        }
    }

    /// Clears the role of `user` on behalf of `remover`, whoever that is.
    /// The roles of all other principals stay as they are.
    #[allow(unused_variables)]
    pub fn remove_role(&mut self, user: &Address, remover: &Address)
        ensures
            final(self)@ == old(self)@.remove(user@),
    {
        self.roles.remove(user.as_str());
    }
}

} // verus!
