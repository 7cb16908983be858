//! The environment that hosts a counter, as one invocation sees it.
//!
//! It holds what a counter reads and writes: its own address, the two values
//! of its instance storage, the authorization registry that it consults, and
//! the principals that authorized the invocation themselves.

use crate::address::Address;
use crate::error::Error;
use crate::registry::{Registry, Role};
use vstd::hash_set::StringHashSet;
use vstd::prelude::*;

verus! {

/// The hosting environment of one counter.
pub struct Env {
    /// The address of the counter itself.
    pub contract: Address,
    /// The stored count; `None` until the first write.
    pub count: Option<u64>,
    /// The stored address of the registry; `None` until construction.
    pub access_control: Option<Address>,
    /// The authorization registry.
    pub registry: Registry,
    /// The principals that have authorized the invocation themselves.
    pub signers: StringHashSet,
}

/// What an environment holds, as mathematical values.
pub struct EnvView {
    /// The text of the counter's own address.
    pub contract: Seq<char>,
    /// The stored count, if one was ever written.
    pub count: Option<int>,
    /// The text of the registry's address, once the counter is constructed.
    pub access_control: Option<Seq<char>>,
    /// The roles that the registry has recorded.
    pub roles: Map<Seq<char>, Role>,
    /// The principals that have authorized the invocation themselves.
    pub signers: Set<Seq<char>>,
}

impl View for Env {
    type V = EnvView;

    open spec fn view(&self) -> EnvView {
        EnvView {
            contract: self.contract@,
            count: match self.count {
                Some(count) => Some(count as int),
                None => None,
            },
            access_control: match self.access_control {
                Some(registry) => Some(registry@),
                None => None,
            },
            roles: self.registry@,
            signers: self.signers@,
        }
    }
}

impl EnvView {
    /// The environment of a counter at `contract` on which nothing has
    /// happened yet.
    pub open spec fn fresh(contract: Seq<char>) -> EnvView {
        EnvView {
            contract,
            count: None,
            access_control: None,
            roles: Map::empty(),
            signers: Set::empty(),
        }
    }

    /// Whether the stored count, if there is one, fits an unsigned 64-bit
    /// integer.
    pub open spec fn in_bounds(self) -> bool {
        match self.count {
            Some(count) => 0 <= count <= u64::MAX,
            None => true,
        }
    }

    /// Whether `principal` has authorized the invocation itself.
    pub open spec fn authenticates(self, principal: Seq<char>) -> bool {
        self.signers.contains(principal)
    }
}

impl Env {
    /// A fresh environment for the counter at `contract`: nothing is stored,
    /// nobody holds a role, nobody has signed.
    pub fn new(contract: Address) -> (env: Self)
        ensures
            env@ == EnvView::fresh(contract@),
    {
        Env {
            contract,
            count: None,
            access_control: None,
            registry: Registry::new(),
            signers: StringHashSet::new(),
        }
    }

    /// The address of the counter that this environment hosts.
    pub fn current_contract_address(&self) -> (contract: Address)
        ensures
            contract@ == self@.contract,
    {
        self.contract.clone()
    }

    /// Records that `principal` itself authorizes the invocations that
    /// follow.
    pub fn authenticate(&mut self, principal: &Address)
        ensures
            final(self)@ == (EnvView {
                signers: old(self)@.signers.insert(principal@),
                ..old(self)@
            }),
    {
        self.signers.insert(principal.as_str().to_owned());
    }

    /// Succeeds exactly when `principal` has authorized the invocation
    /// itself.
    pub fn require_auth(&self, principal: &Address) -> (verdict: Result<(), Error>)
        ensures
            verdict == (if self@.authenticates(principal@) {
                Ok::<(), Error>(())
            } else {
                Err::<(), Error>(Error::Unauthenticated)
            }),
    {
        if self.signers.contains(principal.as_str()) {
            Ok(())
        } else {
            Err(Error::Unauthenticated)
        }
    }
}

impl Default for Env {
    /// A fresh environment for a counter whose address is the empty text.
    fn default() -> (env: Self)
        ensures
            env@ == EnvView::fresh(Seq::<char>::empty()),
    {
        proof {
            reveal_strlit("");
        }
        let env = Env::new(Address::new(""));
        assert(env@.contract =~= Seq::<char>::empty());
        env
    }
}

} // verus!
