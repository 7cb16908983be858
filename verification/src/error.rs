//! The ways an operation on a controlled counter is refused.

use vstd::prelude::*;

verus! {

/// Why an operation was abandoned. An abandoned operation changes nothing,
/// neither the counter nor the registry.
#[derive(Clone, Copy, Debug, PartialEq, Eq, Structural)]
pub enum Error {
    /// The counter was never given its registry.
    NotInitialized,
    /// The registry does not grant the principal the role that is required.
    Unauthorized,
    /// The principal did not itself authorize the invocation.
    Unauthenticated,
}

impl Error {
    /// The text that describes each refusal.
    pub open spec fn spec_message(self) -> Seq<char> {
        match self {
            Error::NotInitialized => "Contract has not been initialized!"@,
            Error::Unauthorized => "The principal does not hold the required role"@,
            Error::Unauthenticated => "The principal did not authorize the invocation"@,
        }
    }

    /// A sentence for the one who made the call.
    pub fn message(&self) -> (text: &'static str)
        ensures
            text@ == self.spec_message(),
    {
        match self {
            Error::NotInitialized => "Contract has not been initialized!",
            Error::Unauthorized => "The principal does not hold the required role",
            Error::Unauthenticated => "The principal did not authorize the invocation",
        }
    }
}

} // verus!
