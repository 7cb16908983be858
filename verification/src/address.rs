//! Principals: the identities that act on a counter and on a registry.

use vstd::prelude::*;

verus! {

/// An opaque identifier of a principal: an account or a deployed contract.
///
/// Two addresses name the same principal exactly when their texts are equal.
#[derive(Debug, PartialEq, Eq)]
pub struct Address {
    text: String,
}

impl View for Address {
    type V = Seq<char>;

    closed spec fn view(&self) -> Seq<char> {
        self.text@
    }
}

impl Clone for Address {
    fn clone(&self) -> (copy: Self)
        ensures
            copy == *self,
    {
        Address { text: self.text.clone() }
    }
}

impl Address {
    /// The principal that `text` names.
    pub fn new(text: &str) -> (address: Self)
        ensures
            address@ == text@,
    {
        Address { text: text.to_owned() }
    }

    /// The text that names this principal.
    pub fn as_str(&self) -> (text: &str)
        ensures
            text@ == self@,
    {
        self.text.as_str()
    }

    /// Whether `self` and `other` name the same principal.
    pub fn same(&self, other: &Address) -> (same: bool)
        ensures
            same == (self@ == other@),
    {
        self.text == other.text
    }
}

} // verus!
