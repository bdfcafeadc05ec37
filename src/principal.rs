//! Principals: the parties that own bonds and approve operations.
use vstd::prelude::*;

verus! {

/// An account or contract, identified by its textual key.
#[derive(Clone, Debug)]
pub struct Principal {
    pub key: String,
}

impl View for Principal {
    type V = Seq<char>;

    open spec fn view(&self) -> Seq<char> {
        self.key@
    }
}

impl Principal {
    /// The principal with the given key.
    pub fn new(key: String) -> (r: Principal)
        ensures
            r.key == key,
    {
        Principal { key }
    }

    /// Whether both values name the same principal.
    pub fn same_as(&self, other: &Principal) -> (r: bool)
        ensures
            r == (self@ == other@),
    {
        self.key == other.key
    }

    /// An identical copy.
    pub fn copied(&self) -> (r: Principal)
        ensures
            r == *self,
    {
        Principal { key: self.key.clone() }
    }
}

} // verus!
