//! Parties and token handles.

use vstd::prelude::*;
use vstd::std_specs::cmp::PartialEqSpecImpl;

verus! {

/// Handle of one token. The registry hands out 1, 2, 3, ... in the order in
/// which tokens are minted; a caller never chooses one.
pub type TokenId = i128;

/// An identity that can own tokens, operate on them and authorize calls.
///
/// A party is known by its key alone: two parties with the same key are the
/// same party. The empty key names nobody.
#[derive(Debug, Eq, Hash)]
pub struct Party {
    key: String,
}

impl View for Party {
    type V = Seq<char>;

    /// The key, as a sequence of characters.
    closed spec fn view(&self) -> Seq<char> {
        self.key@
    }
}

/// Whether `key` names a party: every key does, but the empty one.
pub open spec fn well_formed(key: Seq<char>) -> bool {
    key.len() > 0
}

impl Party {
    /// The party with the given key.
    pub fn new(key: &str) -> (party: Party)
        ensures
            party@ == key@,
    {
        Party { key: key.to_owned() }
    }

    /// The key of this party.
    pub fn key(&self) -> (key: &str)
        ensures
            key@ == self@,
    {
        self.key.as_str()
    }

    /// Whether this value names a party.
    pub fn is_well_formed(&self) -> (ok: bool)
        ensures
            ok == well_formed(self@),
    {
        !self.key.as_str().is_empty()
    }
}

impl Clone for Party {
    fn clone(&self) -> (copy: Party)
        ensures
            copy@ == self@,
    {
        Party { key: self.key.clone() }
    }
}

impl PartialEq for Party {
    fn eq(&self, other: &Party) -> (same: bool) {
        self.key == other.key
    }
}

impl PartialEqSpecImpl for Party {
    open spec fn obeys_eq_spec() -> bool {
        true
    }

    open spec fn eq_spec(&self, other: &Party) -> bool {
        self@ == other@
    }
}

} // verus!
