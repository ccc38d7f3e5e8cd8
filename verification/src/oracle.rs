//! Authorization oracles.
//!
//! The registry never decides by itself whether a party stands behind a call.
//! It asks an oracle, and it fixes only which party it asks about.

use vstd::prelude::*;
use crate::party::Party;

verus! {

/// Answers the one question the registry puts before it changes anything:
/// has this party authorized the call in progress?
pub trait AuthorizationOracle {
    /// Whether the party with the given key has authorized the call.
    spec fn authorizes(&self, key: Seq<char>) -> bool;

    /// Asks the oracle about `party`.
    fn requires_auth(&self, party: &Party) -> (granted: bool)
        ensures
            granted == self.authorizes(party@),
    ;
}

/// The oracle that confirms every party. It suits a registry behind a front
/// that has already settled who may call.
#[derive(Clone, Copy, Debug)]
pub struct AllowAll;

impl AuthorizationOracle for AllowAll {
    open spec fn authorizes(&self, key: Seq<char>) -> bool {
        true
    }

    fn requires_auth(&self, party: &Party) -> (granted: bool) {
        true
    }
}

/// The oracle that confirms exactly the parties that were entered into it.
#[derive(Debug)]
pub struct Signatories {
    parties: Vec<Party>,
}

impl Signatories {
    /// The keys of the parties entered so far.
    pub closed spec fn keys(&self) -> Set<Seq<char>> {
        Set::new(
            |key: Seq<char>|
                exists|i: int| 0 <= i < self.parties@.len() && #[trigger] self.parties@[i]@ == key,
        )
    }

    /// The oracle that confirms nobody.
    pub fn new() -> (oracle: Signatories)
        ensures
            oracle.keys() == Set::<Seq<char>>::empty(),
    {
        let oracle = Signatories { parties: Vec::new() };
        assert(oracle.keys() =~= Set::<Seq<char>>::empty());
        oracle
    }

    /// Enters `party`: from now on the oracle confirms it.
    pub fn add(&mut self, party: &Party)
        ensures
            final(self).keys() == old(self).keys().insert(party@),
    {
        self.parties.push(party.clone());
        proof {
            let before = old(self).keys();
            let after = self.keys();
            let last = old(self).parties@.len() as int;
            assert forall|key: Seq<char>| before.insert(party@).contains(key) implies after.contains(
                key,
            ) by {
                let i = if key == party@ {
                    last
                } else {
                    choose|i: int| 0 <= i < last && #[trigger] old(self).parties@[i]@ == key
                };
                assert(self.parties@[i]@ == key);
            }
            assert forall|key: Seq<char>| after.contains(key) implies before.insert(party@).contains(
                key,
            ) by {
                let i = choose|i: int| 0 <= i <= last && #[trigger] self.parties@[i]@ == key;
                if i < last {
                    assert(old(self).parties@[i]@ == key);
                }
            }
            assert(after =~= before.insert(party@));
        }
    }
}

impl AuthorizationOracle for Signatories {
    open spec fn authorizes(&self, key: Seq<char>) -> bool {
        self.keys().contains(key)
    }

    fn requires_auth(&self, party: &Party) -> (granted: bool) {
        let mut i: usize = 0;
        while i < self.parties.len()
            invariant
                i <= self.parties@.len(),
                forall|j: int| 0 <= j < i ==> #[trigger] self.parties@[j]@ != party@,
            decreases self.parties@.len() - i,
        {
            if self.parties[i] == *party {
                return true;
            }
            i += 1;
        }
        false
    }
}

} // verus!
