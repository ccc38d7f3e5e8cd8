//! The token registry.

use vstd::prelude::*;
use crate::error::RegistryError;
use crate::model::{RegistryState, TokenState};
use crate::oracle::AuthorizationOracle;
use crate::party::{well_formed, Party, TokenId};

verus! {

/// One minted token as the registry keeps it, and as it hands it out to be
/// stored elsewhere.
#[derive(Debug, PartialEq, Eq)]
pub struct TokenRecord {
    /// The party that owns the token.
    pub owner: Party,
    /// The operator that may hand the token on in the owner's place.
    pub approved: Option<Party>,
}

impl View for TokenRecord {
    type V = TokenState;

    open spec fn view(&self) -> TokenState {
        TokenState {
            owner: self.owner@,
            approved: match self.approved {
                Some(operator) => Some(operator@),
                None => None,
            },
        }
    }
}

impl Clone for TokenRecord {
    fn clone(&self) -> (copy: TokenRecord)
        ensures
            copy@ == self@,
    {
        let approved = match &self.approved {
            Some(operator) => Some(operator.clone()),
            None => None,
        };
        TokenRecord { owner: self.owner.clone(), approved }
    }
}

/// The states of the tokens of `records`, in the same order.
pub open spec fn token_states(records: Seq<TokenRecord>) -> Seq<TokenState> {
    records.map_values(|record: TokenRecord| record@)
}

/// A registry of uniquely owned tokens.
///
/// Tokens are minted one after another and never destroyed. Each belongs to
/// one party at a time; its owner may hand it on, or approve one operator
/// who may then hand it on once in the owner's place.
#[derive(Debug)]
pub struct Registry {
    admin: Party,
    /// The record of token `id` stands at index `id - 1`.
    tokens: Vec<TokenRecord>,
    next_id: TokenId,
}

impl View for Registry {
    type V = RegistryState;

    closed spec fn view(&self) -> RegistryState {
        RegistryState {
            next_id: self.next_id as int,
            ..RegistryState::of_tokens(self.admin@, token_states(self.tokens@))
        }
    }
}

impl Registry {
    /// How the fields hang together: the counter is one past the number of
    /// records.
    pub closed spec fn counts(&self) -> bool {
        self.next_id == self.tokens@.len() + 1
    }

    /// Validity of a registry. Every function of the registry asks for it and
    /// keeps it.
    pub open spec fn wf(&self) -> bool {
        self.counts() && self@.wf()
    }

    /// A registry for `admin`, with no token minted yet.
    pub fn new(admin: Party) -> (registry: Registry)
        ensures
            registry.wf(),
            registry@ == RegistryState::new(admin@),
    {
        let registry = Registry { admin, tokens: Vec::new(), next_id: 1 };
        assert(registry@.owner_of =~= Map::empty());
        assert(registry@.approved_of =~= Map::empty());
        registry
    }

    /// The party the registry was created for. No call changes it.
    pub fn admin(&self) -> (admin: &Party)
        ensures
            admin@ == self@.admin,
    {
        &self.admin
    }

    /// The display name of the collection.
    pub fn name(&self) -> (name: String)
        ensures
            name@ == "NFT"@,
    {
        "NFT".to_owned()
    }

    /// The ticker symbol of the collection.
    pub fn symbol(&self) -> (symbol: String)
        ensures
            symbol@ == "NFT"@,
    {
        "NFT".to_owned()
    }

    /// Where the metadata of the collection is found. It is one address for
    /// all tokens.
    pub fn token_uri(&self) -> (uri: String)
        ensures
            uri@ == "https://ipfs.io/ipfs/QmegWR31kiQcD9S2katTXKxracbAgLs2QLBRGruFW3NhXC"@,
    {
        "https://ipfs.io/ipfs/QmegWR31kiQcD9S2katTXKxracbAgLs2QLBRGruFW3NhXC".to_owned()
    }

    /// Where the image of the collection is found. It is one address for all
    /// tokens.
    pub fn token_image(&self) -> (uri: String)
        ensures
            uri@ == "https://ipfs.io/ipfs/QmeRHSYkR4aGRLQXaLmZiccwHw7cvctrB211DzxzuRiqW6"@,
    {
        "https://ipfs.io/ipfs/QmeRHSYkR4aGRLQXaLmZiccwHw7cvctrB211DzxzuRiqW6".to_owned()
    }

    /// The registry of `admin` that holds the tokens of `records`: the first
    /// is token 1, the second token 2, and so on. It is refused where one of
    /// the records names nobody as owner.
    pub fn restore(admin: Party, records: Vec<TokenRecord>) -> (r: Result<Registry, RegistryError>)
        ensures
            match r {
                Ok(registry) => {
                    &&& registry.wf()
                    &&& registry@ == RegistryState::of_tokens(admin@, token_states(records@))
                    &&& forall|i: int|
                        0 <= i < records@.len() ==> well_formed(#[trigger] records@[i].owner@)
                },
                Err(e) => {
                    &&& e == RegistryError::InvalidParty
                    &&& exists|i: int|
                        0 <= i < records@.len() && !well_formed(#[trigger] records@[i].owner@)
                },
            },
    {
        let count = records.len();
        let mut i: usize = 0;
        while i < count
            invariant
                count == records@.len(),
                i <= count,
                forall|j: int| 0 <= j < i ==> well_formed(#[trigger] records@[j].owner@),
            decreases count - i,
        {
            if !records[i].owner.is_well_formed() {
                return Err(RegistryError::InvalidParty);
            }
            i += 1;
        }
        let registry = Registry { admin, tokens: records, next_id: count as TokenId + 1 };
        assert(registry@ == RegistryState::of_tokens(admin@, token_states(records@)));
        Ok(registry)
    }

    /// The tokens of the registry, token 1 first. Together with the admin
    /// they are all there is to a registry, and `restore` accepts them and
    /// makes the registry again.
    pub fn records(&self) -> (records: Vec<TokenRecord>)
        requires
            self.wf(),
        ensures
            self@ == RegistryState::of_tokens(self@.admin, token_states(records@)),
            forall|i: int| 0 <= i < records@.len() ==> well_formed(#[trigger] records@[i].owner@),
    {
        let mut records: Vec<TokenRecord> = Vec::new();
        let mut i: usize = 0;
        while i < self.tokens.len()
            invariant
                i <= self.tokens@.len(),
                records@.len() == i,
                forall|j: int| 0 <= j < i ==> #[trigger] records@[j]@ == self.tokens@[j]@,
            decreases self.tokens@.len() - i,
        {
            records.push(self.tokens[i].clone());
            i += 1;
        }
        assert(token_states(records@) =~= token_states(self.tokens@));
        assert forall|i: int| 0 <= i < records@.len() implies well_formed(
            #[trigger] records@[i].owner@,
        ) by {
            assert(self@.owner_of.contains_key(i + 1));
            assert(self@.owner_of[i + 1] == records@[i].owner@);
        }
        records
    }

    /// The index of the record of token `id`, if that token was minted.
    fn slot(&self, id: TokenId) -> (slot: Option<usize>)
        requires
            self.wf(),
        ensures
            match slot {
                Some(i) => self@.has_token(id as int) && i == id - 1 && i < self.tokens@.len(),
                None => !self@.has_token(id as int),
            },
    {
        let count = self.tokens.len();
        if 1 <= id && id - 1 < count as TokenId {
            Some((id - 1) as usize)
        } else {
            None
        }
    }

    /// Mints a token for `to` and returns its handle. `to` must name a party.
    /// Nobody has to authorize a mint.
    pub fn mint(&mut self, to: &Party) -> (r: Result<TokenId, RegistryError>)
        requires
            old(self).wf(),
        ensures
            final(self).wf(),
            match r {
                Ok(id) => old(self)@.mint_result(to@) matches Ok(next) && next == id,
                Err(e) => old(self)@.mint_result(to@) matches Err(why) && why == e,
            },
            final(self)@ == old(self)@.after_mint(to@),
    {
        if !to.is_well_formed() {
            return Err(RegistryError::InvalidParty);
        }
        let id = self.next_id;
        self.tokens.push(TokenRecord { owner: to.clone(), approved: None });
        proof {
            // A vector holds at most `usize::MAX` records, so the counter
            // stays far below the end of `TokenId`.
            vstd::std_specs::vec::axiom_spec_len(&self.tokens);
        }
        self.next_id = id + 1;
        proof {
            assert(self@.owner_of =~= old(self)@.minted(to@).owner_of);
            assert(self@.approved_of =~= old(self)@.minted(to@).approved_of);
        }
        Ok(id)
    }

    /// The owner of token `id`, if that token was minted.
    pub fn owner_of(&self, id: TokenId) -> (r: Result<Party, RegistryError>)
        requires
            self.wf(),
        ensures
            match r {
                Ok(owner) => self@.owner(id as int) matches Ok(holder) && holder == owner@,
                Err(e) => self@.owner(id as int) matches Err(why) && why == e,
            },
    {
        match self.slot(id) {
            Some(i) => Ok(self.tokens[i].owner.clone()),
            None => Err(RegistryError::TokenNotFound),
        }
    }

    /// Whether `operator` is the approved operator of token `id`. Where the
    /// token was never minted or has no approved operator, the answer is no.
    pub fn is_approved(&self, operator: &Party, id: TokenId) -> (approved: bool)
        requires
            self.wf(),
        ensures
            approved == self@.is_approved(operator@, id as int),
    {
        match self.slot(id) {
            Some(i) => match &self.tokens[i].approved {
                Some(current) => *current == *operator,
                None => false,
            },
            None => false,
        }
    }

    /// Lets `operator` hand on token `id` in place of its owner. `owner` must
    /// have authorized the call and own the token. The operator approved
    /// before, if there was one, is approved no longer.
    pub fn approve<O: AuthorizationOracle>(
        &mut self,
        oracle: &O,
        owner: &Party,
        operator: &Party,
        id: TokenId,
    ) -> (r: Result<(), RegistryError>)
        requires
            old(self).wf(),
        ensures
            final(self).wf(),
            r == old(self)@.approve_result(oracle.authorizes(owner@), owner@, id as int),
            final(self)@ == old(self)@.after_approve(
                oracle.authorizes(owner@),
                owner@,
                operator@,
                id as int,
            ),
    {
        if !oracle.requires_auth(owner) {
            return Err(RegistryError::Unauthorized);
        }
        let i = match self.slot(id) {
            Some(i) => i,
            None => {
                return Err(RegistryError::TokenNotFound);
            },
        };
        if self.tokens[i].owner != *owner {
            return Err(RegistryError::NotTokenOwner);
        }
        let record = TokenRecord { owner: owner.clone(), approved: Some(operator.clone()) };
        self.tokens.set(i, record);
        proof {
            assert(self@.owner_of =~= old(self)@.approved(operator@, id as int).owner_of);
            assert(self@.approved_of =~= old(self)@.approved(operator@, id as int).approved_of);
        }
        Ok(())
    }

    /// Hands token `id` from `owner` to `to`. `owner` must have authorized the
    /// call and own the token, and `to` must name a party. Whoever was
    /// approved for the token is approved no longer.
    pub fn transfer<O: AuthorizationOracle>(
        &mut self,
        oracle: &O,
        owner: &Party,
        to: &Party,
        id: TokenId,
    ) -> (r: Result<(), RegistryError>)
        requires
            old(self).wf(),
        ensures
            final(self).wf(),
            r == old(self)@.transfer_result(oracle.authorizes(owner@), owner@, to@, id as int),
            final(self)@ == old(self)@.after_transfer(
                oracle.authorizes(owner@),
                owner@,
                to@,
                id as int,
            ),
    {
        if !oracle.requires_auth(owner) {
            return Err(RegistryError::Unauthorized);
        }
        let i = match self.slot(id) {
            Some(i) => i,
            None => {
                return Err(RegistryError::TokenNotFound);
            },
        };
        if self.tokens[i].owner != *owner {
            return Err(RegistryError::NotTokenOwner);
        }
        if !to.is_well_formed() {
            return Err(RegistryError::InvalidParty);
        }
        self.hand_over(i, to);
        Ok(())
    }

    /// Hands token `id` from `owner` to `to` on behalf of `operator`.
    /// `operator` must have authorized the call and be the approved operator
    /// of the token, `owner` must own it, and `to` must name a party. The
    /// approval is used up.
    pub fn transfer_from<O: AuthorizationOracle>(
        &mut self,
        oracle: &O,
        operator: &Party,
        owner: &Party,
        to: &Party,
        id: TokenId,
    ) -> (r: Result<(), RegistryError>)
        requires
            old(self).wf(),
        ensures
            final(self).wf(),
            r == old(self)@.transfer_from_result(
                oracle.authorizes(operator@),
                operator@,
                owner@,
                to@,
                id as int,
            ),
            final(self)@ == old(self)@.after_transfer_from(
                oracle.authorizes(operator@),
                operator@,
                owner@,
                to@,
                id as int,
            ),
    {
        if !oracle.requires_auth(operator) {
            return Err(RegistryError::Unauthorized);
        }
        let i = match self.slot(id) {
            Some(i) => i,
            None => {
                return Err(RegistryError::TokenNotFound);
            },
        };
        if self.tokens[i].owner != *owner {
            return Err(RegistryError::FromNotOwner);
        }
        if !self.is_approved(operator, id) {
            return Err(RegistryError::NotApproved);
        }
        if !to.is_well_formed() {
            return Err(RegistryError::InvalidParty);
        }
        self.hand_over(i, to);
        Ok(())
    }

    /// Makes `to` the owner of the token at index `i` and drops its approval.
    fn hand_over(&mut self, i: usize, to: &Party)
        requires
            old(self).wf(),
            i < old(self).tokens@.len(),
            well_formed(to@),
        ensures
            final(self).wf(),
            final(self)@ == old(self)@.moved(to@, i + 1),
    {
        self.tokens.set(i, TokenRecord { owner: to.clone(), approved: None });
        proof {
            assert(self@.owner_of =~= old(self)@.moved(to@, i + 1).owner_of);
            assert(self@.approved_of =~= old(self)@.moved(to@, i + 1).approved_of);
        }
    }
}

} // verus!
