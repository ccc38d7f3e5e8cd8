//! What a registry is, as a mathematical value.
//!
//! The contracts of the registry are stated over [`RegistryState`]. For each
//! call there is a function that gives its result and one that gives the
//! state it leaves behind: an accepted call changes the state in one step, a
//! refused call changes nothing.

use vstd::prelude::*;
use crate::error::RegistryError;
use crate::party::well_formed;

verus! {

/// What a registry holds of one minted token: its owner and, where there is
/// one, its approved operator.
pub struct TokenState {
    pub owner: Seq<char>,
    pub approved: Option<Seq<char>>,
}

/// The state of a registry. Parties stand in it by their keys.
pub struct RegistryState {
    /// The party the registry was created for.
    pub admin: Seq<char>,
    /// The owner of each minted token.
    pub owner_of: Map<int, Seq<char>>,
    /// The approved operator of each token that has one.
    pub approved_of: Map<int, Seq<char>>,
    /// The handle that the next mint gives out.
    pub next_id: int,
}

impl RegistryState {
    /// The registry of `admin` in which nothing has been minted.
    pub open spec fn new(admin: Seq<char>) -> RegistryState {
        RegistryState { admin, owner_of: Map::empty(), approved_of: Map::empty(), next_id: 1 }
    }

    /// The registry of `admin` whose tokens 1, 2, ... are those of `tokens`,
    /// in this order.
    pub open spec fn of_tokens(admin: Seq<char>, tokens: Seq<TokenState>) -> RegistryState {
        RegistryState {
            admin,
            owner_of: Map::new(|id: int| 1 <= id <= tokens.len(), |id: int| tokens[id - 1].owner),
            approved_of: Map::new(
                |id: int| 1 <= id <= tokens.len() && tokens[id - 1].approved is Some,
                |id: int| tokens[id - 1].approved->0,
            ),
            next_id: tokens.len() as int + 1,
        }
    }

    /// What holds of every registry: the minted tokens are 1, 2, ... up to
    /// the one before `next_id`, each is owned by a party, and only a minted
    /// token has an approved operator.
    pub open spec fn wf(self) -> bool {
        &&& self.next_id >= 1
        &&& forall|id: int| #[trigger] self.owner_of.contains_key(id) <==> 1 <= id < self.next_id
        &&& forall|id: int| #[trigger]
            self.owner_of.contains_key(id) ==> well_formed(self.owner_of[id])
        &&& forall|id: int| #[trigger]
            self.approved_of.contains_key(id) ==> self.owner_of.contains_key(id)
    }

    /// Whether token `id` has been minted.
    pub open spec fn has_token(self, id: int) -> bool {
        self.owner_of.contains_key(id)
    }

    /// The owner of token `id`.
    pub open spec fn owner(self, id: int) -> Result<Seq<char>, RegistryError> {
        if self.has_token(id) {
            Ok(self.owner_of[id])
        } else {
            Err(RegistryError::TokenNotFound)
        }
    }

    /// Whether `operator` is the approved operator of token `id`. Of a token
    /// that was never minted, or has no approved operator, nobody is.
    pub open spec fn is_approved(self, operator: Seq<char>, id: int) -> bool {
        self.approved_of.contains_key(id) && self.approved_of[id] == operator
    }

    /// What a mint to `to` returns: the new token's handle, unless `to`
    /// names nobody.
    pub open spec fn mint_result(self, to: Seq<char>) -> Result<int, RegistryError> {
        if well_formed(to) {
            Ok(self.next_id)
        } else {
            Err(RegistryError::InvalidParty)
        }
    }

    /// The state after an accepted mint to `to`.
    pub open spec fn minted(self, to: Seq<char>) -> RegistryState {
        RegistryState {
            owner_of: self.owner_of.insert(self.next_id, to),
            next_id: self.next_id + 1,
            ..self
        }
    }

    /// The state after a mint to `to`, accepted or refused.
    pub open spec fn after_mint(self, to: Seq<char>) -> RegistryState {
        if self.mint_result(to) is Ok {
            self.minted(to)
        } else {
            self
        }
    }

    /// What `owner` is told on approving an operator for token `id`, where
    /// `authorized` is the oracle's answer about `owner`.
    pub open spec fn approve_result(self, authorized: bool, owner: Seq<char>, id: int) -> Result<
        (),
        RegistryError,
    > {
        if !authorized {
            Err(RegistryError::Unauthorized)
        } else if !self.has_token(id) {
            Err(RegistryError::TokenNotFound)
        } else if self.owner_of[id] != owner {
            Err(RegistryError::NotTokenOwner)
        } else {
            Ok(())
        }
    }

    /// The state after an accepted approval: `operator` takes the place of
    /// whoever was approved for token `id` before.
    pub open spec fn approved(self, operator: Seq<char>, id: int) -> RegistryState {
        RegistryState { approved_of: self.approved_of.insert(id, operator), ..self }
    }

    /// The state after `owner` approved `operator` for token `id`, or tried
    /// to.
    pub open spec fn after_approve(
        self,
        authorized: bool,
        owner: Seq<char>,
        operator: Seq<char>,
        id: int,
    ) -> RegistryState {
        if self.approve_result(authorized, owner, id) is Ok {
            self.approved(operator, id)
        } else {
            self
        }
    }

    /// What `owner` is told on handing token `id` to `to`, where `authorized`
    /// is the oracle's answer about `owner`.
    pub open spec fn transfer_result(
        self,
        authorized: bool,
        owner: Seq<char>,
        to: Seq<char>,
        id: int,
    ) -> Result<(), RegistryError> {
        if !authorized {
            Err(RegistryError::Unauthorized)
        } else if !self.has_token(id) {
            Err(RegistryError::TokenNotFound)
        } else if self.owner_of[id] != owner {
            Err(RegistryError::NotTokenOwner)
        } else if !well_formed(to) {
            Err(RegistryError::InvalidParty)
        } else {
            Ok(())
        }
    }

    /// The state after `owner` handed token `id` to `to`, or tried to.
    pub open spec fn after_transfer(
        self,
        authorized: bool,
        owner: Seq<char>,
        to: Seq<char>,
        id: int,
    ) -> RegistryState {
        if self.transfer_result(authorized, owner, to, id) is Ok {
            self.moved(to, id)
        } else {
            self
        }
    }

    /// What `operator` is told on handing token `id` from `owner` to `to`,
    /// where `authorized` is the oracle's answer about `operator`.
    pub open spec fn transfer_from_result(
        self,
        authorized: bool,
        operator: Seq<char>,
        owner: Seq<char>,
        to: Seq<char>,
        id: int,
    ) -> Result<(), RegistryError> {
        if !authorized {
            Err(RegistryError::Unauthorized)
        } else if !self.has_token(id) {
            Err(RegistryError::TokenNotFound)
        } else if self.owner_of[id] != owner {
            Err(RegistryError::FromNotOwner)
        } else if !self.is_approved(operator, id) {
            Err(RegistryError::NotApproved)
        } else if !well_formed(to) {
            Err(RegistryError::InvalidParty)
        } else {
            Ok(())
        }
    }

    /// The state after an accepted transfer, direct or delegated: `to` owns
    /// token `id`, and nobody is approved for it any more.
    pub open spec fn moved(self, to: Seq<char>, id: int) -> RegistryState {
        RegistryState {
            owner_of: self.owner_of.insert(id, to),
            approved_of: self.approved_of.remove(id),
            ..self
        }
    }

    /// The state after `operator` handed token `id` from `owner` to `to`, or
    /// tried to.
    pub open spec fn after_transfer_from(
        self,
        authorized: bool,
        operator: Seq<char>,
        owner: Seq<char>,
        to: Seq<char>,
        id: int,
    ) -> RegistryState {
        if self.transfer_from_result(authorized, operator, owner, to, id) is Ok {
            self.moved(to, id)
        } else {
            self
        }
    }
}

} // verus!
