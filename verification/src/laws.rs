//! Laws of the registry.
//!
//! Each law is proved of every state and every party, over the same state
//! functions in which the contracts of [`crate::registry::Registry`] are
//! written. Where a law follows a token through several calls, the oracle
//! confirms the acting party unless the law names its answer.

use vstd::prelude::*;
use crate::error::RegistryError;
use crate::model::RegistryState;
use crate::party::well_formed;

verus! {

/// One call that changes, or tries to change, a registry. `authorized` is the
/// answer of the oracle about the party that the call must be authorized by.
pub enum Call {
    Mint { to: Seq<char> },
    Approve { authorized: bool, owner: Seq<char>, operator: Seq<char>, id: int },
    Transfer { authorized: bool, owner: Seq<char>, to: Seq<char>, id: int },
    TransferFrom { authorized: bool, operator: Seq<char>, owner: Seq<char>, to: Seq<char>, id: int },
}

/// The state that `call` leaves behind when it is made in state `s`.
pub open spec fn after(s: RegistryState, call: Call) -> RegistryState {
    match call {
        Call::Mint { to } => s.after_mint(to),
        Call::Approve { authorized, owner, operator, id } => s.after_approve(
            authorized,
            owner,
            operator,
            id,
        ),
        Call::Transfer { authorized, owner, to, id } => s.after_transfer(authorized, owner, to, id),
        Call::TransferFrom { authorized, operator, owner, to, id } => s.after_transfer_from(
            authorized,
            operator,
            owner,
            to,
            id,
        ),
    }
}

/// Whether `call`, made in state `s`, is a mint that is accepted.
pub open spec fn mints(s: RegistryState, call: Call) -> bool {
    call matches Call::Mint { to } && s.mint_result(to) is Ok
}

/// The state after all of `calls`, made in order from state `s`.
pub open spec fn after_all(s: RegistryState, calls: Seq<Call>) -> RegistryState
    decreases calls.len(),
{
    if calls.len() == 0 {
        s
    } else {
        after(after_all(s, calls.drop_last()), calls.last())
    }
}

/// How many of `calls`, made in order from state `s`, are accepted mints.
pub open spec fn mints_among(s: RegistryState, calls: Seq<Call>) -> nat
    decreases calls.len(),
{
    if calls.len() == 0 {
        0
    } else {
        let earlier = mints_among(s, calls.drop_last());
        if mints(after_all(s, calls.drop_last()), calls.last()) {
            earlier + 1
        } else {
            earlier
        }
    }
}

/// No call breaks a valid registry, replaces its admin, takes a token out of
/// it, or turns its counter back; and the counter moves by exactly one on an
/// accepted mint and not at all on any other call, accepted or refused.
pub proof fn law_calls_keep_the_registry_valid(s: RegistryState, call: Call)
    requires
        s.wf(),
    ensures
        after(s, call).wf(),
        after(s, call).admin == s.admin,
        forall|id: int| s.has_token(id) ==> #[trigger] after(s, call).has_token(id),
        after(s, call).next_id == s.next_id + (if mints(s, call) { 1int } else { 0int }),
{
}

/// The same of any number of calls: from a valid registry they lead to a
/// valid one, whose counter has moved by the number of accepted mints.
pub proof fn law_runs_keep_the_registry_valid(s: RegistryState, calls: Seq<Call>)
    requires
        s.wf(),
    ensures
        after_all(s, calls).wf(),
        after_all(s, calls).admin == s.admin,
        after_all(s, calls).next_id == s.next_id + mints_among(s, calls),
    decreases calls.len(),
{
    if calls.len() > 0 {
        law_runs_keep_the_registry_valid(s, calls.drop_last());
        law_calls_keep_the_registry_valid(after_all(s, calls.drop_last()), calls.last());
    }
}

/// In a new registry the k-th accepted mint returns k, whatever other calls,
/// accepted or refused, were made in between. So no handle is given out
/// twice.
pub proof fn law_sequential_ids(admin: Seq<char>, calls: Seq<Call>, to: Seq<char>)
    requires
        well_formed(to),
    ensures
        after_all(RegistryState::new(admin), calls).mint_result(to) matches Ok(id)
            && id == mints_among(RegistryState::new(admin), calls) + 1,
{
    law_runs_keep_the_registry_valid(RegistryState::new(admin), calls);
}

/// Right after a mint to `to`, the new token is owned by `to`.
pub proof fn law_mint_sets_owner(s: RegistryState, to: Seq<char>)
    requires
        well_formed(to),
    ensures
        s.mint_result(to) matches Ok(id) && id == s.next_id,
        s.after_mint(to).owner(s.next_id) matches Ok(holder) && holder == to,
{
}

/// A token minted for `owner` and handed by `owner` to `to` is owned by `to`.
pub proof fn law_transfer_sets_owner(s: RegistryState, owner: Seq<char>, to: Seq<char>)
    requires
        s.wf(),
        well_formed(owner),
        well_formed(to),
    ensures
        ({
            let id = s.next_id;
            let minted = s.after_mint(owner);
            &&& minted.transfer_result(true, owner, to, id) is Ok
            &&& minted.after_transfer(true, owner, to, id).owner(id) matches Ok(holder)
                && holder == to
        }),
{
}

/// An operator approved for a token is approved no longer once the owner has
/// handed the token on.
pub proof fn law_transfer_clears_approval(
    s: RegistryState,
    owner: Seq<char>,
    operator: Seq<char>,
    to: Seq<char>,
)
    requires
        s.wf(),
        well_formed(owner),
        well_formed(to),
    ensures
        ({
            let id = s.next_id;
            let approved = s.after_mint(owner).after_approve(true, owner, operator, id);
            &&& approved.is_approved(operator, id)
            &&& approved.transfer_result(true, owner, to, id) is Ok
            &&& !approved.after_transfer(true, owner, to, id).is_approved(operator, id)
        }),
{
}

/// A party that does not own a token cannot hand it on, and the owner stays
/// who it was. What the call is refused for depends on the oracle's answer
/// about that party.
pub proof fn law_transfer_by_a_stranger_is_refused(
    s: RegistryState,
    authorized: bool,
    owner: Seq<char>,
    stranger: Seq<char>,
    to: Seq<char>,
)
    requires
        s.wf(),
        well_formed(owner),
        stranger != owner,
    ensures
        ({
            let id = s.next_id;
            let minted = s.after_mint(owner);
            &&& minted.transfer_result(authorized, stranger, to, id) matches Err(e) && e == (
            if authorized {
                RegistryError::NotTokenOwner
            } else {
                RegistryError::Unauthorized
            })
            &&& minted.after_transfer(authorized, stranger, to, id).owner(id) matches Ok(holder)
                && holder == owner
        }),
{
}

/// An operator that was not approved for a newly minted token cannot hand it
/// on, and the owner stays who it was.
pub proof fn law_delegated_transfer_needs_approval(
    s: RegistryState,
    authorized: bool,
    owner: Seq<char>,
    operator: Seq<char>,
    to: Seq<char>,
)
    requires
        s.wf(),
        well_formed(owner),
    ensures
        ({
            let id = s.next_id;
            let minted = s.after_mint(owner);
            &&& minted.transfer_from_result(authorized, operator, owner, to, id) matches Err(e)
                && e == (if authorized {
                RegistryError::NotApproved
            } else {
                RegistryError::Unauthorized
            })
            &&& minted.after_transfer_from(authorized, operator, owner, to, id).owner(id) matches Ok(
                holder,
            ) && holder == owner
        }),
{
}

/// An approved operator cannot take a token from a party that does not own
/// it, and the owner stays who it was.
pub proof fn law_delegated_transfer_from_a_stranger_is_refused(
    s: RegistryState,
    authorized: bool,
    owner: Seq<char>,
    operator: Seq<char>,
    stranger: Seq<char>,
    to: Seq<char>,
)
    requires
        s.wf(),
        well_formed(owner),
        stranger != owner,
    ensures
        ({
            let id = s.next_id;
            let approved = s.after_mint(owner).after_approve(true, owner, operator, id);
            &&& approved.is_approved(operator, id)
            &&& approved.transfer_from_result(authorized, operator, stranger, to, id) matches Err(e)
                && e == (if authorized {
                RegistryError::FromNotOwner
            } else {
                RegistryError::Unauthorized
            })
            &&& approved.after_transfer_from(authorized, operator, stranger, to, id).owner(id)
                matches Ok(holder) && holder == owner
        }),
{
}

/// Nobody is approved for a newly minted token.
pub proof fn law_new_token_has_no_operator(s: RegistryState, to: Seq<char>, anyone: Seq<char>)
    requires
        s.wf(),
    ensures
        !s.after_mint(to).is_approved(anyone, s.next_id),
{
}

} // verus!
