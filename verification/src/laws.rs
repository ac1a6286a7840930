use vstd::prelude::*;
use crate::expiration::Expiration;
use crate::governance::GovernanceDetails;
use crate::ownership::{
    accepted, owner_check, renounced, transferred, updated, Action, Ownership, OwnershipError,
};

verus! {

/// An account passes the owner assertion exactly when it is the owner that
/// the ownership reports, so `is_owner` and `assert_owner` always agree.
pub proof fn is_owner_agrees_with_assert_owner(ownership: Ownership, addr: Seq<char>)
    ensures
        (ownership.owner.owner_view() == Some(addr)) <==> owner_check(ownership, addr) is Ok,
{
}

/// Every action keeps the ownership info consistent: a deadline only ever
/// stands beside a pending transfer, and a contract without an owner has no
/// pending transfer.
pub proof fn updates_keep_ownership_consistent(
    ownership: Ownership,
    height: u64,
    time: u64,
    sender: Seq<char>,
    action: Action,
)
    requires
        ownership.consistent(),
    ensures
        updated(ownership, height, time, sender, action) matches Ok(next) ==> next.consistent(),
{
}

/// Only the current owner, or (on acceptance) the pending owner, can change
/// the ownership; when the pending governance has no owner address, anyone
/// may complete the transfer that the owner proposed.
pub proof fn only_owner_or_pending_owner_succeeds(
    ownership: Ownership,
    height: u64,
    time: u64,
    sender: Seq<char>,
    action: Action,
)
    ensures
        updated(ownership, height, time, sender, action) is Ok ==> {
            ||| ownership.owner.owner_view() == Some(sender) && !(action is AcceptOwnership)
            ||| action is AcceptOwnership && (ownership.pending_owner matches Some(pending) && (
                pending.owner_view() is None || pending.owner_view() == Some(sender)))
        },
{
}

/// A contract without an owner and without a pending transfer is stuck for
/// good: every action by every account fails.
pub proof fn ownerless_contract_stays_ownerless(
    ownership: Ownership,
    height: u64,
    time: u64,
    sender: Seq<char>,
    action: Action,
)
    requires
        ownership.consistent(),
        ownership.owner.owner_view() is None,
    ensures
        updated(ownership, height, time, sender, action) is Err,
{
}

/// Renouncing is final: once the owner has renounced, no later action by
/// anyone succeeds, so no new owner can ever be appointed.
pub proof fn renouncing_is_final(
    ownership: Ownership,
    sender: Seq<char>,
    height: u64,
    time: u64,
    later_sender: Seq<char>,
    later_action: Action,
)
    requires
        renounced(ownership, sender) is Ok,
    ensures
        updated(renounced(ownership, sender)->Ok_0, height, time, later_sender, later_action) is Err,
{
    ownerless_contract_stays_ownerless(
        renounced(ownership, sender)->Ok_0,
        height,
        time,
        later_sender,
        later_action,
    );
}

/// A transfer proposed by the owner and accepted by the new owner before
/// its deadline hands the contract over: the new governance owns it and no
/// transfer is pending any more.
pub proof fn transfer_then_accept_hands_over(
    ownership: Ownership,
    owner: Seq<char>,
    new_owner: GovernanceDetails,
    expiry: Option<Expiration>,
    height: u64,
    time: u64,
    acceptor: Seq<char>,
)
    requires
        ownership.owner.owner_view() == Some(owner),
        new_owner.owner_view() is None || new_owner.owner_view() == Some(acceptor),
        !(expiry matches Some(e) && e.expired_at(height, time)),
    ensures
        transferred(ownership, owner, new_owner, expiry) is Ok,
        accepted(transferred(ownership, owner, new_owner, expiry)->Ok_0, height, time, acceptor)
            == Ok::<Ownership, OwnershipError>(
            Ownership { owner: new_owner, pending_owner: None, pending_expiry: None },
        ),
{
}

/// A transfer whose deadline has passed can no longer be accepted by the
/// pending owner, until the owner proposes again.
pub proof fn expired_transfer_is_refused(
    ownership: Ownership,
    height: u64,
    time: u64,
    sender: Seq<char>,
)
    requires
        ownership.pending_owner matches Some(pending) && pending.owner_view() == Some(sender),
        ownership.pending_expiry matches Some(e) && e.expired_at(height, time),
    ensures
        accepted(ownership, height, time, sender) == Err::<Ownership, OwnershipError>(
            OwnershipError::TransferExpired,
        ),
{
}

} // verus!
