use vstd::prelude::*;
use crate::expiration::{decimal, timestamp_text, Expiration};
use crate::governance::GovernanceDetails;
use crate::ownership::{
    accepted, owner_check, renounced, transferred, updated, Action, Ownership, OwnershipError,
};

verus! {

/// The account that owns under each governance kind: the monarch, the
/// proxy of a sub-account, the address of an external governance, and
/// nobody for a renounced governance.
pub proof fn owner_address_by_kind(gov: GovernanceDetails)
    ensures
        gov matches GovernanceDetails::Monarchy { monarch } ==> gov.owner_view() == Some(monarch@),
        gov matches GovernanceDetails::SubAccount { proxy, .. } ==> gov.owner_view() == Some(proxy@),
        gov matches GovernanceDetails::External { governance_address, .. } ==> gov.owner_view()
            == Some(governance_address@),
        gov is Renounced ==> gov.owner_view() is None,
{
}

/// A deadline by height is reached from that height on, a deadline by time
/// from that time on, and `Never` is never reached.
pub proof fn deadline_reached_by_kind(expiry: Expiration, height: u64, time: u64)
    ensures
        expiry matches Expiration::AtHeight(h) ==> (expiry.expired_at(height, time) <==> height >= h),
        expiry matches Expiration::AtTime(t) ==> (expiry.expired_at(height, time) <==> time >= t),
        expiry is Never ==> !expiry.expired_at(height, time),
{
}

/// The owner check passes for the owner's own address, reports `NoOwner`
/// when the governance has no owner address, and `NotOwner` for anyone else.
pub proof fn owner_check_outcomes(ownership: Ownership, sender: Seq<char>)
    ensures
        ownership.owner.owner_view() == Some(sender) ==> owner_check(ownership, sender) == Ok::<
            (),
            OwnershipError,
        >(()),
        ownership.owner.owner_view() is None ==> owner_check(ownership, sender) == Err::<
            (),
            OwnershipError,
        >(OwnershipError::NoOwner),
        (ownership.owner.owner_view() is Some && ownership.owner.owner_view() != Some(sender))
            ==> owner_check(ownership, sender) == Err::<(), OwnershipError>(
            OwnershipError::NotOwner,
        ),
{
}

/// When the owner proposes a transfer, directly or through an update, the
/// owner stays, and exactly the proposed governance and deadline become
/// pending, whatever was pending before and whatever the deadline is.
pub proof fn owner_transfer_stores_the_proposal(
    ownership: Ownership,
    height: u64,
    time: u64,
    sender: Seq<char>,
    new_owner: GovernanceDetails,
    expiry: Option<Expiration>,
)
    requires
        ownership.owner.owner_view() == Some(sender),
    ensures
        transferred(ownership, sender, new_owner, expiry) == Ok::<Ownership, OwnershipError>(
            Ownership {
                owner: ownership.owner,
                pending_owner: Some(new_owner),
                pending_expiry: expiry,
            },
        ),
        updated(
            ownership,
            height,
            time,
            sender,
            Action::TransferOwnership { new_owner, expiry },
        ) == Ok::<Ownership, OwnershipError>(
            Ownership {
                owner: ownership.owner,
                pending_owner: Some(new_owner),
                pending_expiry: expiry,
            },
        ),
{
}

/// When the owner renounces, directly or through an update, the contract
/// is left renounced with no pending transfer, whatever was pending.
pub proof fn owner_renounce_clears_everything(
    ownership: Ownership,
    height: u64,
    time: u64,
    sender: Seq<char>,
)
    requires
        ownership.owner.owner_view() == Some(sender),
    ensures
        renounced(ownership, sender) == Ok::<Ownership, OwnershipError>(
            Ownership {
                owner: GovernanceDetails::Renounced {  },
                pending_owner: None,
                pending_expiry: None,
            },
        ),
        updated(ownership, height, time, sender, Action::RenounceOwnership) == Ok::<
            Ownership,
            OwnershipError,
        >(
            Ownership {
                owner: GovernanceDetails::Renounced {  },
                pending_owner: None,
                pending_expiry: None,
            },
        ),
{
}

/// Anyone but the owner is refused a transfer or a renunciation, with
/// `NoOwner` when the contract has no owner and `NotOwner` otherwise, and
/// the ownership is not changed.
pub proof fn non_owner_cannot_transfer_or_renounce(
    ownership: Ownership,
    height: u64,
    time: u64,
    sender: Seq<char>,
    new_owner: GovernanceDetails,
    expiry: Option<Expiration>,
)
    requires
        ownership.owner.owner_view() != Some(sender),
    ensures
        ownership.owner.owner_view() is None ==> {
            &&& transferred(ownership, sender, new_owner, expiry) == Err::<Ownership, OwnershipError>(
                OwnershipError::NoOwner,
            )
            &&& renounced(ownership, sender) == Err::<Ownership, OwnershipError>(
                OwnershipError::NoOwner,
            )
            &&& updated(
                ownership,
                height,
                time,
                sender,
                Action::TransferOwnership { new_owner, expiry },
            ) == Err::<Ownership, OwnershipError>(OwnershipError::NoOwner)
            &&& updated(ownership, height, time, sender, Action::RenounceOwnership) == Err::<
                Ownership,
                OwnershipError,
            >(OwnershipError::NoOwner)
        },
        ownership.owner.owner_view() is Some ==> {
            &&& transferred(ownership, sender, new_owner, expiry) == Err::<Ownership, OwnershipError>(
                OwnershipError::NotOwner,
            )
            &&& renounced(ownership, sender) == Err::<Ownership, OwnershipError>(
                OwnershipError::NotOwner,
            )
            &&& updated(
                ownership,
                height,
                time,
                sender,
                Action::TransferOwnership { new_owner, expiry },
            ) == Err::<Ownership, OwnershipError>(OwnershipError::NotOwner)
            &&& updated(ownership, height, time, sender, Action::RenounceOwnership) == Err::<
                Ownership,
                OwnershipError,
            >(OwnershipError::NotOwner)
        },
{
}

/// Accepting without a pending transfer is refused with `TransferNotFound`,
/// directly or through an update at any block.
pub proof fn accept_without_pending_transfer(
    ownership: Ownership,
    height: u64,
    time: u64,
    sender: Seq<char>,
)
    requires
        ownership.pending_owner is None,
    ensures
        accepted(ownership, height, time, sender) == Err::<Ownership, OwnershipError>(
            OwnershipError::TransferNotFound,
        ),
        updated(ownership, height, time, sender, Action::AcceptOwnership) == Err::<
            Ownership,
            OwnershipError,
        >(OwnershipError::TransferNotFound),
{
}

/// When the pending governance has an owner address, anyone else who tries
/// to accept is refused with `NotPendingOwner`, whatever the deadline.
pub proof fn accept_by_other_than_pending_owner(
    ownership: Ownership,
    height: u64,
    time: u64,
    sender: Seq<char>,
)
    requires
        ownership.pending_owner is Some,
        ownership.pending_owner->Some_0.owner_view() is Some,
        ownership.pending_owner->Some_0.owner_view() != Some(sender),
    ensures
        accepted(ownership, height, time, sender) == Err::<Ownership, OwnershipError>(
            OwnershipError::NotPendingOwner,
        ),
        updated(ownership, height, time, sender, Action::AcceptOwnership) == Err::<
            Ownership,
            OwnershipError,
        >(OwnershipError::NotPendingOwner),
{
}

/// The pending owner is refused with `TransferExpired` once the block has
/// reached the deadline: its height for a deadline by height, its time for
/// a deadline by time. The update uses the block's own height and time.
pub proof fn accept_after_deadline(
    ownership: Ownership,
    height: u64,
    time: u64,
    sender: Seq<char>,
)
    requires
        ownership.pending_owner is Some,
        ownership.pending_owner->Some_0.owner_view() == Some(sender),
        ownership.pending_expiry == Some(Expiration::AtTime(ownership.pending_expiry->Some_0->AtTime_0))
            && time >= ownership.pending_expiry->Some_0->AtTime_0
            || ownership.pending_expiry == Some(Expiration::AtHeight(ownership.pending_expiry->Some_0->AtHeight_0))
            && height >= ownership.pending_expiry->Some_0->AtHeight_0,
    ensures
        accepted(ownership, height, time, sender) == Err::<Ownership, OwnershipError>(
            OwnershipError::TransferExpired,
        ),
        updated(ownership, height, time, sender, Action::AcceptOwnership) == Err::<
            Ownership,
            OwnershipError,
        >(OwnershipError::TransferExpired),
{
}

/// The pending owner who accepts before the deadline (or with no deadline,
/// or a deadline that never comes) takes over, and nothing is pending any
/// more; the same holds for anyone when the pending governance has no
/// owner address. The update uses the block's own height and time.
pub proof fn accept_in_time_hands_over(
    ownership: Ownership,
    height: u64,
    time: u64,
    sender: Seq<char>,
)
    requires
        ownership.pending_owner is Some,
        ownership.pending_owner->Some_0.owner_view() is None || (
        ownership.pending_owner->Some_0.owner_view() == Some(sender) && (
        ownership.pending_expiry is None || ownership.pending_expiry == Some(Expiration::Never {  })
            || ownership.pending_expiry == Some(Expiration::AtTime(ownership.pending_expiry->Some_0->AtTime_0))
            && time < ownership.pending_expiry->Some_0->AtTime_0
            || ownership.pending_expiry == Some(Expiration::AtHeight(ownership.pending_expiry->Some_0->AtHeight_0))
            && height < ownership.pending_expiry->Some_0->AtHeight_0)),
    ensures
        accepted(ownership, height, time, sender) == Ok::<Ownership, OwnershipError>(
            Ownership {
                owner: ownership.pending_owner->Some_0,
                pending_owner: None,
                pending_expiry: None,
            },
        ),
        updated(ownership, height, time, sender, Action::AcceptOwnership) == Ok::<
            Ownership,
            OwnershipError,
        >(
            Ownership {
                owner: ownership.pending_owner->Some_0,
                pending_owner: None,
                pending_expiry: None,
            },
        ),
{
}

/// The attributes that describe an ownership: under "owner", a monarchy is
/// written "renounced" and every other kind as its displayed text (a
/// sub-account as "sub-account", an external governance as its type, a
/// renounced one as "renounced"); under "pending_owner", "none" or the
/// pending governance's displayed text for every kind; under
/// "pending_expiry", "none" or the deadline's displayed text.
pub proof fn attributes_by_kind(ownership: Ownership)
    ensures
        ownership.attribute_pairs().len() == 3,
        ownership.attribute_pairs()[0].0 == "owner"@,
        ownership.attribute_pairs()[1].0 == "pending_owner"@,
        ownership.attribute_pairs()[2].0 == "pending_expiry"@,
        ownership.owner is Monarchy ==> ownership.attribute_pairs()[0].1 == "renounced"@,
        ownership.owner is SubAccount ==> ownership.attribute_pairs()[0].1 == "sub-account"@,
        ownership.owner matches GovernanceDetails::External { governance_type, .. }
            ==> ownership.attribute_pairs()[0].1 == governance_type@,
        ownership.owner is Renounced ==> ownership.attribute_pairs()[0].1 == "renounced"@,
        ownership.pending_owner is None ==> ownership.attribute_pairs()[1].1 == "none"@,
        ownership.pending_owner matches Some(GovernanceDetails::Monarchy { .. })
            ==> ownership.attribute_pairs()[1].1 == "monarch"@,
        ownership.pending_owner matches Some(GovernanceDetails::SubAccount { .. })
            ==> ownership.attribute_pairs()[1].1 == "sub-account"@,
        ownership.pending_owner matches Some(GovernanceDetails::External { governance_type, .. })
            ==> ownership.attribute_pairs()[1].1 == governance_type@,
        ownership.pending_owner matches Some(GovernanceDetails::Renounced {  })
            ==> ownership.attribute_pairs()[1].1 == "renounced"@,
        ownership.pending_expiry is None ==> ownership.attribute_pairs()[2].1 == "none"@,
        ownership.pending_expiry matches Some(Expiration::Never {  })
            ==> ownership.attribute_pairs()[2].1 == "expiration: never"@,
        ownership.pending_expiry matches Some(Expiration::AtHeight(h))
            ==> ownership.attribute_pairs()[2].1 == "expiration height: "@ + decimal(h as nat),
        ownership.pending_expiry matches Some(Expiration::AtTime(t))
            ==> ownership.attribute_pairs()[2].1 == "expiration time: "@ + timestamp_text(t as nat),
{
}

} // verus!
