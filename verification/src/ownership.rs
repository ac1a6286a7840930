use vstd::prelude::*;
use crate::expiration::{expiration_text, is_expired, BlockInfo, Expiration};
use crate::governance::{governance_text, owner_address, GovernanceDetails};
use std::fmt::Display;

verus! {

/// Declares cosmwasm-std's `StdError`, carried opaque in `OwnershipError::Std`.
#[verifier::external_type_specification]
#[verifier::external_body]
pub struct ExStdError(cosmwasm_std::StdError);

/// Declares abstract-std's `AbstractError`, carried opaque in `OwnershipError::Abstract`.
#[verifier::external_type_specification]
#[verifier::external_body]
pub struct ExAbstractError(abstract_std::AbstractError);

/// The contract's ownership info.
#[derive(Clone, Debug, PartialEq, Eq)]
pub struct Ownership {
    /// The contract's current owner.
    pub owner: GovernanceDetails,
    /// The account who has been proposed to take over the ownership.
    /// `None` if there isn't a pending ownership transfer.
    pub pending_owner: Option<GovernanceDetails>,
    /// The deadline for the pending owner to accept the ownership.
    /// `None` if there isn't a pending ownership transfer, or if a transfer
    /// exists and it doesn't have a deadline.
    pub pending_expiry: Option<Expiration>,
}

/// Actions that can be taken to alter the contract's ownership.
#[derive(Clone, Debug, PartialEq, Eq)]
pub enum Action {
    /// Propose to transfer the contract's ownership to another account,
    /// optionally with an expiry time. Only the current owner may do so, and
    /// any existing pending transfer is overwritten.
    TransferOwnership { new_owner: GovernanceDetails, expiry: Option<Expiration> },
    /// Accept the pending ownership transfer. Only the pending owner may do so.
    AcceptOwnership,
    /// Give up the contract's ownership and the possibility of appointing a
    /// new owner. Only the current owner may do so, and any pending transfer
    /// is canceled.
    RenounceOwnership,
}

/// Errors associated with the contract's ownership.
#[derive(Debug, PartialEq)]
pub enum OwnershipError {
    /// Reading or writing the stored ownership failed.
    Std(cosmwasm_std::StdError),
    /// The governance details could not be verified.
    Abstract(abstract_std::AbstractError),
    /// Contract ownership has been renounced.
    NoOwner,
    /// Caller is not the contract's current owner.
    NotOwner,
    /// Caller is not the contract's pending owner.
    NotPendingOwner,
    /// There isn't a pending ownership transfer.
    TransferNotFound,
    /// A pending ownership transfer exists but it has expired.
    TransferExpired,
}

/// A key and a value that a message response carries.
#[derive(Clone, Debug, PartialEq, Eq)]
pub struct Attribute {
    pub key: String,
    pub value: String,
}

impl Attribute {
    /// The attribute with the given key and value.
    pub fn new(key: &str, value: &str) -> (attr: Attribute)
        ensures
            attr.key@ == key@,
            attr.value@ == value@,
    {
        broadcast use vstd::string::group_string_axioms;

        Attribute { key: key.to_string(), value: value.to_string() }
    }
}

impl Ownership {
    /// What the ownership info keeps true at every step: there is no
    /// deadline without a pending transfer, and a contract without an owner
    /// has no pending transfer.
    pub open spec fn consistent(self) -> bool {
        &&& self.pending_owner is None ==> self.pending_expiry is None
        &&& self.owner.owner_view() is None ==> self.pending_owner is None
    }
}

/// Whether `sender` is the contract's current owner, and if not, why.
pub open spec fn owner_check(ownership: Ownership, sender: Seq<char>) -> Result<(), OwnershipError> {
    match ownership.owner.owner_view() {
        None => Err(OwnershipError::NoOwner),
        Some(owner) => if owner == sender {
            Ok(())
        } else {
            Err(OwnershipError::NotOwner)
        },
    }
}

/// The ownership after `sender` proposes `new_owner` with the deadline `expiry`.
pub open spec fn transferred(
    ownership: Ownership,
    sender: Seq<char>,
    new_owner: GovernanceDetails,
    expiry: Option<Expiration>,
) -> Result<Ownership, OwnershipError> {
    match owner_check(ownership, sender) {
        Err(e) => Err(e),
        Ok(_) => Ok(Ownership { pending_owner: Some(new_owner), pending_expiry: expiry, ..ownership }),
    }
}

/// The ownership after `sender` accepts the pending transfer at the block
/// of the given height and time.
pub open spec fn accepted(ownership: Ownership, height: u64, time: u64, sender: Seq<char>) -> Result<
    Ownership,
    OwnershipError,
> {
    match ownership.pending_owner {
        None => Err(OwnershipError::TransferNotFound),
        Some(pending) => {
            let handed_over = Ok(
                Ownership { owner: pending, pending_owner: None, pending_expiry: None },
            );
            match pending.owner_view() {
                None => handed_over,
                Some(pending_address) => if pending_address != sender {
                    Err(OwnershipError::NotPendingOwner)
                } else if ownership.pending_expiry matches Some(e) && e.expired_at(height, time) {
                    Err(OwnershipError::TransferExpired)
                } else {
                    handed_over
                },
            }
        },
    }
}

/// The ownership after `sender` renounces it.
pub open spec fn renounced(ownership: Ownership, sender: Seq<char>) -> Result<Ownership, OwnershipError> {
    match owner_check(ownership, sender) {
        Err(e) => Err(e),
        Ok(_) => Ok(
            Ownership {
                owner: GovernanceDetails::Renounced {  },
                pending_owner: None,
                pending_expiry: None,
            },
        ),
    }
}

/// The ownership after `sender` takes `action` at the block of the given
/// height and time.
pub open spec fn updated(
    ownership: Ownership,
    height: u64,
    time: u64,
    sender: Seq<char>,
    action: Action,
) -> Result<Ownership, OwnershipError> {
    match action {
        Action::TransferOwnership { new_owner, expiry } => transferred(
            ownership,
            sender,
            new_owner,
            expiry,
        ),
        Action::AcceptOwnership => accepted(ownership, height, time, sender),
        Action::RenounceOwnership => renounced(ownership, sender),
    }
}

/// The ownership of a freshly instantiated contract whose owner has been
/// verified: `owner` governs and no transfer is pending.
pub fn initialize_owner(owner: GovernanceDetails) -> (ownership: Ownership)
    ensures
        ownership == (Ownership { owner, pending_owner: None, pending_expiry: None }),
        ownership.consistent(),
{
    Ownership { owner, pending_owner: None, pending_expiry: None }
}

/// True exactly when the contract has an owner and it's the given address.
pub fn is_owner(ownership: &Ownership, addr: &String) -> (owned: bool)
    ensures
        owned == (ownership.owner.owner_view() == Some(addr@)),
{
    if let Some(owner) = owner_address(&ownership.owner) {
        if *addr == owner {
            return true;
        }
    }
    false
}

/// Assert that an account is the contract's current owner.
pub fn assert_owner(ownership: &Ownership, sender: &String) -> (res: Result<(), OwnershipError>)
    ensures
        res == owner_check(*ownership, sender@),
{
    check_owner(ownership, sender)
}

/// Assert that an account is the contract's current owner: the contract
/// must have an owner, and the sender must be it.
fn check_owner(ownership: &Ownership, sender: &String) -> (res: Result<(), OwnershipError>)
    ensures
        res == owner_check(*ownership, sender@),
{
    let current_owner = match owner_address(&ownership.owner) {
        Some(owner) => owner,
        None => return Err(OwnershipError::NoOwner),
    };
    if !(*sender == current_owner) {
        return Err(OwnershipError::NotOwner);
    }
    Ok(())
}

/// Update the contract's ownership info based on the given action, whose
/// new owner, if it names one, has been verified. Return the updated ownership.
pub fn update_ownership(
    ownership: Ownership,
    block: &BlockInfo,
    sender: &String,
    action: Action,
) -> (res: Result<Ownership, OwnershipError>)
    ensures
        res == updated(ownership, block.height, block.time, sender@, action),
{
    match action {
        Action::TransferOwnership { new_owner, expiry } => transfer_ownership(
            ownership,
            sender,
            new_owner,
            expiry,
        ),
        Action::AcceptOwnership => accept_ownership(ownership, block, sender),
        Action::RenounceOwnership => renounce_ownership(ownership, sender),
    }
}

/// Propose to transfer the contract's ownership to the given (verified)
/// governance, with an optional deadline. The deadline is not checked
/// against the current block: a deadline in the past only means that the
/// transfer cannot be accepted, and the owner may propose again.
pub fn transfer_ownership(
    ownership: Ownership,
    sender: &String,
    new_owner: GovernanceDetails,
    expiry: Option<Expiration>,
) -> (res: Result<Ownership, OwnershipError>)
    ensures
        res == transferred(ownership, sender@, new_owner, expiry),
{
    match check_owner(&ownership, sender) {
        Err(e) => Err(e),
        Ok(()) => Ok(Ownership { pending_owner: Some(new_owner), pending_expiry: expiry, ..ownership }),
    }
}

/// Accept a pending ownership transfer. When the pending governance has an
/// owner address, only that address may accept, and only before the
/// deadline; otherwise anyone may complete the transfer.
pub fn accept_ownership(ownership: Ownership, block: &BlockInfo, sender: &String) -> (res: Result<
    Ownership,
    OwnershipError,
>)
    ensures
        res == accepted(ownership, block.height, block.time, sender@),
{
    let Ownership { owner: _, pending_owner, pending_expiry } = ownership;
    let pending = match pending_owner {
        Some(pending) => pending,
        None => return Err(OwnershipError::TransferNotFound),
    };
    if let Some(pending_address) = owner_address(&pending) {
        if !(*sender == pending_address) {
            return Err(OwnershipError::NotPendingOwner);
        }
        if let Some(expiry) = &pending_expiry {
            if is_expired(expiry, block) {
                return Err(OwnershipError::TransferExpired);
            }
        }
    }
    Ok(Ownership { owner: pending, pending_owner: None, pending_expiry: None })
}

/// Set the contract's ownership as vacant permanently.
pub fn renounce_ownership(ownership: Ownership, sender: &String) -> (res: Result<
    Ownership,
    OwnershipError,
>)
    ensures
        res == renounced(ownership, sender@),
{
    match check_owner(&ownership, sender) {
        Err(e) => Err(e),
        Ok(()) => Ok(
            Ownership {
                owner: GovernanceDetails::Renounced {  },
                pending_owner: None,
                pending_expiry: None,
            },
        ),
    }
}

/// The text of an optional value, or "none" when there is none.
pub open spec fn text_or_none(text: Option<Seq<char>>) -> Seq<char> {
    match text {
        Some(t) => t,
        None => "none"@,
    }
}

/// The value of the "owner" attribute: a monarchy is written as
/// "renounced", and any other governance as its displayed text.
pub open spec fn owner_attribute(owner: GovernanceDetails) -> Seq<char> {
    match owner {
        GovernanceDetails::Monarchy { .. } => "renounced"@,
        _ => owner.text(),
    }
}

impl Ownership {
    /// The keys and values of the attributes that describe the ownership:
    /// the owner, the pending owner and the pending deadline, in that order.
    pub open spec fn attribute_pairs(self) -> Seq<(Seq<char>, Seq<char>)> {
        seq![
            ("owner"@, owner_attribute(self.owner)),
            ("pending_owner"@, text_or_none(
                match self.pending_owner {
                    Some(g) => Some(g.text()),
                    None => None,
                },
            )),
            ("pending_expiry"@, text_or_none(
                match self.pending_expiry {
                    Some(e) => Some(e.text()),
                    None => None,
                },
            )),
        ]
    }

    /// Serializes the current ownership state as attributes which may be
    /// used in a message response, under the keys "owner", "pending_owner"
    /// and "pending_expiry". The owner is written as `owner_attribute`
    /// says; the pending owner and the deadline as their displayed text, and
    /// "none" for a field without a value.
    pub fn into_attributes(self) -> (attrs: Vec<Attribute>)
        ensures
            attrs@.len() == 3,
            attrs@.map_values(|a: Attribute| (a.key@, a.value@)) == self.attribute_pairs(),
    {
        broadcast use vstd::string::group_string_axioms;

        let owner = match &self.owner {
            GovernanceDetails::Monarchy { .. } => "renounced".to_string(),
            other => governance_text(other),
        };
        let pending_owner = match &self.pending_owner {
            Some(g) => Some(governance_text(g)),
            None => None,
        };
        let pending_expiry = match &self.pending_expiry {
            Some(e) => Some(expiration_text(e)),
            None => None,
        };
        let pending_owner = none_or::<str>(
            match &pending_owner {
                Some(t) => Some(t.as_str()),
                None => None,
            },
        );
        let pending_expiry = none_or::<str>(
            match &pending_expiry {
                Some(t) => Some(t.as_str()),
                None => None,
            },
        );
        let attrs = vec![
            Attribute { key: "owner".to_string(), value: owner },
            Attribute { key: "pending_owner".to_string(), value: pending_owner },
            Attribute { key: "pending_expiry".to_string(), value: pending_expiry },
        ];
        assert(attrs@.map_values(|a: Attribute| (a.key@, a.value@)) =~= self.attribute_pairs());
        attrs
    }
}

/// Renders an optional displayable value, or "none" when there is none.
pub fn none_or<T: Display + ?Sized>(or: Option<&T>) -> (text: String)
    ensures
        or is None ==> text@ == "none"@,
        or matches Some(v) ==> vstd::string::to_string_from_display_ensures::<T>(v, text),
{
    match or {
        Some(v) => v.to_string(),
        None => {
            broadcast use vstd::string::group_string_axioms;

            "none".to_string()
        },
    }
}

} // verus!
