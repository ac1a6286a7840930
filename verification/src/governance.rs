use vstd::prelude::*;
use abstract_std::objects::gov_type::GovernanceDetails as GovDetails;
use cosmwasm_std::Addr;

verus! {

/// Who governs a contract: the model of abstract's governance details, with
/// every address held as its text.
#[derive(Clone, Debug, PartialEq, Eq)]
pub enum GovernanceDetails {
    /// A single address is admin.
    Monarchy { monarch: String },
    /// The contract belongs to a sub-account of another account.
    SubAccount { manager: String, proxy: String },
    /// An external governance source.
    External { governance_address: String, governance_type: String },
    /// Nobody governs the contract any more.
    Renounced {},
}

impl GovernanceDetails {
    /// The address that acts as owner under this governance, if any:
    /// the monarch, the sub-account's proxy, or the external governance
    /// contract. A renounced governance has none.
    pub open spec fn owner_view(self) -> Option<Seq<char>> {
        match self {
            GovernanceDetails::Monarchy { monarch } => Some(monarch@),
            GovernanceDetails::SubAccount { proxy, .. } => Some(proxy@),
            GovernanceDetails::External { governance_address, .. } => Some(governance_address@),
            GovernanceDetails::Renounced {} => None,
        }
    }

    /// The text that the governance details display as: the name of the
    /// governance kind, or the type given to an external governance.
    pub open spec fn text(self) -> Seq<char> {
        match self {
            GovernanceDetails::Monarchy { .. } => "monarch"@,
            GovernanceDetails::SubAccount { .. } => "sub-account"@,
            GovernanceDetails::External { governance_type, .. } => governance_type@,
            GovernanceDetails::Renounced {} => "renounced"@,
        }
    }
}

/// The view of an optional address.
pub open spec fn opt_view(a: Option<String>) -> Option<Seq<char>> {
    match a {
        Some(s) => Some(s@),
        None => None,
    }
}

/// Calls `GovernanceDetails::<Addr>::owner_address` of abstract-std, which
/// returns the monarch, the proxy of a sub-account, the address of an external
/// governance, and nothing for a renounced one.
#[verifier::external_body]
pub(crate) fn owner_address(gov: &GovernanceDetails) -> (addr: Option<String>)
    ensures
        opt_view(addr) == gov.owner_view(),
{
    let gov: GovDetails<Addr> = match gov {
        GovernanceDetails::Monarchy { monarch } => GovDetails::Monarchy { monarch: Addr::unchecked(monarch) },
        GovernanceDetails::SubAccount { manager, proxy } => GovDetails::SubAccount { manager: Addr::unchecked(manager), proxy: Addr::unchecked(proxy) },
        GovernanceDetails::External { governance_address: a, governance_type: t } => GovDetails::External { governance_address: Addr::unchecked(a), governance_type: t.clone() },
        GovernanceDetails::Renounced {} => GovDetails::Renounced {},
    };
    gov.owner_address().map(Addr::into_string)
}

/// Calls the `Display` implementation of abstract-std's `GovernanceDetails`,
/// which writes "monarch", "sub-account", the governance type of an external
/// governance, or "renounced".
#[verifier::external_body]
pub(crate) fn governance_text(gov: &GovernanceDetails) -> (text: String)
    ensures
        text@ == gov.text(),
{
    let gov: GovDetails<String> = match gov.clone() {
        GovernanceDetails::Monarchy { monarch } => GovDetails::Monarchy { monarch },
        GovernanceDetails::SubAccount { manager, proxy } => GovDetails::SubAccount { manager, proxy },
        GovernanceDetails::External { governance_address, governance_type } => GovDetails::External { governance_address, governance_type },
        GovernanceDetails::Renounced {} => GovDetails::Renounced {},
    };
    gov.to_string()
}

} // verus!
