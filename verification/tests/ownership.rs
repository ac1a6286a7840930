use cosmwasm_std::Timestamp;
use ownable::expiration::{BlockInfo, Expiration};
use ownable::governance::GovernanceDetails;
use ownable::ownership::{
    accept_ownership, assert_owner, initialize_owner, is_owner, none_or, renounce_ownership,
    transfer_ownership, update_ownership, Action, Attribute, Ownership, OwnershipError,
};

/// The stored ownership item: what a contract keeps between messages.
struct Store {
    item: Option<Ownership>,
}

impl Store {
    fn new() -> Self {
        Store { item: None }
    }

    fn save(&mut self, ownership: &Ownership) {
        self.item = Some(ownership.clone());
    }

    fn load(&self) -> Ownership {
        self.item.clone().expect("ownership was stored")
    }

    /// Applies a change to the stored ownership and saves the result when it succeeds.
    fn update(
        &mut self,
        change: impl FnOnce(Ownership) -> Result<Ownership, OwnershipError>,
    ) -> Result<Ownership, OwnershipError> {
        let next = change(self.load())?;
        self.save(&next);
        Ok(next)
    }
}

fn addr(name: &str) -> String {
    name.to_string()
}

fn mock_govs() -> [GovernanceDetails; 3] {
    [
        GovernanceDetails::Monarchy { monarch: addr("larry") },
        GovernanceDetails::Monarchy { monarch: addr("jake") },
        GovernanceDetails::Monarchy { monarch: addr("pumpkin") },
    ]
}

fn owner_of(gov: &GovernanceDetails) -> String {
    match gov {
        GovernanceDetails::Monarchy { monarch } => monarch.clone(),
        _ => panic!("the mock governances are monarchies"),
    }
}

fn mock_block_at_height(height: u64) -> BlockInfo {
    BlockInfo {
        height,
        time: Timestamp::from_seconds(10000).nanos(),
        chain_id: "".into(),
    }
}

fn initialized(owner: GovernanceDetails) -> Store {
    let mut store = Store::new();
    store.save(&initialize_owner(owner));
    store
}

#[test]
fn initializing_ownership() {
    let mut store = Store::new();
    let [larry, _, _] = mock_govs();

    let ownership = initialize_owner(larry.clone());
    store.save(&ownership);

    // ownership returned is same as ownership stored.
    assert_eq!(ownership, store.load());

    assert_eq!(
        ownership,
        Ownership {
            owner: larry,
            pending_owner: None,
            pending_expiry: None,
        },
    );
}

#[test]
fn initialize_ownership_no_owner() {
    let ownership = initialize_owner(GovernanceDetails::Renounced {});
    assert_eq!(
        ownership,
        Ownership {
            owner: GovernanceDetails::Renounced {},
            pending_owner: None,
            pending_expiry: None,
        },
    );
}

#[test]
fn asserting_ownership() {
    let [larry, jake, _] = mock_govs();

    // case 1. owner has not renounced
    let mut store = initialized(larry.clone());
    {
        let res = assert_owner(&store.load(), &owner_of(&larry));
        assert!(res.is_ok());

        let res = assert_owner(&store.load(), &owner_of(&jake));
        assert_eq!(res.unwrap_err(), OwnershipError::NotOwner);
    }

    // case 2. owner has renounced
    {
        store.update(|o| renounce_ownership(o, &owner_of(&larry))).unwrap();

        let res = assert_owner(&store.load(), &owner_of(&larry));
        assert_eq!(res.unwrap_err(), OwnershipError::NoOwner);
    }
}

#[test]
fn transferring_ownership() {
    let [larry, jake, pumpkin] = mock_govs();
    let mut store = initialized(larry.clone());

    // non-owner cannot transfer ownership
    {
        let err = store
            .update(|o| {
                update_ownership(
                    o,
                    &mock_block_at_height(12345),
                    &owner_of(&jake),
                    Action::TransferOwnership {
                        new_owner: pumpkin.clone(),
                        expiry: None,
                    },
                )
            })
            .unwrap_err();
        assert_eq!(err, OwnershipError::NotOwner);
    }

    // owner properly transfers ownership
    {
        let ownership = store
            .update(|o| {
                update_ownership(
                    o,
                    &mock_block_at_height(12345),
                    &owner_of(&larry),
                    Action::TransferOwnership {
                        new_owner: pumpkin.clone(),
                        expiry: Some(Expiration::AtHeight(42069)),
                    },
                )
            })
            .unwrap();
        assert_eq!(
            ownership,
            Ownership {
                owner: larry,
                pending_owner: Some(pumpkin),
                pending_expiry: Some(Expiration::AtHeight(42069)),
            },
        );

        let saved_ownership = store.load();
        assert_eq!(saved_ownership, ownership);
    }
}

#[test]
fn accepting_ownership() {
    let [larry, jake, pumpkin] = mock_govs();
    let mut store = initialized(larry.clone());

    // cannot accept ownership when there isn't a pending ownership transfer
    {
        let err = store
            .update(|o| {
                update_ownership(
                    o,
                    &mock_block_at_height(12345),
                    &owner_of(&pumpkin),
                    Action::AcceptOwnership,
                )
            })
            .unwrap_err();
        assert_eq!(err, OwnershipError::TransferNotFound);
    }

    store
        .update(|o| {
            transfer_ownership(
                o,
                &owner_of(&larry),
                pumpkin.clone(),
                Some(Expiration::AtHeight(42069)),
            )
        })
        .unwrap();

    // non-pending owner cannot accept ownership
    {
        let err = store
            .update(|o| {
                update_ownership(
                    o,
                    &mock_block_at_height(12345),
                    &owner_of(&jake),
                    Action::AcceptOwnership,
                )
            })
            .unwrap_err();
        assert_eq!(err, OwnershipError::NotPendingOwner);
    }

    // cannot accept ownership if deadline has passed
    {
        let err = store
            .update(|o| {
                update_ownership(
                    o,
                    &mock_block_at_height(69420),
                    &owner_of(&pumpkin),
                    Action::AcceptOwnership,
                )
            })
            .unwrap_err();
        assert_eq!(err, OwnershipError::TransferExpired);
    }

    // pending owner properly accepts ownership before deadline
    {
        let ownership = store
            .update(|o| {
                update_ownership(
                    o,
                    &mock_block_at_height(10000),
                    &owner_of(&pumpkin),
                    Action::AcceptOwnership,
                )
            })
            .unwrap();
        assert_eq!(
            ownership,
            Ownership {
                owner: pumpkin,
                pending_owner: None,
                pending_expiry: None,
            },
        );

        let saved_ownership = store.load();
        assert_eq!(saved_ownership, ownership);
    }
}

#[test]
fn renouncing_ownership() {
    let [larry, jake, pumpkin] = mock_govs();
    let mut store = Store::new();

    let ownership = Ownership {
        owner: larry.clone(),
        pending_owner: Some(pumpkin),
        pending_expiry: None,
    };
    store.save(&ownership);

    // non-owner cannot renounce
    {
        let err = store
            .update(|o| {
                update_ownership(
                    o,
                    &mock_block_at_height(12345),
                    &owner_of(&jake),
                    Action::RenounceOwnership,
                )
            })
            .unwrap_err();
        assert_eq!(err, OwnershipError::NotOwner);
    }

    // owner properly renounces
    {
        let ownership = store
            .update(|o| {
                update_ownership(
                    o,
                    &mock_block_at_height(12345),
                    &owner_of(&larry),
                    Action::RenounceOwnership,
                )
            })
            .unwrap();

        // ownership returned is same as ownership stored.
        assert_eq!(ownership, store.load());

        assert_eq!(
            ownership,
            Ownership {
                owner: GovernanceDetails::Renounced {},
                pending_owner: None,
                pending_expiry: None,
            },
        );
    }

    // cannot renounce twice
    {
        let err = store
            .update(|o| {
                update_ownership(
                    o,
                    &mock_block_at_height(12345),
                    &owner_of(&larry),
                    Action::RenounceOwnership,
                )
            })
            .unwrap_err();
        assert_eq!(err, OwnershipError::NoOwner);
    }
}

// ---------------------------------------------------------------------------
// Further cases
// ---------------------------------------------------------------------------

#[test]
fn into_attributes_writes_pending_transfer() {
    let attrs = Ownership {
        owner: GovernanceDetails::External {
            governance_address: addr("dao"),
            governance_type: "cw-dao".to_string(),
        },
        pending_owner: Some(GovernanceDetails::SubAccount {
            manager: addr("manager"),
            proxy: addr("proxy"),
        }),
        pending_expiry: Some(Expiration::AtHeight(42069)),
    }
    .into_attributes();
    assert_eq!(
        attrs,
        vec![
            Attribute::new("owner", "cw-dao"),
            Attribute::new("pending_owner", "sub-account"),
            Attribute::new("pending_expiry", "expiration height: 42069"),
        ],
    );
}

#[test]
fn into_attributes_writes_time_and_renounced() {
    let attrs = Ownership {
        owner: GovernanceDetails::Renounced {},
        pending_owner: Some(GovernanceDetails::Renounced {}),
        pending_expiry: Some(Expiration::AtTime(10_000_000_000_005)),
    }
    .into_attributes();
    assert_eq!(
        attrs,
        vec![
            Attribute::new("owner", "renounced"),
            Attribute::new("pending_owner", "renounced"),
            Attribute::new("pending_expiry", "expiration time: 10000.000000005"),
        ],
    );
    let attrs = initialize_owner(GovernanceDetails::Renounced {}).into_attributes();
    assert_eq!(attrs[2], Attribute::new("pending_expiry", "none"));
}

#[test]
fn none_or_writes_value_or_none() {
    assert_eq!(none_or::<str>(None), "none");
    assert_eq!(none_or(Some("larry")), "larry");
    assert_eq!(none_or(Some(&42069u64)), "42069");
}

#[test]
fn is_owner_names_the_owner_address() {
    let [larry, jake, _] = mock_govs();
    assert!(is_owner(&initialize_owner(larry.clone()), &addr("larry")));
    assert!(!is_owner(&initialize_owner(larry), &addr("jake")));
    assert!(!is_owner(&initialize_owner(GovernanceDetails::Renounced {}), &addr("jake")));
    let _ = jake;

    // a sub-account is owned through its proxy, not its manager
    let sub = initialize_owner(GovernanceDetails::SubAccount {
        manager: addr("manager"),
        proxy: addr("proxy"),
    });
    assert!(is_owner(&sub, &addr("proxy")));
    assert!(!is_owner(&sub, &addr("manager")));
    assert!(assert_owner(&sub, &addr("proxy")).is_ok());
    assert_eq!(assert_owner(&sub, &addr("manager")), Err(OwnershipError::NotOwner));

    // an external governance is owned through its contract address
    let ext = initialize_owner(GovernanceDetails::External {
        governance_address: addr("dao"),
        governance_type: "cw-dao".to_string(),
    });
    assert!(is_owner(&ext, &addr("dao")));
    assert!(!is_owner(&ext, &addr("cw-dao")));
}

#[test]
fn renouncing_is_final() {
    let [larry, _, pumpkin] = mock_govs();
    let renounced = renounce_ownership(initialize_owner(larry), &addr("larry")).unwrap();
    let block = mock_block_at_height(1);
    for sender in ["larry", "pumpkin", "anyone"] {
        let actions = [
            Action::TransferOwnership { new_owner: pumpkin.clone(), expiry: None },
            Action::AcceptOwnership,
            Action::RenounceOwnership,
        ];
        for action in actions {
            assert!(update_ownership(renounced.clone(), &block, &addr(sender), action).is_err());
        }
    }
    assert_eq!(
        update_ownership(renounced.clone(), &block, &addr("larry"), Action::AcceptOwnership),
        Err(OwnershipError::TransferNotFound),
    );
}

#[test]
fn transfer_then_accept_hands_over() {
    let [larry, jake, pumpkin] = mock_govs();
    let block = mock_block_at_height(100);
    let proposed = transfer_ownership(
        initialize_owner(larry),
        &addr("larry"),
        jake.clone(),
        Some(Expiration::AtHeight(101)),
    )
    .unwrap();
    // a later proposal overwrites the pending one
    let proposed = transfer_ownership(proposed, &addr("larry"), pumpkin.clone(), None).unwrap();
    assert_eq!(proposed.pending_owner, Some(pumpkin.clone()));
    assert_eq!(proposed.pending_expiry, None);
    assert_eq!(
        accept_ownership(proposed.clone(), &block, &addr("jake")),
        Err(OwnershipError::NotPendingOwner),
    );
    assert_eq!(
        accept_ownership(proposed, &block, &addr("pumpkin")),
        Ok(Ownership { owner: pumpkin, pending_owner: None, pending_expiry: None }),
    );
}

#[test]
fn renounced_pending_governance_is_accepted_by_anyone() {
    let [larry, _, _] = mock_govs();
    let proposed = transfer_ownership(
        initialize_owner(larry),
        &addr("larry"),
        GovernanceDetails::Renounced {},
        Some(Expiration::AtHeight(1)),
    )
    .unwrap();
    // no owner address to compare with, so neither the sender nor the deadline is checked
    let accepted = accept_ownership(proposed, &mock_block_at_height(5), &addr("stranger")).unwrap();
    assert_eq!(accepted, initialize_owner(GovernanceDetails::Renounced {}));
}

#[test]
fn deadline_by_time_and_never() {
    let [larry, _, pumpkin] = mock_govs();
    let at = |time: u64| BlockInfo { height: 1, time, chain_id: "chain".to_string() };
    let proposed = |expiry| {
        transfer_ownership(initialize_owner(larry.clone()), &addr("larry"), pumpkin.clone(), expiry)
            .unwrap()
    };
    let deadline = Some(Expiration::AtTime(1_000));
    assert!(accept_ownership(proposed(deadline), &at(999), &addr("pumpkin")).is_ok());
    assert_eq!(
        accept_ownership(proposed(deadline), &at(1_000), &addr("pumpkin")),
        Err(OwnershipError::TransferExpired),
    );
    assert!(accept_ownership(proposed(Some(Expiration::Never {})), &at(u64::MAX), &addr("pumpkin")).is_ok());
    // the height deadline is reached at the height itself
    let by_height = proposed(Some(Expiration::AtHeight(7)));
    assert!(accept_ownership(by_height.clone(), &mock_block_at_height(6), &addr("pumpkin")).is_ok());
    assert_eq!(
        accept_ownership(by_height, &mock_block_at_height(7), &addr("pumpkin")),
        Err(OwnershipError::TransferExpired),
    );
}

#[test]
fn wrong_sender_is_reported_before_an_expired_deadline() {
    let [larry, _, pumpkin] = mock_govs();
    let proposed = transfer_ownership(
        initialize_owner(larry),
        &addr("larry"),
        pumpkin,
        Some(Expiration::AtHeight(1)),
    )
    .unwrap();
    assert_eq!(
        accept_ownership(proposed, &mock_block_at_height(2), &addr("jake")),
        Err(OwnershipError::NotPendingOwner),
    );
}

#[test]
fn ownerless_contract_cannot_transfer() {
    let owner = initialize_owner(GovernanceDetails::Renounced {});
    assert_eq!(
        transfer_ownership(owner, &addr("larry"), mock_govs()[1].clone(), None),
        Err(OwnershipError::NoOwner),
    );
}

#[test]
fn into_attributes_works() {
    assert_eq!(
        Ownership {
            owner: GovernanceDetails::Monarchy {
                monarch: "batman".to_string()
            },
            pending_owner: None,
            pending_expiry: Some(Expiration::Never {})
        }
        .into_attributes(),
        vec![
            Attribute::new("owner", "renounced"),
            Attribute::new("pending_owner", "none"),
            Attribute::new("pending_expiry", "expiration: never")
        ],
    );
}

#[test]
fn into_attributes_writes_pending_monarchy_as_displayed() {
    let attrs = Ownership {
        owner: GovernanceDetails::Monarchy { monarch: addr("larry") },
        pending_owner: Some(GovernanceDetails::Monarchy { monarch: addr("jake") }),
        pending_expiry: None,
    }
    .into_attributes();
    assert_eq!(
        attrs,
        vec![
            Attribute::new("owner", "renounced"),
            Attribute::new("pending_owner", "monarch"),
            Attribute::new("pending_expiry", "none"),
        ],
    );
}
