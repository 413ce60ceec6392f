use coolcat_nft::collection::{
    Collection, CollectionInfo, CollectionKind, ContractError, ExecuteMsg, RoyaltyInfo,
    TokenExtension, UpdateCollectionInfoMsg,
};
use coolcat_nft::expiration::{BlockInfo, Expiration};
use coolcat_nft::metadata::TraitMetadata;
use coolcat_nft::ownership::{Action, OwnershipError};

const MINTER: &str = "merlin";
const CONTRACT_NAME: &str = "Magic Power";
const SYMBOL: &str = "MGK";

fn mock_block() -> BlockInfo {
    BlockInfo { height: 12345, time_nanos: 1_571_797_419_879_305_533 }
}

fn hair_red_common() -> TokenExtension {
    TokenExtension::Trait(TraitMetadata {
        trait_type: String::from("hair"),
        trait_value: String::from("red"),
        trait_rarity: String::from("common"),
    })
}

fn setup_contract() -> Collection {
    let info = CollectionInfo {
        creator: "creator".into(),
        description: "description".into(),
        image: Some("https://example.com/image.png".into()),
        external_link: None,
        explicit_content: None,
        royalty_info: None,
    };
    Collection::instantiate(
        CollectionKind::Trait,
        CONTRACT_NAME.to_string(),
        SYMBOL.to_string(),
        String::from(MINTER),
        info,
    )
    .unwrap()
}

#[test]
fn proper_instantiation() {
    let contract = setup_contract();

    let res = contract.minter();
    assert_eq!(Some(MINTER.to_string()), res.minter);
    let info = contract.contract_info();
    assert_eq!(info.name, CONTRACT_NAME.to_string());
    assert_eq!(info.symbol, SYMBOL.to_string());

    let count = contract.num_tokens();
    assert_eq!(0, count);

    // list the token_ids
    let tokens = contract.all_tokens(&None, None);
    assert_eq!(0, tokens.len());
}

#[test]
fn minting() {
    let mut contract = setup_contract();

    let token_id = "1".to_string();

    // random cannot mint
    let err = contract
        .mint("random", token_id.clone(), String::from("medusa"), None, hair_red_common())
        .unwrap_err();
    assert_eq!(err, ContractError::Ownership(OwnershipError::NotOwner));

    // minter can mint
    contract
        .mint(MINTER, token_id.clone(), String::from("medusa"), None, hair_red_common())
        .unwrap();

    // ensure num tokens increases
    assert_eq!(1, contract.num_tokens());

    // unknown nft returns error
    let _ = contract.nft_info("unknown").unwrap_err();

    // this nft info is correct
    let info = contract.nft_info(&token_id).unwrap();
    assert_eq!(info.token_uri, None);
    match info.extension {
        TokenExtension::Trait(t) => {
            assert_eq!(t.trait_type, String::from("hair"));
            assert_eq!(t.trait_value, String::from("red"));
            assert_eq!(t.trait_rarity, String::from("common"));
        }
        TokenExtension::Character(_) => panic!("expected a trait extension"),
    }

    // owner info is correct
    let owner = contract.owner_of(&mock_block(), &token_id, true).unwrap();
    assert_eq!(owner.owner, String::from("medusa"));
    assert!(owner.approvals.is_empty());

    // Cannot mint same token_id again
    let err = contract
        .mint(MINTER, token_id.clone(), String::from("hercules"), None, hair_red_common())
        .unwrap_err();
    assert_eq!(err, ContractError::Claimed);

    // list the token_ids
    let tokens = contract.all_tokens(&None, None);
    assert_eq!(1, tokens.len());
    assert_eq!(vec![token_id], tokens);
}

#[test]
fn test_update_minter() {
    let mut contract = setup_contract();

    let token_id = "1".to_string();

    // Minter can mint
    contract
        .mint(MINTER, token_id.clone(), String::from("medusa"), None, hair_red_common())
        .unwrap();

    // Update the owner to "random". The new owner should be able to
    // mint new tokens, the old one should not.
    contract
        .update_ownership(
            &mock_block(),
            MINTER,
            Action::TransferOwnership { new_owner: "random".to_string(), expiry: None },
        )
        .unwrap();

    // Minter does not change until ownership transfer completes.
    let minter = contract.minter();
    assert_eq!(minter.minter, Some(MINTER.to_string()));

    // Pending ownership transfer should be discoverable via query.
    assert_eq!(contract.ownership.owner, Some(MINTER.to_string()));
    assert_eq!(contract.ownership.pending_owner, Some("random".to_string()));
    assert!(contract.ownership.pending_expiry.is_none());

    // Accept the ownership transfer.
    contract
        .update_ownership(&mock_block(), "random", Action::AcceptOwnership)
        .unwrap();

    // Minter changes after ownership transfer is accepted.
    let minter = contract.minter();
    assert_eq!(minter.minter, Some("random".to_string()));

    // Old owner can not mint.
    let err = contract
        .mint(MINTER, "randoms_token".to_string(), String::from("medusa"), None, hair_red_common())
        .unwrap_err();
    assert_eq!(err, ContractError::Ownership(OwnershipError::NotOwner));

    // New owner can mint.
    contract
        .mint(
            "random",
            "randoms_token".to_string(),
            String::from("medusa"),
            None,
            hair_red_common(),
        )
        .unwrap();
}

#[test]
fn burning() {
    let mut contract = setup_contract();

    let token_id = "1".to_string();

    // mint some NFT
    contract
        .mint(MINTER, token_id.clone(), MINTER.to_string(), None, hair_red_common())
        .unwrap();

    // random not allowed to burn
    let err = contract.burn(&mock_block(), "random", &token_id).unwrap_err();
    assert_eq!(err, ContractError::Ownership(OwnershipError::NotOwner));

    contract.burn(&mock_block(), MINTER, &token_id).unwrap();

    // ensure num tokens decreases
    assert_eq!(0, contract.num_tokens());

    // trying to get nft returns error
    let _ = contract.nft_info("petrify").unwrap_err();

    // list the token_ids
    let tokens = contract.all_tokens(&None, None);
    assert!(tokens.is_empty());
}

#[test]
fn query_tokens_by_owner() {
    let mut contract = setup_contract();

    // Mint a couple tokens (from the same owner)
    let token_id1 = "grow1".to_string();
    let demeter = String::from("demeter");
    let token_id2 = "grow2".to_string();
    let ceres = String::from("ceres");
    let token_id3 = "sing".to_string();

    contract
        .mint(MINTER, token_id1.clone(), demeter.clone(), None, hair_red_common())
        .unwrap();
    contract
        .mint(MINTER, token_id2.clone(), ceres.clone(), None, hair_red_common())
        .unwrap();
    contract
        .mint(MINTER, token_id3.clone(), demeter.clone(), None, hair_red_common())
        .unwrap();

    // get all tokens in order:
    let expected = vec![token_id1.clone(), token_id2.clone(), token_id3.clone()];
    let tokens = contract.all_tokens(&None, None);
    assert_eq!(&expected, &tokens);
    // paginate
    let tokens = contract.all_tokens(&None, Some(2));
    assert_eq!(&expected[..2], &tokens[..]);
    let tokens = contract.all_tokens(&Some(expected[1].clone()), None);
    assert_eq!(&expected[2..], &tokens[..]);

    // get by owner
    let by_ceres = vec![token_id2];
    let by_demeter = vec![token_id1, token_id3];
    // all tokens by owner
    let tokens = contract.tokens(&demeter, &None, None);
    assert_eq!(&by_demeter, &tokens);
    let tokens = contract.tokens(&ceres, &None, None);
    assert_eq!(&by_ceres, &tokens);

    // paginate for demeter
    let tokens = contract.tokens(&demeter, &None, Some(1));
    assert_eq!(&by_demeter[..1], &tokens[..]);
    let tokens = contract.tokens(&demeter, &Some(by_demeter[0].clone()), Some(3));
    assert_eq!(&by_demeter[1..], &tokens[..]);
}

#[test]
fn query_collection_info() {
    let contract = setup_contract();

    let collection_info = contract.query_collection_info();
    assert_eq!(collection_info.creator, String::from("creator"));
    assert_eq!(collection_info.description, String::from("description"));
    assert_eq!(collection_info.image, Some("https://example.com/image.png".to_string()));
    assert_eq!(collection_info.external_link, None);
    assert_eq!(collection_info.explicit_content, None);
    assert!(collection_info.royalty_info.is_none());
}

#[test]
fn update_collection() {
    let mut contract = setup_contract();

    let new_collection_info = UpdateCollectionInfoMsg {
        description: Some("description_new".into()),
        image: Some("https://example-new.com/image.png".into()),
        external_link: None,
        explicit_content: None,
        royalty_info: None,
    };

    contract.update_collection_info("creator", new_collection_info).unwrap();

    let collection_info = contract.query_collection_info();
    assert_eq!(collection_info.creator, String::from("creator"));
    assert_eq!(collection_info.description, String::from("description_new"));
    assert_eq!(collection_info.image, Some("https://example-new.com/image.png".to_string()));
    assert_eq!(collection_info.external_link, None);
    assert_eq!(collection_info.explicit_content, None);
    assert!(collection_info.royalty_info.is_none());

    let new_collection_info = UpdateCollectionInfoMsg {
        description: Some("description_new".into()),
        image: Some("https://example-new.com/image.png".into()),
        external_link: None,
        explicit_content: None,
        royalty_info: None,
    };
    let err = contract
        .update_collection_info("not_creator", new_collection_info)
        .unwrap_err();

    assert_eq!(err, ContractError::Unauthorized)
}

#[test]
fn freeze_collection() {
    let mut contract = setup_contract();

    contract.freeze_collection_info("creator").unwrap();

    let new_collection_info = UpdateCollectionInfoMsg {
        description: Some("description_new".into()),
        image: Some("https://example-new.com/image.png".into()),
        external_link: None,
        explicit_content: None,
        royalty_info: None,
    };

    let err = contract
        .update_collection_info("creator", new_collection_info)
        .unwrap_err();

    assert_eq!(err, ContractError::CollectionInfoFrozen)
}

#[test]
fn transfer_rights_three_branches() {
    let block = mock_block();
    let mut contract = setup_contract();
    contract
        .mint(MINTER, "t1".to_string(), "alice".to_string(), None, hair_red_common())
        .unwrap();

    // a stranger cannot transfer
    let err = contract
        .transfer_nft(&block, "mallory", "mallory".to_string(), "t1")
        .unwrap_err();
    assert_eq!(err, ContractError::Ownership(OwnershipError::NotOwner));

    // the owner can transfer
    contract.transfer_nft(&block, "alice", "bob".to_string(), "t1").unwrap();
    assert_eq!(contract.owner_of(&block, "t1", true).unwrap().owner, "bob".to_string());

    // a spender with a live approval can transfer
    contract
        .approve(&block, "bob", "carol".to_string(), "t1", Some(Expiration::AtHeight(99999)))
        .unwrap();
    contract.transfer_nft(&block, "carol", "dave".to_string(), "t1").unwrap();
    assert_eq!(contract.owner_of(&block, "t1", true).unwrap().owner, "dave".to_string());

    // an operator with a live grant can transfer
    contract
        .approve_all(&block, "dave", "oscar".to_string(), Some(Expiration::Never))
        .unwrap();
    contract.transfer_nft(&block, "oscar", "erin".to_string(), "t1").unwrap();
    assert_eq!(contract.owner_of(&block, "t1", true).unwrap().owner, "erin".to_string());
}

#[test]
fn transfer_clears_approvals() {
    let block = mock_block();
    let mut contract = setup_contract();
    contract
        .mint(MINTER, "t1".to_string(), "alice".to_string(), None, hair_red_common())
        .unwrap();
    contract
        .approve(&block, "alice", "bob".to_string(), "t1", None)
        .unwrap();
    contract
        .approve(&block, "alice", "carol".to_string(), "t1", None)
        .unwrap();
    assert_eq!(contract.owner_of(&block, "t1", true).unwrap().approvals.len(), 2);

    // the transfer is made by an approval holder, not the owner, and
    // still clears every approval
    contract.transfer_nft(&block, "carol", "carol".to_string(), "t1").unwrap();
    let resp = contract.owner_of(&block, "t1", true).unwrap();
    assert_eq!(resp.owner, "carol".to_string());
    assert!(resp.approvals.is_empty());
}

#[test]
fn approving_twice_replaces() {
    let block = mock_block();
    let mut contract = setup_contract();
    contract
        .mint(MINTER, "t1".to_string(), "alice".to_string(), None, hair_red_common())
        .unwrap();
    contract
        .approve(&block, "alice", "bob".to_string(), "t1", Some(Expiration::AtHeight(20000)))
        .unwrap();
    contract
        .approve(&block, "alice", "bob".to_string(), "t1", Some(Expiration::AtHeight(30000)))
        .unwrap();

    let resp = contract.owner_of(&block, "t1", true).unwrap();
    let for_bob: Vec<_> =
        resp.approvals.iter().filter(|a| a.spender == "bob".to_string()).collect();
    assert_eq!(for_bob.len(), 1);
    assert_eq!(for_bob[0].expires, Expiration::AtHeight(30000));
}

#[test]
fn expired_approval_is_rejected_at_approve_time() {
    let block = mock_block();
    let mut contract = setup_contract();
    contract
        .mint(MINTER, "t1".to_string(), "alice".to_string(), None, hair_red_common())
        .unwrap();

    // the expiry lies in the past, so the approval itself is refused
    let err = contract
        .approve(&block, "alice", "bob".to_string(), "t1", Some(Expiration::AtHeight(100)))
        .unwrap_err();
    assert_eq!(err, ContractError::Expired);

    // nothing was stored, so the would-be spender cannot transfer
    assert!(contract.owner_of(&block, "t1", true).unwrap().approvals.is_empty());
    let err = contract
        .transfer_nft(&block, "bob", "bob".to_string(), "t1")
        .unwrap_err();
    assert_eq!(err, ContractError::Ownership(OwnershipError::NotOwner));
}

#[test]
fn expired_grants_do_not_authorize() {
    let block = mock_block();
    let mut contract = setup_contract();
    contract
        .mint(MINTER, "t1".to_string(), "alice".to_string(), None, hair_red_common())
        .unwrap();

    // a grant that lapses at height 20000 works now but not later
    contract
        .approve(&block, "alice", "bob".to_string(), "t1", Some(Expiration::AtHeight(20000)))
        .unwrap();
    let later = BlockInfo { height: 20000, time_nanos: block.time_nanos };
    let err = contract
        .transfer_nft(&later, "bob", "bob".to_string(), "t1")
        .unwrap_err();
    assert_eq!(err, ContractError::Ownership(OwnershipError::NotOwner));

    // time-based expiry behaves the same through revoke_all
    contract
        .approve_all(&block, "alice", "oscar".to_string(), None)
        .unwrap();
    contract.revoke_all("alice", "oscar").unwrap();
    let err = contract
        .transfer_nft(&block, "oscar", "oscar".to_string(), "t1")
        .unwrap_err();
    assert_eq!(err, ContractError::Ownership(OwnershipError::NotOwner));
}

#[test]
fn character_transfer_needs_lock() {
    let block = mock_block();
    let info = CollectionInfo {
        creator: "creator".into(),
        description: "description".into(),
        image: Some("https://example.com/image.png".into()),
        external_link: None,
        explicit_content: None,
        royalty_info: None,
    };
    let mut contract = Collection::instantiate(
        CollectionKind::Character,
        "Cool Characters".to_string(),
        "CHAR".to_string(),
        MINTER.to_string(),
        info,
    )
    .unwrap();

    let sheet = coolcat_nft::metadata::Metadata {
        name: Some("hero".to_string()),
        ears: None,
        eyes: None,
        mouth: None,
        fur_type: None,
        fur_color: None,
        tail_shape: None,
        rarity: None,
        traits_equipped: None,
        locked: false,
    };
    contract
        .mint(MINTER, "c1".to_string(), "alice".to_string(), None, TokenExtension::Character(sheet))
        .unwrap();

    // unlocked characters cannot move, even for the owner
    let err = contract
        .transfer_nft(&block, "alice", "bob".to_string(), "c1")
        .unwrap_err();
    assert_eq!(err, ContractError::CharacterNotFrozen);

    // locking is allowed for the owner and is one-way; then transfers work
    contract.freeze_character(&block, "alice", "c1").unwrap();
    contract.transfer_nft(&block, "alice", "bob".to_string(), "c1").unwrap();
    assert_eq!(contract.owner_of(&block, "c1", true).unwrap().owner, "bob".to_string());

    // burning needs no lock but does need authorization
    let err = contract.burn(&block, "alice", "c1").unwrap_err();
    assert_eq!(err, ContractError::Ownership(OwnershipError::NotOwner));
    contract.burn(&block, "bob", "c1").unwrap();
    assert_eq!(contract.num_tokens(), 0);
}

#[test]
fn royalty_share_never_grows() {
    let info = CollectionInfo {
        creator: "creator".into(),
        description: "description".into(),
        image: Some("https://example.com/image.png".into()),
        external_link: None,
        explicit_content: None,
        royalty_info: Some(RoyaltyInfo { payment_address: "payee".into(), share_bps: 500 }),
    };
    let mut contract = Collection::instantiate(
        CollectionKind::Trait,
        CONTRACT_NAME.to_string(),
        SYMBOL.to_string(),
        MINTER.to_string(),
        info,
    )
    .unwrap();

    // raising the share fails
    let err = contract
        .update_collection_info(
            "creator",
            UpdateCollectionInfoMsg {
                description: None,
                image: None,
                external_link: None,
                explicit_content: None,
                royalty_info: Some(Some(RoyaltyInfo {
                    payment_address: "payee".into(),
                    share_bps: 600,
                })),
            },
        )
        .unwrap_err();
    assert_eq!(err, ContractError::RoyaltyShareIncreased);

    // lowering it is fine
    contract
        .update_collection_info(
            "creator",
            UpdateCollectionInfoMsg {
                description: None,
                image: None,
                external_link: None,
                explicit_content: None,
                royalty_info: Some(Some(RoyaltyInfo {
                    payment_address: "payee".into(),
                    share_bps: 400,
                })),
            },
        )
        .unwrap();
    let resp = contract.query_collection_info();
    assert_eq!(resp.royalty_info.unwrap().share_bps, 400);
}

#[test]
fn royalty_cannot_appear_from_nothing() {
    let mut contract = setup_contract();
    let err = contract
        .update_collection_info(
            "creator",
            UpdateCollectionInfoMsg {
                description: None,
                image: None,
                external_link: None,
                explicit_content: None,
                royalty_info: Some(Some(RoyaltyInfo {
                    payment_address: "payee".into(),
                    share_bps: 100,
                })),
            },
        )
        .unwrap_err();
    assert_eq!(err, ContractError::RoyaltyShareIncreased);
}

#[test]
fn malformed_metadata_is_rejected_before_storage() {
    // a bad image URL is rejected at instantiation
    let info = CollectionInfo {
        creator: "creator".into(),
        description: "description".into(),
        image: Some("not a url".into()),
        external_link: None,
        explicit_content: None,
        royalty_info: None,
    };
    let err = Collection::instantiate(
        CollectionKind::Trait,
        CONTRACT_NAME.to_string(),
        SYMBOL.to_string(),
        MINTER.to_string(),
        info,
    )
    .unwrap_err();
    assert_eq!(err, ContractError::Parse);

    // an over-long description is rejected
    let info = CollectionInfo {
        creator: "creator".into(),
        description: "d".repeat(513),
        image: Some("https://example.com/image.png".into()),
        external_link: None,
        explicit_content: None,
        royalty_info: None,
    };
    let err = Collection::instantiate(
        CollectionKind::Trait,
        CONTRACT_NAME.to_string(),
        SYMBOL.to_string(),
        MINTER.to_string(),
        info,
    )
    .unwrap_err();
    assert_eq!(err, ContractError::DescriptionTooLong);

    // a royalty share beyond the whole is rejected
    let info = CollectionInfo {
        creator: "creator".into(),
        description: "description".into(),
        image: Some("https://example.com/image.png".into()),
        external_link: None,
        explicit_content: None,
        royalty_info: Some(RoyaltyInfo { payment_address: "payee".into(), share_bps: 10001 }),
    };
    let err = Collection::instantiate(
        CollectionKind::Trait,
        CONTRACT_NAME.to_string(),
        SYMBOL.to_string(),
        MINTER.to_string(),
        info,
    )
    .unwrap_err();
    assert_eq!(err, ContractError::InvalidRoyalties);
}

#[test]
fn execute_routes_and_freeze_is_permanent() {
    let block = mock_block();
    let mut contract = setup_contract();

    contract
        .execute(
            &block,
            MINTER,
            ExecuteMsg::Mint {
                token_id: "1".to_string(),
                owner: "medusa".to_string(),
                token_uri: None,
                extension: hair_red_common(),
            },
        )
        .unwrap();
    assert_eq!(contract.num_tokens(), 1);

    contract.execute(&block, "creator", ExecuteMsg::FreezeCollectionInfo).unwrap();
    let err = contract
        .execute(
            &block,
            "creator",
            ExecuteMsg::UpdateCollectionInfo {
                collection_info: UpdateCollectionInfoMsg {
                    description: Some("new".into()),
                    image: None,
                    external_link: None,
                    explicit_content: None,
                    royalty_info: None,
                },
            },
        )
        .unwrap_err();
    assert_eq!(err, ContractError::CollectionInfoFrozen);

    // sending also notifies the receiver
    let cmd = contract
        .execute(
            &block,
            "medusa",
            ExecuteMsg::SendNft {
                contract: "some_game".to_string(),
                token_id: "1".to_string(),
                msg: vec![1, 2, 3],
            },
        )
        .unwrap()
        .unwrap();
    assert_eq!(cmd.contract, "some_game".to_string());
    assert_eq!(cmd.sender, "medusa".to_string());
    assert_eq!(cmd.token_id, "1".to_string());
    assert_eq!(cmd.msg, vec![1, 2, 3]);
    assert_eq!(contract.owner_of(&block, "1", true).unwrap().owner, "some_game".to_string());
}
