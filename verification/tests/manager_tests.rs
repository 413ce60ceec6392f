use coolcat_nft::catalog::{Character, CharacterLootbox, Trait, TraitBundle, TraitLootbox};
use coolcat_nft::character_manager::{
    CharacterManager, CharacterManagerParams, CharacterManagerQueryMsg,
    CharacterManagerQueryResponse, ContractError as CharError, TraitTokenInfo,
    UpdateCharacterManagerParamsMsg,
};
use coolcat_nft::coin::{Coin, PaymentError};
use coolcat_nft::collection::{Collection, CollectionInfo, CollectionKind, TokenExtension};
use coolcat_nft::manager::FundInstruction;
use coolcat_nft::metadata::{Metadata, TraitMetadata};
use coolcat_nft::trait_manager::{
    ContractError as TraitError, TraitManager, TraitManagerParams,
};

fn uccat(amount: u128) -> Coin {
    Coin { denom: "uccat".to_string(), amount }
}

fn empty_sheet() -> Metadata {
    Metadata {
        name: None,
        ears: None,
        eyes: None,
        mouth: None,
        fur_type: None,
        fur_color: None,
        tail_shape: None,
        rarity: None,
        traits_equipped: None,
        locked: false,
    }
}

fn character_manager(burn_ratio: u64, destination: Option<String>) -> CharacterManager {
    CharacterManager::instantiate(
        "boss".to_string(),
        7,
        CharacterManagerParams {
            empty_character_mint_price: uccat(100),
            character_mint_prices: vec![uccat(55)],
            character_rarities: vec!["common".to_string()],
            burn_ratio,
            destination,
            trait_collection_addr: "traits_addr".to_string(),
            mintable_collection_addr: "catalog_addr".to_string(),
        },
    )
    .unwrap()
}

fn trait_manager(burn_ratio: u64, destination: Option<String>) -> TraitManager {
    TraitManager::instantiate(
        "boss".to_string(),
        9,
        TraitManagerParams {
            mint_prices: vec![uccat(5)],
            rarities: vec!["common".to_string()],
            burn_ratio,
            destination,
            mintable_collection_addr: "catalog_addr".to_string(),
        },
    )
    .unwrap()
}

fn catalog_character() -> Character {
    Character {
        id: 1,
        ears: Some("pointy".to_string()),
        eyes: Some("green".to_string()),
        mouth: None,
        fur_type: None,
        fur_color: Some("black".to_string()),
        tail_shape: None,
        rarity: "common".to_string(),
        locked: false,
        mint_price: uccat(55),
    }
}

#[test]
fn burn_ratio_40_splits_40_60() {
    let mut mgr = character_manager(40, Some("dest".to_string()));
    let plan = mgr
        .mint("buyer", &vec![uccat(100)], &vec![], empty_sheet(), "alice".to_string())
        .unwrap();
    assert_eq!(plan.fund_instructions.len(), 2);
    match &plan.fund_instructions[0] {
        FundInstruction::Burn { denom, amount } => {
            assert_eq!(denom, &"uccat".to_string());
            assert_eq!(*amount, 40);
        }
        _ => panic!("expected a burn instruction first"),
    }
    match &plan.fund_instructions[1] {
        FundInstruction::Send { to_address, denom, amount } => {
            assert_eq!(to_address, &"dest".to_string());
            assert_eq!(denom, &"uccat".to_string());
            assert_eq!(*amount, 60);
        }
        _ => panic!("expected a forwarding instruction second"),
    }
    assert_eq!(plan.mints.len(), 1);
    assert_eq!(plan.mints[0].token_id, "1".to_string());
    assert_eq!(plan.mints[0].owner, "alice".to_string());
}

#[test]
fn burn_ratio_100_burns_everything() {
    let mut mgr = character_manager(100, None);
    let plan = mgr
        .mint("buyer", &vec![uccat(100)], &vec![], empty_sheet(), "alice".to_string())
        .unwrap();
    assert_eq!(plan.fund_instructions.len(), 1);
    match &plan.fund_instructions[0] {
        FundInstruction::Burn { denom, amount } => {
            assert_eq!(denom, &"uccat".to_string());
            assert_eq!(*amount, 100);
        }
        _ => panic!("expected only a burn instruction"),
    }
}

#[test]
fn burn_ratio_0_forwards_everything() {
    let mut mgr = character_manager(0, Some("dest".to_string()));
    let plan = mgr
        .mint("buyer", &vec![uccat(100)], &vec![], empty_sheet(), "alice".to_string())
        .unwrap();
    assert_eq!(plan.fund_instructions.len(), 1);
    match &plan.fund_instructions[0] {
        FundInstruction::Send { to_address, amount, .. } => {
            assert_eq!(to_address, &"dest".to_string());
            assert_eq!(*amount, 100);
        }
        _ => panic!("expected only a forwarding instruction"),
    }
}

#[test]
fn non_native_payments_are_forwarded_in_full() {
    let mut mgr = character_manager(40, Some("dest".to_string()));
    let price = Coin { denom: "uatom".to_string(), amount: 100 };
    let characters = vec![Character { mint_price: price, ..catalog_character() }];
    let sheet = Metadata {
        ears: Some("pointy".to_string()),
        eyes: Some("green".to_string()),
        fur_color: Some("black".to_string()),
        rarity: Some("common".to_string()),
        ..empty_sheet()
    };
    let plan = mgr
        .mint(
            "buyer",
            &vec![Coin { denom: "uatom".to_string(), amount: 100 }],
            &characters,
            sheet,
            "alice".to_string(),
        )
        .unwrap();
    assert_eq!(plan.fund_instructions.len(), 1);
    match &plan.fund_instructions[0] {
        FundInstruction::Send { to_address, denom, amount } => {
            assert_eq!(to_address, &"dest".to_string());
            assert_eq!(denom, &"uatom".to_string());
            assert_eq!(*amount, 100);
        }
        _ => panic!("expected only a forwarding instruction"),
    }
}

#[test]
fn payment_shape_is_enforced() {
    let mut mgr = character_manager(40, Some("dest".to_string()));
    let err = mgr
        .mint("buyer", &vec![], &vec![], empty_sheet(), "alice".to_string())
        .unwrap_err();
    assert_eq!(err, CharError::Payment(PaymentError::NoFunds));

    let err = mgr
        .mint("buyer", &vec![uccat(0)], &vec![], empty_sheet(), "alice".to_string())
        .unwrap_err();
    assert_eq!(err, CharError::Payment(PaymentError::NoFunds));

    let err = mgr
        .mint(
            "buyer",
            &vec![uccat(50), uccat(50)],
            &vec![],
            empty_sheet(),
            "alice".to_string(),
        )
        .unwrap_err();
    assert_eq!(err, CharError::Payment(PaymentError::MultipleDenoms));

    let err = mgr
        .mint("buyer", &vec![uccat(99)], &vec![], empty_sheet(), "alice".to_string())
        .unwrap_err();
    assert_eq!(err, CharError::IncorrectMintFunds);
}

#[test]
fn empty_character_mint_must_be_empty() {
    let mut mgr = character_manager(40, Some("dest".to_string()));
    let sheet = Metadata { ears: Some("pointy".to_string()), ..empty_sheet() };
    let err = mgr
        .mint("buyer", &vec![uccat(100)], &vec![], sheet, "alice".to_string())
        .unwrap_err();
    assert_eq!(err, CharError::InvalidEmptyCharacterMint);

    let sheet = Metadata { traits_equipped: Some(vec!["10".to_string()]), ..empty_sheet() };
    let err = mgr
        .mint("buyer", &vec![uccat(100)], &vec![], sheet, "alice".to_string())
        .unwrap_err();
    assert_eq!(err, CharError::InvalidMintTraits);
}

#[test]
fn end_to_end_catalog_character_mint() {
    let mut mgr = character_manager(40, Some("dest".to_string()));
    let characters = vec![catalog_character()];

    // an unknown combination is rejected against the live catalog
    let wrong = Metadata { rarity: Some("epic".to_string()), ..empty_sheet() };
    let err = mgr
        .mint("buyer", &vec![uccat(55)], &characters, wrong, "alice".to_string())
        .unwrap_err();
    assert_eq!(err, CharError::InvalidCharacter);

    // the exact combination sells at its catalog price
    let sheet = Metadata {
        ears: Some("pointy".to_string()),
        eyes: Some("green".to_string()),
        fur_color: Some("black".to_string()),
        rarity: Some("common".to_string()),
        ..empty_sheet()
    };
    let plan = mgr
        .mint("buyer", &vec![uccat(55)], &characters, sheet, "alice".to_string())
        .unwrap();
    assert_eq!(plan.mints.len(), 1);
    let cmd = &plan.mints[0];
    assert_eq!(cmd.token_id, "1".to_string());

    // execute the mint against the collection, as the manager would
    let mut collection = Collection::instantiate(
        CollectionKind::Character,
        "Cool Characters".to_string(),
        "CHAR".to_string(),
        "manager".to_string(),
        CollectionInfo {
            creator: "creator".into(),
            description: "description".into(),
            image: Some("https://example.com/image.png".into()),
            external_link: None,
            explicit_content: None,
            royalty_info: None,
        },
    )
    .unwrap();
    collection
        .mint(
            "manager",
            cmd.token_id.clone(),
            cmd.owner.clone(),
            cmd.token_uri.clone(),
            TokenExtension::Character(cmd.extension.duplicate()),
        )
        .unwrap();

    let info = collection.character_info("1").unwrap();
    assert_eq!(info.owner, "alice".to_string());
    assert_eq!(info.token_info.ears, Some("pointy".to_string()));
    assert_eq!(info.token_info.eyes, Some("green".to_string()));
    assert_eq!(info.token_info.fur_color, Some("black".to_string()));
    assert_eq!(info.token_info.rarity, Some("common".to_string()));
    assert_eq!(info.token_info.locked, false);

    // a second mint under the same explicit key fails on the registry
    let err = collection
        .mint(
            "manager",
            "1".to_string(),
            "bob".to_string(),
            None,
            TokenExtension::Character(empty_sheet()),
        )
        .unwrap_err();
    assert_eq!(err, coolcat_nft::collection::ContractError::Claimed);
}

#[test]
fn bundles_mint_members_in_order() {
    let mut mgr = trait_manager(40, Some("dest".to_string()));
    let bundle = TraitBundle {
        id: 3,
        traits: vec![
            Trait {
                id: 1,
                trait_type: "hair".to_string(),
                trait_value: "red".to_string(),
                trait_rarity: "common".to_string(),
                mint_price: uccat(5),
            },
            Trait {
                id: 2,
                trait_type: "eyes".to_string(),
                trait_value: "blue".to_string(),
                trait_rarity: "rare".to_string(),
                mint_price: uccat(7),
            },
        ],
        mint_price: uccat(10),
    };
    let bundles = vec![bundle];

    let err = mgr
        .mint_bundle("buyer", &vec![uccat(10)], &bundles, 99, None)
        .unwrap_err();
    assert_eq!(err, TraitError::InvalidBundle);

    let err = mgr
        .mint_bundle("buyer", &vec![uccat(11)], &bundles, 3, None)
        .unwrap_err();
    assert_eq!(err, TraitError::IncorrectMintFunds);

    let plan = mgr
        .mint_bundle("buyer", &vec![uccat(10)], &bundles, 3, Some("carol".to_string()))
        .unwrap();
    assert_eq!(plan.mints.len(), 2);
    assert_eq!(plan.mints[0].token_id, "1".to_string());
    assert_eq!(plan.mints[0].owner, "carol".to_string());
    assert_eq!(plan.mints[0].extension.trait_type, "hair".to_string());
    assert_eq!(plan.mints[1].token_id, "2".to_string());
    assert_eq!(plan.mints[1].extension.trait_value, "blue".to_string());

    // the index never goes backwards, even across calls
    let plan = mgr
        .mint_bundle("buyer", &vec![uccat(10)], &bundles, 3, None)
        .unwrap();
    assert_eq!(plan.mints[0].token_id, "3".to_string());
    assert_eq!(plan.mints[0].owner, "buyer".to_string());
    assert_eq!(plan.mints[1].token_id, "4".to_string());
}

#[test]
fn trait_mint_checks_catalog() {
    let mut mgr = trait_manager(40, Some("dest".to_string()));
    let listed = Trait {
        id: 1,
        trait_type: "hair".to_string(),
        trait_value: "red".to_string(),
        trait_rarity: "common".to_string(),
        mint_price: uccat(5),
    };
    let wanted = TraitMetadata {
        trait_type: "hair".to_string(),
        trait_value: "red".to_string(),
        trait_rarity: "common".to_string(),
    };
    let err = mgr
        .mint("buyer", &vec![uccat(5)], &vec![], wanted, "alice".to_string())
        .unwrap_err();
    assert_eq!(err, TraitError::InvalidTrait);

    let wanted = TraitMetadata {
        trait_type: "hair".to_string(),
        trait_value: "red".to_string(),
        trait_rarity: "common".to_string(),
    };
    let plan = mgr
        .mint("buyer", &vec![uccat(5)], &vec![listed], wanted, "alice".to_string())
        .unwrap();
    assert_eq!(plan.mints.len(), 1);
    assert_eq!(plan.mints[0].token_id, "1".to_string());
    assert_eq!(plan.mints[0].extension.trait_value, "red".to_string());
}

#[test]
fn lootbox_selection_is_deterministic() {
    let lootbox = CharacterLootbox {
        id: 5,
        characters: vec![
            catalog_character(),
            Character { id: 2, rarity: "rare".to_string(), ..catalog_character() },
        ],
        possibilities: vec![30, 70],
        mint_price: uccat(20),
    };

    let mut mgr1 = character_manager(40, Some("dest".to_string()));
    let err = mgr1
        .open_lootbox("buyer", &vec![uccat(20)], &vec![], 5, None, 1000, Some(4))
        .unwrap_err();
    assert_eq!(err, CharError::InvalidLootbox);

    let boxes = vec![lootbox];
    let (plan1, won1) = mgr1
        .open_lootbox("buyer", &vec![uccat(20)], &boxes, 5, None, 1000, Some(4))
        .unwrap();
    assert!(won1 < 2);
    assert_eq!(plan1.mints.len(), 1);
    assert_eq!(plan1.mints[0].token_id, "1".to_string());

    // the identical call context yields the identical outcome
    let mut mgr2 = character_manager(40, Some("dest".to_string()));
    let (plan2, won2) = mgr2
        .open_lootbox("buyer", &vec![uccat(20)], &boxes, 5, None, 1000, Some(4))
        .unwrap();
    assert_eq!(won1, won2);
    assert_eq!(plan1.mints[0].extension.rarity, plan2.mints[0].extension.rarity);
}

#[test]
fn trait_lootbox_draws_too() {
    let lootbox = TraitLootbox {
        id: 8,
        traits: vec![
            Trait {
                id: 1,
                trait_type: "hair".to_string(),
                trait_value: "red".to_string(),
                trait_rarity: "common".to_string(),
                mint_price: uccat(5),
            },
            Trait {
                id: 2,
                trait_type: "hair".to_string(),
                trait_value: "gold".to_string(),
                trait_rarity: "epic".to_string(),
                mint_price: uccat(9),
            },
        ],
        possibilities: vec![30, 70],
        mint_price: uccat(12),
    };
    let mut mgr = trait_manager(0, Some("dest".to_string()));
    let block = coolcat_nft::expiration::BlockInfo {
        height: 500,
        time_nanos: 1_700_000_000_000_000_000,
    };
    let (plan, won) = mgr
        .open_lootbox("buyer", &vec![uccat(12)], &vec![lootbox], 8, None, &block)
        .unwrap();
    assert!(won < 2);
    assert_eq!(plan.mints.len(), 1);
    assert_eq!(plan.mints[0].token_id, "1".to_string());
}

#[test]
fn config_validation_and_update() {
    // the ratio must be a percentage
    let err = CharacterManager::instantiate(
        "boss".to_string(),
        7,
        CharacterManagerParams {
            empty_character_mint_price: uccat(100),
            character_mint_prices: vec![],
            character_rarities: vec![],
            burn_ratio: 101,
            destination: Some("dest".to_string()),
            trait_collection_addr: "traits_addr".to_string(),
            mintable_collection_addr: "catalog_addr".to_string(),
        },
    )
    .unwrap_err();
    assert_eq!(err, CharError::InvalidBurnRatio);

    // a partial burn needs somewhere to send the rest
    let err = CharacterManager::instantiate(
        "boss".to_string(),
        7,
        CharacterManagerParams {
            empty_character_mint_price: uccat(100),
            character_mint_prices: vec![],
            character_rarities: vec![],
            burn_ratio: 40,
            destination: None,
            trait_collection_addr: "traits_addr".to_string(),
            mintable_collection_addr: "catalog_addr".to_string(),
        },
    )
    .unwrap_err();
    assert_eq!(err, CharError::NoMintDestination);

    // prices and rarities pair up one to one
    let err = CharacterManager::instantiate(
        "boss".to_string(),
        7,
        CharacterManagerParams {
            empty_character_mint_price: uccat(100),
            character_mint_prices: vec![uccat(1), uccat(2)],
            character_rarities: vec!["common".to_string()],
            burn_ratio: 40,
            destination: Some("dest".to_string()),
            trait_collection_addr: "traits_addr".to_string(),
            mintable_collection_addr: "catalog_addr".to_string(),
        },
    )
    .unwrap_err();
    assert_eq!(err, CharError::NotSameLength);

    // only the owner updates the configuration
    let mut mgr = character_manager(40, Some("dest".to_string()));
    let update = UpdateCharacterManagerParamsMsg {
        empty_character_mint_price: uccat(200),
        character_mint_prices: vec![],
        character_rarities: vec![],
        burn_ratio: 10,
        destination: Some("dest2".to_string()),
    };
    let err = mgr.update_config("mallory", update).unwrap_err();
    assert_eq!(
        err,
        CharError::Ownership(coolcat_nft::ownership::OwnershipError::NotOwner)
    );

    let update = UpdateCharacterManagerParamsMsg {
        empty_character_mint_price: uccat(200),
        character_mint_prices: vec![],
        character_rarities: vec![],
        burn_ratio: 10,
        destination: Some("dest2".to_string()),
    };
    mgr.update_config("boss", update).unwrap();
    assert_eq!(mgr.config.burn_ratio, 10);
    assert_eq!(mgr.config.empty_character_mint_price.amount, 200);
}

#[test]
fn reply_registers_the_collection_address() {
    let mut mgr = trait_manager(40, Some("dest".to_string()));

    let err = mgr.register_collection_address(2, Some("addr".to_string())).unwrap_err();
    assert_eq!(err, TraitError::InvalidReplyID);

    let err = mgr.register_collection_address(1, None).unwrap_err();
    assert_eq!(err, TraitError::InstantiateError);

    // before registration the config query has no collection to name
    assert!(mgr.query(coolcat_nft::trait_manager::TraitManagerQueryMsg::Config).is_none());

    mgr.register_collection_address(1, Some("collection_addr".to_string())).unwrap();
    match mgr.query(coolcat_nft::trait_manager::TraitManagerQueryMsg::Config) {
        Some(coolcat_nft::trait_manager::TraitManagerQueryResponse::Config(c)) => {
            assert_eq!(c.collection_address, "collection_addr".to_string());
            assert_eq!(c.config.collection_code_id, 9);
        }
        _ => panic!("expected the configuration"),
    }

    let mgr2 = character_manager(40, Some("dest".to_string()));
    match mgr2.query(CharacterManagerQueryMsg::AllowedCollectionCodeId) {
        Some(CharacterManagerQueryResponse::AllowedCollectionCodeId(c)) => {
            assert_eq!(c.code_id, 7);
        }
        _ => panic!("expected the code identifier"),
    }
}

#[test]
fn modify_character_reequips_slots() {
    let mgr = character_manager(40, Some("dest".to_string()));
    let current = Metadata { name: Some("hero".to_string()), ..empty_sheet() };
    let infos = vec![
        TraitTokenInfo {
            token_id: "10".to_string(),
            info: TraitMetadata {
                trait_type: "ears".to_string(),
                trait_value: "pointy".to_string(),
                trait_rarity: "common".to_string(),
            },
        },
        TraitTokenInfo {
            token_id: "11".to_string(),
            info: TraitMetadata {
                trait_type: "eyes".to_string(),
                trait_value: "blue".to_string(),
                trait_rarity: "rare".to_string(),
            },
        },
        TraitTokenInfo {
            token_id: "12".to_string(),
            info: TraitMetadata {
                trait_type: "ears".to_string(),
                trait_value: "floppy".to_string(),
                trait_rarity: "rare".to_string(),
            },
        },
        TraitTokenInfo {
            token_id: "13".to_string(),
            info: TraitMetadata {
                trait_type: "wings".to_string(),
                trait_value: "feathered".to_string(),
                trait_rarity: "epic".to_string(),
            },
        },
    ];
    let owned = vec!["10".to_string(), "11".to_string(), "12".to_string(), "13".to_string()];

    // only the owner
    let err = mgr
        .modify_character(
            "mallory",
            "alice",
            current.duplicate(),
            "c1".to_string(),
            vec!["10".to_string()],
            &owned,
            &infos,
        )
        .unwrap_err();
    assert_eq!(err, CharError::NotCharacterOwner);

    // not when locked
    let locked = Metadata { locked: true, ..empty_sheet() };
    let err = mgr
        .modify_character(
            "alice",
            "alice",
            locked,
            "c1".to_string(),
            vec!["10".to_string()],
            &owned,
            &infos,
        )
        .unwrap_err();
    assert_eq!(err, CharError::CharacterAlreadyLocked);

    // every referenced trait must be owned
    let err = mgr
        .modify_character(
            "alice",
            "alice",
            current.duplicate(),
            "c1".to_string(),
            vec!["99".to_string()],
            &owned,
            &infos,
        )
        .unwrap_err();
    assert_eq!(err, CharError::NotTraitOwner);

    // an unknown category is rejected
    let err = mgr
        .modify_character(
            "alice",
            "alice",
            current.duplicate(),
            "c1".to_string(),
            vec!["13".to_string()],
            &owned,
            &infos,
        )
        .unwrap_err();
    assert_eq!(err, CharError::InvalidTrait);

    // slots fill from the lookups; the later trait of a category wins
    let cmd = mgr
        .modify_character(
            "alice",
            "alice",
            current,
            "c1".to_string(),
            vec!["10".to_string(), "11".to_string(), "12".to_string()],
            &owned,
            &infos,
        )
        .unwrap();
    assert_eq!(cmd.token_id, "c1".to_string());
    assert_eq!(cmd.new_values.name, Some("hero".to_string()));
    assert_eq!(cmd.new_values.ears, Some("floppy".to_string()));
    assert_eq!(cmd.new_values.eyes, Some("blue".to_string()));
    assert_eq!(cmd.new_values.mouth, None);
    assert_eq!(
        cmd.new_values.traits_equipped,
        Some(vec!["10".to_string(), "11".to_string(), "12".to_string()])
    );
    assert_eq!(cmd.new_values.locked, false);
}

#[test]
fn lock_character_burns_equipped_traits() {
    let mgr = character_manager(40, Some("dest".to_string()));
    let sheet = Metadata {
        traits_equipped: Some(vec!["10".to_string(), "11".to_string()]),
        ..empty_sheet()
    };

    let err = mgr
        .lock_character("mallory", "alice", sheet.duplicate(), "c1".to_string())
        .unwrap_err();
    assert_eq!(err, CharError::NotCharacterOwner);

    let locked = Metadata { locked: true, ..empty_sheet() };
    let err = mgr
        .lock_character("alice", "alice", locked, "c1".to_string())
        .unwrap_err();
    assert_eq!(err, CharError::CharacterAlreadyLocked);

    let plan = mgr.lock_character("alice", "alice", sheet, "c1".to_string()).unwrap();
    assert_eq!(plan.burn_trait_ids, Some(vec!["10".to_string(), "11".to_string()]));
    assert_eq!(plan.lock_token_id, "c1".to_string());
}

#[test]
fn change_name_keeps_the_rest() {
    let mgr = character_manager(40, Some("dest".to_string()));
    let sheet = Metadata {
        name: Some("old".to_string()),
        ears: Some("pointy".to_string()),
        locked: true,
        ..empty_sheet()
    };

    let err = mgr
        .change_name("mallory", "alice", sheet.duplicate(), "c1".to_string(), "new".to_string())
        .unwrap_err();
    assert_eq!(err, CharError::NotCharacterOwner);

    let cmd = mgr
        .change_name("alice", "alice", sheet, "c1".to_string(), "new".to_string())
        .unwrap();
    assert_eq!(cmd.token_id, "c1".to_string());
    assert_eq!(cmd.new_values.name, Some("new".to_string()));
    assert_eq!(cmd.new_values.ears, Some("pointy".to_string()));
    assert_eq!(cmd.new_values.locked, true);
}
