use coolcat_nft::catalog::{
    Character, CharacterLootbox, ContractError, Mintables, Trait, TraitLootbox,
};
use coolcat_nft::coin::Coin;
use coolcat_nft::ownership::OwnershipError;
use coolcat_nft::selector::{random_number_1_to_100, random_number_1_to_x, select_weighted};
use coolcat_nft::strings::u64_to_dec;

fn uccat(amount: u128) -> Coin {
    Coin { denom: "uccat".to_string(), amount }
}

fn a_trait(id: u32) -> Trait {
    Trait {
        id,
        trait_type: "hair".to_string(),
        trait_value: "red".to_string(),
        trait_rarity: "common".to_string(),
        mint_price: uccat(5),
    }
}

fn a_character(id: u32) -> Character {
    Character {
        id,
        ears: None,
        eyes: None,
        mouth: None,
        fur_type: None,
        fur_color: None,
        tail_shape: None,
        rarity: "common".to_string(),
        locked: false,
        mint_price: uccat(55),
    }
}

#[test]
fn catalog_adds_and_removes_by_id() {
    let mut cat = Mintables::new("boss".to_string());

    // only the owner edits
    let err = cat.add_traits("mallory", vec![a_trait(1)]).unwrap_err();
    assert_eq!(err, ContractError::Ownership(OwnershipError::NotOwner));

    cat.add_traits("boss", vec![a_trait(1), a_trait(2)]).unwrap();
    assert_eq!(cat.traits().len(), 2);

    // an identifier can be taken only once
    let err = cat.add_traits("boss", vec![a_trait(2)]).unwrap_err();
    assert_eq!(err, ContractError::IDExists);

    // a batch repeating an identifier is rejected whole
    let err = cat.add_traits("boss", vec![a_trait(3), a_trait(3)]).unwrap_err();
    assert_eq!(err, ContractError::IDExists);
    assert_eq!(cat.traits().len(), 2);

    cat.remove_traits("boss", vec![1, 99]).unwrap();
    assert_eq!(cat.traits().len(), 1);
    assert_eq!(cat.traits()[0].id, 2);

    cat.add_characters("boss", vec![a_character(1)]).unwrap();
    assert_eq!(cat.characters().len(), 1);
    cat.remove_characters("boss", vec![1]).unwrap();
    assert!(cat.characters().is_empty());
}

#[test]
fn lootboxes_are_validated_at_write_time() {
    let mut cat = Mintables::new("boss".to_string());

    // one weight per member
    let err = cat
        .add_trait_lootboxes(
            "boss",
            vec![TraitLootbox {
                id: 1,
                traits: vec![a_trait(1), a_trait(2)],
                possibilities: vec![100],
                mint_price: uccat(10),
            }],
        )
        .unwrap_err();
    assert_eq!(err, ContractError::NotSameLength);

    // no empty lootboxes
    let err = cat
        .add_trait_lootboxes(
            "boss",
            vec![TraitLootbox {
                id: 1,
                traits: vec![],
                possibilities: vec![],
                mint_price: uccat(10),
            }],
        )
        .unwrap_err();
    assert_eq!(err, ContractError::Empty);

    // weights must sum to exactly one hundred
    let err = cat
        .add_character_lootboxes(
            "boss",
            vec![CharacterLootbox {
                id: 1,
                characters: vec![a_character(1), a_character(2)],
                possibilities: vec![30, 71],
                mint_price: uccat(10),
            }],
        )
        .unwrap_err();
    assert_eq!(err, ContractError::InvalidProbabilities);

    cat.add_character_lootboxes(
        "boss",
        vec![CharacterLootbox {
            id: 1,
            characters: vec![a_character(1), a_character(2)],
            possibilities: vec![30, 70],
            mint_price: uccat(10),
        }],
    )
    .unwrap();
    assert_eq!(cat.character_lootboxes().len(), 1);
}

#[test]
fn weighted_selection_partitions_the_range() {
    let weights = vec![30u32, 70u32];
    let mut draw: u32 = 1;
    while draw <= 100 {
        let picked = select_weighted(&weights, draw);
        if draw <= 30 {
            assert_eq!(picked, 0);
        } else {
            assert_eq!(picked, 1);
        }
        draw += 1;
    }

    // boundaries of a three-way split
    let weights = vec![10u32, 40u32, 50u32];
    assert_eq!(select_weighted(&weights, 10), 0);
    assert_eq!(select_weighted(&weights, 11), 1);
    assert_eq!(select_weighted(&weights, 50), 1);
    assert_eq!(select_weighted(&weights, 51), 2);
    assert_eq!(select_weighted(&weights, 100), 2);
}

#[test]
fn draws_are_pure_functions_of_the_call_context() {
    // a deliberately short seed: the digest, not the seed, feeds the
    // selector state
    let a = random_number_1_to_100("a", 1, 1, None);
    let b = random_number_1_to_100("a", 1, 1, None);
    assert_eq!(a, b);
    assert!((1..=100).contains(&a));

    let c = random_number_1_to_100("alice", 12345, 2, Some(7));
    let d = random_number_1_to_100("alice", 12345, 2, Some(7));
    assert_eq!(c, d);
    assert!((1..=100).contains(&c));

    // an absent transaction index draws like index zero
    let e = random_number_1_to_100("alice", 12345, 2, Some(0));
    let f = random_number_1_to_100("alice", 12345, 2, None);
    assert_eq!(e, f);

    let g = random_number_1_to_x("bob", 1_700_000_000, 500, 3, 100);
    let h = random_number_1_to_x("bob", 1_700_000_000, 500, 3, 100);
    assert_eq!(g, h);
    assert!((1..=100).contains(&g));

    let small = random_number_1_to_x("bob", 1_700_000_000, 500, 3, 7);
    assert!((1..=7).contains(&small));
}

#[test]
fn token_keys_render_in_decimal() {
    assert_eq!(u64_to_dec(0), "0".to_string());
    assert_eq!(u64_to_dec(7), "7".to_string());
    assert_eq!(u64_to_dec(10), "10".to_string());
    assert_eq!(u64_to_dec(120), "120".to_string());
    assert_eq!(u64_to_dec(18_446_744_073_709_551_615), "18446744073709551615".to_string());
}
