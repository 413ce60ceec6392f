//! The character-collection minting manager: it sells empty and pre-made
//! characters against the catalog, splits each payment into burned and
//! forwarded parts, resolves lootbox openings deterministically, and
//! drives character modification and locking against the collections.

use vstd::prelude::*;

use crate::catalog::{Character, CharacterBundle, CharacterLootbox, character_lootbox_wf};
use crate::coin::{
    one_coin, spec_payment_error, spec_payment_ok, Coin, PaymentError,
};
use crate::expiration::BlockInfo;
use crate::manager::{
    increment_token_index, fund_split, spec_needs_destination, spec_split_shape, spec_token_key,
    AllowedCollectionCodeIdResponse, FundInstruction, MintCommand, MintPlan,
};
use crate::metadata::{clone_opt_string, Metadata, TraitMetadata};
use crate::ownership::{Action, Ownership, OwnershipError};
use crate::search::{first_where, lemma_first_where_at, lemma_first_where_none};
use crate::selector::{
    random_number_1_to_100, select_weighted, spec_random_1_to_100, weight_sum,
};
use crate::strings::{opt_str_eq, spec_opt_str_eq, str_eq, u64_to_dec};
use crate::trait_manager::{spec_any_non_native, spec_send_to, INSTANTIATE_CW721_REPLY_ID};

verus! {

/// Why a character-manager call failed; nothing is changed on any error.
#[derive(Clone, Copy, PartialEq, Eq, Structural, Debug)]
pub enum ContractError {
    Ownership(OwnershipError),
    Payment(PaymentError),
    /// A reply arrived under an unknown identifier.
    InvalidReplyID,
    /// The collection's instantiation failed.
    InstantiateError,
    /// The price table and the rarity table differ in length.
    NotSameLength,
    /// The burn ratio is not a percentage.
    InvalidBurnRatio,
    /// No price is configured for the requested rarity.
    InvalidRarity,
    /// The attached payment does not equal the resolved price.
    IncorrectMintFunds,
    /// A forwarding is due but no destination address is configured.
    NoMintDestination,
    /// The caller does not own the character.
    NotCharacterOwner,
    /// The character is locked and can no longer be modified.
    CharacterAlreadyLocked,
    /// The caller does not own a referenced trait token.
    NotTraitOwner,
    /// A referenced trait's category is not one of the character's slots.
    InvalidTrait,
    /// No catalog character matches the requested metadata.
    InvalidCharacter,
    /// No catalog bundle carries the requested identifier.
    InvalidBundle,
    /// No catalog lootbox carries the requested identifier.
    InvalidLootbox,
    /// A fresh mint may not reference equipped traits.
    InvalidMintTraits,
    /// An empty-character mint may not carry trait values, a rarity or
    /// the lock flag.
    InvalidEmptyCharacterMint,
}

/// The manager's stored configuration.
#[derive(Debug)]
pub struct CharacterManagerConfig {
    pub collection_code_id: u64,
    /// The price of a character minted with no rarity and no traits.
    pub empty_character_mint_price: Coin,
    /// Percentage of each native payment that is burned.
    pub burn_ratio: u64,
    /// Where the rest is forwarded.
    pub destination: Option<String>,
}

impl CharacterManagerConfig {
    pub fn duplicate(&self) -> (r: CharacterManagerConfig)
        ensures
            r == *self,
    {
        CharacterManagerConfig {
            collection_code_id: self.collection_code_id,
            empty_character_mint_price: self.empty_character_mint_price.duplicate(),
            burn_ratio: self.burn_ratio,
            destination: clone_opt_string(&self.destination),
        }
    }
}

/// The parameters a character manager is instantiated with.
#[derive(Debug)]
pub struct CharacterManagerParams {
    pub empty_character_mint_price: Coin,
    pub character_mint_prices: Vec<Coin>,
    pub character_rarities: Vec<String>,
    pub burn_ratio: u64,
    pub destination: Option<String>,
    pub trait_collection_addr: String,
    pub mintable_collection_addr: String,
}

/// A configuration update.
#[derive(Debug)]
pub struct UpdateCharacterManagerParamsMsg {
    pub empty_character_mint_price: Coin,
    pub character_mint_prices: Vec<Coin>,
    pub character_rarities: Vec<String>,
    pub burn_ratio: u64,
    pub destination: Option<String>,
}

#[derive(Debug)]
pub struct CharacterManagerConfigResponse {
    pub collection_address: String,
    pub config: CharacterManagerConfig,
}

#[derive(Debug)]
pub enum CharacterManagerQueryMsg {
    Config,
    AllowedCollectionCodeId,
}

#[derive(Debug)]
pub enum CharacterManagerQueryResponse {
    Config(CharacterManagerConfigResponse),
    AllowedCollectionCodeId(AllowedCollectionCodeIdResponse),
}

/// A modification command addressed to the character collection: the
/// listed token's extension is replaced by `new_values`.
#[derive(Debug)]
pub struct ModifyCommand {
    pub token_id: String,
    pub new_values: Metadata,
}

/// What locking a character emits: burn the equipped trait tokens (if
/// any), then lock the character.
#[derive(Debug)]
pub struct LockPlan {
    pub burn_trait_ids: Option<Vec<String>>,
    pub lock_token_id: String,
}

/// One owned trait token, as the trait collection reports it.
#[derive(Debug)]
pub struct TraitTokenInfo {
    pub token_id: String,
    pub info: TraitMetadata,
}

/// Valid character-manager economics: the ratio is a percentage; a
/// destination is configured unless everything native is fully burned;
/// prices and rarities pair up one to one.
pub open spec fn spec_character_params_ok(
    burn_ratio: u64,
    destination: Option<String>,
    empty_price: Coin,
    prices: Seq<Coin>,
    rarities: Seq<String>,
) -> bool {
    &&& burn_ratio <= 100
    &&& (burn_ratio == 100 || destination is Some)
    &&& (empty_price.denom@ == crate::coin::spec_native_denom() || destination is Some)
    &&& (!spec_any_non_native(prices) || destination is Some)
    &&& prices.len() == rarities.len()
}

/// A catalog character selling exactly the requested sheet: every trait
/// slot, the lock flag and the requested rarity agree.
pub open spec fn character_matches(c: Character, m: Metadata) -> bool {
    &&& spec_opt_str_eq(c.ears, m.ears)
    &&& spec_opt_str_eq(c.eyes, m.eyes)
    &&& spec_opt_str_eq(c.mouth, m.mouth)
    &&& spec_opt_str_eq(c.fur_type, m.fur_type)
    &&& spec_opt_str_eq(c.fur_color, m.fur_color)
    &&& spec_opt_str_eq(c.tail_shape, m.tail_shape)
    &&& c.locked == m.locked
    &&& (match m.rarity {
        Some(r) => c.rarity@ == r@,
        None => false,
    })
}

pub open spec fn character_match_pred(m: Metadata) -> spec_fn(Character) -> bool {
    |c: Character| character_matches(c, m)
}

pub open spec fn character_bundle_pred(id: u32) -> spec_fn(CharacterBundle) -> bool {
    |b: CharacterBundle| b.id == id
}

pub open spec fn character_lootbox_pred(id: u32) -> spec_fn(CharacterLootbox) -> bool {
    |b: CharacterLootbox| b.id == id
}

/// An empty-character request: no trait values, no rarity, not locked.
pub open spec fn spec_empty_character_ok(m: Metadata) -> bool {
    &&& m.ears is None
    &&& m.eyes is None
    &&& m.mouth is None
    &&& m.fur_type is None
    &&& m.fur_color is None
    &&& m.tail_shape is None
    &&& m.rarity is None
    &&& !m.locked
}

fn character_matches_exec(c: &Character, m: &Metadata) -> (r: bool)
    ensures
        r == character_matches(*c, *m),
{
    opt_str_eq(&c.ears, &m.ears) && opt_str_eq(&c.eyes, &m.eyes) && opt_str_eq(&c.mouth, &m.mouth)
        && opt_str_eq(&c.fur_type, &m.fur_type) && opt_str_eq(&c.fur_color, &m.fur_color)
        && opt_str_eq(&c.tail_shape, &m.tail_shape) && c.locked == m.locked && (match &m.rarity {
        Some(r) => str_eq(c.rarity.as_str(), r.as_str()),
        None => false,
    })
}

fn empty_character_ok(m: &Metadata) -> (r: bool)
    ensures
        r == spec_empty_character_ok(*m),
{
    m.ears.is_none() && m.eyes.is_none() && m.mouth.is_none() && m.fur_type.is_none()
        && m.fur_color.is_none() && m.tail_shape.is_none() && m.rarity.is_none() && !m.locked
}

/// The sheet a catalog character is minted with: its trait values and
/// lock flag, its rarity recorded, no name and no equipped traits.
pub open spec fn minted_from_catalog(m: Metadata, c: Character) -> bool {
    &&& m.name is None
    &&& m.ears == c.ears
    &&& m.eyes == c.eyes
    &&& m.mouth == c.mouth
    &&& m.fur_type == c.fur_type
    &&& m.fur_color == c.fur_color
    &&& m.tail_shape == c.tail_shape
    &&& (match m.rarity {
        Some(r) => r == c.rarity,
        None => false,
    })
    &&& m.traits_equipped is None
    &&& m.locked == c.locked
}

fn catalog_character_metadata(c: &Character) -> (r: Metadata)
    ensures
        minted_from_catalog(r, *c),
{
    Metadata {
        name: None,
        ears: clone_opt_string(&c.ears),
        eyes: clone_opt_string(&c.eyes),
        mouth: clone_opt_string(&c.mouth),
        fur_type: clone_opt_string(&c.fur_type),
        fur_color: clone_opt_string(&c.fur_color),
        tail_shape: clone_opt_string(&c.tail_shape),
        rarity: Some(c.rarity.clone()),
        traits_equipped: None,
        locked: c.locked,
    }
}

pub open spec fn trait_info_pred(id: Seq<char>) -> spec_fn(TraitTokenInfo) -> bool {
    |t: TraitTokenInfo| t.token_id@ == id
}

/// The metadata the trait collection reports for a trait token key (the
/// first entry under that key decides).
pub open spec fn lookup_trait_meta(infos: Seq<TraitTokenInfo>, id: Seq<char>) -> TraitMetadata {
    infos[first_where(infos, trait_info_pred(id))].info
}

/// The caller's trait holdings include this token key.
pub open spec fn spec_owns(owned: Seq<String>, id: Seq<char>) -> bool {
    exists|j: int| 0 <= j < owned.len() && owned[j]@ == id
}

/// The six slot categories a trait may equip into.
pub open spec fn spec_known_slot(ty: Seq<char>) -> bool {
    ||| ty == "ears"@
    ||| ty == "eyes"@
    ||| ty == "mouth"@
    ||| ty == "fur_type"@
    ||| ty == "fur_color"@
    ||| ty == "tail_shape"@
}

/// The first problem a modification request runs into, scanning the
/// requested trait keys in order: an unowned key fails before an unknown
/// category.
pub open spec fn spec_first_modify_error(
    owned: Seq<String>,
    infos: Seq<TraitTokenInfo>,
    ids: Seq<String>,
) -> Option<ContractError>
    decreases ids.len(),
{
    if ids.len() == 0 {
        None
    } else if !spec_owns(owned, ids[0]@) {
        Some(ContractError::NotTraitOwner)
    } else if !spec_known_slot(lookup_trait_meta(infos, ids[0]@).trait_type@) {
        Some(ContractError::InvalidTrait)
    } else {
        spec_first_modify_error(owned, infos, ids.drop_first())
    }
}

/// The metadata of each requested trait key, in request order.
pub open spec fn spec_requested_metas(infos: Seq<TraitTokenInfo>, ids: Seq<String>) -> Seq<
    TraitMetadata,
> {
    Seq::new(ids.len(), |k: int| lookup_trait_meta(infos, ids[k]@))
}

/// The value a slot ends with: the last requested trait of that category
/// wins; none leaves the slot empty.
pub open spec fn spec_slot_value(metas: Seq<TraitMetadata>, slot: Seq<char>) -> Option<Seq<char>>
    decreases metas.len(),
{
    if metas.len() == 0 {
        None
    } else if metas.last().trait_type@ == slot {
        Some(metas.last().trait_value@)
    } else {
        spec_slot_value(metas.drop_last(), slot)
    }
}

/// An optional string's contents.
pub open spec fn spec_opt_view(o: Option<String>) -> Option<Seq<char>> {
    match o {
        Some(s) => Some(s@),
        None => None,
    }
}

fn contains_string(v: &Vec<String>, s: &String) -> (r: bool)
    ensures
        r == spec_owns(v@, s@),
{
    let n = v.len();
    let mut i: usize = 0;
    while i < n
        invariant
            n == v@.len(),
            i <= n,
            forall|j: int| 0 <= j < i ==> v@[j]@ != s@,
        decreases n - i,
    {
        if str_eq(v[i].as_str(), s.as_str()) {
            return true;
        }
        i = i + 1;
    }
    false
}

fn find_trait_info(infos: &Vec<TraitTokenInfo>, id: &String) -> (r: Option<usize>)
    ensures
        match r {
            Some(i) => i == first_where(infos@, trait_info_pred(id@)) && i < infos@.len()
                && infos@[i as int].token_id@ == id@,
            None => first_where(infos@, trait_info_pred(id@)) == -1,
        },
{
    let ghost pred = trait_info_pred(id@);
    let n = infos.len();
    let mut i: usize = 0;
    while i < n && !str_eq(infos[i].token_id.as_str(), id.as_str())
        invariant
            n == infos@.len(),
            i <= n,
            pred == trait_info_pred(id@),
            forall|k: int| 0 <= k < i ==> !#[trigger] pred(infos@[k]),
        decreases n - i,
    {
        i = i + 1;
    }
    if i == n {
        proof {
            lemma_first_where_none(infos@, pred);
        }
        None
    } else {
        proof {
            lemma_first_where_at(infos@, pred, i as int);
        }
        Some(i)
    }
}


/// The six slot names are pairwise distinct character sequences.
proof fn lemma_slots_distinct()
    ensures
        "ears"@ != "eyes"@,
        "ears"@ != "mouth"@,
        "ears"@ != "fur_type"@,
        "ears"@ != "fur_color"@,
        "ears"@ != "tail_shape"@,
        "eyes"@ != "mouth"@,
        "eyes"@ != "fur_type"@,
        "eyes"@ != "fur_color"@,
        "eyes"@ != "tail_shape"@,
        "mouth"@ != "fur_type"@,
        "mouth"@ != "fur_color"@,
        "mouth"@ != "tail_shape"@,
        "fur_type"@ != "fur_color"@,
        "fur_type"@ != "tail_shape"@,
        "fur_color"@ != "tail_shape"@,
{
    reveal_strlit("ears");
    reveal_strlit("eyes");
    reveal_strlit("mouth");
    reveal_strlit("fur_type");
    reveal_strlit("fur_color");
    reveal_strlit("tail_shape");
    assert("ears"@.len() == 4);
    assert("eyes"@.len() == 4);
    assert("mouth"@.len() == 5);
    assert("fur_type"@.len() == 8);
    assert("fur_color"@.len() == 9);
    assert("tail_shape"@.len() == 10);
    assert("ears"@[1] == 'a');
    assert("eyes"@[1] == 'y');
}

/// The character manager's full state.
#[derive(Debug)]
pub struct CharacterManager {
    pub ownership: Ownership,
    pub config: CharacterManagerConfig,
    /// Counter behind token keys; incremented once per minted token and
    /// never reused, even after burns.
    pub token_index: u64,
    /// Set when the collection's instantiation reply arrives.
    pub collection_address: Option<String>,
    pub trait_collection_address: String,
    pub mintable_collection_address: String,
}

impl CharacterManager {
    /// The structural invariant every operation preserves.
    pub open spec fn wf(self) -> bool {
        self.config.burn_ratio <= 100
    }

    /// Validates the instantiation parameters and builds the initial
    /// state: the instantiator owns the manager, the counter starts at
    /// zero, and no collection address is known yet.
    pub fn instantiate(
        sender: String,
        collection_code_id: u64,
        params: CharacterManagerParams,
    ) -> (r: Result<CharacterManager, ContractError>)
        ensures
            r is Ok <==> spec_character_params_ok(
                params.burn_ratio,
                params.destination,
                params.empty_character_mint_price,
                params.character_mint_prices@,
                params.character_rarities@,
            ),
            params.burn_ratio > 100 ==> r == Result::<CharacterManager, ContractError>::Err(
                ContractError::InvalidBurnRatio,
            ),
            params.burn_ratio < 100 && params.destination is None ==> r == Result::<
                CharacterManager,
                ContractError,
            >::Err(ContractError::NoMintDestination),
            params.burn_ratio == 100 && params.destination is None && (
            params.empty_character_mint_price.denom@ != crate::coin::spec_native_denom()
                || spec_any_non_native(params.character_mint_prices@)) ==> r == Result::<
                CharacterManager,
                ContractError,
            >::Err(ContractError::NoMintDestination),
            r is Ok ==> {
                let m = r.unwrap();
                &&& m.wf()
                &&& m.ownership.spec_is_owner(sender@)
                &&& m.config.collection_code_id == collection_code_id
                &&& m.config.empty_character_mint_price == params.empty_character_mint_price
                &&& m.config.burn_ratio == params.burn_ratio
                &&& m.config.destination == params.destination
                &&& m.token_index == 0
                &&& m.collection_address is None
                &&& m.trait_collection_address == params.trait_collection_addr
                &&& m.mintable_collection_address == params.mintable_collection_addr
            },
    {
        if params.burn_ratio > 100 {
            return Err(ContractError::InvalidBurnRatio);
        }
        if params.burn_ratio != 100 && params.destination.is_none() {
            return Err(ContractError::NoMintDestination);
        }
        if !str_eq(
            params.empty_character_mint_price.denom.as_str(),
            crate::coin::native_denom(),
        ) && params.destination.is_none() {
            return Err(ContractError::NoMintDestination);
        }
        if crate::trait_manager::any_non_native(&params.character_mint_prices)
            && params.destination.is_none() {
            return Err(ContractError::NoMintDestination);
        }
        if params.character_mint_prices.len() != params.character_rarities.len() {
            return Err(ContractError::NotSameLength);
        }
        Ok(
            CharacterManager {
                ownership: Ownership::new(Some(sender)),
                config: CharacterManagerConfig {
                    collection_code_id,
                    empty_character_mint_price: params.empty_character_mint_price,
                    burn_ratio: params.burn_ratio,
                    destination: params.destination,
                },
                token_index: 0,
                collection_address: None,
                trait_collection_address: params.trait_collection_addr,
                mintable_collection_address: params.mintable_collection_addr,
            },
        )
    }

    /// Accepts the collection's instantiation reply: the known identifier
    /// with a parsed address records it, anything else is rejected.
    pub fn register_collection_address(&mut self, reply_id: u64, parsed: Option<String>) -> (r:
        Result<(), ContractError>)
        ensures
            reply_id != INSTANTIATE_CW721_REPLY_ID ==> r == Result::<(), ContractError>::Err(
                ContractError::InvalidReplyID,
            ) && *final(self) == *old(self),
            reply_id == INSTANTIATE_CW721_REPLY_ID && parsed is None ==> r == Result::<
                (),
                ContractError,
            >::Err(ContractError::InstantiateError) && *final(self) == *old(self),
            r is Ok <==> reply_id == INSTANTIATE_CW721_REPLY_ID && parsed is Some,
            r is Ok ==> final(self).collection_address == parsed && final(self).ownership == old(
                self,
            ).ownership && final(self).config == old(self).config && final(self).token_index == old(
                self,
            ).token_index && final(self).trait_collection_address == old(
                self,
            ).trait_collection_address && final(self).mintable_collection_address == old(
                self,
            ).mintable_collection_address,
    {
        if reply_id != INSTANTIATE_CW721_REPLY_ID {
            return Err(ContractError::InvalidReplyID);
        }
        match parsed {
            None => Err(ContractError::InstantiateError),
            Some(addr) => {
                self.collection_address = Some(addr);
                Ok(())
            },
        }
    }

    /// Applies an ownership-transfer action to the manager's owner role.
    pub fn update_ownership(&mut self, block: &BlockInfo, sender: &str, action: Action) -> (r:
        Result<(), ContractError>)
        ensures
            r is Ok <==> (match action {
                Action::TransferOwnership { .. } => old(self).ownership.spec_transfer_ok(sender@),
                Action::AcceptOwnership => old(self).ownership.spec_accept_ok(*block, sender@),
                Action::RenounceOwnership => old(self).ownership.spec_is_owner(sender@),
            }),
            r is Err ==> *final(self) == *old(self),
            final(self).config == old(self).config,
            final(self).token_index == old(self).token_index,
            final(self).collection_address == old(self).collection_address,
            final(self).trait_collection_address == old(self).trait_collection_address,
            final(self).mintable_collection_address == old(self).mintable_collection_address,
    {
        match self.ownership.update(block, sender, action) {
            Ok(()) => Ok(()),
            Err(e) => Err(ContractError::Ownership(e)),
        }
    }

    /// Replaces the economic configuration. Only the owner may update;
    /// the same destination and percentage rules hold as at
    /// instantiation; the collection code identifier is kept.
    pub fn update_config(&mut self, sender: &str, new_config: UpdateCharacterManagerParamsMsg)
        -> (r: Result<(), ContractError>)
        ensures
            r is Ok <==> old(self).ownership.spec_is_owner(sender@) && spec_character_params_ok(
                new_config.burn_ratio,
                new_config.destination,
                new_config.empty_character_mint_price,
                new_config.character_mint_prices@,
                new_config.character_rarities@,
            ),
            r is Err ==> *final(self) == *old(self),
            !old(self).ownership.spec_is_owner(sender@) ==> r == Result::<(), ContractError>::Err(
                ContractError::Ownership(
                    if old(self).ownership.owner is None {
                        OwnershipError::NoOwner
                    } else {
                        OwnershipError::NotOwner
                    },
                ),
            ),
            old(self).ownership.spec_is_owner(sender@) && new_config.burn_ratio != 100
                && new_config.destination is None ==> r == Result::<(), ContractError>::Err(
                ContractError::NoMintDestination,
            ),
            old(self).ownership.spec_is_owner(sender@) && (new_config.burn_ratio == 100
                || new_config.destination is Some) && new_config.burn_ratio > 100 ==> r
                == Result::<(), ContractError>::Err(ContractError::InvalidBurnRatio),
            r is Ok ==> {
                &&& final(self).wf()
                &&& final(self).config.empty_character_mint_price
                    == new_config.empty_character_mint_price
                &&& final(self).config.burn_ratio == new_config.burn_ratio
                &&& final(self).config.destination == new_config.destination
                &&& final(self).config.collection_code_id == old(self).config.collection_code_id
                &&& final(self).ownership == old(self).ownership
                &&& final(self).token_index == old(self).token_index
                &&& final(self).collection_address == old(self).collection_address
                &&& final(self).trait_collection_address == old(self).trait_collection_address
                &&& final(self).mintable_collection_address == old(
                    self,
                ).mintable_collection_address
            },
    {
        if let Err(e) = self.ownership.assert_owner(sender) {
            return Err(ContractError::Ownership(e));
        }
        if new_config.burn_ratio != 100 && new_config.destination.is_none() {
            return Err(ContractError::NoMintDestination);
        }
        if new_config.burn_ratio > 100 {
            return Err(ContractError::InvalidBurnRatio);
        }
        if !str_eq(
            new_config.empty_character_mint_price.denom.as_str(),
            crate::coin::native_denom(),
        ) && new_config.destination.is_none() {
            return Err(ContractError::NoMintDestination);
        }
        if crate::trait_manager::any_non_native(&new_config.character_mint_prices)
            && new_config.destination.is_none() {
            return Err(ContractError::NoMintDestination);
        }
        if new_config.character_mint_prices.len() != new_config.character_rarities.len() {
            return Err(ContractError::NotSameLength);
        }
        self.config.empty_character_mint_price = new_config.empty_character_mint_price;
        self.config.burn_ratio = new_config.burn_ratio;
        self.config.destination = new_config.destination;
        Ok(())
    }

    /// Sells one character token. A request with a rarity buys the first
    /// catalog character matching every field at that character's price;
    /// one without buys an empty character at the configured price. The
    /// request may not reference equipped traits. The payment is split
    /// per the burn ratio and one mint command for the next token key is
    /// emitted.
    pub fn mint(
        &mut self,
        sender: &str,
        funds: &Vec<Coin>,
        catalog_characters: &Vec<Character>,
        token_info: Metadata,
        receiver: String,
    ) -> (r: Result<MintPlan<Metadata>, ContractError>)
        requires
            old(self).wf(),
            old(self).token_index < u64::MAX,
        ensures
            ({
                let fidx = first_where(catalog_characters@, character_match_pred(token_info));
                let needs = spec_needs_destination(funds@[0].denom@, old(self).config.burn_ratio);
                let price_ok = if token_info.rarity is Some {
                    fidx >= 0 && funds@[0].spec_eq(catalog_characters@[fidx].mint_price)
                } else {
                    spec_empty_character_ok(token_info) && funds@[0].spec_eq(
                        old(self).config.empty_character_mint_price,
                    )
                };
                &&& (r is Ok <==> spec_payment_ok(funds@) && token_info.traits_equipped is None
                    && price_ok && !(needs && old(self).config.destination is None))
                &&& (!spec_payment_ok(funds@) ==> r == Result::<
                    MintPlan<Metadata>,
                    ContractError,
                >::Err(ContractError::Payment(spec_payment_error(funds@))))
                &&& (spec_payment_ok(funds@) && token_info.traits_equipped is Some ==> r
                    == Result::<MintPlan<Metadata>, ContractError>::Err(
                    ContractError::InvalidMintTraits,
                ))
                &&& (spec_payment_ok(funds@) && token_info.traits_equipped is None
                    && token_info.rarity is Some && fidx < 0 ==> r == Result::<
                    MintPlan<Metadata>,
                    ContractError,
                >::Err(ContractError::InvalidCharacter))
                &&& (spec_payment_ok(funds@) && token_info.traits_equipped is None
                    && token_info.rarity is Some && fidx >= 0 && !funds@[0].spec_eq(
                    catalog_characters@[fidx].mint_price,
                ) ==> r == Result::<MintPlan<Metadata>, ContractError>::Err(
                    ContractError::IncorrectMintFunds,
                ))
                &&& (spec_payment_ok(funds@) && token_info.traits_equipped is None
                    && token_info.rarity is None && !spec_empty_character_ok(token_info) ==> r
                    == Result::<MintPlan<Metadata>, ContractError>::Err(
                    ContractError::InvalidEmptyCharacterMint,
                ))
                &&& (spec_payment_ok(funds@) && token_info.traits_equipped is None
                    && token_info.rarity is None && spec_empty_character_ok(token_info)
                    && !funds@[0].spec_eq(old(self).config.empty_character_mint_price) ==> r
                    == Result::<MintPlan<Metadata>, ContractError>::Err(
                    ContractError::IncorrectMintFunds,
                ))
                &&& (spec_payment_ok(funds@) && token_info.traits_equipped is None && price_ok
                    && needs && old(self).config.destination is None ==> r == Result::<
                    MintPlan<Metadata>,
                    ContractError,
                >::Err(ContractError::NoMintDestination))
                &&& (r is Ok ==> {
                    let plan = r.unwrap();
                    &&& spec_split_shape(
                        plan.fund_instructions@,
                        funds@[0].denom@,
                        funds@[0].amount,
                        old(self).config.burn_ratio,
                        old(self).config.destination,
                    )
                    &&& plan.mints@.len() == 1
                    &&& plan.mints@[0].token_id@ == spec_token_key(
                        (old(self).token_index + 1) as u64,
                    )
                    &&& plan.mints@[0].owner == receiver
                    &&& plan.mints@[0].token_uri is None
                    &&& plan.mints@[0].extension == token_info
                    &&& final(self).token_index == old(self).token_index + 1
                })
            }),
            r is Err ==> *final(self) == *old(self),
            final(self).wf(),
            final(self).ownership == old(self).ownership,
            final(self).config == old(self).config,
            final(self).collection_address == old(self).collection_address,
            final(self).trait_collection_address == old(self).trait_collection_address,
            final(self).mintable_collection_address == old(self).mintable_collection_address,
    {
        let funds_sent = match one_coin(funds) {
            Ok(c) => c,
            Err(e) => {
                return Err(ContractError::Payment(e));
            },
        };
        if token_info.traits_equipped.is_some() {
            return Err(ContractError::InvalidMintTraits);
        }
        let ghost pred = character_match_pred(token_info);
        if token_info.rarity.is_some() {
            let n = catalog_characters.len();
            let mut i: usize = 0;
            while i < n && !character_matches_exec(&catalog_characters[i], &token_info)
                invariant
                    n == catalog_characters@.len(),
                    i <= n,
                    pred == character_match_pred(token_info),
                    forall|k: int| 0 <= k < i ==> !#[trigger] pred(catalog_characters@[k]),
                decreases n - i,
            {
                i = i + 1;
            }
            if i == n {
                proof {
                    lemma_first_where_none(catalog_characters@, pred);
                }
                return Err(ContractError::InvalidCharacter);
            }
            proof {
                lemma_first_where_at(catalog_characters@, pred, i as int);
            }
            if !(funds_sent == catalog_characters[i].mint_price) {
                return Err(ContractError::IncorrectMintFunds);
            }
        } else {
            if !empty_character_ok(&token_info) {
                return Err(ContractError::InvalidEmptyCharacterMint);
            }
            if !(funds_sent == self.config.empty_character_mint_price) {
                return Err(ContractError::IncorrectMintFunds);
            }
        }
        let instructions = match fund_split(
            &funds_sent,
            self.config.burn_ratio,
            &self.config.destination,
        ) {
            Ok(v) => v,
            Err(()) => {
                return Err(ContractError::NoMintDestination);
            },
        };
        let new_index = increment_token_index(&mut self.token_index);
        let command = MintCommand {
            token_id: u64_to_dec(new_index),
            owner: receiver,
            token_uri: None,
            extension: token_info,
        };
        Ok(MintPlan { fund_instructions: instructions, mints: vec![command] })
    }

    /// Sells one bundle of characters: the payment must equal the
    /// bundle's price, and one mint command per member is emitted, in
    /// member order, with consecutive token keys. An absent receiver
    /// defaults to the caller.
    pub fn mint_bundle(
        &mut self,
        sender: &str,
        funds: &Vec<Coin>,
        bundles: &Vec<CharacterBundle>,
        bundle_id: u32,
        receiver: Option<String>,
    ) -> (r: Result<MintPlan<Metadata>, ContractError>)
        requires
            old(self).wf(),
            forall|k: int|
                0 <= k < bundles@.len() ==> old(self).token_index + (
                #[trigger] bundles@[k].characters@.len()) <= u64::MAX,
        ensures
            ({
                let fidx = first_where(bundles@, character_bundle_pred(bundle_id));
                let needs = spec_needs_destination(funds@[0].denom@, old(self).config.burn_ratio);
                &&& (r is Ok <==> spec_payment_ok(funds@) && fidx >= 0 && funds@[0].spec_eq(
                    bundles@[fidx].mint_price,
                ) && !(needs && old(self).config.destination is None))
                &&& (!spec_payment_ok(funds@) ==> r == Result::<
                    MintPlan<Metadata>,
                    ContractError,
                >::Err(ContractError::Payment(spec_payment_error(funds@))))
                &&& (spec_payment_ok(funds@) && fidx < 0 ==> r == Result::<
                    MintPlan<Metadata>,
                    ContractError,
                >::Err(ContractError::InvalidBundle))
                &&& (spec_payment_ok(funds@) && fidx >= 0 && !funds@[0].spec_eq(
                    bundles@[fidx].mint_price,
                ) ==> r == Result::<MintPlan<Metadata>, ContractError>::Err(
                    ContractError::IncorrectMintFunds,
                ))
                &&& (spec_payment_ok(funds@) && fidx >= 0 && funds@[0].spec_eq(
                    bundles@[fidx].mint_price,
                ) && needs && old(self).config.destination is None ==> r == Result::<
                    MintPlan<Metadata>,
                    ContractError,
                >::Err(ContractError::NoMintDestination))
                &&& (r is Ok ==> {
                    let plan = r.unwrap();
                    let members = bundles@[fidx].characters@;
                    &&& spec_split_shape(
                        plan.fund_instructions@,
                        funds@[0].denom@,
                        funds@[0].amount,
                        old(self).config.burn_ratio,
                        old(self).config.destination,
                    )
                    &&& plan.mints@.len() == members.len()
                    &&& (forall|k: int|
                        0 <= k < members.len() ==> {
                            let cmd = #[trigger] plan.mints@[k];
                            &&& cmd.token_id@ == spec_token_key(
                                (old(self).token_index + 1 + k) as u64,
                            )
                            &&& cmd.owner@ == spec_send_to(receiver, sender@)
                            &&& cmd.token_uri is None
                            &&& minted_from_catalog(cmd.extension, members[k])
                        })
                    &&& final(self).token_index == old(self).token_index + members.len()
                })
            }),
            r is Err ==> *final(self) == *old(self),
            final(self).wf(),
            final(self).ownership == old(self).ownership,
            final(self).config == old(self).config,
            final(self).collection_address == old(self).collection_address,
            final(self).trait_collection_address == old(self).trait_collection_address,
            final(self).mintable_collection_address == old(self).mintable_collection_address,
    {
        let send_to: String = match receiver {
            Some(r) => r,
            None => sender.to_owned(),
        };
        let funds_sent = match one_coin(funds) {
            Ok(c) => c,
            Err(e) => {
                return Err(ContractError::Payment(e));
            },
        };
        let ghost pred = character_bundle_pred(bundle_id);
        let n = bundles.len();
        let mut i: usize = 0;
        while i < n && bundles[i].id != bundle_id
            invariant
                n == bundles@.len(),
                i <= n,
                pred == character_bundle_pred(bundle_id),
                forall|k: int| 0 <= k < i ==> !#[trigger] pred(bundles@[k]),
            decreases n - i,
        {
            i = i + 1;
        }
        if i == n {
            proof {
                lemma_first_where_none(bundles@, pred);
            }
            return Err(ContractError::InvalidBundle);
        }
        proof {
            lemma_first_where_at(bundles@, pred, i as int);
        }
        let bundle = &bundles[i];
        if !(funds_sent == bundle.mint_price) {
            return Err(ContractError::IncorrectMintFunds);
        }
        let instructions = match fund_split(
            &funds_sent,
            self.config.burn_ratio,
            &self.config.destination,
        ) {
            Ok(v) => v,
            Err(()) => {
                return Err(ContractError::NoMintDestination);
            },
        };
        let m = bundle.characters.len();
        let mut mints: Vec<MintCommand<Metadata>> = Vec::new();
        let mut k: usize = 0;
        while k < m
            invariant
                m == bundles@[i as int].characters@.len(),
                i < bundles@.len(),
                *bundle == bundles@[i as int],
                k <= m,
                self.token_index == old(self).token_index + k,
                old(self).token_index + m <= u64::MAX,
                mints@.len() == k,
                self.ownership == old(self).ownership,
                self.config == old(self).config,
                self.collection_address == old(self).collection_address,
                self.trait_collection_address == old(self).trait_collection_address,
                self.mintable_collection_address == old(self).mintable_collection_address,
                forall|j: int|
                    0 <= j < k ==> {
                        let cmd = #[trigger] mints@[j];
                        let members = bundles@[i as int].characters@;
                        &&& cmd.token_id@ == spec_token_key((old(self).token_index + 1 + j) as u64)
                        &&& cmd.owner@ == send_to@
                        &&& cmd.token_uri is None
                        &&& minted_from_catalog(cmd.extension, members[j])
                    },
            decreases m - k,
        {
            let member = &bundle.characters[k];
            let new_index = increment_token_index(&mut self.token_index);
            mints.push(
                MintCommand {
                    token_id: u64_to_dec(new_index),
                    owner: send_to.clone(),
                    token_uri: None,
                    extension: catalog_character_metadata(member),
                },
            );
            k = k + 1;
        }
        Ok(MintPlan { fund_instructions: instructions, mints })
    }

    /// Opens one lootbox: the payment must equal the lootbox's price; a
    /// deterministic value drawn from the call context picks the member
    /// to mint by prefix-sum roulette over the weights. Returns the plan
    /// and the winning position.
    pub fn open_lootbox(
        &mut self,
        sender: &str,
        funds: &Vec<Coin>,
        lootboxes: &Vec<CharacterLootbox>,
        lootbox_id: u32,
        receiver: Option<String>,
        height: u64,
        tx_index: Option<u32>,
    ) -> (r: Result<(MintPlan<Metadata>, usize), ContractError>)
        requires
            old(self).wf(),
            old(self).token_index < u64::MAX,
            lootboxes@.len() <= u32::MAX,
            forall|k: int|
                0 <= k < lootboxes@.len() ==> character_lootbox_wf(#[trigger] lootboxes@[k]),
        ensures
            ({
                let fidx = first_where(lootboxes@, character_lootbox_pred(lootbox_id));
                let needs = spec_needs_destination(funds@[0].denom@, old(self).config.burn_ratio);
                &&& (r is Ok <==> spec_payment_ok(funds@) && fidx >= 0 && funds@[0].spec_eq(
                    lootboxes@[fidx].mint_price,
                ) && !(needs && old(self).config.destination is None))
                &&& (!spec_payment_ok(funds@) ==> r == Result::<
                    (MintPlan<Metadata>, usize),
                    ContractError,
                >::Err(ContractError::Payment(spec_payment_error(funds@))))
                &&& (spec_payment_ok(funds@) && fidx < 0 ==> r == Result::<
                    (MintPlan<Metadata>, usize),
                    ContractError,
                >::Err(ContractError::InvalidLootbox))
                &&& (spec_payment_ok(funds@) && fidx >= 0 && !funds@[0].spec_eq(
                    lootboxes@[fidx].mint_price,
                ) ==> r == Result::<(MintPlan<Metadata>, usize), ContractError>::Err(
                    ContractError::IncorrectMintFunds,
                ))
                &&& (spec_payment_ok(funds@) && fidx >= 0 && funds@[0].spec_eq(
                    lootboxes@[fidx].mint_price,
                ) && needs && old(self).config.destination is None ==> r == Result::<
                    (MintPlan<Metadata>, usize),
                    ContractError,
                >::Err(ContractError::NoMintDestination))
                &&& (r is Ok ==> {
                    let plan = r.unwrap().0;
                    let position = r.unwrap().1;
                    let lb = lootboxes@[fidx];
                    let draw = spec_random_1_to_100(
                        spec_send_to(receiver, sender@),
                        height,
                        lootboxes@.len() as u32,
                        tx_index,
                    );
                    &&& spec_split_shape(
                        plan.fund_instructions@,
                        funds@[0].denom@,
                        funds@[0].amount,
                        old(self).config.burn_ratio,
                        old(self).config.destination,
                    )
                    &&& position < lb.possibilities@.len()
                    &&& weight_sum(lb.possibilities@, position as int) < draw
                    &&& draw <= weight_sum(lb.possibilities@, position as int + 1)
                    &&& plan.mints@.len() == 1
                    &&& plan.mints@[0].token_id@ == spec_token_key(
                        (old(self).token_index + 1) as u64,
                    )
                    &&& plan.mints@[0].owner@ == spec_send_to(receiver, sender@)
                    &&& plan.mints@[0].token_uri is None
                    &&& minted_from_catalog(plan.mints@[0].extension, lb.characters@[position as int])
                    &&& final(self).token_index == old(self).token_index + 1
                })
            }),
            r is Err ==> *final(self) == *old(self),
            final(self).wf(),
            final(self).ownership == old(self).ownership,
            final(self).config == old(self).config,
            final(self).collection_address == old(self).collection_address,
            final(self).trait_collection_address == old(self).trait_collection_address,
            final(self).mintable_collection_address == old(self).mintable_collection_address,
    {
        let send_to: String = match receiver {
            Some(r) => r,
            None => sender.to_owned(),
        };
        let funds_sent = match one_coin(funds) {
            Ok(c) => c,
            Err(e) => {
                return Err(ContractError::Payment(e));
            },
        };
        let ghost pred = character_lootbox_pred(lootbox_id);
        let n = lootboxes.len();
        let mut i: usize = 0;
        while i < n && lootboxes[i].id != lootbox_id
            invariant
                n == lootboxes@.len(),
                i <= n,
                pred == character_lootbox_pred(lootbox_id),
                forall|k: int| 0 <= k < i ==> !#[trigger] pred(lootboxes@[k]),
            decreases n - i,
        {
            i = i + 1;
        }
        if i == n {
            proof {
                lemma_first_where_none(lootboxes@, pred);
            }
            return Err(ContractError::InvalidLootbox);
        }
        proof {
            lemma_first_where_at(lootboxes@, pred, i as int);
        }
        let lootbox = &lootboxes[i];
        if !(funds_sent == lootbox.mint_price) {
            return Err(ContractError::IncorrectMintFunds);
        }
        let instructions = match fund_split(
            &funds_sent,
            self.config.burn_ratio,
            &self.config.destination,
        ) {
            Ok(v) => v,
            Err(()) => {
                return Err(ContractError::NoMintDestination);
            },
        };
        let draw = random_number_1_to_100(
            send_to.as_str(),
            height,
            lootboxes.len() as u32,
            tx_index,
        );
        let position = select_weighted(&lootbox.possibilities, draw);
        let member = &lootbox.characters[position];
        let new_index = increment_token_index(&mut self.token_index);
        let command = MintCommand {
            token_id: u64_to_dec(new_index),
            owner: send_to,
            token_uri: None,
            extension: catalog_character_metadata(member),
        };
        Ok((MintPlan { fund_instructions: instructions, mints: vec![command] }, position))
    }

    /// Re-equips a character with the listed trait tokens: only its
    /// current owner may, the character must not be locked, the caller
    /// must own every referenced trait token, and each trait's category
    /// must be one of the six slots. Each slot takes the value of the
    /// last listed trait of its category; slots no listed trait covers
    /// come out empty. The resulting sheet keeps name and rarity and
    /// records the equipped trait keys.
    pub fn modify_character(
        &self,
        sender: &str,
        character_owner: &str,
        token_info: Metadata,
        token_id: String,
        trait_ids: Vec<String>,
        owned_tokens: &Vec<String>,
        trait_infos: &Vec<TraitTokenInfo>,
    ) -> (r: Result<ModifyCommand, ContractError>)
        requires
            forall|k: int|
                0 <= k < trait_ids@.len() && spec_owns(owned_tokens@, #[trigger] trait_ids@[k]@)
                    ==> first_where(trait_infos@, trait_info_pred(trait_ids@[k]@)) >= 0,
        ensures
            r is Ok <==> character_owner@ == sender@ && !token_info.locked
                && spec_first_modify_error(owned_tokens@, trait_infos@, trait_ids@) is None,
            character_owner@ != sender@ ==> r == Result::<ModifyCommand, ContractError>::Err(
                ContractError::NotCharacterOwner,
            ),
            character_owner@ == sender@ && token_info.locked ==> r == Result::<
                ModifyCommand,
                ContractError,
            >::Err(ContractError::CharacterAlreadyLocked),
            character_owner@ == sender@ && !token_info.locked && spec_first_modify_error(
                owned_tokens@,
                trait_infos@,
                trait_ids@,
            ) is Some ==> r == Result::<ModifyCommand, ContractError>::Err(
                spec_first_modify_error(owned_tokens@, trait_infos@, trait_ids@).unwrap(),
            ),
            r is Ok ==> {
                let cmd = r.unwrap();
                let metas = spec_requested_metas(trait_infos@, trait_ids@);
                &&& cmd.token_id == token_id
                &&& cmd.new_values.name == token_info.name
                &&& spec_opt_view(cmd.new_values.ears) == spec_slot_value(metas, "ears"@)
                &&& spec_opt_view(cmd.new_values.eyes) == spec_slot_value(metas, "eyes"@)
                &&& spec_opt_view(cmd.new_values.mouth) == spec_slot_value(metas, "mouth"@)
                &&& spec_opt_view(cmd.new_values.fur_type) == spec_slot_value(metas, "fur_type"@)
                &&& spec_opt_view(cmd.new_values.fur_color) == spec_slot_value(metas, "fur_color"@)
                &&& spec_opt_view(cmd.new_values.tail_shape) == spec_slot_value(
                    metas,
                    "tail_shape"@,
                )
                &&& cmd.new_values.rarity == token_info.rarity
                &&& (match cmd.new_values.traits_equipped {
                    Some(v) => v@.len() == trait_ids@.len() && (forall|j: int|
                        0 <= j < trait_ids@.len() ==> v@[j] == trait_ids@[j]),
                    None => false,
                })
                &&& cmd.new_values.locked == false
            },
    {
        if !str_eq(character_owner, sender) {
            return Err(ContractError::NotCharacterOwner);
        }
        if token_info.locked {
            return Err(ContractError::CharacterAlreadyLocked);
        }
        let ghost metas = spec_requested_metas(trait_infos@, trait_ids@);
        let mut ears: Option<String> = None;
        let mut eyes: Option<String> = None;
        let mut mouth: Option<String> = None;
        let mut fur_type: Option<String> = None;
        let mut fur_color: Option<String> = None;
        let mut tail_shape: Option<String> = None;
        let n = trait_ids.len();
        let mut k: usize = 0;
        proof {
            assert(trait_ids@.skip(0) =~= trait_ids@);
            assert(metas.take(0) =~= Seq::<TraitMetadata>::empty());
        }
        while k < n
            invariant
                n == trait_ids@.len(),
                k <= n,
                character_owner@ == sender@,
                !token_info.locked,
                metas == spec_requested_metas(trait_infos@, trait_ids@),
                forall|j: int|
                    0 <= j < trait_ids@.len() && spec_owns(
                        owned_tokens@,
                        #[trigger] trait_ids@[j]@,
                    ) ==> first_where(trait_infos@, trait_info_pred(trait_ids@[j]@)) >= 0,
                spec_first_modify_error(owned_tokens@, trait_infos@, trait_ids@)
                    == spec_first_modify_error(owned_tokens@, trait_infos@, trait_ids@.skip(
                    k as int,
                )),
                spec_opt_view(ears) == spec_slot_value(metas.take(k as int), "ears"@),
                spec_opt_view(eyes) == spec_slot_value(metas.take(k as int), "eyes"@),
                spec_opt_view(mouth) == spec_slot_value(metas.take(k as int), "mouth"@),
                spec_opt_view(fur_type) == spec_slot_value(metas.take(k as int), "fur_type"@),
                spec_opt_view(fur_color) == spec_slot_value(metas.take(k as int), "fur_color"@),
                spec_opt_view(tail_shape) == spec_slot_value(metas.take(k as int), "tail_shape"@),
            decreases n - k,
        {
            proof {
                lemma_slots_distinct();
                assert(trait_ids@.skip(k as int)[0] == trait_ids@[k as int]);
                assert(trait_ids@.skip(k as int).drop_first() =~= trait_ids@.skip(k + 1));
                assert(metas.take(k + 1) =~= metas.take(k as int).push(metas[k as int]));
            }
            let one_trait_id = &trait_ids[k];
            if !contains_string(owned_tokens, one_trait_id) {
                return Err(ContractError::NotTraitOwner);
            }
            let info_idx = match find_trait_info(trait_infos, one_trait_id) {
                Some(idx) => idx,
                None => {
                    proof {
                        assert(spec_owns(owned_tokens@, trait_ids@[k as int]@));
                    }
                    // unreachable: every owned key is reported by the
                    // trait collection
                    return Err(ContractError::InvalidTrait);
                },
            };
            let value = &trait_infos[info_idx].info.trait_value;
            let ty = &trait_infos[info_idx].info.trait_type;
            proof {
                assert(metas[k as int] == trait_infos@[info_idx as int].info);
            }
            if str_eq(ty.as_str(), "ears") {
                ears = Some(value.clone());
            } else if str_eq(ty.as_str(), "eyes") {
                eyes = Some(value.clone());
            } else if str_eq(ty.as_str(), "mouth") {
                mouth = Some(value.clone());
            } else if str_eq(ty.as_str(), "fur_type") {
                fur_type = Some(value.clone());
            } else if str_eq(ty.as_str(), "fur_color") {
                fur_color = Some(value.clone());
            } else if str_eq(ty.as_str(), "tail_shape") {
                tail_shape = Some(value.clone());
            } else {
                return Err(ContractError::InvalidTrait);
            }
            proof {
                let mk = metas[k as int];
                assert(metas.take(k + 1).last() == mk);
                assert(metas.take(k + 1).drop_last() =~= metas.take(k as int));
                if mk.trait_type@ == "ears"@ {
                    assert(spec_slot_value(metas.take(k + 1), "ears"@) == Some(mk.trait_value@));
                } else {
                    assert(spec_slot_value(metas.take(k + 1), "ears"@) == spec_slot_value(
                        metas.take(k as int),
                        "ears"@,
                    ));
                }
                if mk.trait_type@ == "eyes"@ {
                    assert(spec_slot_value(metas.take(k + 1), "eyes"@) == Some(mk.trait_value@));
                } else {
                    assert(spec_slot_value(metas.take(k + 1), "eyes"@) == spec_slot_value(
                        metas.take(k as int),
                        "eyes"@,
                    ));
                }
                if mk.trait_type@ == "mouth"@ {
                    assert(spec_slot_value(metas.take(k + 1), "mouth"@) == Some(mk.trait_value@));
                } else {
                    assert(spec_slot_value(metas.take(k + 1), "mouth"@) == spec_slot_value(
                        metas.take(k as int),
                        "mouth"@,
                    ));
                }
                if mk.trait_type@ == "fur_type"@ {
                    assert(spec_slot_value(metas.take(k + 1), "fur_type"@) == Some(mk.trait_value@));
                } else {
                    assert(spec_slot_value(metas.take(k + 1), "fur_type"@) == spec_slot_value(
                        metas.take(k as int),
                        "fur_type"@,
                    ));
                }
                if mk.trait_type@ == "fur_color"@ {
                    assert(spec_slot_value(metas.take(k + 1), "fur_color"@) == Some(mk.trait_value@));
                } else {
                    assert(spec_slot_value(metas.take(k + 1), "fur_color"@) == spec_slot_value(
                        metas.take(k as int),
                        "fur_color"@,
                    ));
                }
                if mk.trait_type@ == "tail_shape"@ {
                    assert(spec_slot_value(metas.take(k + 1), "tail_shape"@) == Some(mk.trait_value@));
                } else {
                    assert(spec_slot_value(metas.take(k + 1), "tail_shape"@) == spec_slot_value(
                        metas.take(k as int),
                        "tail_shape"@,
                    ));
                }
            }
            k = k + 1;
        }
        proof {
            assert(metas.take(n as int) =~= metas);
        }
        let new_values = Metadata {
            name: token_info.name,
            ears,
            eyes,
            mouth,
            fur_type,
            fur_color,
            tail_shape,
            rarity: token_info.rarity,
            traits_equipped: Some(crate::metadata::clone_string_vec(&trait_ids)),
            locked: false,
        };
        Ok(ModifyCommand { token_id, new_values })
    }

    /// Renames a character: only its current owner may, and every other
    /// field of the sheet is carried over unchanged. Locked characters
    /// can still be renamed.
    pub fn change_name(
        &self,
        sender: &str,
        character_owner: &str,
        token_info: Metadata,
        token_id: String,
        new_name: String,
    ) -> (r: Result<ModifyCommand, ContractError>)
        ensures
            r is Ok <==> character_owner@ == sender@,
            r is Err ==> r == Result::<ModifyCommand, ContractError>::Err(
                ContractError::NotCharacterOwner,
            ),
            r is Ok ==> {
                let cmd = r.unwrap();
                &&& cmd.token_id == token_id
                &&& (match cmd.new_values.name {
                    Some(n) => n == new_name,
                    None => false,
                })
                &&& cmd.new_values.ears == token_info.ears
                &&& cmd.new_values.eyes == token_info.eyes
                &&& cmd.new_values.mouth == token_info.mouth
                &&& cmd.new_values.fur_type == token_info.fur_type
                &&& cmd.new_values.fur_color == token_info.fur_color
                &&& cmd.new_values.tail_shape == token_info.tail_shape
                &&& cmd.new_values.rarity == token_info.rarity
                &&& cmd.new_values.traits_equipped == token_info.traits_equipped
                &&& cmd.new_values.locked == token_info.locked
            },
    {
        if !str_eq(character_owner, sender) {
            return Err(ContractError::NotCharacterOwner);
        }
        let new_values = Metadata {
            name: Some(new_name),
            ears: token_info.ears,
            eyes: token_info.eyes,
            mouth: token_info.mouth,
            fur_type: token_info.fur_type,
            fur_color: token_info.fur_color,
            tail_shape: token_info.tail_shape,
            rarity: token_info.rarity,
            traits_equipped: token_info.traits_equipped,
            locked: token_info.locked,
        };
        Ok(ModifyCommand { token_id, new_values })
    }

    /// Locks a character for good: only its current owner may, and only
    /// once. The plan burns every equipped trait token first, so a
    /// locked character never references burned traits, then locks.
    pub fn lock_character(
        &self,
        sender: &str,
        character_owner: &str,
        token_info: Metadata,
        token_id: String,
    ) -> (r: Result<LockPlan, ContractError>)
        ensures
            r is Ok <==> character_owner@ == sender@ && !token_info.locked,
            character_owner@ != sender@ ==> r == Result::<LockPlan, ContractError>::Err(
                ContractError::NotCharacterOwner,
            ),
            character_owner@ == sender@ && token_info.locked ==> r == Result::<
                LockPlan,
                ContractError,
            >::Err(ContractError::CharacterAlreadyLocked),
            r is Ok ==> {
                let plan = r.unwrap();
                &&& plan.burn_trait_ids == token_info.traits_equipped
                &&& plan.lock_token_id == token_id
            },
    {
        if !str_eq(character_owner, sender) {
            return Err(ContractError::NotCharacterOwner);
        }
        if token_info.locked {
            return Err(ContractError::CharacterAlreadyLocked);
        }
        Ok(LockPlan { burn_trait_ids: token_info.traits_equipped, lock_token_id: token_id })
    }

    /// Answers the two queries: the configuration with the collection
    /// address (`None` while no collection is registered yet), and the
    /// allowed collection code identifier.
    pub fn query(&self, msg: CharacterManagerQueryMsg) -> (r: Option<CharacterManagerQueryResponse>)
        ensures
            match msg {
                CharacterManagerQueryMsg::Config => {
                    match r {
                        Some(CharacterManagerQueryResponse::Config(c)) => {
                            &&& (match self.collection_address {
                                Some(a) => c.collection_address@ == a@,
                                None => false,
                            })
                            &&& c.config == self.config
                        },
                        _ => r is None && self.collection_address is None,
                    }
                },
                CharacterManagerQueryMsg::AllowedCollectionCodeId => {
                    match r {
                        Some(CharacterManagerQueryResponse::AllowedCollectionCodeId(c)) => c.code_id
                            == self.config.collection_code_id,
                        _ => false,
                    }
                },
            },
    {
        match msg {
            CharacterManagerQueryMsg::Config => {
                match &self.collection_address {
                    None => None,
                    Some(addr) => Some(
                        CharacterManagerQueryResponse::Config(
                            CharacterManagerConfigResponse {
                                collection_address: addr.clone(),
                                config: self.config.duplicate(),
                            },
                        ),
                    ),
                }
            },
            CharacterManagerQueryMsg::AllowedCollectionCodeId => Some(
                CharacterManagerQueryResponse::AllowedCollectionCodeId(
                    AllowedCollectionCodeIdResponse { code_id: self.config.collection_code_id },
                ),
            ),
        }
    }
}

} // verus!
