//! The trait-collection minting manager: it sells trait tokens against the
//! catalog, splits each payment into burned and forwarded parts, and
//! derives every new token key from its own monotone index counter.

use vstd::prelude::*;

use crate::catalog::{Trait, TraitBundle, TraitLootbox, trait_lootbox_wf};
use crate::coin::{
    one_coin, spec_payment_error, spec_payment_ok, Coin, PaymentError,
};
use crate::expiration::BlockInfo;
use crate::manager::{
    increment_token_index, fund_split, spec_needs_destination, spec_split_shape, spec_token_key,
    AllowedCollectionCodeIdResponse, FundInstruction, MintCommand, MintPlan,
};
use crate::metadata::TraitMetadata;
use crate::ownership::{Action, Ownership, OwnershipError};
use crate::search::{first_where, lemma_first_where_at, lemma_first_where_none};
use crate::selector::{random_number_1_to_x, select_weighted, spec_random_1_to_x, weight_sum};
use crate::strings::{str_eq, u64_to_dec};

verus! {

/// The reply identifier under which the manager expects its collection's
/// instantiation result.
pub const INSTANTIATE_CW721_REPLY_ID: u64 = 1;

/// Why a trait-manager call failed; nothing is changed on any error.
#[derive(Clone, Copy, PartialEq, Eq, Structural, Debug)]
pub enum ContractError {
    Ownership(OwnershipError),
    Payment(PaymentError),
    /// A reply arrived under an unknown identifier.
    InvalidReplyID,
    /// The collection's instantiation failed.
    InstantiateError,
    /// The price table and the rarity table differ in length.
    NotSameLength,
    /// The burn ratio is not a percentage.
    InvalidBurnRatio,
    /// The attached payment does not equal the resolved price.
    IncorrectMintFunds,
    /// A forwarding is due but no destination address is configured.
    NoMintDestination,
    /// No catalog trait matches the requested metadata.
    InvalidTrait,
    /// No catalog bundle carries the requested identifier.
    InvalidBundle,
    /// No catalog lootbox carries the requested identifier.
    InvalidLootbox,
}

/// The manager's stored configuration.
#[derive(Debug)]
pub struct TraitManagerConfig {
    pub collection_code_id: u64,
    /// Percentage of each native payment that is burned.
    pub burn_ratio: u64,
    /// Where the rest is forwarded.
    pub destination: Option<String>,
}

impl TraitManagerConfig {
    pub fn duplicate(&self) -> (r: TraitManagerConfig)
        ensures
            r == *self,
    {
        TraitManagerConfig {
            collection_code_id: self.collection_code_id,
            burn_ratio: self.burn_ratio,
            destination: crate::metadata::clone_opt_string(&self.destination),
        }
    }
}

/// The parameters a trait manager is instantiated with.
#[derive(Debug)]
pub struct TraitManagerParams {
    pub mint_prices: Vec<Coin>,
    pub rarities: Vec<String>,
    pub burn_ratio: u64,
    pub destination: Option<String>,
    pub mintable_collection_addr: String,
}

/// A configuration update.
#[derive(Debug)]
pub struct UpdateTraitManagerParamsMsg {
    pub mint_prices: Vec<Coin>,
    pub rarities: Vec<String>,
    pub burn_ratio: u64,
    pub destination: Option<String>,
}

#[derive(Debug)]
pub struct TraitManagerConfigResponse {
    pub collection_address: String,
    pub config: TraitManagerConfig,
}

#[derive(Debug)]
pub enum TraitManagerQueryMsg {
    Config,
    AllowedCollectionCodeId,
}

#[derive(Debug)]
pub enum TraitManagerQueryResponse {
    Config(TraitManagerConfigResponse),
    AllowedCollectionCodeId(AllowedCollectionCodeIdResponse),
}

/// Some listed price is not in the native denomination.
pub open spec fn spec_any_non_native(prices: Seq<Coin>) -> bool {
    exists|k: int| 0 <= k < prices.len() && prices[k].denom@ != crate::coin::spec_native_denom()
}

pub fn any_non_native(prices: &Vec<Coin>) -> (r: bool)
    ensures
        r == spec_any_non_native(prices@),
{
    let n = prices.len();
    let mut i: usize = 0;
    while i < n
        invariant
            n == prices@.len(),
            i <= n,
            forall|j: int|
                0 <= j < i ==> prices@[j].denom@ == crate::coin::spec_native_denom(),
        decreases n - i,
    {
        if !str_eq(prices[i].denom.as_str(), crate::coin::native_denom()) {
            return true;
        }
        i = i + 1;
    }
    false
}

/// Valid manager economics: the ratio is a percentage; a destination is
/// configured unless everything native is fully burned; prices and
/// rarities pair up one to one.
pub open spec fn spec_trait_params_ok(
    burn_ratio: u64,
    destination: Option<String>,
    prices: Seq<Coin>,
    rarities: Seq<String>,
) -> bool {
    &&& burn_ratio <= 100
    &&& (burn_ratio == 100 || destination is Some)
    &&& (!spec_any_non_native(prices) || destination is Some)
    &&& prices.len() == rarities.len()
}

/// The first catalog trait carrying exactly this metadata decides.
pub open spec fn trait_matches(t: Trait, m: TraitMetadata) -> bool {
    &&& t.trait_type@ == m.trait_type@
    &&& t.trait_value@ == m.trait_value@
    &&& t.trait_rarity@ == m.trait_rarity@
}

pub open spec fn trait_match_pred(m: TraitMetadata) -> spec_fn(Trait) -> bool {
    |t: Trait| trait_matches(t, m)
}

pub open spec fn trait_bundle_pred(id: u32) -> spec_fn(TraitBundle) -> bool {
    |b: TraitBundle| b.id == id
}

pub open spec fn trait_lootbox_pred(id: u32) -> spec_fn(TraitLootbox) -> bool {
    |b: TraitLootbox| b.id == id
}

/// The receiver a mint is addressed to: the explicit one, else the caller.
pub open spec fn spec_send_to(receiver: Option<String>, sender: Seq<char>) -> Seq<char> {
    match receiver {
        Some(r) => r@,
        None => sender,
    }
}


fn trait_matches_exec(t: &Trait, m: &TraitMetadata) -> (r: bool)
    ensures
        r == trait_matches(*t, *m),
{
    str_eq(t.trait_type.as_str(), m.trait_type.as_str()) && str_eq(
        t.trait_value.as_str(),
        m.trait_value.as_str(),
    ) && str_eq(t.trait_rarity.as_str(), m.trait_rarity.as_str())
}

/// The trait manager's full state.
#[derive(Debug)]
pub struct TraitManager {
    pub ownership: Ownership,
    pub config: TraitManagerConfig,
    /// Counter behind token keys; incremented once per minted token and
    /// never reused, even after burns.
    pub token_index: u64,
    /// Set when the collection's instantiation reply arrives.
    pub collection_address: Option<String>,
    pub mintable_collection_address: String,
}

impl TraitManager {
    /// The structural invariant every operation preserves.
    pub open spec fn wf(self) -> bool {
        self.config.burn_ratio <= 100
    }

    /// Validates the instantiation parameters and builds the initial
    /// state: the instantiator owns the manager, the counter starts at
    /// zero, and no collection address is known yet.
    pub fn instantiate(sender: String, collection_code_id: u64, params: TraitManagerParams) -> (r:
        Result<TraitManager, ContractError>)
        ensures
            r is Ok <==> spec_trait_params_ok(
                params.burn_ratio,
                params.destination,
                params.mint_prices@,
                params.rarities@,
            ),
            params.burn_ratio > 100 ==> r == Result::<TraitManager, ContractError>::Err(
                ContractError::InvalidBurnRatio,
            ),
            params.burn_ratio < 100 && params.destination is None ==> r == Result::<
                TraitManager,
                ContractError,
            >::Err(ContractError::NoMintDestination),
            params.burn_ratio == 100 && spec_any_non_native(params.mint_prices@)
                && params.destination is None ==> r == Result::<TraitManager, ContractError>::Err(
                ContractError::NoMintDestination,
            ),
            params.burn_ratio <= 100 && (params.burn_ratio == 100 || params.destination is Some)
                && (!spec_any_non_native(params.mint_prices@) || params.destination is Some)
                && params.mint_prices@.len() != params.rarities@.len() ==> r == Result::<
                TraitManager,
                ContractError,
            >::Err(ContractError::NotSameLength),
            r is Ok ==> {
                let m = r.unwrap();
                &&& m.wf()
                &&& m.ownership.spec_is_owner(sender@)
                &&& m.config.collection_code_id == collection_code_id
                &&& m.config.burn_ratio == params.burn_ratio
                &&& m.config.destination == params.destination
                &&& m.token_index == 0
                &&& m.collection_address is None
                &&& m.mintable_collection_address == params.mintable_collection_addr
            },
    {
        if params.burn_ratio > 100 {
            return Err(ContractError::InvalidBurnRatio);
        }
        if params.burn_ratio != 100 && params.destination.is_none() {
            return Err(ContractError::NoMintDestination);
        }
        if any_non_native(&params.mint_prices) && params.destination.is_none() {
            return Err(ContractError::NoMintDestination);
        }
        if params.mint_prices.len() != params.rarities.len() {
            return Err(ContractError::NotSameLength);
        }
        Ok(
            TraitManager {
                ownership: Ownership::new(Some(sender)),
                config: TraitManagerConfig {
                    collection_code_id,
                    burn_ratio: params.burn_ratio,
                    destination: params.destination,
                },
                token_index: 0,
                collection_address: None,
                mintable_collection_address: params.mintable_collection_addr,
            },
        )
    }

    /// Accepts the collection's instantiation reply: the known identifier
    /// with a parsed address records it, anything else is rejected.
    pub fn register_collection_address(&mut self, reply_id: u64, parsed: Option<String>) -> (r:
        Result<(), ContractError>)
        ensures
            reply_id != INSTANTIATE_CW721_REPLY_ID ==> r == Result::<(), ContractError>::Err(
                ContractError::InvalidReplyID,
            ) && *final(self) == *old(self),
            reply_id == INSTANTIATE_CW721_REPLY_ID && parsed is None ==> r == Result::<
                (),
                ContractError,
            >::Err(ContractError::InstantiateError) && *final(self) == *old(self),
            r is Ok <==> reply_id == INSTANTIATE_CW721_REPLY_ID && parsed is Some,
            r is Ok ==> final(self).collection_address == parsed && final(self).ownership == old(
                self,
            ).ownership && final(self).config == old(self).config && final(self).token_index == old(
                self,
            ).token_index && final(self).mintable_collection_address == old(
                self,
            ).mintable_collection_address,
    {
        if reply_id != INSTANTIATE_CW721_REPLY_ID {
            return Err(ContractError::InvalidReplyID);
        }
        match parsed {
            None => Err(ContractError::InstantiateError),
            Some(addr) => {
                self.collection_address = Some(addr);
                Ok(())
            },
        }
    }

    /// Applies an ownership-transfer action to the manager's owner role.
    pub fn update_ownership(&mut self, block: &BlockInfo, sender: &str, action: Action) -> (r:
        Result<(), ContractError>)
        ensures
            r is Ok <==> (match action {
                Action::TransferOwnership { .. } => old(self).ownership.spec_transfer_ok(sender@),
                Action::AcceptOwnership => old(self).ownership.spec_accept_ok(*block, sender@),
                Action::RenounceOwnership => old(self).ownership.spec_is_owner(sender@),
            }),
            r is Err ==> *final(self) == *old(self),
            final(self).config == old(self).config,
            final(self).token_index == old(self).token_index,
            final(self).collection_address == old(self).collection_address,
            final(self).mintable_collection_address == old(self).mintable_collection_address,
    {
        match self.ownership.update(block, sender, action) {
            Ok(()) => Ok(()),
            Err(e) => Err(ContractError::Ownership(e)),
        }
    }

    /// Replaces the economic configuration. Only the owner may update;
    /// the same destination and percentage rules hold as at
    /// instantiation; the collection code identifier is kept.
    pub fn update_config(&mut self, sender: &str, new_config: UpdateTraitManagerParamsMsg) -> (r:
        Result<(), ContractError>)
        ensures
            r is Ok <==> old(self).ownership.spec_is_owner(sender@) && spec_trait_params_ok(
                new_config.burn_ratio,
                new_config.destination,
                new_config.mint_prices@,
                new_config.rarities@,
            ),
            r is Err ==> *final(self) == *old(self),
            !old(self).ownership.spec_is_owner(sender@) ==> r == Result::<(), ContractError>::Err(
                ContractError::Ownership(
                    if old(self).ownership.owner is None {
                        OwnershipError::NoOwner
                    } else {
                        OwnershipError::NotOwner
                    },
                ),
            ),
            old(self).ownership.spec_is_owner(sender@) && new_config.burn_ratio != 100
                && new_config.destination is None ==> r == Result::<(), ContractError>::Err(
                ContractError::NoMintDestination,
            ),
            old(self).ownership.spec_is_owner(sender@) && (new_config.burn_ratio == 100
                || new_config.destination is Some) && new_config.burn_ratio > 100 ==> r
                == Result::<(), ContractError>::Err(ContractError::InvalidBurnRatio),
            old(self).ownership.spec_is_owner(sender@) && (new_config.burn_ratio == 100
                || new_config.destination is Some) && new_config.burn_ratio <= 100
                && spec_any_non_native(new_config.mint_prices@) && new_config.destination is None
                ==> r == Result::<(), ContractError>::Err(ContractError::NoMintDestination),
            r is Ok ==> {
                &&& final(self).wf()
                &&& final(self).config.burn_ratio == new_config.burn_ratio
                &&& final(self).config.destination == new_config.destination
                &&& final(self).config.collection_code_id == old(self).config.collection_code_id
                &&& final(self).ownership == old(self).ownership
                &&& final(self).token_index == old(self).token_index
                &&& final(self).collection_address == old(self).collection_address
                &&& final(self).mintable_collection_address == old(
                    self,
                ).mintable_collection_address
            },
    {
        if let Err(e) = self.ownership.assert_owner(sender) {
            return Err(ContractError::Ownership(e));
        }
        if new_config.burn_ratio != 100 && new_config.destination.is_none() {
            return Err(ContractError::NoMintDestination);
        }
        if new_config.burn_ratio > 100 {
            return Err(ContractError::InvalidBurnRatio);
        }
        if any_non_native(&new_config.mint_prices) && new_config.destination.is_none() {
            return Err(ContractError::NoMintDestination);
        }
        if new_config.mint_prices.len() != new_config.rarities.len() {
            return Err(ContractError::NotSameLength);
        }
        self.config.burn_ratio = new_config.burn_ratio;
        self.config.destination = new_config.destination;
        Ok(())
    }

    /// Sells one trait token. The attached payment must be exactly one
    /// coin equal to the catalog price of the first catalog trait whose
    /// metadata matches the request; the payment is split per the burn
    /// ratio and one mint command for the next token key is emitted.
    pub fn mint(
        &mut self,
        sender: &str,
        funds: &Vec<Coin>,
        catalog_traits: &Vec<Trait>,
        token_info: TraitMetadata,
        receiver: String,
    ) -> (r: Result<MintPlan<TraitMetadata>, ContractError>)
        requires
            old(self).wf(),
            old(self).token_index < u64::MAX,
        ensures
            ({
                let fidx = first_where(catalog_traits@, trait_match_pred(token_info));
                let needs = spec_needs_destination(funds@[0].denom@, old(self).config.burn_ratio);
                &&& (r is Ok <==> spec_payment_ok(funds@) && fidx >= 0 && funds@[0].spec_eq(
                    catalog_traits@[fidx].mint_price,
                ) && !(needs && old(self).config.destination is None))
                &&& (!spec_payment_ok(funds@) ==> r == Result::<
                    MintPlan<TraitMetadata>,
                    ContractError,
                >::Err(ContractError::Payment(spec_payment_error(funds@))))
                &&& (spec_payment_ok(funds@) && fidx < 0 ==> r == Result::<
                    MintPlan<TraitMetadata>,
                    ContractError,
                >::Err(ContractError::InvalidTrait))
                &&& (spec_payment_ok(funds@) && fidx >= 0 && !funds@[0].spec_eq(
                    catalog_traits@[fidx].mint_price,
                ) ==> r == Result::<MintPlan<TraitMetadata>, ContractError>::Err(
                    ContractError::IncorrectMintFunds,
                ))
                &&& (spec_payment_ok(funds@) && fidx >= 0 && funds@[0].spec_eq(
                    catalog_traits@[fidx].mint_price,
                ) && needs && old(self).config.destination is None ==> r == Result::<
                    MintPlan<TraitMetadata>,
                    ContractError,
                >::Err(ContractError::NoMintDestination))
                &&& (r is Ok ==> {
                    let plan = r.unwrap();
                    &&& spec_split_shape(
                        plan.fund_instructions@,
                        funds@[0].denom@,
                        funds@[0].amount,
                        old(self).config.burn_ratio,
                        old(self).config.destination,
                    )
                    &&& plan.mints@.len() == 1
                    &&& plan.mints@[0].token_id@ == spec_token_key(
                        (old(self).token_index + 1) as u64,
                    )
                    &&& plan.mints@[0].owner == receiver
                    &&& plan.mints@[0].token_uri is None
                    &&& plan.mints@[0].extension == token_info
                    &&& final(self).token_index == old(self).token_index + 1
                })
            }),
            r is Err ==> *final(self) == *old(self),
            final(self).wf(),
            final(self).ownership == old(self).ownership,
            final(self).config == old(self).config,
            final(self).collection_address == old(self).collection_address,
            final(self).mintable_collection_address == old(self).mintable_collection_address,
    {
        let funds_sent = match one_coin(funds) {
            Ok(c) => c,
            Err(e) => {
                return Err(ContractError::Payment(e));
            },
        };
        let ghost pred = trait_match_pred(token_info);
        let n = catalog_traits.len();
        let mut i: usize = 0;
        while i < n && !trait_matches_exec(&catalog_traits[i], &token_info)
            invariant
                n == catalog_traits@.len(),
                i <= n,
                pred == trait_match_pred(token_info),
                forall|k: int| 0 <= k < i ==> !#[trigger] pred(catalog_traits@[k]),
                i < n ==> (pred(catalog_traits@[i as int]) == trait_matches(
                    catalog_traits@[i as int],
                    token_info,
                )),
            decreases n - i,
        {
            i = i + 1;
        }
        if i == n {
            proof {
                lemma_first_where_none(catalog_traits@, pred);
            }
            return Err(ContractError::InvalidTrait);
        }
        proof {
            lemma_first_where_at(catalog_traits@, pred, i as int);
        }
        if !(funds_sent == catalog_traits[i].mint_price) {
            return Err(ContractError::IncorrectMintFunds);
        }
        let instructions = match fund_split(
            &funds_sent,
            self.config.burn_ratio,
            &self.config.destination,
        ) {
            Ok(v) => v,
            Err(()) => {
                return Err(ContractError::NoMintDestination);
            },
        };
        let new_index = increment_token_index(&mut self.token_index);
        let token_id = u64_to_dec(new_index);
        let command = MintCommand {
            token_id,
            owner: receiver,
            token_uri: None,
            extension: token_info,
        };
        Ok(MintPlan { fund_instructions: instructions, mints: vec![command] })
    }

    /// Sells one bundle of traits: the payment must equal the bundle's
    /// price, and one mint command per member is emitted, in member
    /// order, with consecutive token keys. An absent receiver defaults
    /// to the caller.
    pub fn mint_bundle(
        &mut self,
        sender: &str,
        funds: &Vec<Coin>,
        bundles: &Vec<TraitBundle>,
        bundle_id: u32,
        receiver: Option<String>,
    ) -> (r: Result<MintPlan<TraitMetadata>, ContractError>)
        requires
            old(self).wf(),
            forall|k: int|
                0 <= k < bundles@.len() ==> old(self).token_index + (
                #[trigger] bundles@[k].traits@.len()) <= u64::MAX,
        ensures
            ({
                let fidx = first_where(bundles@, trait_bundle_pred(bundle_id));
                let needs = spec_needs_destination(funds@[0].denom@, old(self).config.burn_ratio);
                &&& (r is Ok <==> spec_payment_ok(funds@) && fidx >= 0 && funds@[0].spec_eq(
                    bundles@[fidx].mint_price,
                ) && !(needs && old(self).config.destination is None))
                &&& (!spec_payment_ok(funds@) ==> r == Result::<
                    MintPlan<TraitMetadata>,
                    ContractError,
                >::Err(ContractError::Payment(spec_payment_error(funds@))))
                &&& (spec_payment_ok(funds@) && fidx < 0 ==> r == Result::<
                    MintPlan<TraitMetadata>,
                    ContractError,
                >::Err(ContractError::InvalidBundle))
                &&& (spec_payment_ok(funds@) && fidx >= 0 && !funds@[0].spec_eq(
                    bundles@[fidx].mint_price,
                ) ==> r == Result::<MintPlan<TraitMetadata>, ContractError>::Err(
                    ContractError::IncorrectMintFunds,
                ))
                &&& (spec_payment_ok(funds@) && fidx >= 0 && funds@[0].spec_eq(
                    bundles@[fidx].mint_price,
                ) && needs && old(self).config.destination is None ==> r == Result::<
                    MintPlan<TraitMetadata>,
                    ContractError,
                >::Err(ContractError::NoMintDestination))
                &&& (r is Ok ==> {
                    let plan = r.unwrap();
                    let members = bundles@[fidx].traits@;
                    &&& spec_split_shape(
                        plan.fund_instructions@,
                        funds@[0].denom@,
                        funds@[0].amount,
                        old(self).config.burn_ratio,
                        old(self).config.destination,
                    )
                    &&& plan.mints@.len() == members.len()
                    &&& (forall|k: int|
                        0 <= k < members.len() ==> {
                            let cmd = #[trigger] plan.mints@[k];
                            &&& cmd.token_id@ == spec_token_key(
                                (old(self).token_index + 1 + k) as u64,
                            )
                            &&& cmd.owner@ == spec_send_to(receiver, sender@)
                            &&& cmd.token_uri is None
                            &&& cmd.extension.trait_type == members[k].trait_type
                            &&& cmd.extension.trait_value == members[k].trait_value
                            &&& cmd.extension.trait_rarity == members[k].trait_rarity
                        })
                    &&& final(self).token_index == old(self).token_index + members.len()
                })
            }),
            r is Err ==> *final(self) == *old(self),
            final(self).wf(),
            final(self).ownership == old(self).ownership,
            final(self).config == old(self).config,
            final(self).collection_address == old(self).collection_address,
            final(self).mintable_collection_address == old(self).mintable_collection_address,
    {
        let send_to: String = match receiver {
            Some(r) => r,
            None => sender.to_owned(),
        };
        let funds_sent = match one_coin(funds) {
            Ok(c) => c,
            Err(e) => {
                return Err(ContractError::Payment(e));
            },
        };
        let ghost pred = trait_bundle_pred(bundle_id);
        let n = bundles.len();
        let mut i: usize = 0;
        while i < n && bundles[i].id != bundle_id
            invariant
                n == bundles@.len(),
                i <= n,
                pred == trait_bundle_pred(bundle_id),
                forall|k: int| 0 <= k < i ==> !#[trigger] pred(bundles@[k]),
            decreases n - i,
        {
            i = i + 1;
        }
        if i == n {
            proof {
                lemma_first_where_none(bundles@, pred);
            }
            return Err(ContractError::InvalidBundle);
        }
        proof {
            lemma_first_where_at(bundles@, pred, i as int);
        }
        let bundle = &bundles[i];
        if !(funds_sent == bundle.mint_price) {
            return Err(ContractError::IncorrectMintFunds);
        }
        let instructions = match fund_split(
            &funds_sent,
            self.config.burn_ratio,
            &self.config.destination,
        ) {
            Ok(v) => v,
            Err(()) => {
                return Err(ContractError::NoMintDestination);
            },
        };
        let m = bundle.traits.len();
        let mut mints: Vec<MintCommand<TraitMetadata>> = Vec::new();
        let mut k: usize = 0;
        while k < m
            invariant
                m == bundles@[i as int].traits@.len(),
                i < bundles@.len(),
                *bundle == bundles@[i as int],
                k <= m,
                self.token_index == old(self).token_index + k,
                old(self).token_index + m <= u64::MAX,
                mints@.len() == k,
                self.ownership == old(self).ownership,
                self.config == old(self).config,
                self.collection_address == old(self).collection_address,
                self.mintable_collection_address == old(self).mintable_collection_address,
                forall|j: int|
                    0 <= j < k ==> {
                        let cmd = #[trigger] mints@[j];
                        let members = bundles@[i as int].traits@;
                        &&& cmd.token_id@ == spec_token_key((old(self).token_index + 1 + j) as u64)
                        &&& cmd.owner@ == send_to@
                        &&& cmd.token_uri is None
                        &&& cmd.extension.trait_type == members[j].trait_type
                        &&& cmd.extension.trait_value == members[j].trait_value
                        &&& cmd.extension.trait_rarity == members[j].trait_rarity
                    },
            decreases m - k,
        {
            let member = &bundle.traits[k];
            let new_index = increment_token_index(&mut self.token_index);
            mints.push(
                MintCommand {
                    token_id: u64_to_dec(new_index),
                    owner: send_to.clone(),
                    token_uri: None,
                    extension: TraitMetadata {
                        trait_type: member.trait_type.clone(),
                        trait_value: member.trait_value.clone(),
                        trait_rarity: member.trait_rarity.clone(),
                    },
                },
            );
            k = k + 1;
        }
        Ok(MintPlan { fund_instructions: instructions, mints })
    }

    /// Opens one lootbox: the payment must equal the lootbox's price; a
    /// deterministic value drawn from the call context picks the member
    /// to mint by prefix-sum roulette over the weights. Returns the plan
    /// and the winning position.
    pub fn open_lootbox(
        &mut self,
        sender: &str,
        funds: &Vec<Coin>,
        lootboxes: &Vec<TraitLootbox>,
        lootbox_id: u32,
        receiver: Option<String>,
        block: &BlockInfo,
    ) -> (r: Result<(MintPlan<TraitMetadata>, usize), ContractError>)
        requires
            old(self).wf(),
            old(self).token_index < u64::MAX,
            lootboxes@.len() <= u32::MAX,
            forall|k: int| 0 <= k < lootboxes@.len() ==> trait_lootbox_wf(#[trigger] lootboxes@[k]),
        ensures
            ({
                let fidx = first_where(lootboxes@, trait_lootbox_pred(lootbox_id));
                let needs = spec_needs_destination(funds@[0].denom@, old(self).config.burn_ratio);
                &&& (r is Ok <==> spec_payment_ok(funds@) && fidx >= 0 && funds@[0].spec_eq(
                    lootboxes@[fidx].mint_price,
                ) && !(needs && old(self).config.destination is None))
                &&& (!spec_payment_ok(funds@) ==> r == Result::<
                    (MintPlan<TraitMetadata>, usize),
                    ContractError,
                >::Err(ContractError::Payment(spec_payment_error(funds@))))
                &&& (spec_payment_ok(funds@) && fidx < 0 ==> r == Result::<
                    (MintPlan<TraitMetadata>, usize),
                    ContractError,
                >::Err(ContractError::InvalidLootbox))
                &&& (spec_payment_ok(funds@) && fidx >= 0 && !funds@[0].spec_eq(
                    lootboxes@[fidx].mint_price,
                ) ==> r == Result::<(MintPlan<TraitMetadata>, usize), ContractError>::Err(
                    ContractError::IncorrectMintFunds,
                ))
                &&& (spec_payment_ok(funds@) && fidx >= 0 && funds@[0].spec_eq(
                    lootboxes@[fidx].mint_price,
                ) && needs && old(self).config.destination is None ==> r == Result::<
                    (MintPlan<TraitMetadata>, usize),
                    ContractError,
                >::Err(ContractError::NoMintDestination))
                &&& (r is Ok ==> {
                    let plan = r.unwrap().0;
                    let position = r.unwrap().1;
                    let lb = lootboxes@[fidx];
                    let draw = spec_random_1_to_x(
                        spec_send_to(receiver, sender@),
                        block.time_nanos,
                        block.height,
                        lootboxes@.len() as u32,
                        100,
                    );
                    &&& spec_split_shape(
                        plan.fund_instructions@,
                        funds@[0].denom@,
                        funds@[0].amount,
                        old(self).config.burn_ratio,
                        old(self).config.destination,
                    )
                    &&& position < lb.possibilities@.len()
                    &&& weight_sum(lb.possibilities@, position as int) < draw
                    &&& draw <= weight_sum(lb.possibilities@, position as int + 1)
                    &&& plan.mints@.len() == 1
                    &&& plan.mints@[0].token_id@ == spec_token_key(
                        (old(self).token_index + 1) as u64,
                    )
                    &&& plan.mints@[0].owner@ == spec_send_to(receiver, sender@)
                    &&& plan.mints@[0].token_uri is None
                    &&& plan.mints@[0].extension.trait_type == lb.traits@[
                    position as int].trait_type
                    &&& plan.mints@[0].extension.trait_value == lb.traits@[
                    position as int].trait_value
                    &&& plan.mints@[0].extension.trait_rarity == lb.traits@[
                    position as int].trait_rarity
                    &&& final(self).token_index == old(self).token_index + 1
                })
            }),
            r is Err ==> *final(self) == *old(self),
            final(self).wf(),
            final(self).ownership == old(self).ownership,
            final(self).config == old(self).config,
            final(self).collection_address == old(self).collection_address,
            final(self).mintable_collection_address == old(self).mintable_collection_address,
    {
        let send_to: String = match receiver {
            Some(r) => r,
            None => sender.to_owned(),
        };
        let funds_sent = match one_coin(funds) {
            Ok(c) => c,
            Err(e) => {
                return Err(ContractError::Payment(e));
            },
        };
        let ghost pred = trait_lootbox_pred(lootbox_id);
        let n = lootboxes.len();
        let mut i: usize = 0;
        while i < n && lootboxes[i].id != lootbox_id
            invariant
                n == lootboxes@.len(),
                i <= n,
                pred == trait_lootbox_pred(lootbox_id),
                forall|k: int| 0 <= k < i ==> !#[trigger] pred(lootboxes@[k]),
            decreases n - i,
        {
            i = i + 1;
        }
        if i == n {
            proof {
                lemma_first_where_none(lootboxes@, pred);
            }
            return Err(ContractError::InvalidLootbox);
        }
        proof {
            lemma_first_where_at(lootboxes@, pred, i as int);
        }
        let lootbox = &lootboxes[i];
        if !(funds_sent == lootbox.mint_price) {
            return Err(ContractError::IncorrectMintFunds);
        }
        let instructions = match fund_split(
            &funds_sent,
            self.config.burn_ratio,
            &self.config.destination,
        ) {
            Ok(v) => v,
            Err(()) => {
                return Err(ContractError::NoMintDestination);
            },
        };
        let draw = random_number_1_to_x(
            send_to.as_str(),
            block.time_nanos,
            block.height,
            lootboxes.len() as u32,
            100,
        );
        let position = select_weighted(&lootbox.possibilities, draw);
        let member = &lootbox.traits[position];
        let new_index = increment_token_index(&mut self.token_index);
        let command = MintCommand {
            token_id: u64_to_dec(new_index),
            owner: send_to,
            token_uri: None,
            extension: TraitMetadata {
                trait_type: member.trait_type.clone(),
                trait_value: member.trait_value.clone(),
                trait_rarity: member.trait_rarity.clone(),
            },
        };
        Ok((MintPlan { fund_instructions: instructions, mints: vec![command] }, position))
    }

    /// Answers the two queries: the configuration with the collection
    /// address (`None` while no collection is registered yet), and the
    /// allowed collection code identifier.
    pub fn query(&self, msg: TraitManagerQueryMsg) -> (r: Option<TraitManagerQueryResponse>)
        ensures
            match msg {
                TraitManagerQueryMsg::Config => {
                    match r {
                        Some(TraitManagerQueryResponse::Config(c)) => {
                            &&& (match self.collection_address {
                                Some(a) => c.collection_address@ == a@,
                                None => false,
                            })
                            &&& c.config == self.config
                        },
                        _ => r is None && self.collection_address is None,
                    }
                },
                TraitManagerQueryMsg::AllowedCollectionCodeId => {
                    match r {
                        Some(TraitManagerQueryResponse::AllowedCollectionCodeId(c)) => c.code_id
                            == self.config.collection_code_id,
                        _ => false,
                    }
                },
            },
    {
        match msg {
            TraitManagerQueryMsg::Config => {
                match &self.collection_address {
                    None => None,
                    Some(addr) => Some(
                        TraitManagerQueryResponse::Config(
                            TraitManagerConfigResponse {
                                collection_address: addr.clone(),
                                config: self.config.duplicate(),
                            },
                        ),
                    ),
                }
            },
            TraitManagerQueryMsg::AllowedCollectionCodeId => Some(
                TraitManagerQueryResponse::AllowedCollectionCodeId(
                    AllowedCollectionCodeIdResponse { code_id: self.config.collection_code_id },
                ),
            ),
        }
    }
}

} // verus!
