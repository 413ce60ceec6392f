//! The collection contract: per-token ownership with delegated approvals
//! and collection-wide operators, the authorization engine gating every
//! mutation, collection-level metadata with its one-way freeze, and
//! paginated enumeration of token keys in ascending order.

use vstd::prelude::*;

use crate::expiration::{BlockInfo, Expiration};
use crate::metadata::{Metadata, TraitMetadata};
use crate::ownership::{Action, Ownership, OwnershipError};
use crate::search::{first_where, lemma_first_where_at, lemma_first_where_no_earlier, lemma_first_where_none, lemma_first_where_props};
use crate::strings::{lex_lt, str_eq, str_lt};

verus! {

/// Which rules the collection enforces: character tokens must be locked
/// before they can be transferred; trait tokens have no such gate.
#[derive(Clone, Copy, PartialEq, Eq, Structural, Debug)]
pub enum CollectionKind {
    Character,
    Trait,
}

/// A token's on-chain extension, per collection kind.
#[derive(Debug)]
pub enum TokenExtension {
    Character(Metadata),
    Trait(TraitMetadata),
}

/// A per-token grant of transfer rights to one spender, until revoked,
/// consumed by a transfer, or lapsed.
#[derive(Debug)]
pub struct Approval {
    pub spender: String,
    pub expires: Expiration,
}

/// One token's record.
#[derive(Debug)]
pub struct TokenInfo {
    pub owner: String,
    /// In insertion order; at most one entry per spender.
    pub approvals: Vec<Approval>,
    pub token_uri: Option<String>,
    pub extension: TokenExtension,
}

/// A token record under its key.
#[derive(Debug)]
pub struct TokenEntry {
    pub id: String,
    pub token: TokenInfo,
}

/// A collection-wide grant: `operator` may act on every token of
/// `owner`, until revoked or lapsed.
#[derive(Debug)]
pub struct OperatorGrant {
    pub owner: String,
    pub operator: String,
    pub expires: Expiration,
}

/// The royalty attached to a collection; the share is in basis points,
/// ten thousand being the whole.
#[derive(Debug)]
pub struct RoyaltyInfo {
    pub payment_address: String,
    pub share_bps: u64,
}

/// Collection-level metadata.
#[derive(Debug)]
pub struct CollectionInfo {
    pub creator: String,
    pub description: String,
    pub image: Option<String>,
    pub external_link: Option<String>,
    pub explicit_content: Option<bool>,
    pub royalty_info: Option<RoyaltyInfo>,
}

/// Why a collection call failed; nothing is changed on any error.
#[derive(Clone, Copy, PartialEq, Eq, Structural, Debug)]
pub enum ContractError {
    Ownership(OwnershipError),
    /// A supplied URL did not parse.
    Parse,
    /// The token key is already taken.
    Claimed,
    /// The supplied expiry has already passed.
    Expired,
    /// The description exceeds the permitted length.
    DescriptionTooLong,
    /// The collection metadata has been frozen for good.
    CollectionInfoFrozen,
    /// A royalty share beyond the whole.
    InvalidRoyalties,
    /// Only the collection creator may do this.
    Unauthorized,
    /// A royalty share may never grow.
    RoyaltyShareIncreased,
    /// A character must be locked before it can be transferred.
    CharacterNotFrozen,
    /// No token under this key.
    CharacterNotFound,
}

/// The longest description `update_collection_info` accepts.
pub const MAX_DESCRIPTION_LENGTH: usize = 512;

/// The page size used when a query names none.
pub const DEFAULT_LIMIT: u32 = 10;

/// The largest page size a query can ask for.
pub const MAX_LIMIT: u32 = 100;

/// A URL the url crate accepts as absolute.
pub uninterp spec fn url_accepted(s: Seq<char>) -> bool;

/// Relies on url's `Url::parse`: acceptance is a function of the string
/// alone.
#[verifier::external_body]
fn parse_url_ok(s: &str) -> (r: bool)
    ensures
        r == url_accepted(s@),
{
    url::Url::parse(s).is_ok()
}

pub open spec fn token_id_pred(id: Seq<char>) -> spec_fn(TokenEntry) -> bool {
    |e: TokenEntry| e.id@ == id
}

pub open spec fn grant_pred(owner: Seq<char>, operator: Seq<char>) -> spec_fn(
    OperatorGrant,
) -> bool {
    |g: OperatorGrant| g.owner@ == owner && g.operator@ == operator
}

/// The collection contract's full state.
#[derive(Debug)]
pub struct Collection {
    pub kind: CollectionKind,
    pub name: String,
    pub symbol: String,
    /// The minter role: only its holder may mint.
    pub ownership: Ownership,
    pub collection_info: CollectionInfo,
    /// One-way gate on metadata edits.
    pub frozen_collection_info: bool,
    /// Token records in strictly ascending key order.
    pub tokens: Vec<TokenEntry>,
    /// At most one grant per `(owner, operator)` pair.
    pub operators: Vec<OperatorGrant>,
    /// Equals the number of live tokens.
    pub token_count: u64,
}

impl Collection {
    /// The structural invariant every operation preserves: keys strictly
    /// ascending (hence unique), one grant per pair, an accurate counter.
    pub open spec fn wf(self) -> bool {
        &&& (forall|i: int, j: int|
            0 <= i < j < self.tokens@.len() ==> lex_lt(
                #[trigger] self.tokens@[i].id@,
                #[trigger] self.tokens@[j].id@,
            ))
        &&& self.token_count == self.tokens@.len()
        &&& (forall|i: int, j: int|
            0 <= i < j < self.operators@.len() ==> !((#[trigger] self.operators@[i]).owner@
                == (#[trigger] self.operators@[j]).owner@ && self.operators@[i].operator@
                == self.operators@[j].operator@))
    }

    /// The position of the token under `id`, `-1` if none.
    pub open spec fn spec_token_index(self, id: Seq<char>) -> int {
        first_where(self.tokens@, token_id_pred(id))
    }

    pub open spec fn spec_has_token(self, id: Seq<char>) -> bool {
        self.spec_token_index(id) >= 0
    }

    /// The record of the token under `id`.
    pub open spec fn spec_token(self, id: Seq<char>) -> TokenInfo {
        self.tokens@[self.spec_token_index(id)].token
    }

    /// The position of the grant for `(owner, operator)`, `-1` if none.
    pub open spec fn spec_grant_index(self, owner: Seq<char>, operator: Seq<char>) -> int {
        first_where(self.operators@, grant_pred(owner, operator))
    }

    /// The expiry of the grant for `(owner, operator)`, if one exists.
    pub open spec fn spec_operator_grant(self, owner: Seq<char>, operator: Seq<char>) -> Option<
        Expiration,
    > {
        if self.spec_grant_index(owner, operator) >= 0 {
            Some(self.operators@[self.spec_grant_index(owner, operator)].expires)
        } else {
            None
        }
    }

    /// A live collection-wide grant lets `operator` act for `owner`.
    pub open spec fn spec_operator_ok(
        self,
        owner: Seq<char>,
        operator: Seq<char>,
        block: BlockInfo,
    ) -> bool {
        match self.spec_operator_grant(owner, operator) {
            Some(e) => !e.spec_is_expired(block),
            None => false,
        }
    }

    /// The caller may approve and revoke on this token: they own it, or
    /// hold a live operator grant from the owner.
    pub open spec fn spec_can_approve(
        self,
        token: TokenInfo,
        sender: Seq<char>,
        block: BlockInfo,
    ) -> bool {
        token.owner@ == sender || self.spec_operator_ok(token.owner@, sender, block)
    }

    /// The caller may move or destroy this token: they own it, hold a
    /// live per-token approval, or hold a live operator grant from the
    /// owner — and nothing else grants the right.
    pub open spec fn spec_transfer_allowed(
        self,
        token: TokenInfo,
        sender: Seq<char>,
        block: BlockInfo,
    ) -> bool {
        ||| token.owner@ == sender
        ||| spec_approval_for(token.approvals@, sender, block)
        ||| self.spec_operator_ok(token.owner@, sender, block)
    }

    /// A character token is transferable only once locked; trait tokens
    /// always are.
    pub open spec fn spec_transferable(self, token: TokenInfo) -> bool {
        match token.extension {
            TokenExtension::Character(m) => self.kind is Trait || m.locked,
            TokenExtension::Trait(_) => true,
        }
    }
}

/// A live per-token approval for this spender.
pub open spec fn spec_approval_for(
    approvals: Seq<Approval>,
    spender: Seq<char>,
    block: BlockInfo,
) -> bool {
    exists|i: int|
        0 <= i < approvals.len() && approvals[i].spender@ == spender
            && !approvals[i].expires.spec_is_expired(block)
}

impl Collection {
    fn find_token(&self, token_id: &str) -> (r: Option<usize>)
        ensures
            match r {
                Some(i) => i == self.spec_token_index(token_id@) && i < self.tokens@.len()
                    && self.tokens@[i as int].id@ == token_id@,
                None => self.spec_token_index(token_id@) == -1,
            },
    {
        let ghost pred = token_id_pred(token_id@);
        let n = self.tokens.len();
        let mut i: usize = 0;
        while i < n && !str_eq(self.tokens[i].id.as_str(), token_id)
            invariant
                n == self.tokens@.len(),
                i <= n,
                pred == token_id_pred(token_id@),
                forall|k: int| 0 <= k < i ==> !#[trigger] pred(self.tokens@[k]),
            decreases n - i,
        {
            i = i + 1;
        }
        if i == n {
            proof {
                lemma_first_where_none(self.tokens@, pred);
            }
            None
        } else {
            proof {
                lemma_first_where_at(self.tokens@, pred, i as int);
            }
            Some(i)
        }
    }

    fn find_grant(&self, owner: &str, operator: &str) -> (r: Option<usize>)
        ensures
            match r {
                Some(i) => i == self.spec_grant_index(owner@, operator@) && i
                    < self.operators@.len() && self.operators@[i as int].owner@ == owner@
                    && self.operators@[i as int].operator@ == operator@,
                None => self.spec_grant_index(owner@, operator@) == -1,
            },
    {
        let ghost pred = grant_pred(owner@, operator@);
        let n = self.operators.len();
        let mut i: usize = 0;
        while i < n && !(str_eq(self.operators[i].owner.as_str(), owner) && str_eq(
            self.operators[i].operator.as_str(),
            operator,
        ))
            invariant
                n == self.operators@.len(),
                i <= n,
                pred == grant_pred(owner@, operator@),
                forall|k: int| 0 <= k < i ==> !#[trigger] pred(self.operators@[k]),
            decreases n - i,
        {
            i = i + 1;
        }
        if i == n {
            proof {
                lemma_first_where_none(self.operators@, pred);
            }
            None
        } else {
            proof {
                lemma_first_where_at(self.operators@, pred, i as int);
            }
            Some(i)
        }
    }

    /// Whether `operator` currently holds a live grant from `owner`.
    fn operator_ok(&self, owner: &str, operator: &str, block: &BlockInfo) -> (r: bool)
        ensures
            r == self.spec_operator_ok(owner@, operator@, *block),
    {
        match self.find_grant(owner, operator) {
            None => false,
            Some(i) => !self.operators[i].expires.is_expired(block),
        }
    }

    /// The approve/revoke gate: the owner, or a live operator. Fails
    /// with the single unified `NotOwner` otherwise.
    pub fn check_can_approve(&self, block: &BlockInfo, sender: &str, token: &TokenInfo) -> (r:
        Result<(), ContractError>)
        ensures
            r is Ok <==> self.spec_can_approve(*token, sender@, *block),
            r is Err ==> r == Result::<(), ContractError>::Err(
                ContractError::Ownership(OwnershipError::NotOwner),
            ),
    {
        if str_eq(token.owner.as_str(), sender) {
            return Ok(());
        }
        if self.operator_ok(token.owner.as_str(), sender, block) {
            Ok(())
        } else {
            Err(ContractError::Ownership(OwnershipError::NotOwner))
        }
    }

    /// The transfer/send gate: a character must already be locked
    /// (`CharacterNotFrozen` otherwise); then the owner, a live
    /// per-token approval, or a live operator may move the token, and
    /// nobody else (`NotOwner`, deliberately uninformative).
    pub fn check_can_send(&self, block: &BlockInfo, sender: &str, token: &TokenInfo) -> (r: Result<
        (),
        ContractError,
    >)
        ensures
            !self.spec_transferable(*token) ==> r == Result::<(), ContractError>::Err(
                ContractError::CharacterNotFrozen,
            ),
            self.spec_transferable(*token) ==> {
                &&& (r is Ok <==> self.spec_transfer_allowed(*token, sender@, *block))
                &&& (r is Err ==> r == Result::<(), ContractError>::Err(
                    ContractError::Ownership(OwnershipError::NotOwner),
                ))
            },
    {
        let frozen = match &token.extension {
            TokenExtension::Character(m) => {
                match self.kind {
                    CollectionKind::Trait => true,
                    CollectionKind::Character => m.locked,
                }
            },
            TokenExtension::Trait(_) => true,
        };
        if !frozen {
            return Err(ContractError::CharacterNotFrozen);
        }
        self.check_can_burn_or_freeze(block, sender, token)
    }

    /// The burn/freeze gate: as the transfer gate, without the locked
    /// precondition.
    pub fn check_can_burn_or_freeze(
        &self,
        block: &BlockInfo,
        sender: &str,
        token: &TokenInfo,
    ) -> (r: Result<(), ContractError>)
        ensures
            r is Ok <==> self.spec_transfer_allowed(*token, sender@, *block),
            r is Err ==> r == Result::<(), ContractError>::Err(
                ContractError::Ownership(OwnershipError::NotOwner),
            ),
    {
        if str_eq(token.owner.as_str(), sender) {
            return Ok(());
        }
        if approval_for(&token.approvals, sender, block) {
            return Ok(());
        }
        if self.operator_ok(token.owner.as_str(), sender, block) {
            Ok(())
        } else {
            Err(ContractError::Ownership(OwnershipError::NotOwner))
        }
    }
}

/// Every token other than `id` reads the same in both states.
pub open spec fn spec_other_tokens_unchanged(pre: Collection, post: Collection, id: Seq<char>) -> bool {
    forall|other: Seq<char>|
        other != id ==> #[trigger] post.spec_has_token(other) == pre.spec_has_token(other) && (
        pre.spec_has_token(other) ==> post.spec_token(other) == pre.spec_token(other))
}

/// Every grant other than `(owner, operator)` reads the same in both
/// states.
pub open spec fn spec_other_grants_unchanged(
    pre: Collection,
    post: Collection,
    owner: Seq<char>,
    operator: Seq<char>,
) -> bool {
    forall|o2: Seq<char>, p2: Seq<char>|
        !(o2 == owner && p2 == operator) ==> #[trigger] post.spec_operator_grant(o2, p2)
            == pre.spec_operator_grant(o2, p2)
}

/// The non-token state a token operation leaves alone.
pub open spec fn spec_frame_unchanged(pre: Collection, post: Collection) -> bool {
    &&& post.kind == pre.kind
    &&& post.name == pre.name
    &&& post.symbol == pre.symbol
    &&& post.ownership == pre.ownership
    &&& post.collection_info == pre.collection_info
    &&& post.frozen_collection_info == pre.frozen_collection_info
}

/// Effects of inserting a fresh token entry at its sorted position.
proof fn lemma_insert_token_effects(pre: Collection, post: Collection, i: int, e: TokenEntry)
    requires
        pre.wf(),
        0 <= i <= pre.tokens@.len(),
        post.tokens@ == pre.tokens@.insert(i, e),
        forall|k: int| 0 <= k < i ==> lex_lt(#[trigger] pre.tokens@[k].id@, e.id@),
        forall|k: int|
            i <= k < pre.tokens@.len() ==> lex_lt(e.id@, #[trigger] pre.tokens@[k].id@),
        !pre.spec_has_token(e.id@),
        post.token_count == pre.token_count + 1,
        post.operators == pre.operators,
    ensures
        post.wf(),
        post.spec_token_index(e.id@) == i,
        post.spec_has_token(e.id@),
        post.spec_token(e.id@) == e.token,
        spec_other_tokens_unchanged(pre, post, e.id@),
        forall|o2: Seq<char>, p2: Seq<char>|
            #[trigger] post.spec_operator_grant(o2, p2) == pre.spec_operator_grant(o2, p2),
{
    let s = pre.tokens@;
    let t = post.tokens@;
    assert forall|a: int, b: int| 0 <= a < b < t.len() implies lex_lt(
        #[trigger] t[a].id@,
        #[trigger] t[b].id@,
    ) by {
        if a < i && b == i {
        } else if a == i && b > i {
        } else if a < i && b > i {
            crate::strings::lemma_lex_lt_trans(t[a].id@, e.id@, t[b].id@);
        }
    }
    lemma_first_where_props(s, token_id_pred(e.id@));
    lemma_first_where_no_earlier(s, token_id_pred(e.id@));
    assert forall|k: int| 0 <= k < s.len() implies !#[trigger] token_id_pred(e.id@)(s[k]) by {
        if token_id_pred(e.id@)(s[k]) {
            crate::search::lemma_first_where_found(s, token_id_pred(e.id@), k);
        }
    }
    crate::search::lemma_first_where_insert_only_match(s, i, e, token_id_pred(e.id@));
    assert forall|other: Seq<char>| other != e.id@ implies #[trigger] post.spec_has_token(other)
        == pre.spec_has_token(other) && (pre.spec_has_token(other) ==> post.spec_token(other)
        == pre.spec_token(other)) by {
        crate::search::lemma_first_where_insert_no_match(s, i, e, token_id_pred(other));
        crate::search::lemma_first_where_props(s, token_id_pred(other));
    }
}

/// Effects of replacing a token's record in place, keeping its key.
proof fn lemma_update_token_effects(pre: Collection, post: Collection, i: int, e: TokenEntry)
    requires
        pre.wf(),
        0 <= i < pre.tokens@.len(),
        post.tokens@ == pre.tokens@.update(i, e),
        e.id@ == pre.tokens@[i].id@,
        post.token_count == pre.token_count,
        post.operators == pre.operators,
    ensures
        post.wf(),
        post.spec_token_index(e.id@) == pre.spec_token_index(e.id@),
        pre.spec_token_index(e.id@) == i,
        post.spec_has_token(e.id@),
        post.spec_token(e.id@) == e.token,
        spec_other_tokens_unchanged(pre, post, e.id@),
        forall|o2: Seq<char>, p2: Seq<char>|
            #[trigger] post.spec_operator_grant(o2, p2) == pre.spec_operator_grant(o2, p2),
{
    let s = pre.tokens@;
    let t = post.tokens@;
    assert forall|a: int, b: int| 0 <= a < b < t.len() implies lex_lt(
        #[trigger] t[a].id@,
        #[trigger] t[b].id@,
    ) by {
        assert(t[a].id@ == s[a].id@);
        assert(t[b].id@ == s[b].id@);
    }
    assert forall|k: int| 0 <= k < i implies !#[trigger] token_id_pred(e.id@)(s[k]) by {
        crate::strings::lemma_lex_lt_asym(s[k].id@, s[i].id@);
    }
    lemma_first_where_at(s, token_id_pred(e.id@), i);
    crate::search::lemma_first_where_update(s, i, e, token_id_pred(e.id@));
    assert forall|other: Seq<char>| other != e.id@ implies #[trigger] post.spec_has_token(other)
        == pre.spec_has_token(other) && (pre.spec_has_token(other) ==> post.spec_token(other)
        == pre.spec_token(other)) by {
        crate::search::lemma_first_where_update(s, i, e, token_id_pred(other));
        crate::search::lemma_first_where_props(s, token_id_pred(other));
    }
}

/// Effects of removing the token at position `i`.
proof fn lemma_remove_token_effects(pre: Collection, post: Collection, i: int)
    requires
        pre.wf(),
        0 <= i < pre.tokens@.len(),
        post.tokens@ == pre.tokens@.remove(i),
        post.token_count == pre.token_count - 1,
        post.operators == pre.operators,
    ensures
        post.wf(),
        !post.spec_has_token(pre.tokens@[i].id@),
        spec_other_tokens_unchanged(pre, post, pre.tokens@[i].id@),
        forall|o2: Seq<char>, p2: Seq<char>|
            #[trigger] post.spec_operator_grant(o2, p2) == pre.spec_operator_grant(o2, p2),
{
    let s = pre.tokens@;
    let t = post.tokens@;
    let id = s[i].id@;
    assert forall|a: int, b: int| 0 <= a < b < t.len() implies lex_lt(
        #[trigger] t[a].id@,
        #[trigger] t[b].id@,
    ) by {
        if a < i {
            assert(t[a].id@ == s[a].id@);
        } else {
            assert(t[a].id@ == s[a + 1].id@);
        }
        if b < i {
            assert(t[b].id@ == s[b].id@);
        } else {
            assert(t[b].id@ == s[b + 1].id@);
        }
    }
    assert forall|k: int| 0 <= k < t.len() implies !#[trigger] token_id_pred(id)(t[k]) by {
        if k < i {
            crate::strings::lemma_lex_lt_asym(s[k].id@, s[i].id@);
        } else {
            crate::strings::lemma_lex_lt_asym(s[i].id@, s[k + 1].id@);
        }
    }
    lemma_first_where_none(t, token_id_pred(id));
    assert forall|other: Seq<char>| other != id implies #[trigger] post.spec_has_token(other)
        == pre.spec_has_token(other) && (pre.spec_has_token(other) ==> post.spec_token(other)
        == pre.spec_token(other)) by {
        crate::search::lemma_first_where_remove(s, i, token_id_pred(other));
        crate::search::lemma_first_where_props(s, token_id_pred(other));
    }
}

/// Accepts a royalty share of at most the whole (ten thousand basis
/// points), rejects anything above.
pub fn share_validate(share_bps: u64) -> (r: Result<u64, ContractError>)
    ensures
        r is Ok <==> share_bps <= 10000,
        r is Ok ==> r.unwrap() == share_bps,
        r is Err ==> r == Result::<u64, ContractError>::Err(ContractError::InvalidRoyalties),
{
    if share_bps > 10000 {
        return Err(ContractError::InvalidRoyalties);
    }
    Ok(share_bps)
}

/// The stored length of a description: its UTF-8 byte count, as
/// `str::len` reports it.
pub open spec fn spec_description_len(desc: Seq<char>) -> usize {
    vstd::utf8::encode_utf8(desc).len() as usize
}

/// The structural validity of supplied collection metadata: URLs parse,
/// the description fits, the royalty share is at most the whole.
pub open spec fn spec_collection_info_ok(info: CollectionInfo) -> bool {
    &&& (match info.image {
        Some(url) => url_accepted(url@),
        None => true,
    })
    &&& (match info.external_link {
        Some(url) => url_accepted(url@),
        None => true,
    })
    &&& spec_description_len(info.description@) <= MAX_DESCRIPTION_LENGTH
    &&& (match info.royalty_info {
        Some(r) => r.share_bps <= 10000,
        None => true,
    })
}

impl Collection {
    /// Builds a fresh collection: metadata is structurally validated
    /// before anything is stored, the minter role goes to `minter`, and
    /// no token, grant or freeze exists yet.
    pub fn instantiate(
        kind: CollectionKind,
        name: String,
        symbol: String,
        minter: String,
        collection_info: CollectionInfo,
    ) -> (r: Result<Collection, ContractError>)
        ensures
            r is Ok <==> spec_collection_info_ok(collection_info),
            r is Ok ==> {
                let c = r.unwrap();
                &&& c.wf()
                &&& c.kind == kind
                &&& c.name == name
                &&& c.symbol == symbol
                &&& c.ownership.spec_is_owner(minter@)
                &&& c.collection_info == collection_info
                &&& !c.frozen_collection_info
                &&& c.tokens@.len() == 0
                &&& c.operators@.len() == 0
                &&& c.token_count == 0
            },
    {
        if let Some(image) = &collection_info.image {
            if !parse_url_ok(image.as_str()) {
                return Err(ContractError::Parse);
            }
        }
        if let Some(link) = &collection_info.external_link {
            if !parse_url_ok(link.as_str()) {
                return Err(ContractError::Parse);
            }
        }
        if collection_info.description.as_str().len() > MAX_DESCRIPTION_LENGTH {
            return Err(ContractError::DescriptionTooLong);
        }
        if let Some(royalty) = &collection_info.royalty_info {
            if share_validate(royalty.share_bps).is_err() {
                return Err(ContractError::InvalidRoyalties);
            }
        }
        Ok(
            Collection {
                kind,
                name,
                symbol,
                ownership: Ownership::new(Some(minter)),
                collection_info,
                frozen_collection_info: false,
                tokens: Vec::new(),
                operators: Vec::new(),
                token_count: 0,
            },
        )
    }

    /// Creates a token under a caller-supplied key: only the minter may,
    /// the key must be fresh (`Claimed` otherwise), and the new token
    /// starts with the given owner and no approvals.
    pub fn mint(
        &mut self,
        sender: &str,
        token_id: String,
        owner: String,
        token_uri: Option<String>,
        extension: TokenExtension,
    ) -> (r: Result<(), ContractError>)
        requires
            old(self).wf(),
            old(self).token_count < u64::MAX,
        ensures
            final(self).wf(),
            r is Ok <==> old(self).ownership.spec_is_owner(sender@) && !old(self).spec_has_token(
                token_id@,
            ),
            !old(self).ownership.spec_is_owner(sender@) ==> r == Result::<(), ContractError>::Err(
                ContractError::Ownership(
                    if old(self).ownership.owner is None {
                        OwnershipError::NoOwner
                    } else {
                        OwnershipError::NotOwner
                    },
                ),
            ),
            old(self).ownership.spec_is_owner(sender@) && old(self).spec_has_token(token_id@)
                ==> r == Result::<(), ContractError>::Err(ContractError::Claimed),
            r is Err ==> *final(self) == *old(self),
            r is Ok ==> {
                &&& final(self).spec_has_token(token_id@)
                &&& final(self).spec_token(token_id@).owner == owner
                &&& final(self).spec_token(token_id@).approvals@.len() == 0
                &&& final(self).spec_token(token_id@).token_uri == token_uri
                &&& final(self).spec_token(token_id@).extension == extension
                &&& spec_other_tokens_unchanged(*old(self), *final(self), token_id@)
                &&& final(self).token_count == old(self).token_count + 1
                &&& final(self).operators == old(self).operators
                &&& spec_frame_unchanged(*old(self), *final(self))
            },
    {
        if let Err(e) = self.ownership.assert_owner(sender) {
            return Err(ContractError::Ownership(e));
        }
        if self.find_token(token_id.as_str()).is_some() {
            return Err(ContractError::Claimed);
        }
        let n = self.tokens.len();
        let mut i: usize = 0;
        while i < n && str_lt(self.tokens[i].id.as_str(), token_id.as_str())
            invariant
                n == self.tokens@.len(),
                i <= n,
                forall|k: int| 0 <= k < i ==> lex_lt(#[trigger] self.tokens@[k].id@, token_id@),
            decreases n - i,
        {
            i = i + 1;
        }
        proof {
            assert forall|k: int| i <= k < self.tokens@.len() implies lex_lt(
                token_id@,
                #[trigger] self.tokens@[k].id@,
            ) by {
                assert(!old(self).spec_has_token(token_id@));
                lemma_first_where_props(self.tokens@, token_id_pred(token_id@));
                if self.tokens@[k].id@ == token_id@ {
                    crate::search::lemma_first_where_found(
                        self.tokens@,
                        token_id_pred(token_id@),
                        k,
                    );
                }
                if k == i {
                    crate::strings::lemma_lex_lt_connex(token_id@, self.tokens@[k].id@);
                } else {
                    if self.tokens@[i as int].id@ == token_id@ {
                        crate::search::lemma_first_where_found(
                            self.tokens@,
                            token_id_pred(token_id@),
                            i as int,
                        );
                    }
                    crate::strings::lemma_lex_lt_connex(token_id@, self.tokens@[i as int].id@);
                    crate::strings::lemma_lex_lt_trans(
                        token_id@,
                        self.tokens@[i as int].id@,
                        self.tokens@[k].id@,
                    );
                }
            }
        }
        let entry = TokenEntry {
            id: token_id,
            token: TokenInfo { owner, approvals: Vec::new(), token_uri, extension },
        };
        let ghost pre = *self;
        let ghost e = entry;
        self.tokens.insert(i, entry);
        self.token_count = self.token_count + 1;
        proof {
            lemma_insert_token_effects(pre, *self, i as int, e);
        }
        Ok(())
    }
}

/// Keeps the approvals of every other spender.
pub open spec fn approval_keep_pred(spender: Seq<char>) -> spec_fn(Approval) -> bool {
    |a: Approval| a.spender@ != spender
}

/// Drops every approval held by `spender`, keeping the others in order.
fn remove_approvals_of(approvals: &mut Vec<Approval>, spender: &str)
    ensures
        final(approvals)@ == old(approvals)@.filter(approval_keep_pred(spender@)),
{
    let ghost orig = approvals@;
    let ghost pred = approval_keep_pred(spender@);
    let mut i: usize = 0;
    let ghost mut p: int = 0int;
    proof {
        assert(orig.subrange(0, 0).filter(pred) =~= Seq::<Approval>::empty());
        assert(orig.subrange(0, orig.len() as int) =~= orig);
        assert(approvals@ =~= orig.subrange(0, p).filter(pred) + orig.subrange(
            p,
            orig.len() as int,
        ));
    }
    while i < approvals.len()
        invariant
            0 <= p <= orig.len(),
            i == orig.subrange(0, p).filter(pred).len(),
            approvals@ == orig.subrange(0, p).filter(pred) + orig.subrange(p, orig.len() as int),
            pred == approval_keep_pred(spender@),
            orig == old(approvals)@,
        decreases orig.len() - p,
    {
        proof {
            broadcast use vstd::seq_lib::group_seq_lib_default;

            assert(approvals@[i as int] == orig[p]);
            assert(orig.subrange(0, p + 1) =~= orig.subrange(0, p) + seq![orig[p]]);
            Seq::<Approval>::filter_distributes_over_add(orig.subrange(0, p), seq![orig[p]], pred);
            reveal_with_fuel(Seq::<Approval>::filter, 3);
            assert(seq![orig[p]].drop_last() =~= Seq::<Approval>::empty());
        }
        if str_eq(approvals[i].spender.as_str(), spender) {
            approvals.remove(i);
            proof {
                assert(!pred(orig[p]));
                assert(seq![orig[p]].filter(pred) =~= Seq::<Approval>::empty());
                p = p + 1;
                assert(approvals@ =~= orig.subrange(0, p).filter(pred) + orig.subrange(
                    p,
                    orig.len() as int,
                ));
            }
        } else {
            proof {
                assert(pred(orig[p]));
                assert(seq![orig[p]].filter(pred) =~= seq![orig[p]]);
                p = p + 1;
                assert(approvals@ =~= orig.subrange(0, p).filter(pred) + orig.subrange(
                    p,
                    orig.len() as int,
                ));
            }
            i = i + 1;
        }
    }
    proof {
        assert(p == orig.len());
        assert(orig.subrange(0, orig.len() as int) =~= orig);
        assert(approvals@ =~= orig.filter(pred));
    }
}

/// The extension with the character lock flag set; a trait extension is
/// untouched.
pub open spec fn spec_locked_extension(e: TokenExtension) -> TokenExtension {
    match e {
        TokenExtension::Character(m) => TokenExtension::Character(
            Metadata {
                name: m.name,
                ears: m.ears,
                eyes: m.eyes,
                mouth: m.mouth,
                fur_type: m.fur_type,
                fur_color: m.fur_color,
                tail_shape: m.tail_shape,
                rarity: m.rarity,
                traits_equipped: m.traits_equipped,
                locked: true,
            },
        ),
        TokenExtension::Trait(t) => TokenExtension::Trait(t),
    }
}

/// What a transfer of one token holds after: the recipient owns it, its
/// approvals are cleared, everything else about it is kept.
pub open spec fn spec_transferred(
    pre: Collection,
    post: Collection,
    id: Seq<char>,
    recipient: String,
) -> bool {
    &&& post.spec_has_token(id)
    &&& post.spec_token(id).owner == recipient
    &&& post.spec_token(id).approvals@.len() == 0
    &&& post.spec_token(id).token_uri == pre.spec_token(id).token_uri
    &&& post.spec_token(id).extension == pre.spec_token(id).extension
    &&& spec_other_tokens_unchanged(pre, post, id)
    &&& post.token_count == pre.token_count
    &&& post.operators == pre.operators
    &&& spec_frame_unchanged(pre, post)
}

/// What a contract is told when a token is sent to it.
#[derive(Debug)]
pub struct ReceiveCommand {
    pub contract: String,
    pub sender: String,
    pub token_id: String,
    pub msg: Vec<u8>,
}

impl Collection {
    /// Moves a token to `recipient` and clears its approvals. Requires
    /// the transfer gate: a locked character (or any trait token), moved
    /// by its owner, a live approval holder, or a live operator.
    pub fn transfer_nft(
        &mut self,
        block: &BlockInfo,
        sender: &str,
        recipient: String,
        token_id: &str,
    ) -> (r: Result<(), ContractError>)
        requires
            old(self).wf(),
        ensures
            final(self).wf(),
            r is Ok <==> old(self).spec_has_token(token_id@) && old(self).spec_transferable(
                old(self).spec_token(token_id@),
            ) && old(self).spec_transfer_allowed(
                old(self).spec_token(token_id@),
                sender@,
                *block,
            ),
            !old(self).spec_has_token(token_id@) ==> r == Result::<(), ContractError>::Err(
                ContractError::CharacterNotFound,
            ),
            old(self).spec_has_token(token_id@) && !old(self).spec_transferable(
                old(self).spec_token(token_id@),
            ) ==> r == Result::<(), ContractError>::Err(ContractError::CharacterNotFrozen),
            old(self).spec_has_token(token_id@) && old(self).spec_transferable(
                old(self).spec_token(token_id@),
            ) && !old(self).spec_transfer_allowed(old(self).spec_token(token_id@), sender@, *block)
                ==> r == Result::<(), ContractError>::Err(
                ContractError::Ownership(OwnershipError::NotOwner),
            ),
            r is Err ==> *final(self) == *old(self),
            r is Ok ==> spec_transferred(*old(self), *final(self), token_id@, recipient),
    {
        let i = match self.find_token(token_id) {
            Some(i) => i,
            None => {
                return Err(ContractError::CharacterNotFound);
            },
        };
        if let Err(e) = self.check_can_send(block, sender, &self.tokens[i].token) {
            return Err(e);
        }
        let ghost pre = *self;
        let mut entry = self.tokens.remove(i);
        entry.token.owner = recipient;
        entry.token.approvals = Vec::new();
        let ghost e2 = entry;
        self.tokens.insert(i, entry);
        proof {
            assert(self.tokens@ =~= pre.tokens@.update(i as int, e2));
            lemma_update_token_effects(pre, *self, i as int, e2);
        }
        Ok(())
    }

    /// As `transfer_nft` toward a contract address, additionally
    /// packaging the notification the receiving contract is handed;
    /// delivery is the receiver's business.
    pub fn send_nft(
        &mut self,
        block: &BlockInfo,
        sender: &str,
        contract: String,
        token_id: String,
        msg: Vec<u8>,
    ) -> (r: Result<ReceiveCommand, ContractError>)
        requires
            old(self).wf(),
        ensures
            final(self).wf(),
            r is Ok <==> old(self).spec_has_token(token_id@) && old(self).spec_transferable(
                old(self).spec_token(token_id@),
            ) && old(self).spec_transfer_allowed(
                old(self).spec_token(token_id@),
                sender@,
                *block,
            ),
            !old(self).spec_has_token(token_id@) ==> r == Result::<
                ReceiveCommand,
                ContractError,
            >::Err(ContractError::CharacterNotFound),
            old(self).spec_has_token(token_id@) && !old(self).spec_transferable(
                old(self).spec_token(token_id@),
            ) ==> r == Result::<ReceiveCommand, ContractError>::Err(
                ContractError::CharacterNotFrozen,
            ),
            old(self).spec_has_token(token_id@) && old(self).spec_transferable(
                old(self).spec_token(token_id@),
            ) && !old(self).spec_transfer_allowed(old(self).spec_token(token_id@), sender@, *block)
                ==> r == Result::<ReceiveCommand, ContractError>::Err(
                ContractError::Ownership(OwnershipError::NotOwner),
            ),
            r is Err ==> *final(self) == *old(self),
            r is Ok ==> {
                let cmd = r.unwrap();
                &&& spec_transferred(
                    *old(self),
                    *final(self),
                    token_id@,
                    cmd.contract,
                )
                &&& cmd.contract == contract
                &&& cmd.sender@ == sender@
                &&& cmd.token_id == token_id
                &&& cmd.msg == msg
            },
    {
        let recipient = contract.clone();
        match self.transfer_nft(block, sender, recipient, token_id.as_str()) {
            Err(e) => Err(e),
            Ok(()) => Ok(
                ReceiveCommand { contract, sender: sender.to_owned(), token_id, msg },
            ),
        }
    }

    /// Grants `spender` transfer rights on one token: the owner or a
    /// live operator may, any earlier approval for the same spender is
    /// replaced, and an already-passed expiry is rejected.
    pub fn approve(
        &mut self,
        block: &BlockInfo,
        sender: &str,
        spender: String,
        token_id: &str,
        expires: Option<Expiration>,
    ) -> (r: Result<(), ContractError>)
        requires
            old(self).wf(),
        ensures
            final(self).wf(),
            ({
                let eff = match expires {
                    Some(e) => e,
                    None => Expiration::Never,
                };
                &&& (r is Ok <==> old(self).spec_has_token(token_id@) && old(
                    self,
                ).spec_can_approve(old(self).spec_token(token_id@), sender@, *block)
                    && !eff.spec_is_expired(*block))
                &&& (!old(self).spec_has_token(token_id@) ==> r == Result::<
                    (),
                    ContractError,
                >::Err(ContractError::CharacterNotFound))
                &&& (old(self).spec_has_token(token_id@) && !old(self).spec_can_approve(
                    old(self).spec_token(token_id@),
                    sender@,
                    *block,
                ) ==> r == Result::<(), ContractError>::Err(
                    ContractError::Ownership(OwnershipError::NotOwner),
                ))
                &&& (old(self).spec_has_token(token_id@) && old(self).spec_can_approve(
                    old(self).spec_token(token_id@),
                    sender@,
                    *block,
                ) && eff.spec_is_expired(*block) ==> r == Result::<(), ContractError>::Err(
                    ContractError::Expired,
                ))
                &&& (r is Ok ==> {
                    let aps = final(self).spec_token(token_id@).approvals@;
                    let olds = old(self).spec_token(token_id@).approvals@;
                    &&& final(self).spec_has_token(token_id@)
                    &&& aps.len() == olds.filter(approval_keep_pred(spender@)).len() + 1
                    &&& aps.drop_last() == olds.filter(approval_keep_pred(spender@))
                    &&& aps.last().spender == spender
                    &&& aps.last().expires == eff
                    &&& final(self).spec_token(token_id@).owner == old(self).spec_token(
                        token_id@,
                    ).owner
                    &&& final(self).spec_token(token_id@).token_uri == old(self).spec_token(
                        token_id@,
                    ).token_uri
                    &&& final(self).spec_token(token_id@).extension == old(self).spec_token(
                        token_id@,
                    ).extension
                    &&& spec_other_tokens_unchanged(*old(self), *final(self), token_id@)
                    &&& final(self).token_count == old(self).token_count
                    &&& final(self).operators == old(self).operators
                    &&& spec_frame_unchanged(*old(self), *final(self))
                })
            }),
            r is Err ==> *final(self) == *old(self),
    {
        let i = match self.find_token(token_id) {
            Some(i) => i,
            None => {
                return Err(ContractError::CharacterNotFound);
            },
        };
        if let Err(e) = self.check_can_approve(block, sender, &self.tokens[i].token) {
            return Err(e);
        }
        let eff = match expires {
            Some(e) => e,
            None => Expiration::Never,
        };
        if eff.is_expired(block) {
            return Err(ContractError::Expired);
        }
        let ghost pre = *self;
        let mut entry = self.tokens.remove(i);
        remove_approvals_of(&mut entry.token.approvals, spender.as_str());
        entry.token.approvals.push(Approval { spender, expires: eff });
        let ghost e2 = entry;
        self.tokens.insert(i, entry);
        proof {
            assert(self.tokens@ =~= pre.tokens@.update(i as int, e2));
            lemma_update_token_effects(pre, *self, i as int, e2);
        }
        Ok(())
    }

    /// Withdraws any approval `spender` holds on one token; absent
    /// approvals make this a no-op. The owner or a live operator may.
    pub fn revoke(&mut self, block: &BlockInfo, sender: &str, spender: &str, token_id: &str) -> (r:
        Result<(), ContractError>)
        requires
            old(self).wf(),
        ensures
            final(self).wf(),
            r is Ok <==> old(self).spec_has_token(token_id@) && old(self).spec_can_approve(
                old(self).spec_token(token_id@),
                sender@,
                *block,
            ),
            !old(self).spec_has_token(token_id@) ==> r == Result::<(), ContractError>::Err(
                ContractError::CharacterNotFound,
            ),
            old(self).spec_has_token(token_id@) && !old(self).spec_can_approve(
                old(self).spec_token(token_id@),
                sender@,
                *block,
            ) ==> r == Result::<(), ContractError>::Err(
                ContractError::Ownership(OwnershipError::NotOwner),
            ),
            r is Err ==> *final(self) == *old(self),
            r is Ok ==> {
                &&& final(self).spec_has_token(token_id@)
                &&& final(self).spec_token(token_id@).approvals@ == old(self).spec_token(
                    token_id@,
                ).approvals@.filter(approval_keep_pred(spender@))
                &&& final(self).spec_token(token_id@).owner == old(self).spec_token(
                    token_id@,
                ).owner
                &&& final(self).spec_token(token_id@).token_uri == old(self).spec_token(
                    token_id@,
                ).token_uri
                &&& final(self).spec_token(token_id@).extension == old(self).spec_token(
                    token_id@,
                ).extension
                &&& spec_other_tokens_unchanged(*old(self), *final(self), token_id@)
                &&& final(self).token_count == old(self).token_count
                &&& final(self).operators == old(self).operators
                &&& spec_frame_unchanged(*old(self), *final(self))
            },
    {
        let i = match self.find_token(token_id) {
            Some(i) => i,
            None => {
                return Err(ContractError::CharacterNotFound);
            },
        };
        if let Err(e) = self.check_can_approve(block, sender, &self.tokens[i].token) {
            return Err(e);
        }
        let ghost pre = *self;
        let mut entry = self.tokens.remove(i);
        remove_approvals_of(&mut entry.token.approvals, spender);
        let ghost e2 = entry;
        self.tokens.insert(i, entry);
        proof {
            assert(self.tokens@ =~= pre.tokens@.update(i as int, e2));
            lemma_update_token_effects(pre, *self, i as int, e2);
        }
        Ok(())
    }

    /// Destroys a token: its owner, a live approval holder, or a live
    /// operator may. The key is gone for good; the supply counter drops.
    pub fn burn(&mut self, block: &BlockInfo, sender: &str, token_id: &str) -> (r: Result<
        (),
        ContractError,
    >)
        requires
            old(self).wf(),
        ensures
            final(self).wf(),
            r is Ok <==> old(self).spec_has_token(token_id@) && old(self).spec_transfer_allowed(
                old(self).spec_token(token_id@),
                sender@,
                *block,
            ),
            !old(self).spec_has_token(token_id@) ==> r == Result::<(), ContractError>::Err(
                ContractError::CharacterNotFound,
            ),
            old(self).spec_has_token(token_id@) && !old(self).spec_transfer_allowed(
                old(self).spec_token(token_id@),
                sender@,
                *block,
            ) ==> r == Result::<(), ContractError>::Err(
                ContractError::Ownership(OwnershipError::NotOwner),
            ),
            r is Err ==> *final(self) == *old(self),
            r is Ok ==> {
                &&& !final(self).spec_has_token(token_id@)
                &&& spec_other_tokens_unchanged(*old(self), *final(self), token_id@)
                &&& final(self).token_count == old(self).token_count - 1
                &&& final(self).operators == old(self).operators
                &&& spec_frame_unchanged(*old(self), *final(self))
            },
    {
        let i = match self.find_token(token_id) {
            Some(i) => i,
            None => {
                return Err(ContractError::CharacterNotFound);
            },
        };
        if let Err(e) = self.check_can_burn_or_freeze(block, sender, &self.tokens[i].token) {
            return Err(e);
        }
        let ghost pre = *self;
        self.tokens.remove(i);
        self.token_count = self.token_count - 1;
        proof {
            lemma_remove_token_effects(pre, *self, i as int);
        }
        Ok(())
    }

    /// Sets a character's lock flag for good: its owner, a live approval
    /// holder, or a live operator may. There is no way back; only a
    /// locked character can be transferred.
    pub fn freeze_character(&mut self, block: &BlockInfo, sender: &str, token_id: &str) -> (r:
        Result<(), ContractError>)
        requires
            old(self).wf(),
        ensures
            final(self).wf(),
            r is Ok <==> old(self).spec_has_token(token_id@) && old(self).spec_transfer_allowed(
                old(self).spec_token(token_id@),
                sender@,
                *block,
            ),
            !old(self).spec_has_token(token_id@) ==> r == Result::<(), ContractError>::Err(
                ContractError::CharacterNotFound,
            ),
            old(self).spec_has_token(token_id@) && !old(self).spec_transfer_allowed(
                old(self).spec_token(token_id@),
                sender@,
                *block,
            ) ==> r == Result::<(), ContractError>::Err(
                ContractError::Ownership(OwnershipError::NotOwner),
            ),
            r is Err ==> *final(self) == *old(self),
            r is Ok ==> {
                &&& final(self).spec_has_token(token_id@)
                &&& final(self).spec_token(token_id@).extension == spec_locked_extension(
                    old(self).spec_token(token_id@).extension,
                )
                &&& final(self).spec_token(token_id@).owner == old(self).spec_token(
                    token_id@,
                ).owner
                &&& final(self).spec_token(token_id@).approvals == old(self).spec_token(
                    token_id@,
                ).approvals
                &&& final(self).spec_token(token_id@).token_uri == old(self).spec_token(
                    token_id@,
                ).token_uri
                &&& spec_other_tokens_unchanged(*old(self), *final(self), token_id@)
                &&& final(self).token_count == old(self).token_count
                &&& final(self).operators == old(self).operators
                &&& spec_frame_unchanged(*old(self), *final(self))
            },
    {
        let i = match self.find_token(token_id) {
            Some(i) => i,
            None => {
                return Err(ContractError::CharacterNotFound);
            },
        };
        if let Err(e) = self.check_can_burn_or_freeze(block, sender, &self.tokens[i].token) {
            return Err(e);
        }
        let ghost pre = *self;
        let entry = self.tokens.remove(i);
        let TokenEntry { id, token } = entry;
        let TokenInfo { owner, approvals, token_uri, extension } = token;
        let extension = match extension {
            TokenExtension::Character(m) => TokenExtension::Character(
                Metadata {
                    name: m.name,
                    ears: m.ears,
                    eyes: m.eyes,
                    mouth: m.mouth,
                    fur_type: m.fur_type,
                    fur_color: m.fur_color,
                    tail_shape: m.tail_shape,
                    rarity: m.rarity,
                    traits_equipped: m.traits_equipped,
                    locked: true,
                },
            ),
            TokenExtension::Trait(t) => TokenExtension::Trait(t),
        };
        let entry = TokenEntry {
            id,
            token: TokenInfo { owner, approvals, token_uri, extension },
        };
        let ghost e2 = entry;
        self.tokens.insert(i, entry);
        proof {
            assert(self.tokens@ =~= pre.tokens@.update(i as int, e2));
            lemma_update_token_effects(pre, *self, i as int, e2);
        }
        Ok(())
    }

    /// Replaces a token's character sheet wholesale. This is the
    /// manager-authorized path: only the minter may issue it, and the
    /// manager has already checked the token's owner; owner and
    /// approvals are untouched.
    pub fn modify(&mut self, sender: &str, token_id: &str, new_values: Metadata) -> (r: Result<
        (),
        ContractError,
    >)
        requires
            old(self).wf(),
        ensures
            final(self).wf(),
            r is Ok <==> old(self).ownership.spec_is_owner(sender@) && old(self).spec_has_token(
                token_id@,
            ),
            !old(self).ownership.spec_is_owner(sender@) ==> r == Result::<(), ContractError>::Err(
                ContractError::Ownership(
                    if old(self).ownership.owner is None {
                        OwnershipError::NoOwner
                    } else {
                        OwnershipError::NotOwner
                    },
                ),
            ),
            old(self).ownership.spec_is_owner(sender@) && !old(self).spec_has_token(token_id@)
                ==> r == Result::<(), ContractError>::Err(ContractError::CharacterNotFound),
            r is Err ==> *final(self) == *old(self),
            r is Ok ==> {
                &&& final(self).spec_has_token(token_id@)
                &&& final(self).spec_token(token_id@).extension == TokenExtension::Character(
                    new_values,
                )
                &&& final(self).spec_token(token_id@).owner == old(self).spec_token(
                    token_id@,
                ).owner
                &&& final(self).spec_token(token_id@).approvals == old(self).spec_token(
                    token_id@,
                ).approvals
                &&& final(self).spec_token(token_id@).token_uri == old(self).spec_token(
                    token_id@,
                ).token_uri
                &&& spec_other_tokens_unchanged(*old(self), *final(self), token_id@)
                &&& final(self).token_count == old(self).token_count
                &&& final(self).operators == old(self).operators
                &&& spec_frame_unchanged(*old(self), *final(self))
            },
    {
        if let Err(e) = self.ownership.assert_owner(sender) {
            return Err(ContractError::Ownership(e));
        }
        let i = match self.find_token(token_id) {
            Some(i) => i,
            None => {
                return Err(ContractError::CharacterNotFound);
            },
        };
        let ghost pre = *self;
        let mut entry = self.tokens.remove(i);
        entry.token.extension = TokenExtension::Character(new_values);
        let ghost e2 = entry;
        self.tokens.insert(i, entry);
        proof {
            assert(self.tokens@ =~= pre.tokens@.update(i as int, e2));
            lemma_update_token_effects(pre, *self, i as int, e2);
        }
        Ok(())
    }
}

/// Effects of replacing a grant in place, keeping its pair.
proof fn lemma_update_grant_effects(pre: Collection, post: Collection, i: int, g: OperatorGrant)
    requires
        pre.wf(),
        0 <= i < pre.operators@.len(),
        post.operators@ == pre.operators@.update(i, g),
        g.owner@ == pre.operators@[i].owner@,
        g.operator@ == pre.operators@[i].operator@,
        post.tokens == pre.tokens,
        post.token_count == pre.token_count,
    ensures
        post.wf(),
        post.spec_operator_grant(g.owner@, g.operator@) == Some(g.expires),
        spec_other_grants_unchanged(pre, post, g.owner@, g.operator@),
        forall|id: Seq<char>|
            #[trigger] post.spec_has_token(id) == pre.spec_has_token(id) && (pre.spec_has_token(
                id,
            ) ==> post.spec_token(id) == pre.spec_token(id)),
{
    let s = pre.operators@;
    let t = post.operators@;
    assert forall|a: int, b: int| 0 <= a < b < t.len() implies !((#[trigger] t[a]).owner@
        == (#[trigger] t[b]).owner@ && t[a].operator@ == t[b].operator@) by {
        assert(t[a].owner@ == s[a].owner@ && t[a].operator@ == s[a].operator@);
        assert(t[b].owner@ == s[b].owner@ && t[b].operator@ == s[b].operator@);
    }
    assert forall|k: int| 0 <= k < i implies !#[trigger] grant_pred(g.owner@, g.operator@)(
        s[k],
    ) by {}
    lemma_first_where_at(s, grant_pred(g.owner@, g.operator@), i);
    crate::search::lemma_first_where_update(s, i, g, grant_pred(g.owner@, g.operator@));
    assert forall|o2: Seq<char>, p2: Seq<char>| !(o2 == g.owner@ && p2 == g.operator@) implies
        #[trigger] post.spec_operator_grant(o2, p2) == pre.spec_operator_grant(o2, p2) by {
        crate::search::lemma_first_where_update(s, i, g, grant_pred(o2, p2));
        crate::search::lemma_first_where_props(s, grant_pred(o2, p2));
    }
}

/// Effects of appending a grant for a pair that had none.
proof fn lemma_push_grant_effects(pre: Collection, post: Collection, g: OperatorGrant)
    requires
        pre.wf(),
        post.operators@ == pre.operators@.push(g),
        pre.spec_grant_index(g.owner@, g.operator@) == -1,
        post.tokens == pre.tokens,
        post.token_count == pre.token_count,
    ensures
        post.wf(),
        post.spec_operator_grant(g.owner@, g.operator@) == Some(g.expires),
        spec_other_grants_unchanged(pre, post, g.owner@, g.operator@),
{
    let s = pre.operators@;
    let t = post.operators@;
    crate::search::lemma_first_where_all_not(s, grant_pred(g.owner@, g.operator@));
    assert(t =~= s.insert(s.len() as int, g));
    assert forall|a: int, b: int| 0 <= a < b < t.len() implies !((#[trigger] t[a]).owner@
        == (#[trigger] t[b]).owner@ && t[a].operator@ == t[b].operator@) by {
        if b == s.len() {
            assert(t[a] == s[a]);
            assert(!grant_pred(g.owner@, g.operator@)(s[a]));
        } else {
            assert(t[a] == s[a]);
            assert(t[b] == s[b]);
        }
    }
    crate::search::lemma_first_where_insert_only_match(
        s,
        s.len() as int,
        g,
        grant_pred(g.owner@, g.operator@),
    );
    assert forall|o2: Seq<char>, p2: Seq<char>| !(o2 == g.owner@ && p2 == g.operator@) implies
        #[trigger] post.spec_operator_grant(o2, p2) == pre.spec_operator_grant(o2, p2) by {
        crate::search::lemma_first_where_insert_no_match(s, s.len() as int, g, grant_pred(o2, p2));
        crate::search::lemma_first_where_props(s, grant_pred(o2, p2));
    }
}

/// Effects of removing the grant at position `i`.
proof fn lemma_remove_grant_effects(pre: Collection, post: Collection, i: int)
    requires
        pre.wf(),
        0 <= i < pre.operators@.len(),
        post.operators@ == pre.operators@.remove(i),
        post.tokens == pre.tokens,
        post.token_count == pre.token_count,
    ensures
        post.wf(),
        post.spec_operator_grant(pre.operators@[i].owner@, pre.operators@[i].operator@) is None,
        spec_other_grants_unchanged(
            pre,
            post,
            pre.operators@[i].owner@,
            pre.operators@[i].operator@,
        ),
{
    let s = pre.operators@;
    let t = post.operators@;
    let go = s[i].owner@;
    let gp = s[i].operator@;
    assert forall|a: int, b: int| 0 <= a < b < t.len() implies !((#[trigger] t[a]).owner@
        == (#[trigger] t[b]).owner@ && t[a].operator@ == t[b].operator@) by {
        if a < i {
            assert(t[a] == s[a]);
        } else {
            assert(t[a] == s[a + 1]);
        }
        if b < i {
            assert(t[b] == s[b]);
        } else {
            assert(t[b] == s[b + 1]);
        }
    }
    assert forall|k: int| 0 <= k < t.len() implies !#[trigger] grant_pred(go, gp)(t[k]) by {
        if k < i {
            assert(t[k] == s[k]);
        } else {
            assert(t[k] == s[k + 1]);
        }
    }
    lemma_first_where_none(t, grant_pred(go, gp));
    assert forall|o2: Seq<char>, p2: Seq<char>| !(o2 == go && p2 == gp) implies
        #[trigger] post.spec_operator_grant(o2, p2) == pre.spec_operator_grant(o2, p2) by {
        assert(!grant_pred(o2, p2)(s[i]));
        crate::search::lemma_first_where_remove(s, i, grant_pred(o2, p2));
        crate::search::lemma_first_where_props(s, grant_pred(o2, p2));
    }
}

impl Collection {
    /// Grants `operator` owner-equivalent rights over every token the
    /// caller owns, replacing any earlier grant; a passed expiry is
    /// rejected. Callers always control their own operator table.
    pub fn approve_all(
        &mut self,
        block: &BlockInfo,
        sender: &str,
        operator: String,
        expires: Option<Expiration>,
    ) -> (r: Result<(), ContractError>)
        requires
            old(self).wf(),
        ensures
            final(self).wf(),
            ({
                let eff = match expires {
                    Some(e) => e,
                    None => Expiration::Never,
                };
                &&& (r is Ok <==> !eff.spec_is_expired(*block))
                &&& (r is Err ==> r == Result::<(), ContractError>::Err(ContractError::Expired))
                &&& (r is Ok ==> {
                    &&& final(self).spec_operator_grant(sender@, operator@) == Some(eff)
                    &&& spec_other_grants_unchanged(*old(self), *final(self), sender@, operator@)
                    &&& final(self).tokens == old(self).tokens
                    &&& final(self).token_count == old(self).token_count
                    &&& spec_frame_unchanged(*old(self), *final(self))
                })
            }),
            r is Err ==> *final(self) == *old(self),
    {
        let eff = match expires {
            Some(e) => e,
            None => Expiration::Never,
        };
        if eff.is_expired(block) {
            return Err(ContractError::Expired);
        }
        let ghost pre = *self;
        match self.find_grant(sender, operator.as_str()) {
            Some(i) => {
                let mut grant = self.operators.remove(i);
                grant.expires = eff;
                let ghost g2 = grant;
                self.operators.insert(i, grant);
                proof {
                    assert(self.operators@ =~= pre.operators@.update(i as int, g2));
                    lemma_update_grant_effects(pre, *self, i as int, g2);
                }
            },
            None => {
                let grant = OperatorGrant { owner: sender.to_owned(), operator, expires: eff };
                let ghost g2 = grant;
                self.operators.push(grant);
                proof {
                    lemma_push_grant_effects(pre, *self, g2);
                }
            },
        }
        Ok(())
    }

    /// Withdraws any collection-wide grant the caller gave `operator`;
    /// a no-op if none stands.
    pub fn revoke_all(&mut self, sender: &str, operator: &str) -> (r: Result<(), ContractError>)
        requires
            old(self).wf(),
        ensures
            final(self).wf(),
            r is Ok,
            final(self).spec_operator_grant(sender@, operator@) is None,
            spec_other_grants_unchanged(*old(self), *final(self), sender@, operator@),
            final(self).tokens == old(self).tokens,
            final(self).token_count == old(self).token_count,
            spec_frame_unchanged(*old(self), *final(self)),
    {
        let ghost pre = *self;
        match self.find_grant(sender, operator) {
            Some(i) => {
                self.operators.remove(i);
                proof {
                    assert(pre.operators@[i as int].owner@ == sender@);
                    assert(pre.operators@[i as int].operator@ == operator@);
                    lemma_remove_grant_effects(pre, *self, i as int);
                }
            },
            None => {},
        }
        Ok(())
    }

    /// Applies an ownership-transfer action to the minter role.
    pub fn update_ownership(&mut self, block: &BlockInfo, sender: &str, action: Action) -> (r:
        Result<(), ContractError>)
        requires
            old(self).wf(),
        ensures
            final(self).wf(),
            r is Ok <==> (match action {
                Action::TransferOwnership { .. } => old(self).ownership.spec_transfer_ok(sender@),
                Action::AcceptOwnership => old(self).ownership.spec_accept_ok(*block, sender@),
                Action::RenounceOwnership => old(self).ownership.spec_is_owner(sender@),
            }),
            r is Err ==> *final(self) == *old(self),
            final(self).kind == old(self).kind,
            final(self).name == old(self).name,
            final(self).symbol == old(self).symbol,
            final(self).collection_info == old(self).collection_info,
            final(self).frozen_collection_info == old(self).frozen_collection_info,
            final(self).tokens == old(self).tokens,
            final(self).operators == old(self).operators,
            final(self).token_count == old(self).token_count,
            r is Ok ==> (match action {
                Action::TransferOwnership { new_owner, expiry } => {
                    &&& final(self).ownership.owner == old(self).ownership.owner
                    &&& (match final(self).ownership.pending_owner {
                        Some(p) => p@ == new_owner@,
                        None => false,
                    })
                },
                Action::AcceptOwnership => final(self).ownership.owner == old(
                    self,
                ).ownership.pending_owner,
                Action::RenounceOwnership => final(self).ownership.owner is None,
            }),
    {
        match self.ownership.update(block, sender, action) {
            Ok(()) => Ok(()),
            Err(e) => Err(ContractError::Ownership(e)),
        }
    }
}

/// A partial update of the collection metadata: absent fields keep
/// their stored value; the explicit-content flag is replaced as given;
/// the royalty field carries its own inner option.
#[derive(Debug)]
pub struct UpdateCollectionInfoMsg {
    pub description: Option<String>,
    pub image: Option<String>,
    pub external_link: Option<Option<String>>,
    pub explicit_content: Option<bool>,
    pub royalty_info: Option<Option<RoyaltyInfo>>,
}

impl Collection {
    /// Edits the collection metadata: only the creator may, never once
    /// the metadata is frozen, all inputs are validated before anything
    /// is stored, and a royalty share may only stay or shrink — never
    /// grow, and never appear where none was.
    pub fn update_collection_info(&mut self, sender: &str, msg: UpdateCollectionInfoMsg) -> (r:
        Result<(), ContractError>)
        requires
            old(self).wf(),
        ensures
            final(self).wf(),
            ({
                let pre = *old(self);
                let new_desc = match msg.description {
                    Some(d) => d,
                    None => pre.collection_info.description,
                };
                let new_image = match msg.image {
                    Some(i) => Some(i),
                    None => pre.collection_info.image,
                };
                let new_link = match msg.external_link {
                    Some(l) => l,
                    None => pre.collection_info.external_link,
                };
                let new_royalty = match msg.royalty_info {
                    Some(o) => o,
                    None => pre.collection_info.royalty_info,
                };
                let desc_ok = spec_description_len(new_desc@) <= MAX_DESCRIPTION_LENGTH;
                let image_ok = match new_image {
                    Some(i) => url_accepted(i@),
                    None => true,
                };
                let link_ok = match new_link {
                    Some(l) => url_accepted(l@),
                    None => true,
                };
                let royalty_ok = match new_royalty {
                    Some(nr) => (match pre.collection_info.royalty_info {
                        Some(cr) => nr.share_bps <= cr.share_bps && nr.share_bps <= 10000,
                        None => false,
                    }),
                    None => true,
                };
                &&& (r is Ok <==> !pre.frozen_collection_info
                    && pre.collection_info.creator@ == sender@ && desc_ok && image_ok && link_ok
                    && royalty_ok)
                &&& (pre.frozen_collection_info ==> r == Result::<(), ContractError>::Err(
                    ContractError::CollectionInfoFrozen,
                ))
                &&& (!pre.frozen_collection_info && pre.collection_info.creator@ != sender@ ==> r
                    == Result::<(), ContractError>::Err(ContractError::Unauthorized))
                &&& (!pre.frozen_collection_info && pre.collection_info.creator@ == sender@
                    && !desc_ok ==> r == Result::<(), ContractError>::Err(
                    ContractError::DescriptionTooLong,
                ))
                &&& (!pre.frozen_collection_info && pre.collection_info.creator@ == sender@
                    && desc_ok && !image_ok ==> r == Result::<(), ContractError>::Err(
                    ContractError::Parse,
                ))
                &&& (!pre.frozen_collection_info && pre.collection_info.creator@ == sender@
                    && desc_ok && image_ok && !link_ok ==> r == Result::<(), ContractError>::Err(
                    ContractError::Parse,
                ))
                &&& (!pre.frozen_collection_info && pre.collection_info.creator@ == sender@
                    && desc_ok && image_ok && link_ok && !royalty_ok ==> r == Result::<
                    (),
                    ContractError,
                >::Err(
                    if (match new_royalty {
                        Some(nr) => (match pre.collection_info.royalty_info {
                            Some(cr) => nr.share_bps > cr.share_bps,
                            None => true,
                        }),
                        None => false,
                    }) {
                        ContractError::RoyaltyShareIncreased
                    } else {
                        ContractError::InvalidRoyalties
                    },
                ))
                &&& (r is Ok ==> {
                    &&& final(self).collection_info.creator == pre.collection_info.creator
                    &&& final(self).collection_info.description == new_desc
                    &&& final(self).collection_info.image == new_image
                    &&& final(self).collection_info.external_link == new_link
                    &&& final(self).collection_info.explicit_content == msg.explicit_content
                    &&& final(self).collection_info.royalty_info == new_royalty
                    &&& final(self).frozen_collection_info == pre.frozen_collection_info
                    &&& final(self).kind == pre.kind
                    &&& final(self).name == pre.name
                    &&& final(self).symbol == pre.symbol
                    &&& final(self).ownership == pre.ownership
                    &&& final(self).tokens == pre.tokens
                    &&& final(self).operators == pre.operators
                    &&& final(self).token_count == pre.token_count
                })
            }),
            r is Err ==> *final(self) == *old(self),
    {
        if self.frozen_collection_info {
            return Err(ContractError::CollectionInfoFrozen);
        }
        if !str_eq(self.collection_info.creator.as_str(), sender) {
            return Err(ContractError::Unauthorized);
        }
        let new_desc = match msg.description {
            Some(d) => d,
            None => self.collection_info.description.clone(),
        };
        if new_desc.as_str().len() > MAX_DESCRIPTION_LENGTH {
            return Err(ContractError::DescriptionTooLong);
        }
        let new_image = match msg.image {
            Some(i) => Some(i),
            None => crate::metadata::clone_opt_string(&self.collection_info.image),
        };
        if let Some(image) = &new_image {
            if !parse_url_ok(image.as_str()) {
                return Err(ContractError::Parse);
            }
        }
        let new_link = match msg.external_link {
            Some(l) => l,
            None => crate::metadata::clone_opt_string(&self.collection_info.external_link),
        };
        if let Some(link) = &new_link {
            if !parse_url_ok(link.as_str()) {
                return Err(ContractError::Parse);
            }
        }
        let new_royalty = match msg.royalty_info {
            Some(o) => o,
            None => clone_opt_royalty(&self.collection_info.royalty_info),
        };
        if let Some(nr) = &new_royalty {
            match &self.collection_info.royalty_info {
                Some(cr) => {
                    if nr.share_bps > cr.share_bps {
                        return Err(ContractError::RoyaltyShareIncreased);
                    }
                },
                None => {
                    return Err(ContractError::RoyaltyShareIncreased);
                },
            }
            if share_validate(nr.share_bps).is_err() {
                return Err(ContractError::InvalidRoyalties);
            }
        }
        self.collection_info.description = new_desc;
        self.collection_info.image = new_image;
        self.collection_info.external_link = new_link;
        self.collection_info.explicit_content = msg.explicit_content;
        self.collection_info.royalty_info = new_royalty;
        Ok(())
    }

    /// Freezes the collection metadata for good: only the creator may,
    /// and no later call can undo it.
    pub fn freeze_collection_info(&mut self, sender: &str) -> (r: Result<(), ContractError>)
        requires
            old(self).wf(),
        ensures
            final(self).wf(),
            r is Ok <==> old(self).collection_info.creator@ == sender@,
            r is Err ==> r == Result::<(), ContractError>::Err(ContractError::Unauthorized)
                && *final(self) == *old(self),
            r is Ok ==> {
                &&& final(self).frozen_collection_info
                &&& final(self).collection_info == old(self).collection_info
                &&& final(self).kind == old(self).kind
                &&& final(self).name == old(self).name
                &&& final(self).symbol == old(self).symbol
                &&& final(self).ownership == old(self).ownership
                &&& final(self).tokens == old(self).tokens
                &&& final(self).operators == old(self).operators
                &&& final(self).token_count == old(self).token_count
            },
    {
        if !str_eq(self.collection_info.creator.as_str(), sender) {
            return Err(ContractError::Unauthorized);
        }
        self.frozen_collection_info = true;
        Ok(())
    }
}

fn clone_opt_royalty(o: &Option<RoyaltyInfo>) -> (r: Option<RoyaltyInfo>)
    ensures
        r == *o,
{
    match o {
        None => None,
        Some(ri) => Some(
            RoyaltyInfo { payment_address: ri.payment_address.clone(), share_bps: ri.share_bps },
        ),
    }
}

/// Shows who can mint.
#[derive(Debug)]
pub struct MinterResponse {
    pub minter: Option<String>,
}

/// The collection's name and symbol.
#[derive(Debug)]
pub struct ContractInfoResponse {
    pub name: String,
    pub symbol: String,
}

/// One token's metadata.
#[derive(Debug)]
pub struct NftInfoResponse {
    pub token_uri: Option<String>,
    pub extension: TokenExtension,
}

/// One token's owner and approvals.
#[derive(Debug)]
pub struct OwnerOfResponse {
    pub owner: String,
    pub approvals: Vec<Approval>,
}

/// One character token's owner and sheet.
#[derive(Debug)]
pub struct CharacterInfoResponse {
    pub owner: String,
    pub token_info: Metadata,
}

/// The collection metadata as served to queries.
#[derive(Debug)]
pub struct CollectionInfoResponse {
    pub creator: String,
    pub description: String,
    pub image: Option<String>,
    pub external_link: Option<String>,
    pub explicit_content: Option<bool>,
    pub royalty_info: Option<RoyaltyInfo>,
}

/// Extensions with the same contents.
pub open spec fn spec_ext_eq(a: TokenExtension, b: TokenExtension) -> bool {
    match (a, b) {
        (TokenExtension::Character(x), TokenExtension::Character(y)) => x.spec_eq(y),
        (TokenExtension::Trait(x), TokenExtension::Trait(y)) => x == y,
        _ => false,
    }
}

fn clone_extension(e: &TokenExtension) -> (r: TokenExtension)
    ensures
        spec_ext_eq(r, *e),
{
    match e {
        TokenExtension::Character(m) => TokenExtension::Character(m.duplicate()),
        TokenExtension::Trait(t) => TokenExtension::Trait(t.duplicate()),
    }
}

/// Approvals that have not lapsed.
pub open spec fn live_approval_pred(block: BlockInfo) -> spec_fn(Approval) -> bool {
    |a: Approval| !a.expires.spec_is_expired(block)
}

/// Entries owned by `owner`.
pub open spec fn owner_entry_pred(owner: Seq<char>) -> spec_fn(TokenEntry) -> bool {
    |e: TokenEntry| e.token.owner@ == owner
}

/// Entries whose key sorts strictly after `start`.
pub open spec fn entry_after_pred(start: Seq<char>) -> spec_fn(TokenEntry) -> bool {
    |e: TokenEntry| lex_lt(start, e.id@)
}

/// Where a page begins in an ascending entry list: at the first key
/// strictly after `start_after`, at the start when none is given, past
/// the end when nothing follows.
pub open spec fn spec_page_from(s: Seq<TokenEntry>, start_after: Option<Seq<char>>) -> int {
    match start_after {
        None => 0,
        Some(st) => {
            let f = first_where(s, entry_after_pred(st));
            if f < 0 {
                s.len() as int
            } else {
                f
            }
        },
    }
}

/// The effective page size: the default when unset, capped at the
/// maximum.
pub open spec fn spec_page_limit(limit: Option<u32>) -> int {
    let l = match limit {
        Some(l) => l,
        None => DEFAULT_LIMIT,
    };
    if l > MAX_LIMIT {
        MAX_LIMIT as int
    } else {
        l as int
    }
}

impl Collection {
    /// The current holder of the minter role.
    pub fn minter(&self) -> (r: MinterResponse)
        ensures
            r.minter == self.ownership.owner,
    {
        MinterResponse { minter: crate::metadata::clone_opt_string(&self.ownership.owner) }
    }

    pub fn contract_info(&self) -> (r: ContractInfoResponse)
        ensures
            r.name == self.name,
            r.symbol == self.symbol,
    {
        ContractInfoResponse { name: self.name.clone(), symbol: self.symbol.clone() }
    }

    /// The number of live tokens.
    pub fn num_tokens(&self) -> (r: u64)
        ensures
            r == self.token_count,
    {
        self.token_count
    }

    /// One token's metadata; fails when the key is unknown.
    pub fn nft_info(&self, token_id: &str) -> (r: Result<NftInfoResponse, ContractError>)
        ensures
            r is Ok <==> self.spec_has_token(token_id@),
            r is Err ==> r == Result::<NftInfoResponse, ContractError>::Err(
                ContractError::CharacterNotFound,
            ),
            r is Ok ==> {
                let info = r.unwrap();
                &&& info.token_uri == self.spec_token(token_id@).token_uri
                &&& spec_ext_eq(info.extension, self.spec_token(token_id@).extension)
            },
    {
        let i = match self.find_token(token_id) {
            Some(i) => i,
            None => {
                return Err(ContractError::CharacterNotFound);
            },
        };
        Ok(
            NftInfoResponse {
                token_uri: crate::metadata::clone_opt_string(&self.tokens[i].token.token_uri),
                extension: clone_extension(&self.tokens[i].token.extension),
            },
        )
    }

    /// One token's owner and its approvals, lapsed ones filtered out
    /// unless asked for; fails when the key is unknown.
    pub fn owner_of(&self, block: &BlockInfo, token_id: &str, include_expired: bool) -> (r: Result<
        OwnerOfResponse,
        ContractError,
    >)
        ensures
            r is Ok <==> self.spec_has_token(token_id@),
            r is Err ==> r == Result::<OwnerOfResponse, ContractError>::Err(
                ContractError::CharacterNotFound,
            ),
            r is Ok ==> {
                let resp = r.unwrap();
                &&& resp.owner@ == self.spec_token(token_id@).owner@
                &&& (include_expired ==> resp.approvals@ == self.spec_token(token_id@).approvals@)
                &&& (!include_expired ==> resp.approvals@ == self.spec_token(
                    token_id@,
                ).approvals@.filter(live_approval_pred(*block)))
            },
    {
        let i = match self.find_token(token_id) {
            Some(i) => i,
            None => {
                return Err(ContractError::CharacterNotFound);
            },
        };
        let source = &self.tokens[i].token.approvals;
        let n = source.len();
        let mut approvals: Vec<Approval> = Vec::new();
        let ghost pred = live_approval_pred(*block);
        let mut j: usize = 0;
        proof {
            assert(source@.subrange(0, 0) =~= Seq::<Approval>::empty());
            assert(Seq::<Approval>::empty().filter(pred) =~= Seq::<Approval>::empty());
        }
        while j < n
            invariant
                n == source@.len(),
                j <= n,
                pred == live_approval_pred(*block),
                source == &self.tokens@[self.spec_token_index(token_id@)].token.approvals,
                include_expired ==> approvals@ == source@.subrange(0, j as int),
                !include_expired ==> approvals@ == source@.subrange(0, j as int).filter(pred),
            decreases n - j,
        {
            proof {
                broadcast use vstd::seq_lib::group_seq_lib_default;

                assert(source@.subrange(0, j + 1) =~= source@.subrange(0, j as int) + seq![
                    source@[j as int],
                ]);
                Seq::<Approval>::filter_distributes_over_add(
                    source@.subrange(0, j as int),
                    seq![source@[j as int]],
                    pred,
                );
                reveal_with_fuel(Seq::<Approval>::filter, 3);
                assert(seq![source@[j as int]].drop_last() =~= Seq::<Approval>::empty());
                if pred(source@[j as int]) {
                    assert(seq![source@[j as int]].filter(pred) =~= seq![source@[j as int]]);
                } else {
                    assert(seq![source@[j as int]].filter(pred) =~= Seq::<Approval>::empty());
                }
            }
            let a = &source[j];
            if include_expired || !a.expires.is_expired(block) {
                approvals.push(Approval { spender: a.spender.clone(), expires: a.expires });
            }
            j = j + 1;
        }
        proof {
            assert(source@.subrange(0, n as int) =~= source@);
        }
        Ok(
            OwnerOfResponse { owner: self.tokens[i].token.owner.clone(), approvals },
        )
    }

    /// One character's owner and sheet; fails when the key is unknown
    /// or the token carries no character sheet.
    pub fn character_info(&self, token_id: &str) -> (r: Result<
        CharacterInfoResponse,
        ContractError,
    >)
        ensures
            r is Ok <==> self.spec_has_token(token_id@) && self.spec_token(
                token_id@,
            ).extension is Character,
            r is Err ==> r == Result::<CharacterInfoResponse, ContractError>::Err(
                ContractError::CharacterNotFound,
            ),
            r is Ok ==> {
                let resp = r.unwrap();
                &&& resp.owner@ == self.spec_token(token_id@).owner@
                &&& (match self.spec_token(token_id@).extension {
                    TokenExtension::Character(m) => resp.token_info.spec_eq(m),
                    TokenExtension::Trait(_) => false,
                })
            },
    {
        let i = match self.find_token(token_id) {
            Some(i) => i,
            None => {
                return Err(ContractError::CharacterNotFound);
            },
        };
        match &self.tokens[i].token.extension {
            TokenExtension::Character(m) => Ok(
                CharacterInfoResponse {
                    owner: self.tokens[i].token.owner.clone(),
                    token_info: m.duplicate(),
                },
            ),
            TokenExtension::Trait(_) => Err(ContractError::CharacterNotFound),
        }
    }

    /// The collection metadata.
    pub fn query_collection_info(&self) -> (r: CollectionInfoResponse)
        ensures
            r.creator == self.collection_info.creator,
            r.description == self.collection_info.description,
            r.image == self.collection_info.image,
            r.external_link == self.collection_info.external_link,
            r.explicit_content == self.collection_info.explicit_content,
            r.royalty_info == self.collection_info.royalty_info,
    {
        CollectionInfoResponse {
            creator: self.collection_info.creator.clone(),
            description: self.collection_info.description.clone(),
            image: crate::metadata::clone_opt_string(&self.collection_info.image),
            external_link: crate::metadata::clone_opt_string(&self.collection_info.external_link),
            explicit_content: self.collection_info.explicit_content,
            royalty_info: clone_opt_royalty(&self.collection_info.royalty_info),
        }
    }

    /// All token keys in ascending order, `start_after` exclusive, at
    /// most one page.
    pub fn all_tokens(&self, start_after: &Option<String>, limit: Option<u32>) -> (r: Vec<String>)
        requires
            self.wf(),
        ensures
            ({
                let sa = match *start_after {
                    Some(s) => Some(s@),
                    None => None,
                };
                let from = spec_page_from(self.tokens@, sa);
                let lim = spec_page_limit(limit);
                let upto = if from + lim <= self.tokens@.len() {
                    from + lim
                } else {
                    self.tokens@.len() as int
                };
                &&& r@.len() == upto - from
                &&& (forall|j: int|
                    0 <= j < r@.len() ==> #[trigger] r@[j] == self.tokens@[from + j].id)
            }),
    {
        let n = self.tokens.len();
        let mut ids: Vec<String> = Vec::new();
        let mut j: usize = 0;
        while j < n
            invariant
                n == self.tokens@.len(),
                j <= n,
                ids@.len() == j,
                forall|k: int| 0 <= k < j ==> #[trigger] ids@[k] == self.tokens@[k].id,
            decreases n - j,
        {
            ids.push(self.tokens[j].id.clone());
            j = j + 1;
        }
        let out = page_ids(&ids, start_after, limit);
        proof {
            if start_after is Some {
                let st = start_after.unwrap();
                crate::search::lemma_first_where_pointwise(
                    ids@,
                    self.tokens@,
                    str_after_pred(st@),
                    entry_after_pred(st@),
                );
            }
        }
        out
    }

    /// The keys of `owner`'s tokens in ascending order, `start_after`
    /// exclusive, at most one page.
    pub fn tokens(&self, owner: &str, start_after: &Option<String>, limit: Option<u32>) -> (r: Vec<
        String,
    >)
        requires
            self.wf(),
        ensures
            ({
                let owned = self.tokens@.filter(owner_entry_pred(owner@));
                let sa = match *start_after {
                    Some(s) => Some(s@),
                    None => None,
                };
                let from = spec_page_from(owned, sa);
                let lim = spec_page_limit(limit);
                let upto = if from + lim <= owned.len() {
                    from + lim
                } else {
                    owned.len() as int
                };
                &&& r@.len() == upto - from
                &&& (forall|j: int| 0 <= j < r@.len() ==> #[trigger] r@[j] == owned[from + j].id)
            }),
    {
        let ghost pred = owner_entry_pred(owner@);
        let ghost owned_entries = self.tokens@.filter(pred);
        let n = self.tokens.len();
        let mut ids: Vec<String> = Vec::new();
        let mut j: usize = 0;
        proof {
            assert(self.tokens@.subrange(0, 0) =~= Seq::<TokenEntry>::empty());
            assert(Seq::<TokenEntry>::empty().filter(pred) =~= Seq::<TokenEntry>::empty());
        }
        while j < n
            invariant
                n == self.tokens@.len(),
                j <= n,
                pred == owner_entry_pred(owner@),
                ids@.len() == self.tokens@.subrange(0, j as int).filter(pred).len(),
                forall|k: int|
                    0 <= k < ids@.len() ==> #[trigger] ids@[k] == self.tokens@.subrange(
                        0,
                        j as int,
                    ).filter(pred)[k].id,
            decreases n - j,
        {
            proof {
                broadcast use vstd::seq_lib::group_seq_lib_default;

                assert(self.tokens@.subrange(0, j + 1) =~= self.tokens@.subrange(0, j as int)
                    + seq![self.tokens@[j as int]]);
                Seq::<TokenEntry>::filter_distributes_over_add(
                    self.tokens@.subrange(0, j as int),
                    seq![self.tokens@[j as int]],
                    pred,
                );
                reveal_with_fuel(Seq::<TokenEntry>::filter, 3);
                assert(seq![self.tokens@[j as int]].drop_last() =~= Seq::<TokenEntry>::empty());
                if pred(self.tokens@[j as int]) {
                    assert(seq![self.tokens@[j as int]].filter(pred) =~= seq![
                        self.tokens@[j as int],
                    ]);
                } else {
                    assert(seq![self.tokens@[j as int]].filter(pred) =~= Seq::<
                        TokenEntry,
                    >::empty());
                }
            }
            let e = &self.tokens[j];
            if str_eq(e.token.owner.as_str(), owner) {
                ids.push(e.id.clone());
            }
            j = j + 1;
        }
        proof {
            assert(self.tokens@.subrange(0, n as int) =~= self.tokens@);
        }
        let out = page_ids(&ids, start_after, limit);
        proof {
            if start_after is Some {
                let st = start_after.unwrap();
                crate::search::lemma_first_where_pointwise(
                    ids@,
                    owned_entries,
                    str_after_pred(st@),
                    entry_after_pred(st@),
                );
            }
        }
        out
    }
}

/// Every request the collection accepts.
#[derive(Debug)]
pub enum ExecuteMsg {
    TransferNft { recipient: String, token_id: String },
    SendNft { contract: String, token_id: String, msg: Vec<u8> },
    Approve { spender: String, token_id: String, expires: Option<Expiration> },
    Revoke { spender: String, token_id: String },
    ApproveAll { operator: String, expires: Option<Expiration> },
    RevokeAll { operator: String },
    Mint { token_id: String, owner: String, token_uri: Option<String>, extension: TokenExtension },
    Burn { token_id: String },
    UpdateCollectionInfo { collection_info: UpdateCollectionInfoMsg },
    FreezeCollectionInfo,
    FreezeCharacter { token_id: String },
    Modify { token_id: String, new_values: Metadata },
    UpdateOwnership(Action),
}

impl Collection {
    /// Routes one request to its handler. Whatever the request and
    /// whoever sends it: a frozen collection's metadata stays frozen and
    /// untouched, the invariant is preserved, and a failed call changes
    /// nothing.
    pub fn execute(&mut self, block: &BlockInfo, sender: &str, msg: ExecuteMsg) -> (r: Result<
        Option<ReceiveCommand>,
        ContractError,
    >)
        requires
            old(self).wf(),
            old(self).token_count < u64::MAX,
        ensures
            final(self).wf(),
            old(self).frozen_collection_info ==> final(self).frozen_collection_info,
            old(self).frozen_collection_info ==> final(self).collection_info == old(
                self,
            ).collection_info,
            r is Err ==> *final(self) == *old(self),
            match msg {
                ExecuteMsg::TransferNft { recipient, token_id } => {
                    &&& (r is Ok <==> old(self).spec_has_token(token_id@) && old(self).spec_transferable(old(self).spec_token(token_id@)) && old(self).spec_transfer_allowed(old(self).spec_token(token_id@), sender@, *block))
                    &&& (r is Ok ==> spec_transferred(*old(self), *final(self), token_id@, recipient))
                },
                ExecuteMsg::SendNft { contract, token_id, .. } => {
                    &&& (r is Ok <==> old(self).spec_has_token(token_id@) && old(self).spec_transferable(old(self).spec_token(token_id@)) && old(self).spec_transfer_allowed(old(self).spec_token(token_id@), sender@, *block))
                    &&& (r is Ok ==> spec_transferred(*old(self), *final(self), token_id@, contract)
                        && r.unwrap() is Some)
                },
                ExecuteMsg::Approve { token_id, expires, .. } => {
                    r is Ok <==> old(self).spec_has_token(token_id@) && old(self).spec_can_approve(
                        old(self).spec_token(token_id@),
                        sender@,
                        *block,
                    ) && !(match expires {
                        Some(e) => e,
                        None => Expiration::Never,
                    }).spec_is_expired(*block)
                },
                ExecuteMsg::Revoke { token_id, .. } => {
                    r is Ok <==> old(self).spec_has_token(token_id@) && old(self).spec_can_approve(
                        old(self).spec_token(token_id@),
                        sender@,
                        *block,
                    )
                },
                ExecuteMsg::ApproveAll { operator, expires } => {
                    &&& (r is Ok <==> !(match expires {
                        Some(e) => e,
                        None => Expiration::Never,
                    }).spec_is_expired(*block))
                    &&& (r is Ok ==> final(self).spec_operator_grant(sender@, operator@) == Some(
                        match expires {
                            Some(e) => e,
                            None => Expiration::Never,
                        },
                    ))
                },
                ExecuteMsg::RevokeAll { operator } => r is Ok && final(self).spec_operator_grant(
                    sender@,
                    operator@,
                ) is None,
                ExecuteMsg::Mint { token_id, owner, .. } => {
                    &&& (r is Ok <==> old(self).ownership.spec_is_owner(sender@) && !old(self).spec_has_token(token_id@))
                    &&& (r is Ok ==> final(self).spec_has_token(token_id@) && final(self).spec_token(token_id@).owner == owner && final(self).spec_token(
                        token_id@,
                    ).approvals@.len() == 0 && final(self).token_count == old(self).token_count
                        + 1)
                },
                ExecuteMsg::Burn { token_id } => {
                    &&& (r is Ok <==> old(self).spec_has_token(token_id@) && old(self).spec_transfer_allowed(old(self).spec_token(token_id@), sender@, *block))
                    &&& (r is Ok ==> !final(self).spec_has_token(token_id@) && final(self).token_count == old(self).token_count - 1)
                },
                ExecuteMsg::UpdateCollectionInfo { .. } => {
                    r is Ok ==> !old(self).frozen_collection_info && old(self).collection_info.creator@ == sender@
                },
                ExecuteMsg::FreezeCollectionInfo => {
                    &&& (r is Ok <==> old(self).collection_info.creator@ == sender@)
                    &&& (r is Ok ==> final(self).frozen_collection_info)
                },
                ExecuteMsg::FreezeCharacter { token_id } => {
                    &&& (r is Ok <==> old(self).spec_has_token(token_id@) && old(self).spec_transfer_allowed(old(self).spec_token(token_id@), sender@, *block))
                    &&& (r is Ok ==> final(self).spec_token(token_id@).extension
                        == spec_locked_extension(old(self).spec_token(token_id@).extension))
                },
                ExecuteMsg::Modify { token_id, new_values } => {
                    &&& (r is Ok <==> old(self).ownership.spec_is_owner(sender@) && old(self).spec_has_token(token_id@))
                    &&& (r is Ok ==> final(self).spec_token(token_id@).extension
                        == TokenExtension::Character(new_values))
                },
                ExecuteMsg::UpdateOwnership(action) => {
                    r is Ok <==> (match action {
                        Action::TransferOwnership { .. } => old(self).ownership.spec_transfer_ok(
                            sender@,
                        ),
                        Action::AcceptOwnership => old(self).ownership.spec_accept_ok(
                            *block,
                            sender@,
                        ),
                        Action::RenounceOwnership => old(self).ownership.spec_is_owner(sender@),
                    })
                },
            },
    {
        match msg {
            ExecuteMsg::TransferNft { recipient, token_id } => {
                match self.transfer_nft(block, sender, recipient, token_id.as_str()) {
                    Ok(()) => Ok(None),
                    Err(e) => Err(e),
                }
            },
            ExecuteMsg::SendNft { contract, token_id, msg } => {
                match self.send_nft(block, sender, contract, token_id, msg) {
                    Ok(cmd) => Ok(Some(cmd)),
                    Err(e) => Err(e),
                }
            },
            ExecuteMsg::Approve { spender, token_id, expires } => {
                match self.approve(block, sender, spender, token_id.as_str(), expires) {
                    Ok(()) => Ok(None),
                    Err(e) => Err(e),
                }
            },
            ExecuteMsg::Revoke { spender, token_id } => {
                match self.revoke(block, sender, spender.as_str(), token_id.as_str()) {
                    Ok(()) => Ok(None),
                    Err(e) => Err(e),
                }
            },
            ExecuteMsg::ApproveAll { operator, expires } => {
                match self.approve_all(block, sender, operator, expires) {
                    Ok(()) => Ok(None),
                    Err(e) => Err(e),
                }
            },
            ExecuteMsg::RevokeAll { operator } => {
                match self.revoke_all(sender, operator.as_str()) {
                    Ok(()) => Ok(None),
                    Err(e) => Err(e),
                }
            },
            ExecuteMsg::Mint { token_id, owner, token_uri, extension } => {
                match self.mint(sender, token_id, owner, token_uri, extension) {
                    Ok(()) => Ok(None),
                    Err(e) => Err(e),
                }
            },
            ExecuteMsg::Burn { token_id } => {
                match self.burn(block, sender, token_id.as_str()) {
                    Ok(()) => Ok(None),
                    Err(e) => Err(e),
                }
            },
            ExecuteMsg::UpdateCollectionInfo { collection_info } => {
                match self.update_collection_info(sender, collection_info) {
                    Ok(()) => Ok(None),
                    Err(e) => Err(e),
                }
            },
            ExecuteMsg::FreezeCollectionInfo => {
                match self.freeze_collection_info(sender) {
                    Ok(()) => Ok(None),
                    Err(e) => Err(e),
                }
            },
            ExecuteMsg::FreezeCharacter { token_id } => {
                match self.freeze_character(block, sender, token_id.as_str()) {
                    Ok(()) => Ok(None),
                    Err(e) => Err(e),
                }
            },
            ExecuteMsg::Modify { token_id, new_values } => {
                match self.modify(sender, token_id.as_str(), new_values) {
                    Ok(()) => Ok(None),
                    Err(e) => Err(e),
                }
            },
            ExecuteMsg::UpdateOwnership(action) => {
                match self.update_ownership(block, sender, action) {
                    Ok(()) => Ok(None),
                    Err(e) => Err(e),
                }
            },
        }
    }
}

/// After an approval is granted, exactly one approval stands for that
/// spender: the fresh one at the end of the list. Approving the same
/// spender twice replaces rather than duplicates the entry.
pub proof fn lemma_approve_unique_spender(olds: Seq<Approval>, aps: Seq<Approval>, spender: Seq<char>)
    requires
        aps.len() >= 1,
        aps.drop_last() == olds.filter(approval_keep_pred(spender)),
        aps.last().spender@ == spender,
    ensures
        forall|i: int| 0 <= i < aps.len() && (#[trigger] aps[i]).spender@ == spender ==> i == aps.len() - 1,
        aps[aps.len() - 1].spender@ == spender,
{
    broadcast use vstd::seq_lib::group_filter_ensures;

    assert forall|i: int| 0 <= i < aps.len() && (#[trigger] aps[i]).spender@ == spender implies i
        == aps.len() - 1 by {
        if i < aps.len() - 1 {
            assert(aps[i] == aps.drop_last()[i]);
            assert(approval_keep_pred(spender)(olds.filter(approval_keep_pred(spender))[i]));
        }
    }
}

/// Keys that sort strictly after `start`.
pub open spec fn str_after_pred(start: Seq<char>) -> spec_fn(String) -> bool {
    |x: String| lex_lt(start, x@)
}

/// Where a page begins in a key list.
pub open spec fn spec_page_from_ids(ids: Seq<String>, start_after: Option<Seq<char>>) -> int {
    match start_after {
        None => 0,
        Some(st) => {
            let f = first_where(ids, str_after_pred(st));
            if f < 0 {
                ids.len() as int
            } else {
                f
            }
        },
    }
}

/// One page out of a key list: the keys strictly after `start_after`,
/// in order, at most the effective limit many.
fn page_ids(ids: &Vec<String>, start_after: &Option<String>, limit: Option<u32>) -> (r: Vec<
    String,
>)
    ensures
        ({
            let sa = match *start_after {
                Some(s) => Some(s@),
                None => None,
            };
            let from = spec_page_from_ids(ids@, sa);
            let lim = spec_page_limit(limit);
            let upto = if from + lim <= ids@.len() {
                from + lim
            } else {
                ids@.len() as int
            };
            &&& r@.len() == upto - from
            &&& (forall|j: int| 0 <= j < r@.len() ==> #[trigger] r@[j] == ids@[from + j])
        }),
{
    let n = ids.len();
    let mut from: usize = 0;
    match start_after {
        None => {},
        Some(st) => {
            let ghost pred = str_after_pred(st@);
            while from < n && !str_lt(st.as_str(), ids[from].as_str())
                invariant
                    n == ids@.len(),
                    from <= n,
                    pred == str_after_pred(st@),
                    forall|k: int| 0 <= k < from ==> !#[trigger] pred(ids@[k]),
                decreases n - from,
            {
                from = from + 1;
            }
            proof {
                if from == n {
                    lemma_first_where_none(ids@, pred);
                } else {
                    lemma_first_where_at(ids@, pred, from as int);
                }
            }
        },
    }
    let lim_u32 = match limit {
        Some(l) => if l > MAX_LIMIT {
            MAX_LIMIT
        } else {
            l
        },
        None => DEFAULT_LIMIT,
    };
    let lim = lim_u32 as usize;
    let mut out: Vec<String> = Vec::new();
    let mut k: usize = from;
    while k < n && out.len() < lim
        invariant
            n == ids@.len(),
            from <= k <= n,
            out@.len() == k - from,
            out@.len() <= lim,
            k - from <= lim,
            forall|j: int| 0 <= j < out@.len() ==> #[trigger] out@[j] == ids@[from + j],
        decreases n - k,
    {
        out.push(ids[k].clone());
        k = k + 1;
    }
    out
}

/// Whether a live approval for `spender` stands in the list.
fn approval_for(approvals: &Vec<Approval>, spender: &str, block: &BlockInfo) -> (r: bool)
    ensures
        r == spec_approval_for(approvals@, spender@, *block),
{
    let n = approvals.len();
    let mut i: usize = 0;
    while i < n
        invariant
            n == approvals@.len(),
            i <= n,
            forall|j: int|
                0 <= j < i ==> !((#[trigger] approvals@[j]).spender@ == spender@
                    && !approvals@[j].expires.spec_is_expired(*block)),
        decreases n - i,
    {
        if str_eq(approvals[i].spender.as_str(), spender) && !approvals[i].expires.is_expired(
            block,
        ) {
            return true;
        }
        i = i + 1;
    }
    false
}

} // verus!
