//! The catalog of sellable items: traits, pre-made characters, bundles of
//! either, and lootboxes with weighted member lists. The catalog's owner
//! adds and removes entries; managers only read it. Entry identifiers are
//! unique per list, and a lootbox is accepted only with one weight per
//! member and weights summing to exactly one hundred.

use vstd::prelude::*;

use crate::coin::Coin;
use crate::ownership::{Ownership, OwnershipError};
use crate::selector::weight_sum;

verus! {

/// A sellable trait: category, value, rarity and its price.
#[derive(Debug)]
pub struct Trait {
    pub id: u32,
    pub trait_type: String,
    pub trait_value: String,
    pub trait_rarity: String,
    pub mint_price: Coin,
}

impl Trait {
    pub fn duplicate(&self) -> (r: Trait)
        ensures
            r == *self,
    {
        Trait {
            id: self.id,
            trait_type: self.trait_type.clone(),
            trait_value: self.trait_value.clone(),
            trait_rarity: self.trait_rarity.clone(),
            mint_price: self.mint_price.duplicate(),
        }
    }
}

/// A sellable pre-made character and its price.
#[derive(Debug)]
pub struct Character {
    pub id: u32,
    pub ears: Option<String>,
    pub eyes: Option<String>,
    pub mouth: Option<String>,
    pub fur_type: Option<String>,
    pub fur_color: Option<String>,
    pub tail_shape: Option<String>,
    pub rarity: String,
    pub locked: bool,
    pub mint_price: Coin,
}

impl Character {
    pub fn duplicate(&self) -> (r: Character)
        ensures
            r == *self,
    {
        Character {
            id: self.id,
            ears: crate::metadata::clone_opt_string(&self.ears),
            eyes: crate::metadata::clone_opt_string(&self.eyes),
            mouth: crate::metadata::clone_opt_string(&self.mouth),
            fur_type: crate::metadata::clone_opt_string(&self.fur_type),
            fur_color: crate::metadata::clone_opt_string(&self.fur_color),
            tail_shape: crate::metadata::clone_opt_string(&self.tail_shape),
            rarity: self.rarity.clone(),
            locked: self.locked,
            mint_price: self.mint_price.duplicate(),
        }
    }
}

/// A bundle of traits sold at one price.
#[derive(Debug)]
pub struct TraitBundle {
    pub id: u32,
    pub traits: Vec<Trait>,
    pub mint_price: Coin,
}

/// A bundle of characters sold at one price.
#[derive(Debug)]
pub struct CharacterBundle {
    pub id: u32,
    pub characters: Vec<Character>,
    pub mint_price: Coin,
}

/// A lootbox over traits: `possibilities[i]` is the weight of `traits[i]`.
#[derive(Debug)]
pub struct TraitLootbox {
    pub id: u32,
    pub traits: Vec<Trait>,
    pub possibilities: Vec<u32>,
    pub mint_price: Coin,
}

/// A lootbox over characters.
#[derive(Debug)]
pub struct CharacterLootbox {
    pub id: u32,
    pub characters: Vec<Character>,
    pub possibilities: Vec<u32>,
    pub mint_price: Coin,
}

/// Why a catalog edit was rejected; nothing is changed on any error.
#[derive(Clone, Copy, PartialEq, Eq, Structural, Debug)]
pub enum ContractError {
    Ownership(OwnershipError),
    /// An entry with this identifier is already present (or repeated in
    /// the submitted batch).
    IDExists,
    /// A lootbox's member and weight lists differ in length.
    NotSameLength,
    /// A lootbox with no members.
    Empty,
    /// A lootbox whose weights do not sum to exactly one hundred.
    InvalidProbabilities,
}

pub open spec fn trait_id_in(s: Seq<Trait>, id: u32) -> bool {
    exists|i: int| 0 <= i < s.len() && s[i].id == id
}

pub open spec fn character_id_in(s: Seq<Character>, id: u32) -> bool {
    exists|i: int| 0 <= i < s.len() && s[i].id == id
}

pub open spec fn trait_bundle_id_in(s: Seq<TraitBundle>, id: u32) -> bool {
    exists|i: int| 0 <= i < s.len() && s[i].id == id
}

pub open spec fn character_bundle_id_in(s: Seq<CharacterBundle>, id: u32) -> bool {
    exists|i: int| 0 <= i < s.len() && s[i].id == id
}

pub open spec fn trait_lootbox_id_in(s: Seq<TraitLootbox>, id: u32) -> bool {
    exists|i: int| 0 <= i < s.len() && s[i].id == id
}

pub open spec fn character_lootbox_id_in(s: Seq<CharacterLootbox>, id: u32) -> bool {
    exists|i: int| 0 <= i < s.len() && s[i].id == id
}

/// A batch extends a list without clashing: no submitted identifier is
/// already present, and none is repeated within the batch.
pub open spec fn trait_batch_ok(olds: Seq<Trait>, news: Seq<Trait>) -> bool {
    &&& forall|i: int| 0 <= i < news.len() ==> !trait_id_in(olds, #[trigger] news[i].id)
    &&& forall|i: int, j: int| 0 <= i < j < news.len() ==> #[trigger] news[i].id != #[trigger] news[j].id
}

pub open spec fn character_batch_ok(olds: Seq<Character>, news: Seq<Character>) -> bool {
    &&& forall|i: int| 0 <= i < news.len() ==> !character_id_in(olds, #[trigger] news[i].id)
    &&& forall|i: int, j: int| 0 <= i < j < news.len() ==> #[trigger] news[i].id != #[trigger] news[j].id
}

pub open spec fn trait_bundle_batch_ok(olds: Seq<TraitBundle>, news: Seq<TraitBundle>) -> bool {
    &&& forall|i: int| 0 <= i < news.len() ==> !trait_bundle_id_in(olds, #[trigger] news[i].id)
    &&& forall|i: int, j: int| 0 <= i < j < news.len() ==> #[trigger] news[i].id != #[trigger] news[j].id
}

pub open spec fn character_bundle_batch_ok(
    olds: Seq<CharacterBundle>,
    news: Seq<CharacterBundle>,
) -> bool {
    &&& forall|i: int|
        0 <= i < news.len() ==> !character_bundle_id_in(olds, #[trigger] news[i].id)
    &&& forall|i: int, j: int| 0 <= i < j < news.len() ==> #[trigger] news[i].id != #[trigger] news[j].id
}

pub open spec fn trait_lootbox_batch_ok(olds: Seq<TraitLootbox>, news: Seq<TraitLootbox>) -> bool {
    &&& forall|i: int| 0 <= i < news.len() ==> !trait_lootbox_id_in(olds, #[trigger] news[i].id)
    &&& forall|i: int, j: int| 0 <= i < j < news.len() ==> #[trigger] news[i].id != #[trigger] news[j].id
}

pub open spec fn character_lootbox_batch_ok(
    olds: Seq<CharacterLootbox>,
    news: Seq<CharacterLootbox>,
) -> bool {
    &&& forall|i: int|
        0 <= i < news.len() ==> !character_lootbox_id_in(olds, #[trigger] news[i].id)
    &&& forall|i: int, j: int| 0 <= i < j < news.len() ==> #[trigger] news[i].id != #[trigger] news[j].id
}

/// A well-formed trait lootbox: one weight per member, at least one
/// member, weights summing to exactly one hundred.
pub open spec fn trait_lootbox_wf(lb: TraitLootbox) -> bool {
    &&& lb.traits@.len() == lb.possibilities@.len()
    &&& lb.traits@.len() > 0
    &&& weight_sum(lb.possibilities@, lb.possibilities@.len() as int) == 100
}

pub open spec fn character_lootbox_wf(lb: CharacterLootbox) -> bool {
    &&& lb.characters@.len() == lb.possibilities@.len()
    &&& lb.characters@.len() > 0
    &&& weight_sum(lb.possibilities@, lb.possibilities@.len() as int) == 100
}

/// The error reported for a malformed trait lootbox: length mismatch
/// first, then emptiness, then a bad weight sum.
pub open spec fn trait_lootbox_wf_error(lb: TraitLootbox) -> ContractError {
    if lb.traits@.len() != lb.possibilities@.len() {
        ContractError::NotSameLength
    } else if lb.traits@.len() == 0 {
        ContractError::Empty
    } else {
        ContractError::InvalidProbabilities
    }
}

pub open spec fn character_lootbox_wf_error(lb: CharacterLootbox) -> ContractError {
    if lb.characters@.len() != lb.possibilities@.len() {
        ContractError::NotSameLength
    } else if lb.characters@.len() == 0 {
        ContractError::Empty
    } else {
        ContractError::InvalidProbabilities
    }
}

/// The position of the first malformed lootbox in a batch, `-1` if none.
pub open spec fn first_bad_trait_lootbox(s: Seq<TraitLootbox>) -> int
    decreases s.len(),
{
    if s.len() == 0 {
        -1
    } else if !trait_lootbox_wf(s[0]) {
        0
    } else {
        let r = first_bad_trait_lootbox(s.drop_first());
        if r < 0 {
            -1
        } else {
            r + 1
        }
    }
}

pub open spec fn first_bad_character_lootbox(s: Seq<CharacterLootbox>) -> int
    decreases s.len(),
{
    if s.len() == 0 {
        -1
    } else if !character_lootbox_wf(s[0]) {
        0
    } else {
        let r = first_bad_character_lootbox(s.drop_first());
        if r < 0 {
            -1
        } else {
            r + 1
        }
    }
}

proof fn lemma_first_bad_tl_at(s: Seq<TraitLootbox>, i: int)
    requires
        0 <= i < s.len(),
        forall|k: int| 0 <= k < i ==> trait_lootbox_wf(#[trigger] s[k]),
        !trait_lootbox_wf(s[i]),
    ensures
        first_bad_trait_lootbox(s) == i,
    decreases i,
{
    if i > 0 {
        lemma_first_bad_tl_at(s.drop_first(), i - 1);
    }
}

proof fn lemma_first_bad_tl_none(s: Seq<TraitLootbox>)
    requires
        forall|k: int| 0 <= k < s.len() ==> trait_lootbox_wf(#[trigger] s[k]),
    ensures
        first_bad_trait_lootbox(s) == -1,
    decreases s.len(),
{
    if s.len() > 0 {
        lemma_first_bad_tl_none(s.drop_first());
    }
}

proof fn lemma_first_bad_cl_at(s: Seq<CharacterLootbox>, i: int)
    requires
        0 <= i < s.len(),
        forall|k: int| 0 <= k < i ==> character_lootbox_wf(#[trigger] s[k]),
        !character_lootbox_wf(s[i]),
    ensures
        first_bad_character_lootbox(s) == i,
    decreases i,
{
    if i > 0 {
        lemma_first_bad_cl_at(s.drop_first(), i - 1);
    }
}

proof fn lemma_first_bad_cl_none(s: Seq<CharacterLootbox>)
    requires
        forall|k: int| 0 <= k < s.len() ==> character_lootbox_wf(#[trigger] s[k]),
    ensures
        first_bad_character_lootbox(s) == -1,
    decreases s.len(),
{
    if s.len() > 0 {
        lemma_first_bad_cl_none(s.drop_first());
    }
}

/// The catalog's full state.
#[derive(Debug)]
pub struct Mintables {
    pub ownership: Ownership,
    pub traits: Vec<Trait>,
    pub characters: Vec<Character>,
    pub trait_bundles: Vec<TraitBundle>,
    pub character_bundles: Vec<CharacterBundle>,
    pub trait_lootboxes: Vec<TraitLootbox>,
    pub character_lootboxes: Vec<CharacterLootbox>,
}

/// True when the weights sum to exactly `100`.
fn weights_sum_to_100(w: &Vec<u32>) -> (r: bool)
    ensures
        r == (weight_sum(w@, w@.len() as int) == 100),
{
    let n = w.len();
    let mut acc: u64 = 0;
    let mut i: usize = 0;
    while i < n
        invariant
            n == w@.len(),
            i <= n,
            acc == weight_sum(w@, i as int),
            acc <= 100,
        decreases n - i,
    {
        let next: u64 = acc + (w[i] as u64);
        if next > 100 {
            proof {
                lemma_weight_sum_monotone(w@, i as int + 1, n as int);
            }
            return false;
        }
        acc = next;
        i = i + 1;
    }
    acc == 100
}

/// Prefix weight sums only grow.
proof fn lemma_weight_sum_monotone(s: Seq<u32>, i: int, n: int)
    requires
        0 <= i <= n <= s.len(),
    ensures
        weight_sum(s, i) <= weight_sum(s, n),
    decreases n - i,
{
    if i < n {
        lemma_weight_sum_monotone(s, i, n - 1);
    }
}

fn has_trait_id(v: &Vec<Trait>, id: u32) -> (r: bool)
    ensures
        r == trait_id_in(v@, id),
{
    let n = v.len();
    let mut i: usize = 0;
    while i < n
        invariant
            n == v@.len(),
            i <= n,
            forall|j: int| 0 <= j < i ==> v@[j].id != id,
        decreases n - i,
    {
        if v[i].id == id {
            return true;
        }
        i = i + 1;
    }
    false
}

/// Keeps the entries whose identifier is not in `ids`.
pub open spec fn keep_trait_pred(ids: Seq<u32>) -> spec_fn(Trait) -> bool {
    |t: Trait| !ids.contains(t.id)
}

fn has_character_id(v: &Vec<Character>, id: u32) -> (r: bool)
    ensures
        r == character_id_in(v@, id),
{
    let n = v.len();
    let mut i: usize = 0;
    while i < n
        invariant
            n == v@.len(),
            i <= n,
            forall|j: int| 0 <= j < i ==> v@[j].id != id,
        decreases n - i,
    {
        if v[i].id == id {
            return true;
        }
        i = i + 1;
    }
    false
}

/// Keeps the entries whose identifier is not in `ids`.
pub open spec fn keep_character_pred(ids: Seq<u32>) -> spec_fn(Character) -> bool {
    |t: Character| !ids.contains(t.id)
}

fn has_trait_bundle_id(v: &Vec<TraitBundle>, id: u32) -> (r: bool)
    ensures
        r == trait_bundle_id_in(v@, id),
{
    let n = v.len();
    let mut i: usize = 0;
    while i < n
        invariant
            n == v@.len(),
            i <= n,
            forall|j: int| 0 <= j < i ==> v@[j].id != id,
        decreases n - i,
    {
        if v[i].id == id {
            return true;
        }
        i = i + 1;
    }
    false
}

/// Keeps the entries whose identifier is not in `ids`.
pub open spec fn keep_trait_bundle_pred(ids: Seq<u32>) -> spec_fn(TraitBundle) -> bool {
    |t: TraitBundle| !ids.contains(t.id)
}

fn has_character_bundle_id(v: &Vec<CharacterBundle>, id: u32) -> (r: bool)
    ensures
        r == character_bundle_id_in(v@, id),
{
    let n = v.len();
    let mut i: usize = 0;
    while i < n
        invariant
            n == v@.len(),
            i <= n,
            forall|j: int| 0 <= j < i ==> v@[j].id != id,
        decreases n - i,
    {
        if v[i].id == id {
            return true;
        }
        i = i + 1;
    }
    false
}

/// Keeps the entries whose identifier is not in `ids`.
pub open spec fn keep_character_bundle_pred(ids: Seq<u32>) -> spec_fn(CharacterBundle) -> bool {
    |t: CharacterBundle| !ids.contains(t.id)
}

fn has_trait_lootbox_id(v: &Vec<TraitLootbox>, id: u32) -> (r: bool)
    ensures
        r == trait_lootbox_id_in(v@, id),
{
    let n = v.len();
    let mut i: usize = 0;
    while i < n
        invariant
            n == v@.len(),
            i <= n,
            forall|j: int| 0 <= j < i ==> v@[j].id != id,
        decreases n - i,
    {
        if v[i].id == id {
            return true;
        }
        i = i + 1;
    }
    false
}

/// Keeps the entries whose identifier is not in `ids`.
pub open spec fn keep_trait_lootbox_pred(ids: Seq<u32>) -> spec_fn(TraitLootbox) -> bool {
    |t: TraitLootbox| !ids.contains(t.id)
}

fn has_character_lootbox_id(v: &Vec<CharacterLootbox>, id: u32) -> (r: bool)
    ensures
        r == character_lootbox_id_in(v@, id),
{
    let n = v.len();
    let mut i: usize = 0;
    while i < n
        invariant
            n == v@.len(),
            i <= n,
            forall|j: int| 0 <= j < i ==> v@[j].id != id,
        decreases n - i,
    {
        if v[i].id == id {
            return true;
        }
        i = i + 1;
    }
    false
}

/// Keeps the entries whose identifier is not in `ids`.
pub open spec fn keep_character_lootbox_pred(ids: Seq<u32>) -> spec_fn(CharacterLootbox) -> bool {
    |t: CharacterLootbox| !ids.contains(t.id)
}

fn u32_in(v: &Vec<u32>, x: u32) -> (r: bool)
    ensures
        r == v@.contains(x),
{
    let n = v.len();
    let mut i: usize = 0;
    while i < n
        invariant
            n == v@.len(),
            i <= n,
            forall|j: int| 0 <= j < i ==> v@[j] != x,
        decreases n - i,
    {
        if v[i] == x {
            assert(v@.contains(x));
            return true;
        }
        i = i + 1;
    }
    false
}

impl Mintables {
    /// A fresh catalog with every list empty, owned by the instantiator.
    pub fn new(owner: String) -> (r: Mintables)
        ensures
            r.ownership.spec_is_owner(owner@),
            r.traits@.len() == 0,
            r.characters@.len() == 0,
            r.trait_bundles@.len() == 0,
            r.character_bundles@.len() == 0,
            r.trait_lootboxes@.len() == 0,
            r.character_lootboxes@.len() == 0,
    {
        Mintables {
            ownership: Ownership::new(Some(owner)),
            traits: Vec::new(),
            characters: Vec::new(),
            trait_bundles: Vec::new(),
            character_bundles: Vec::new(),
            trait_lootboxes: Vec::new(),
            character_lootboxes: Vec::new(),
        }
    }

    /// Appends a batch of traits. Only the owner may add; every submitted
    /// identifier must be new and unrepeated, else `IDExists` and no
    /// change.
    pub fn add_traits(&mut self, sender: &str, new_traits: Vec<Trait>) -> (r: Result<
        (),
        ContractError,
    >)
        ensures
            r is Ok <==> old(self).ownership.spec_is_owner(sender@) && trait_batch_ok(
                old(self).traits@,
                new_traits@,
            ),
            r is Ok ==> final(self).traits@ == old(self).traits@ + new_traits@,
            r is Err ==> *final(self) == *old(self),
            !old(self).ownership.spec_is_owner(sender@) ==> r == Result::<
                (),
                ContractError,
            >::Err(
                ContractError::Ownership(
                    if old(self).ownership.owner is None {
                        OwnershipError::NoOwner
                    } else {
                        OwnershipError::NotOwner
                    },
                ),
            ),
            old(self).ownership.spec_is_owner(sender@) && !trait_batch_ok(
                old(self).traits@,
                new_traits@,
            ) ==> r == Result::<(), ContractError>::Err(ContractError::IDExists),
            final(self).ownership == old(self).ownership,
            final(self).characters == old(self).characters,
            final(self).trait_bundles == old(self).trait_bundles,
            final(self).character_bundles == old(self).character_bundles,
            final(self).trait_lootboxes == old(self).trait_lootboxes,
            final(self).character_lootboxes == old(self).character_lootboxes,
    {
        if let Err(e) = self.ownership.assert_owner(sender) {
            return Err(ContractError::Ownership(e));
        }
        let n = new_traits.len();
        let mut i: usize = 0;
        while i < n
            invariant
                n == new_traits@.len(),
                i <= n,
                *self == *old(self),
                old(self).ownership.spec_is_owner(sender@),
                forall|k: int|
                    0 <= k < i ==> !trait_id_in(self.traits@, #[trigger] new_traits@[k].id),
                forall|k: int, l: int|
                    0 <= k < l < i ==> #[trigger] new_traits@[k].id != #[trigger] new_traits@[l].id,
            decreases n - i,
        {
            if has_trait_id(&self.traits, new_traits[i].id) {
                return Err(ContractError::IDExists);
            }
            let mut j: usize = 0;
            while j < i
                invariant
                    j <= i < n,
                    n == new_traits@.len(),
                    *self == *old(self),
                    old(self).ownership.spec_is_owner(sender@),
                    forall|l: int|
                        0 <= l < j ==> #[trigger] new_traits@[l].id != new_traits@[i as int].id,
                    forall|k: int|
                        0 <= k < i ==> !trait_id_in(self.traits@, #[trigger] new_traits@[k].id),
                    forall|k: int, l: int|
                        0 <= k < l < i ==> #[trigger] new_traits@[k].id
                            != #[trigger] new_traits@[l].id,
                decreases i - j,
            {
                if new_traits[j].id == new_traits[i].id {
                    return Err(ContractError::IDExists);
                }
                j = j + 1;
            }
            i = i + 1;
        }
        let mut batch = new_traits;
        self.traits.append(&mut batch);
        Ok(())
    }

    /// Removes every trait whose identifier is listed; absent identifiers
    /// are ignored. Only the owner may remove.
    pub fn remove_traits(&mut self, sender: &str, trait_ids: Vec<u32>) -> (r: Result<
        (),
        ContractError,
    >)
        ensures
            r is Ok <==> old(self).ownership.spec_is_owner(sender@),
            r is Ok ==> final(self).traits@ == old(self).traits@.filter(
                keep_trait_pred(trait_ids@),
            ),
            r is Err ==> *final(self) == *old(self),
            !old(self).ownership.spec_is_owner(sender@) ==> r == Result::<
                (),
                ContractError,
            >::Err(
                ContractError::Ownership(
                    if old(self).ownership.owner is None {
                        OwnershipError::NoOwner
                    } else {
                        OwnershipError::NotOwner
                    },
                ),
            ),
            final(self).ownership == old(self).ownership,
            final(self).characters == old(self).characters,
            final(self).trait_bundles == old(self).trait_bundles,
            final(self).character_bundles == old(self).character_bundles,
            final(self).trait_lootboxes == old(self).trait_lootboxes,
            final(self).character_lootboxes == old(self).character_lootboxes,
    {
        if let Err(e) = self.ownership.assert_owner(sender) {
            return Err(ContractError::Ownership(e));
        }
        let ghost orig = self.traits@;
        let ghost pred = keep_trait_pred(trait_ids@);
        let mut i: usize = 0;
        let ghost mut p: int = 0int;
        proof {
            assert(orig.subrange(0, 0).filter(pred) =~= Seq::<Trait>::empty());
            assert(orig.subrange(0, orig.len() as int) =~= orig);
            assert(self.traits@ =~= orig.subrange(0, p).filter(pred) + orig.subrange(
                p,
                orig.len() as int,
            ));
        }
        while i < self.traits.len()
            invariant
                0 <= p <= orig.len(),
                i == orig.subrange(0, p).filter(pred).len(),
                self.traits@ == orig.subrange(0, p).filter(pred) + orig.subrange(
                    p,
                    orig.len() as int,
                ),
                pred == keep_trait_pred(trait_ids@),
                orig == old(self).traits@,
                old(self).ownership.spec_is_owner(sender@),
                self.ownership == old(self).ownership,
                self.characters == old(self).characters,
                self.trait_bundles == old(self).trait_bundles,
                self.character_bundles == old(self).character_bundles,
                self.trait_lootboxes == old(self).trait_lootboxes,
                self.character_lootboxes == old(self).character_lootboxes,
            decreases orig.len() - p,
        {
            proof {
                broadcast use vstd::seq_lib::group_seq_lib_default;

                assert(self.traits@[i as int] == orig[p]);
                assert(orig.subrange(0, p + 1) =~= orig.subrange(0, p) + seq![orig[p]]);
                Seq::<Trait>::filter_distributes_over_add(
                    orig.subrange(0, p),
                    seq![orig[p]],
                    pred,
                );
                reveal_with_fuel(Seq::<Trait>::filter, 3);
                assert(seq![orig[p]].drop_last() =~= Seq::<Trait>::empty());
            }
            if u32_in(&trait_ids, self.traits[i].id) {
                self.traits.remove(i);
                proof {
                    assert(!pred(orig[p]));
                    assert(seq![orig[p]].filter(pred) =~= Seq::<Trait>::empty());
                    p = p + 1;
                    assert(self.traits@ =~= orig.subrange(0, p).filter(pred) + orig.subrange(
                        p,
                        orig.len() as int,
                    ));
                }
            } else {
                proof {
                    assert(pred(orig[p]));
                    assert(seq![orig[p]].filter(pred) =~= seq![orig[p]]);
                    p = p + 1;
                    assert(self.traits@ =~= orig.subrange(0, p).filter(pred) + orig.subrange(
                        p,
                        orig.len() as int,
                    ));
                }
                i = i + 1;
            }
        }
        proof {
            assert(p == orig.len());
            assert(orig.subrange(0, orig.len() as int) =~= orig);
            assert(self.traits@ =~= orig.filter(pred));
        }
        Ok(())
    }

    /// Appends a batch of entries. Only the owner may add; every submitted
    /// identifier must be new and unrepeated, else `IDExists` and no
    /// change.
    pub fn add_characters(&mut self, sender: &str, new_characters: Vec<Character>) -> (r: Result<
        (),
        ContractError,
    >)
        ensures
            r is Ok <==> old(self).ownership.spec_is_owner(sender@) && character_batch_ok(
                old(self).characters@,
                new_characters@,
            ),
            r is Ok ==> final(self).characters@ == old(self).characters@ + new_characters@,
            r is Err ==> *final(self) == *old(self),
            !old(self).ownership.spec_is_owner(sender@) ==> r == Result::<
                (),
                ContractError,
            >::Err(
                ContractError::Ownership(
                    if old(self).ownership.owner is None {
                        OwnershipError::NoOwner
                    } else {
                        OwnershipError::NotOwner
                    },
                ),
            ),
            old(self).ownership.spec_is_owner(sender@) && !character_batch_ok(
                old(self).characters@,
                new_characters@,
            ) ==> r == Result::<(), ContractError>::Err(ContractError::IDExists),
            final(self).ownership == old(self).ownership,
            final(self).traits == old(self).traits,
            final(self).trait_bundles == old(self).trait_bundles,
            final(self).character_bundles == old(self).character_bundles,
            final(self).trait_lootboxes == old(self).trait_lootboxes,
            final(self).character_lootboxes == old(self).character_lootboxes,
    {
        if let Err(e) = self.ownership.assert_owner(sender) {
            return Err(ContractError::Ownership(e));
        }
        let n = new_characters.len();
        let mut i: usize = 0;
        while i < n
            invariant
                n == new_characters@.len(),
                i <= n,
                *self == *old(self),
                old(self).ownership.spec_is_owner(sender@),
                forall|k: int|
                    0 <= k < i ==> !character_id_in(self.characters@, #[trigger] new_characters@[k].id),
                forall|k: int, l: int|
                    0 <= k < l < i ==> #[trigger] new_characters@[k].id != #[trigger] new_characters@[l].id,
            decreases n - i,
        {
            if has_character_id(&self.characters, new_characters[i].id) {
                return Err(ContractError::IDExists);
            }
            let mut j: usize = 0;
            while j < i
                invariant
                    j <= i < n,
                    n == new_characters@.len(),
                    *self == *old(self),
                    old(self).ownership.spec_is_owner(sender@),
                    forall|l: int|
                        0 <= l < j ==> #[trigger] new_characters@[l].id != new_characters@[i as int].id,
                    forall|k: int|
                        0 <= k < i ==> !character_id_in(self.characters@, #[trigger] new_characters@[k].id),
                    forall|k: int, l: int|
                        0 <= k < l < i ==> #[trigger] new_characters@[k].id
                            != #[trigger] new_characters@[l].id,
                decreases i - j,
            {
                if new_characters[j].id == new_characters[i].id {
                    return Err(ContractError::IDExists);
                }
                j = j + 1;
            }
            i = i + 1;
        }
        let mut batch = new_characters;
        self.characters.append(&mut batch);
        Ok(())
    }

    /// Removes every entry whose identifier is listed; absent identifiers
    /// are ignored. Only the owner may remove.
    pub fn remove_characters(&mut self, sender: &str, character_ids: Vec<u32>) -> (r: Result<
        (),
        ContractError,
    >)
        ensures
            r is Ok <==> old(self).ownership.spec_is_owner(sender@),
            r is Ok ==> final(self).characters@ == old(self).characters@.filter(
                keep_character_pred(character_ids@),
            ),
            r is Err ==> *final(self) == *old(self),
            !old(self).ownership.spec_is_owner(sender@) ==> r == Result::<
                (),
                ContractError,
            >::Err(
                ContractError::Ownership(
                    if old(self).ownership.owner is None {
                        OwnershipError::NoOwner
                    } else {
                        OwnershipError::NotOwner
                    },
                ),
            ),
            final(self).ownership == old(self).ownership,
            final(self).traits == old(self).traits,
            final(self).trait_bundles == old(self).trait_bundles,
            final(self).character_bundles == old(self).character_bundles,
            final(self).trait_lootboxes == old(self).trait_lootboxes,
            final(self).character_lootboxes == old(self).character_lootboxes,
    {
        if let Err(e) = self.ownership.assert_owner(sender) {
            return Err(ContractError::Ownership(e));
        }
        let ghost orig = self.characters@;
        let ghost pred = keep_character_pred(character_ids@);
        let mut i: usize = 0;
        let ghost mut p: int = 0int;
        proof {
            assert(orig.subrange(0, 0).filter(pred) =~= Seq::<Character>::empty());
            assert(orig.subrange(0, orig.len() as int) =~= orig);
            assert(self.characters@ =~= orig.subrange(0, p).filter(pred) + orig.subrange(
                p,
                orig.len() as int,
            ));
        }
        while i < self.characters.len()
            invariant
                0 <= p <= orig.len(),
                i == orig.subrange(0, p).filter(pred).len(),
                self.characters@ == orig.subrange(0, p).filter(pred) + orig.subrange(
                    p,
                    orig.len() as int,
                ),
                pred == keep_character_pred(character_ids@),
                orig == old(self).characters@,
                old(self).ownership.spec_is_owner(sender@),
                self.ownership == old(self).ownership,
                self.traits == old(self).traits,
                self.trait_bundles == old(self).trait_bundles,
                self.character_bundles == old(self).character_bundles,
                self.trait_lootboxes == old(self).trait_lootboxes,
                self.character_lootboxes == old(self).character_lootboxes,
            decreases orig.len() - p,
        {
            proof {
                broadcast use vstd::seq_lib::group_seq_lib_default;

                assert(self.characters@[i as int] == orig[p]);
                assert(orig.subrange(0, p + 1) =~= orig.subrange(0, p) + seq![orig[p]]);
                Seq::<Character>::filter_distributes_over_add(
                    orig.subrange(0, p),
                    seq![orig[p]],
                    pred,
                );
                reveal_with_fuel(Seq::<Character>::filter, 3);
                assert(seq![orig[p]].drop_last() =~= Seq::<Character>::empty());
            }
            if u32_in(&character_ids, self.characters[i].id) {
                self.characters.remove(i);
                proof {
                    assert(!pred(orig[p]));
                    assert(seq![orig[p]].filter(pred) =~= Seq::<Character>::empty());
                    p = p + 1;
                    assert(self.characters@ =~= orig.subrange(0, p).filter(pred) + orig.subrange(
                        p,
                        orig.len() as int,
                    ));
                }
            } else {
                proof {
                    assert(pred(orig[p]));
                    assert(seq![orig[p]].filter(pred) =~= seq![orig[p]]);
                    p = p + 1;
                    assert(self.characters@ =~= orig.subrange(0, p).filter(pred) + orig.subrange(
                        p,
                        orig.len() as int,
                    ));
                }
                i = i + 1;
            }
        }
        proof {
            assert(p == orig.len());
            assert(orig.subrange(0, orig.len() as int) =~= orig);
            assert(self.characters@ =~= orig.filter(pred));
        }
        Ok(())
    }

    /// Appends a batch of entries. Only the owner may add; every submitted
    /// identifier must be new and unrepeated, else `IDExists` and no
    /// change.
    pub fn add_trait_bundles(&mut self, sender: &str, new_trait_bundles: Vec<TraitBundle>) -> (r: Result<
        (),
        ContractError,
    >)
        ensures
            r is Ok <==> old(self).ownership.spec_is_owner(sender@) && trait_bundle_batch_ok(
                old(self).trait_bundles@,
                new_trait_bundles@,
            ),
            r is Ok ==> final(self).trait_bundles@ == old(self).trait_bundles@ + new_trait_bundles@,
            r is Err ==> *final(self) == *old(self),
            !old(self).ownership.spec_is_owner(sender@) ==> r == Result::<
                (),
                ContractError,
            >::Err(
                ContractError::Ownership(
                    if old(self).ownership.owner is None {
                        OwnershipError::NoOwner
                    } else {
                        OwnershipError::NotOwner
                    },
                ),
            ),
            old(self).ownership.spec_is_owner(sender@) && !trait_bundle_batch_ok(
                old(self).trait_bundles@,
                new_trait_bundles@,
            ) ==> r == Result::<(), ContractError>::Err(ContractError::IDExists),
            final(self).ownership == old(self).ownership,
            final(self).traits == old(self).traits,
            final(self).characters == old(self).characters,
            final(self).character_bundles == old(self).character_bundles,
            final(self).trait_lootboxes == old(self).trait_lootboxes,
            final(self).character_lootboxes == old(self).character_lootboxes,
    {
        if let Err(e) = self.ownership.assert_owner(sender) {
            return Err(ContractError::Ownership(e));
        }
        let n = new_trait_bundles.len();
        let mut i: usize = 0;
        while i < n
            invariant
                n == new_trait_bundles@.len(),
                i <= n,
                *self == *old(self),
                old(self).ownership.spec_is_owner(sender@),
                forall|k: int|
                    0 <= k < i ==> !trait_bundle_id_in(self.trait_bundles@, #[trigger] new_trait_bundles@[k].id),
                forall|k: int, l: int|
                    0 <= k < l < i ==> #[trigger] new_trait_bundles@[k].id != #[trigger] new_trait_bundles@[l].id,
            decreases n - i,
        {
            if has_trait_bundle_id(&self.trait_bundles, new_trait_bundles[i].id) {
                return Err(ContractError::IDExists);
            }
            let mut j: usize = 0;
            while j < i
                invariant
                    j <= i < n,
                    n == new_trait_bundles@.len(),
                    *self == *old(self),
                    old(self).ownership.spec_is_owner(sender@),
                    forall|l: int|
                        0 <= l < j ==> #[trigger] new_trait_bundles@[l].id != new_trait_bundles@[i as int].id,
                    forall|k: int|
                        0 <= k < i ==> !trait_bundle_id_in(self.trait_bundles@, #[trigger] new_trait_bundles@[k].id),
                    forall|k: int, l: int|
                        0 <= k < l < i ==> #[trigger] new_trait_bundles@[k].id
                            != #[trigger] new_trait_bundles@[l].id,
                decreases i - j,
            {
                if new_trait_bundles[j].id == new_trait_bundles[i].id {
                    return Err(ContractError::IDExists);
                }
                j = j + 1;
            }
            i = i + 1;
        }
        let mut batch = new_trait_bundles;
        self.trait_bundles.append(&mut batch);
        Ok(())
    }

    /// Removes every entry whose identifier is listed; absent identifiers
    /// are ignored. Only the owner may remove.
    pub fn remove_trait_bundles(&mut self, sender: &str, trait_bundle_ids: Vec<u32>) -> (r: Result<
        (),
        ContractError,
    >)
        ensures
            r is Ok <==> old(self).ownership.spec_is_owner(sender@),
            r is Ok ==> final(self).trait_bundles@ == old(self).trait_bundles@.filter(
                keep_trait_bundle_pred(trait_bundle_ids@),
            ),
            r is Err ==> *final(self) == *old(self),
            !old(self).ownership.spec_is_owner(sender@) ==> r == Result::<
                (),
                ContractError,
            >::Err(
                ContractError::Ownership(
                    if old(self).ownership.owner is None {
                        OwnershipError::NoOwner
                    } else {
                        OwnershipError::NotOwner
                    },
                ),
            ),
            final(self).ownership == old(self).ownership,
            final(self).traits == old(self).traits,
            final(self).characters == old(self).characters,
            final(self).character_bundles == old(self).character_bundles,
            final(self).trait_lootboxes == old(self).trait_lootboxes,
            final(self).character_lootboxes == old(self).character_lootboxes,
    {
        if let Err(e) = self.ownership.assert_owner(sender) {
            return Err(ContractError::Ownership(e));
        }
        let ghost orig = self.trait_bundles@;
        let ghost pred = keep_trait_bundle_pred(trait_bundle_ids@);
        let mut i: usize = 0;
        let ghost mut p: int = 0int;
        proof {
            assert(orig.subrange(0, 0).filter(pred) =~= Seq::<TraitBundle>::empty());
            assert(orig.subrange(0, orig.len() as int) =~= orig);
            assert(self.trait_bundles@ =~= orig.subrange(0, p).filter(pred) + orig.subrange(
                p,
                orig.len() as int,
            ));
        }
        while i < self.trait_bundles.len()
            invariant
                0 <= p <= orig.len(),
                i == orig.subrange(0, p).filter(pred).len(),
                self.trait_bundles@ == orig.subrange(0, p).filter(pred) + orig.subrange(
                    p,
                    orig.len() as int,
                ),
                pred == keep_trait_bundle_pred(trait_bundle_ids@),
                orig == old(self).trait_bundles@,
                old(self).ownership.spec_is_owner(sender@),
                self.ownership == old(self).ownership,
                self.traits == old(self).traits,
                self.characters == old(self).characters,
                self.character_bundles == old(self).character_bundles,
                self.trait_lootboxes == old(self).trait_lootboxes,
                self.character_lootboxes == old(self).character_lootboxes,
            decreases orig.len() - p,
        {
            proof {
                broadcast use vstd::seq_lib::group_seq_lib_default;

                assert(self.trait_bundles@[i as int] == orig[p]);
                assert(orig.subrange(0, p + 1) =~= orig.subrange(0, p) + seq![orig[p]]);
                Seq::<TraitBundle>::filter_distributes_over_add(
                    orig.subrange(0, p),
                    seq![orig[p]],
                    pred,
                );
                reveal_with_fuel(Seq::<TraitBundle>::filter, 3);
                assert(seq![orig[p]].drop_last() =~= Seq::<TraitBundle>::empty());
            }
            if u32_in(&trait_bundle_ids, self.trait_bundles[i].id) {
                self.trait_bundles.remove(i);
                proof {
                    assert(!pred(orig[p]));
                    assert(seq![orig[p]].filter(pred) =~= Seq::<TraitBundle>::empty());
                    p = p + 1;
                    assert(self.trait_bundles@ =~= orig.subrange(0, p).filter(pred) + orig.subrange(
                        p,
                        orig.len() as int,
                    ));
                }
            } else {
                proof {
                    assert(pred(orig[p]));
                    assert(seq![orig[p]].filter(pred) =~= seq![orig[p]]);
                    p = p + 1;
                    assert(self.trait_bundles@ =~= orig.subrange(0, p).filter(pred) + orig.subrange(
                        p,
                        orig.len() as int,
                    ));
                }
                i = i + 1;
            }
        }
        proof {
            assert(p == orig.len());
            assert(orig.subrange(0, orig.len() as int) =~= orig);
            assert(self.trait_bundles@ =~= orig.filter(pred));
        }
        Ok(())
    }

    /// Appends a batch of entries. Only the owner may add; every submitted
    /// identifier must be new and unrepeated, else `IDExists` and no
    /// change.
    pub fn add_character_bundles(&mut self, sender: &str, new_character_bundles: Vec<CharacterBundle>) -> (r: Result<
        (),
        ContractError,
    >)
        ensures
            r is Ok <==> old(self).ownership.spec_is_owner(sender@) && character_bundle_batch_ok(
                old(self).character_bundles@,
                new_character_bundles@,
            ),
            r is Ok ==> final(self).character_bundles@ == old(self).character_bundles@ + new_character_bundles@,
            r is Err ==> *final(self) == *old(self),
            !old(self).ownership.spec_is_owner(sender@) ==> r == Result::<
                (),
                ContractError,
            >::Err(
                ContractError::Ownership(
                    if old(self).ownership.owner is None {
                        OwnershipError::NoOwner
                    } else {
                        OwnershipError::NotOwner
                    },
                ),
            ),
            old(self).ownership.spec_is_owner(sender@) && !character_bundle_batch_ok(
                old(self).character_bundles@,
                new_character_bundles@,
            ) ==> r == Result::<(), ContractError>::Err(ContractError::IDExists),
            final(self).ownership == old(self).ownership,
            final(self).traits == old(self).traits,
            final(self).characters == old(self).characters,
            final(self).trait_bundles == old(self).trait_bundles,
            final(self).trait_lootboxes == old(self).trait_lootboxes,
            final(self).character_lootboxes == old(self).character_lootboxes,
    {
        if let Err(e) = self.ownership.assert_owner(sender) {
            return Err(ContractError::Ownership(e));
        }
        let n = new_character_bundles.len();
        let mut i: usize = 0;
        while i < n
            invariant
                n == new_character_bundles@.len(),
                i <= n,
                *self == *old(self),
                old(self).ownership.spec_is_owner(sender@),
                forall|k: int|
                    0 <= k < i ==> !character_bundle_id_in(self.character_bundles@, #[trigger] new_character_bundles@[k].id),
                forall|k: int, l: int|
                    0 <= k < l < i ==> #[trigger] new_character_bundles@[k].id != #[trigger] new_character_bundles@[l].id,
            decreases n - i,
        {
            if has_character_bundle_id(&self.character_bundles, new_character_bundles[i].id) {
                return Err(ContractError::IDExists);
            }
            let mut j: usize = 0;
            while j < i
                invariant
                    j <= i < n,
                    n == new_character_bundles@.len(),
                    *self == *old(self),
                    old(self).ownership.spec_is_owner(sender@),
                    forall|l: int|
                        0 <= l < j ==> #[trigger] new_character_bundles@[l].id != new_character_bundles@[i as int].id,
                    forall|k: int|
                        0 <= k < i ==> !character_bundle_id_in(self.character_bundles@, #[trigger] new_character_bundles@[k].id),
                    forall|k: int, l: int|
                        0 <= k < l < i ==> #[trigger] new_character_bundles@[k].id
                            != #[trigger] new_character_bundles@[l].id,
                decreases i - j,
            {
                if new_character_bundles[j].id == new_character_bundles[i].id {
                    return Err(ContractError::IDExists);
                }
                j = j + 1;
            }
            i = i + 1;
        }
        let mut batch = new_character_bundles;
        self.character_bundles.append(&mut batch);
        Ok(())
    }

    /// Removes every entry whose identifier is listed; absent identifiers
    /// are ignored. Only the owner may remove.
    pub fn remove_character_bundles(&mut self, sender: &str, character_bundle_ids: Vec<u32>) -> (r: Result<
        (),
        ContractError,
    >)
        ensures
            r is Ok <==> old(self).ownership.spec_is_owner(sender@),
            r is Ok ==> final(self).character_bundles@ == old(self).character_bundles@.filter(
                keep_character_bundle_pred(character_bundle_ids@),
            ),
            r is Err ==> *final(self) == *old(self),
            !old(self).ownership.spec_is_owner(sender@) ==> r == Result::<
                (),
                ContractError,
            >::Err(
                ContractError::Ownership(
                    if old(self).ownership.owner is None {
                        OwnershipError::NoOwner
                    } else {
                        OwnershipError::NotOwner
                    },
                ),
            ),
            final(self).ownership == old(self).ownership,
            final(self).traits == old(self).traits,
            final(self).characters == old(self).characters,
            final(self).trait_bundles == old(self).trait_bundles,
            final(self).trait_lootboxes == old(self).trait_lootboxes,
            final(self).character_lootboxes == old(self).character_lootboxes,
    {
        if let Err(e) = self.ownership.assert_owner(sender) {
            return Err(ContractError::Ownership(e));
        }
        let ghost orig = self.character_bundles@;
        let ghost pred = keep_character_bundle_pred(character_bundle_ids@);
        let mut i: usize = 0;
        let ghost mut p: int = 0int;
        proof {
            assert(orig.subrange(0, 0).filter(pred) =~= Seq::<CharacterBundle>::empty());
            assert(orig.subrange(0, orig.len() as int) =~= orig);
            assert(self.character_bundles@ =~= orig.subrange(0, p).filter(pred) + orig.subrange(
                p,
                orig.len() as int,
            ));
        }
        while i < self.character_bundles.len()
            invariant
                0 <= p <= orig.len(),
                i == orig.subrange(0, p).filter(pred).len(),
                self.character_bundles@ == orig.subrange(0, p).filter(pred) + orig.subrange(
                    p,
                    orig.len() as int,
                ),
                pred == keep_character_bundle_pred(character_bundle_ids@),
                orig == old(self).character_bundles@,
                old(self).ownership.spec_is_owner(sender@),
                self.ownership == old(self).ownership,
                self.traits == old(self).traits,
                self.characters == old(self).characters,
                self.trait_bundles == old(self).trait_bundles,
                self.trait_lootboxes == old(self).trait_lootboxes,
                self.character_lootboxes == old(self).character_lootboxes,
            decreases orig.len() - p,
        {
            proof {
                broadcast use vstd::seq_lib::group_seq_lib_default;

                assert(self.character_bundles@[i as int] == orig[p]);
                assert(orig.subrange(0, p + 1) =~= orig.subrange(0, p) + seq![orig[p]]);
                Seq::<CharacterBundle>::filter_distributes_over_add(
                    orig.subrange(0, p),
                    seq![orig[p]],
                    pred,
                );
                reveal_with_fuel(Seq::<CharacterBundle>::filter, 3);
                assert(seq![orig[p]].drop_last() =~= Seq::<CharacterBundle>::empty());
            }
            if u32_in(&character_bundle_ids, self.character_bundles[i].id) {
                self.character_bundles.remove(i);
                proof {
                    assert(!pred(orig[p]));
                    assert(seq![orig[p]].filter(pred) =~= Seq::<CharacterBundle>::empty());
                    p = p + 1;
                    assert(self.character_bundles@ =~= orig.subrange(0, p).filter(pred) + orig.subrange(
                        p,
                        orig.len() as int,
                    ));
                }
            } else {
                proof {
                    assert(pred(orig[p]));
                    assert(seq![orig[p]].filter(pred) =~= seq![orig[p]]);
                    p = p + 1;
                    assert(self.character_bundles@ =~= orig.subrange(0, p).filter(pred) + orig.subrange(
                        p,
                        orig.len() as int,
                    ));
                }
                i = i + 1;
            }
        }
        proof {
            assert(p == orig.len());
            assert(orig.subrange(0, orig.len() as int) =~= orig);
            assert(self.character_bundles@ =~= orig.filter(pred));
        }
        Ok(())
    }

    /// Appends a batch of entries. Only the owner may add; every submitted
    /// identifier must be new and unrepeated, else `IDExists` and no
    /// change.
    pub fn add_trait_lootboxes(&mut self, sender: &str, new_trait_lootboxes: Vec<TraitLootbox>) -> (r: Result<
        (),
        ContractError,
    >)
        ensures
            r is Ok <==> old(self).ownership.spec_is_owner(sender@) && first_bad_trait_lootbox(new_trait_lootboxes@) == -1
                && trait_lootbox_batch_ok(old(self).trait_lootboxes@, new_trait_lootboxes@),
            r is Ok ==> final(self).trait_lootboxes@ == old(self).trait_lootboxes@ + new_trait_lootboxes@,
            r is Err ==> *final(self) == *old(self),
            !old(self).ownership.spec_is_owner(sender@) ==> r == Result::<
                (),
                ContractError,
            >::Err(
                ContractError::Ownership(
                    if old(self).ownership.owner is None {
                        OwnershipError::NoOwner
                    } else {
                        OwnershipError::NotOwner
                    },
                ),
            ),
            old(self).ownership.spec_is_owner(sender@) && first_bad_trait_lootbox(new_trait_lootboxes@) >= 0 ==> r
                == Result::<(), ContractError>::Err(
                trait_lootbox_wf_error(new_trait_lootboxes@[first_bad_trait_lootbox(new_trait_lootboxes@)]),
            ),
            old(self).ownership.spec_is_owner(sender@) && first_bad_trait_lootbox(new_trait_lootboxes@) == -1 && !trait_lootbox_batch_ok(
                old(self).trait_lootboxes@,
                new_trait_lootboxes@,
            ) ==> r == Result::<(), ContractError>::Err(ContractError::IDExists),
            final(self).ownership == old(self).ownership,
            final(self).traits == old(self).traits,
            final(self).characters == old(self).characters,
            final(self).trait_bundles == old(self).trait_bundles,
            final(self).character_bundles == old(self).character_bundles,
            final(self).character_lootboxes == old(self).character_lootboxes,
    {
        if let Err(e) = self.ownership.assert_owner(sender) {
            return Err(ContractError::Ownership(e));
        }
        let n = new_trait_lootboxes.len();
        let mut w: usize = 0;
        while w < n
            invariant
                n == new_trait_lootboxes@.len(),
                w <= n,
                *self == *old(self),
                old(self).ownership.spec_is_owner(sender@),
                forall|k: int| 0 <= k < w ==> trait_lootbox_wf(#[trigger] new_trait_lootboxes@[k]),
            decreases n - w,
        {
            let lb = &new_trait_lootboxes[w];
            if lb.traits.len() != lb.possibilities.len() {
                proof {
                    lemma_first_bad_tl_at(new_trait_lootboxes@, w as int);
                }
                return Err(ContractError::NotSameLength);
            }
            if lb.traits.len() == 0 {
                proof {
                    lemma_first_bad_tl_at(new_trait_lootboxes@, w as int);
                }
                return Err(ContractError::Empty);
            }
            if !weights_sum_to_100(&lb.possibilities) {
                proof {
                    lemma_first_bad_tl_at(new_trait_lootboxes@, w as int);
                }
                return Err(ContractError::InvalidProbabilities);
            }
            w = w + 1;
        }
        proof {
            lemma_first_bad_tl_none(new_trait_lootboxes@);
        }
        let mut i: usize = 0;
        while i < n
            invariant
                n == new_trait_lootboxes@.len(),
                i <= n,
                *self == *old(self),
                old(self).ownership.spec_is_owner(sender@),
                first_bad_trait_lootbox(new_trait_lootboxes@) == -1,
                forall|k: int|
                    0 <= k < i ==> !trait_lootbox_id_in(self.trait_lootboxes@, #[trigger] new_trait_lootboxes@[k].id),
                forall|k: int, l: int|
                    0 <= k < l < i ==> #[trigger] new_trait_lootboxes@[k].id != #[trigger] new_trait_lootboxes@[l].id,
            decreases n - i,
        {
            if has_trait_lootbox_id(&self.trait_lootboxes, new_trait_lootboxes[i].id) {
                return Err(ContractError::IDExists);
            }
            let mut j: usize = 0;
            while j < i
                invariant
                    j <= i < n,
                    n == new_trait_lootboxes@.len(),
                    *self == *old(self),
                    old(self).ownership.spec_is_owner(sender@),
                    first_bad_trait_lootbox(new_trait_lootboxes@) == -1,
                    forall|l: int|
                        0 <= l < j ==> #[trigger] new_trait_lootboxes@[l].id != new_trait_lootboxes@[i as int].id,
                    forall|k: int|
                        0 <= k < i ==> !trait_lootbox_id_in(self.trait_lootboxes@, #[trigger] new_trait_lootboxes@[k].id),
                    forall|k: int, l: int|
                        0 <= k < l < i ==> #[trigger] new_trait_lootboxes@[k].id
                            != #[trigger] new_trait_lootboxes@[l].id,
                decreases i - j,
            {
                if new_trait_lootboxes[j].id == new_trait_lootboxes[i].id {
                    return Err(ContractError::IDExists);
                }
                j = j + 1;
            }
            i = i + 1;
        }
        let mut batch = new_trait_lootboxes;
        self.trait_lootboxes.append(&mut batch);
        Ok(())
    }

    /// Removes every entry whose identifier is listed; absent identifiers
    /// are ignored. Only the owner may remove.
    pub fn remove_trait_lootboxes(&mut self, sender: &str, trait_lootbox_ids: Vec<u32>) -> (r: Result<
        (),
        ContractError,
    >)
        ensures
            r is Ok <==> old(self).ownership.spec_is_owner(sender@),
            r is Ok ==> final(self).trait_lootboxes@ == old(self).trait_lootboxes@.filter(
                keep_trait_lootbox_pred(trait_lootbox_ids@),
            ),
            r is Err ==> *final(self) == *old(self),
            !old(self).ownership.spec_is_owner(sender@) ==> r == Result::<
                (),
                ContractError,
            >::Err(
                ContractError::Ownership(
                    if old(self).ownership.owner is None {
                        OwnershipError::NoOwner
                    } else {
                        OwnershipError::NotOwner
                    },
                ),
            ),
            final(self).ownership == old(self).ownership,
            final(self).traits == old(self).traits,
            final(self).characters == old(self).characters,
            final(self).trait_bundles == old(self).trait_bundles,
            final(self).character_bundles == old(self).character_bundles,
            final(self).character_lootboxes == old(self).character_lootboxes,
    {
        if let Err(e) = self.ownership.assert_owner(sender) {
            return Err(ContractError::Ownership(e));
        }
        let ghost orig = self.trait_lootboxes@;
        let ghost pred = keep_trait_lootbox_pred(trait_lootbox_ids@);
        let mut i: usize = 0;
        let ghost mut p: int = 0int;
        proof {
            assert(orig.subrange(0, 0).filter(pred) =~= Seq::<TraitLootbox>::empty());
            assert(orig.subrange(0, orig.len() as int) =~= orig);
            assert(self.trait_lootboxes@ =~= orig.subrange(0, p).filter(pred) + orig.subrange(
                p,
                orig.len() as int,
            ));
        }
        while i < self.trait_lootboxes.len()
            invariant
                0 <= p <= orig.len(),
                i == orig.subrange(0, p).filter(pred).len(),
                self.trait_lootboxes@ == orig.subrange(0, p).filter(pred) + orig.subrange(
                    p,
                    orig.len() as int,
                ),
                pred == keep_trait_lootbox_pred(trait_lootbox_ids@),
                orig == old(self).trait_lootboxes@,
                old(self).ownership.spec_is_owner(sender@),
                self.ownership == old(self).ownership,
                self.traits == old(self).traits,
                self.characters == old(self).characters,
                self.trait_bundles == old(self).trait_bundles,
                self.character_bundles == old(self).character_bundles,
                self.character_lootboxes == old(self).character_lootboxes,
            decreases orig.len() - p,
        {
            proof {
                broadcast use vstd::seq_lib::group_seq_lib_default;

                assert(self.trait_lootboxes@[i as int] == orig[p]);
                assert(orig.subrange(0, p + 1) =~= orig.subrange(0, p) + seq![orig[p]]);
                Seq::<TraitLootbox>::filter_distributes_over_add(
                    orig.subrange(0, p),
                    seq![orig[p]],
                    pred,
                );
                reveal_with_fuel(Seq::<TraitLootbox>::filter, 3);
                assert(seq![orig[p]].drop_last() =~= Seq::<TraitLootbox>::empty());
            }
            if u32_in(&trait_lootbox_ids, self.trait_lootboxes[i].id) {
                self.trait_lootboxes.remove(i);
                proof {
                    assert(!pred(orig[p]));
                    assert(seq![orig[p]].filter(pred) =~= Seq::<TraitLootbox>::empty());
                    p = p + 1;
                    assert(self.trait_lootboxes@ =~= orig.subrange(0, p).filter(pred) + orig.subrange(
                        p,
                        orig.len() as int,
                    ));
                }
            } else {
                proof {
                    assert(pred(orig[p]));
                    assert(seq![orig[p]].filter(pred) =~= seq![orig[p]]);
                    p = p + 1;
                    assert(self.trait_lootboxes@ =~= orig.subrange(0, p).filter(pred) + orig.subrange(
                        p,
                        orig.len() as int,
                    ));
                }
                i = i + 1;
            }
        }
        proof {
            assert(p == orig.len());
            assert(orig.subrange(0, orig.len() as int) =~= orig);
            assert(self.trait_lootboxes@ =~= orig.filter(pred));
        }
        Ok(())
    }

    /// Appends a batch of entries. Only the owner may add; every submitted
    /// identifier must be new and unrepeated, else `IDExists` and no
    /// change.
    pub fn add_character_lootboxes(&mut self, sender: &str, new_character_lootboxes: Vec<CharacterLootbox>) -> (r: Result<
        (),
        ContractError,
    >)
        ensures
            r is Ok <==> old(self).ownership.spec_is_owner(sender@) && first_bad_character_lootbox(new_character_lootboxes@) == -1
                && character_lootbox_batch_ok(old(self).character_lootboxes@, new_character_lootboxes@),
            r is Ok ==> final(self).character_lootboxes@ == old(self).character_lootboxes@ + new_character_lootboxes@,
            r is Err ==> *final(self) == *old(self),
            !old(self).ownership.spec_is_owner(sender@) ==> r == Result::<
                (),
                ContractError,
            >::Err(
                ContractError::Ownership(
                    if old(self).ownership.owner is None {
                        OwnershipError::NoOwner
                    } else {
                        OwnershipError::NotOwner
                    },
                ),
            ),
            old(self).ownership.spec_is_owner(sender@) && first_bad_character_lootbox(new_character_lootboxes@) >= 0 ==> r
                == Result::<(), ContractError>::Err(
                character_lootbox_wf_error(new_character_lootboxes@[first_bad_character_lootbox(new_character_lootboxes@)]),
            ),
            old(self).ownership.spec_is_owner(sender@) && first_bad_character_lootbox(new_character_lootboxes@) == -1 && !character_lootbox_batch_ok(
                old(self).character_lootboxes@,
                new_character_lootboxes@,
            ) ==> r == Result::<(), ContractError>::Err(ContractError::IDExists),
            final(self).ownership == old(self).ownership,
            final(self).traits == old(self).traits,
            final(self).characters == old(self).characters,
            final(self).trait_bundles == old(self).trait_bundles,
            final(self).character_bundles == old(self).character_bundles,
            final(self).trait_lootboxes == old(self).trait_lootboxes,
    {
        if let Err(e) = self.ownership.assert_owner(sender) {
            return Err(ContractError::Ownership(e));
        }
        let n = new_character_lootboxes.len();
        let mut w: usize = 0;
        while w < n
            invariant
                n == new_character_lootboxes@.len(),
                w <= n,
                *self == *old(self),
                old(self).ownership.spec_is_owner(sender@),
                forall|k: int| 0 <= k < w ==> character_lootbox_wf(#[trigger] new_character_lootboxes@[k]),
            decreases n - w,
        {
            let lb = &new_character_lootboxes[w];
            if lb.characters.len() != lb.possibilities.len() {
                proof {
                    lemma_first_bad_cl_at(new_character_lootboxes@, w as int);
                }
                return Err(ContractError::NotSameLength);
            }
            if lb.characters.len() == 0 {
                proof {
                    lemma_first_bad_cl_at(new_character_lootboxes@, w as int);
                }
                return Err(ContractError::Empty);
            }
            if !weights_sum_to_100(&lb.possibilities) {
                proof {
                    lemma_first_bad_cl_at(new_character_lootboxes@, w as int);
                }
                return Err(ContractError::InvalidProbabilities);
            }
            w = w + 1;
        }
        proof {
            lemma_first_bad_cl_none(new_character_lootboxes@);
        }
        let mut i: usize = 0;
        while i < n
            invariant
                n == new_character_lootboxes@.len(),
                i <= n,
                *self == *old(self),
                old(self).ownership.spec_is_owner(sender@),
                first_bad_character_lootbox(new_character_lootboxes@) == -1,
                forall|k: int|
                    0 <= k < i ==> !character_lootbox_id_in(self.character_lootboxes@, #[trigger] new_character_lootboxes@[k].id),
                forall|k: int, l: int|
                    0 <= k < l < i ==> #[trigger] new_character_lootboxes@[k].id != #[trigger] new_character_lootboxes@[l].id,
            decreases n - i,
        {
            if has_character_lootbox_id(&self.character_lootboxes, new_character_lootboxes[i].id) {
                return Err(ContractError::IDExists);
            }
            let mut j: usize = 0;
            while j < i
                invariant
                    j <= i < n,
                    n == new_character_lootboxes@.len(),
                    *self == *old(self),
                    old(self).ownership.spec_is_owner(sender@),
                    first_bad_character_lootbox(new_character_lootboxes@) == -1,
                    forall|l: int|
                        0 <= l < j ==> #[trigger] new_character_lootboxes@[l].id != new_character_lootboxes@[i as int].id,
                    forall|k: int|
                        0 <= k < i ==> !character_lootbox_id_in(self.character_lootboxes@, #[trigger] new_character_lootboxes@[k].id),
                    forall|k: int, l: int|
                        0 <= k < l < i ==> #[trigger] new_character_lootboxes@[k].id
                            != #[trigger] new_character_lootboxes@[l].id,
                decreases i - j,
            {
                if new_character_lootboxes[j].id == new_character_lootboxes[i].id {
                    return Err(ContractError::IDExists);
                }
                j = j + 1;
            }
            i = i + 1;
        }
        let mut batch = new_character_lootboxes;
        self.character_lootboxes.append(&mut batch);
        Ok(())
    }

    /// Removes every entry whose identifier is listed; absent identifiers
    /// are ignored. Only the owner may remove.
    pub fn remove_character_lootboxes(&mut self, sender: &str, character_lootbox_ids: Vec<u32>) -> (r: Result<
        (),
        ContractError,
    >)
        ensures
            r is Ok <==> old(self).ownership.spec_is_owner(sender@),
            r is Ok ==> final(self).character_lootboxes@ == old(self).character_lootboxes@.filter(
                keep_character_lootbox_pred(character_lootbox_ids@),
            ),
            r is Err ==> *final(self) == *old(self),
            !old(self).ownership.spec_is_owner(sender@) ==> r == Result::<
                (),
                ContractError,
            >::Err(
                ContractError::Ownership(
                    if old(self).ownership.owner is None {
                        OwnershipError::NoOwner
                    } else {
                        OwnershipError::NotOwner
                    },
                ),
            ),
            final(self).ownership == old(self).ownership,
            final(self).traits == old(self).traits,
            final(self).characters == old(self).characters,
            final(self).trait_bundles == old(self).trait_bundles,
            final(self).character_bundles == old(self).character_bundles,
            final(self).trait_lootboxes == old(self).trait_lootboxes,
    {
        if let Err(e) = self.ownership.assert_owner(sender) {
            return Err(ContractError::Ownership(e));
        }
        let ghost orig = self.character_lootboxes@;
        let ghost pred = keep_character_lootbox_pred(character_lootbox_ids@);
        let mut i: usize = 0;
        let ghost mut p: int = 0int;
        proof {
            assert(orig.subrange(0, 0).filter(pred) =~= Seq::<CharacterLootbox>::empty());
            assert(orig.subrange(0, orig.len() as int) =~= orig);
            assert(self.character_lootboxes@ =~= orig.subrange(0, p).filter(pred) + orig.subrange(
                p,
                orig.len() as int,
            ));
        }
        while i < self.character_lootboxes.len()
            invariant
                0 <= p <= orig.len(),
                i == orig.subrange(0, p).filter(pred).len(),
                self.character_lootboxes@ == orig.subrange(0, p).filter(pred) + orig.subrange(
                    p,
                    orig.len() as int,
                ),
                pred == keep_character_lootbox_pred(character_lootbox_ids@),
                orig == old(self).character_lootboxes@,
                old(self).ownership.spec_is_owner(sender@),
                self.ownership == old(self).ownership,
                self.traits == old(self).traits,
                self.characters == old(self).characters,
                self.trait_bundles == old(self).trait_bundles,
                self.character_bundles == old(self).character_bundles,
                self.trait_lootboxes == old(self).trait_lootboxes,
            decreases orig.len() - p,
        {
            proof {
                broadcast use vstd::seq_lib::group_seq_lib_default;

                assert(self.character_lootboxes@[i as int] == orig[p]);
                assert(orig.subrange(0, p + 1) =~= orig.subrange(0, p) + seq![orig[p]]);
                Seq::<CharacterLootbox>::filter_distributes_over_add(
                    orig.subrange(0, p),
                    seq![orig[p]],
                    pred,
                );
                reveal_with_fuel(Seq::<CharacterLootbox>::filter, 3);
                assert(seq![orig[p]].drop_last() =~= Seq::<CharacterLootbox>::empty());
            }
            if u32_in(&character_lootbox_ids, self.character_lootboxes[i].id) {
                self.character_lootboxes.remove(i);
                proof {
                    assert(!pred(orig[p]));
                    assert(seq![orig[p]].filter(pred) =~= Seq::<CharacterLootbox>::empty());
                    p = p + 1;
                    assert(self.character_lootboxes@ =~= orig.subrange(0, p).filter(pred) + orig.subrange(
                        p,
                        orig.len() as int,
                    ));
                }
            } else {
                proof {
                    assert(pred(orig[p]));
                    assert(seq![orig[p]].filter(pred) =~= seq![orig[p]]);
                    p = p + 1;
                    assert(self.character_lootboxes@ =~= orig.subrange(0, p).filter(pred) + orig.subrange(
                        p,
                        orig.len() as int,
                    ));
                }
                i = i + 1;
            }
        }
        proof {
            assert(p == orig.len());
            assert(orig.subrange(0, orig.len() as int) =~= orig);
            assert(self.character_lootboxes@ =~= orig.filter(pred));
        }
        Ok(())
    }

    pub fn traits(&self) -> (r: &Vec<Trait>)
        ensures
            r == &self.traits,
    {
        &self.traits
    }

    pub fn characters(&self) -> (r: &Vec<Character>)
        ensures
            r == &self.characters,
    {
        &self.characters
    }

    pub fn trait_bundles(&self) -> (r: &Vec<TraitBundle>)
        ensures
            r == &self.trait_bundles,
    {
        &self.trait_bundles
    }

    pub fn character_bundles(&self) -> (r: &Vec<CharacterBundle>)
        ensures
            r == &self.character_bundles,
    {
        &self.character_bundles
    }

    pub fn trait_lootboxes(&self) -> (r: &Vec<TraitLootbox>)
        ensures
            r == &self.trait_lootboxes,
    {
        &self.trait_lootboxes
    }

    pub fn character_lootboxes(&self) -> (r: &Vec<CharacterLootbox>)
        ensures
            r == &self.character_lootboxes,
    {
        &self.character_lootboxes
    }
}

} // verus!
