//! On-chain token extensions: the character sheet (trait slots, rarity,
//! equipped trait keys, the irreversible lock flag) and the single-trait
//! metadata carried by trait tokens.

use vstd::prelude::*;

use crate::strings::spec_opt_str_eq;

verus! {

/// Equality of optional string lists, compared by contents.
pub open spec fn spec_opt_vstr_eq(a: Option<Vec<String>>, b: Option<Vec<String>>) -> bool {
    match (a, b) {
        (Some(x), Some(y)) => x.deep_view() == y.deep_view(),
        (None, None) => true,
        _ => false,
    }
}

/// A character token's on-chain extension.
#[derive(Debug)]
pub struct Metadata {
    pub name: Option<String>,
    pub ears: Option<String>,
    pub eyes: Option<String>,
    pub mouth: Option<String>,
    pub fur_type: Option<String>,
    pub fur_color: Option<String>,
    pub tail_shape: Option<String>,
    /// Set for pre-made characters sold from the catalog; drives the price.
    pub rarity: Option<String>,
    /// Keys of the trait tokens currently equipped, so that locking can
    /// burn them.
    pub traits_equipped: Option<Vec<String>>,
    /// Once true the character is final: it can be transferred but never
    /// modified again.
    pub locked: bool,
}

impl Metadata {
    /// Field-by-field equality of the character sheet, by string contents.
    pub open spec fn spec_eq(self, other: Metadata) -> bool {
        &&& spec_opt_str_eq(self.name, other.name)
        &&& spec_opt_str_eq(self.ears, other.ears)
        &&& spec_opt_str_eq(self.eyes, other.eyes)
        &&& spec_opt_str_eq(self.mouth, other.mouth)
        &&& spec_opt_str_eq(self.fur_type, other.fur_type)
        &&& spec_opt_str_eq(self.fur_color, other.fur_color)
        &&& spec_opt_str_eq(self.tail_shape, other.tail_shape)
        &&& spec_opt_str_eq(self.rarity, other.rarity)
        &&& spec_opt_vstr_eq(self.traits_equipped, other.traits_equipped)
        &&& self.locked == other.locked
    }

    pub fn duplicate(&self) -> (r: Metadata)
        ensures
            r.spec_eq(*self),
            r.locked == self.locked,
            r.name == self.name,
            r.ears == self.ears,
            r.eyes == self.eyes,
            r.mouth == self.mouth,
            r.fur_type == self.fur_type,
            r.fur_color == self.fur_color,
            r.tail_shape == self.tail_shape,
            r.rarity == self.rarity,
            r.traits_equipped is Some <==> self.traits_equipped is Some,
    {
        Metadata {
            name: clone_opt_string(&self.name),
            ears: clone_opt_string(&self.ears),
            eyes: clone_opt_string(&self.eyes),
            mouth: clone_opt_string(&self.mouth),
            fur_type: clone_opt_string(&self.fur_type),
            fur_color: clone_opt_string(&self.fur_color),
            tail_shape: clone_opt_string(&self.tail_shape),
            rarity: clone_opt_string(&self.rarity),
            traits_equipped: clone_opt_string_vec(&self.traits_equipped),
            locked: self.locked,
        }
    }
}

/// A trait token's on-chain extension: one category, one value, a rarity.
#[derive(Debug)]
pub struct TraitMetadata {
    pub trait_type: String,
    pub trait_value: String,
    pub trait_rarity: String,
}

impl TraitMetadata {
    pub open spec fn spec_eq(self, other: TraitMetadata) -> bool {
        &&& self.trait_type@ == other.trait_type@
        &&& self.trait_value@ == other.trait_value@
        &&& self.trait_rarity@ == other.trait_rarity@
    }

    pub fn duplicate(&self) -> (r: TraitMetadata)
        ensures
            r == *self,
    {
        TraitMetadata {
            trait_type: self.trait_type.clone(),
            trait_value: self.trait_value.clone(),
            trait_rarity: self.trait_rarity.clone(),
        }
    }
}

pub fn clone_opt_string(o: &Option<String>) -> (r: Option<String>)
    ensures
        r == *o,
{
    match o {
        None => None,
        Some(s) => Some(s.clone()),
    }
}

/// Copies a string list; the copy holds the same strings.
pub fn clone_string_vec(v: &Vec<String>) -> (r: Vec<String>)
    ensures
        r@.len() == v@.len(),
        forall|j: int| 0 <= j < v@.len() ==> r@[j] == v@[j],
        r.deep_view() == v.deep_view(),
{
    let mut out: Vec<String> = Vec::new();
    let n = v.len();
    let mut i: usize = 0;
    while i < n
        invariant
            n == v@.len(),
            i <= n,
            out@.len() == i,
            forall|j: int| 0 <= j < i ==> out@[j] == v@[j],
        decreases n - i,
    {
        out.push(v[i].clone());
        i = i + 1;
    }
    proof {
        assert(out.deep_view() =~= v.deep_view());
    }
    out
}

/// Copies an optional string list; the copy holds the same strings.
pub fn clone_opt_string_vec(o: &Option<Vec<String>>) -> (r: Option<Vec<String>>)
    ensures
        r is Some <==> *o is Some,
        spec_opt_vstr_eq(r, *o),
{
    match o {
        None => None,
        Some(v) => Some(clone_string_vec(v)),
    }
}

} // verus!
