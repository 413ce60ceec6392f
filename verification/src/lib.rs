//! Verified core of a game-economy NFT system: per-token ownership and
//! authorization, collection metadata rules, a sellable-item catalog, the
//! minting managers' payment/split pipeline, and the deterministic weighted
//! selector used to resolve lootbox openings.

pub mod catalog;
pub mod character_manager;
pub mod coin;
pub mod collection;
pub mod expiration;
pub mod manager;
pub mod metadata;
pub mod ownership;
pub mod search;
pub mod selector;
pub mod strings;
pub mod trait_manager;

pub use expiration::{BlockInfo, Expiration};
