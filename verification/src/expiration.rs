//! Block context and the expiry bound carried by approvals and operator
//! grants: an approval never expires, or lapses once a block height or a
//! block timestamp has been passed.

use vstd::prelude::*;

verus! {

/// The read-only block context a call executes under: every expiry test
/// within one call compares against the same height and timestamp.
#[derive(Clone, Copy, PartialEq, Eq, Structural, Debug)]
pub struct BlockInfo {
    pub height: u64,
    /// Block time in nanoseconds since the epoch.
    pub time_nanos: u64,
}

/// When a grant lapses: never, strictly after a block height, or strictly
/// after a block time.
#[derive(Clone, Copy, PartialEq, Eq, Structural, Debug)]
pub enum Expiration {
    AtHeight(u64),
    AtTime(u64),
    Never,
}

impl Expiration {
    /// A grant bounded by height `h` is spent once the chain has reached
    /// `h`; one bounded by time `t` once the block time has reached `t`.
    pub open spec fn spec_is_expired(self, block: BlockInfo) -> bool {
        match self {
            Expiration::AtHeight(h) => block.height >= h,
            Expiration::AtTime(t) => block.time_nanos >= t,
            Expiration::Never => false,
        }
    }

    pub fn is_expired(&self, block: &BlockInfo) -> (r: bool)
        ensures
            r == self.spec_is_expired(*block),
    {
        match self {
            Expiration::AtHeight(h) => block.height >= *h,
            Expiration::AtTime(t) => block.time_nanos >= *t,
            Expiration::Never => false,
        }
    }
}

impl Default for Expiration {
    /// An absent expiry defaults to a grant that never lapses.
    fn default() -> (r: Self)
        ensures
            r == Expiration::Never,
    {
        Expiration::Never
    }
}

} // verus!
