//! Contract-level ownership: the minter/administrator role of a collection,
//! catalog or manager, with the two-step transfer protocol (propose, accept
//! before an optional deadline) and renouncement.

use vstd::prelude::*;

use crate::expiration::{BlockInfo, Expiration};
use crate::strings::str_eq;

verus! {

/// The current holder of the role, plus a pending transfer if one is open.
#[derive(Debug)]
pub struct Ownership {
    pub owner: Option<String>,
    pub pending_owner: Option<String>,
    pub pending_expiry: Option<Expiration>,
}

#[derive(Clone, Copy, PartialEq, Eq, Structural, Debug)]
pub enum OwnershipError {
    /// The role has been renounced; nobody holds it.
    NoOwner,
    /// The caller is not the current owner.
    NotOwner,
    /// There is no pending transfer to accept.
    TransferNotFound,
    /// The caller is not the proposed new owner.
    NotPendingOwner,
    /// The pending transfer's deadline has passed.
    TransferExpired,
}

/// An ownership-transfer request.
#[derive(Debug)]
pub enum Action {
    TransferOwnership { new_owner: String, expiry: Option<Expiration> },
    AcceptOwnership,
    RenounceOwnership,
}

impl Ownership {
    /// Whether `addr` is the current owner.
    pub open spec fn spec_is_owner(self, addr: Seq<char>) -> bool {
        match self.owner {
            Some(o) => o@ == addr,
            None => false,
        }
    }

    pub fn new(owner: Option<String>) -> (r: Ownership)
        ensures
            r.owner == owner,
            r.pending_owner is None,
            r.pending_expiry is None,
    {
        Ownership { owner, pending_owner: None, pending_expiry: None }
    }

    /// Fails `NoOwner` when the role is vacant, `NotOwner` when `sender` is
    /// not the holder; succeeds exactly for the current owner.
    pub fn assert_owner(&self, sender: &str) -> (r: Result<(), OwnershipError>)
        ensures
            r is Ok <==> self.spec_is_owner(sender@),
            r is Err ==> r == if self.owner is None {
                Result::<(), OwnershipError>::Err(OwnershipError::NoOwner)
            } else {
                Result::<(), OwnershipError>::Err(OwnershipError::NotOwner)
            },
    {
        match &self.owner {
            None => Err(OwnershipError::NoOwner),
            Some(owner) => {
                if str_eq(owner.as_str(), sender) {
                    Ok(())
                } else {
                    Err(OwnershipError::NotOwner)
                }
            },
        }
    }

    /// Opening a transfer requires the caller to be the current owner; the
    /// proposal (including an already-passed deadline) is stored as given.
    pub open spec fn spec_transfer_ok(self, sender: Seq<char>) -> bool {
        self.spec_is_owner(sender)
    }

    /// Accepting requires an open transfer, the caller to be the proposed
    /// owner, and the deadline (if any) not to have passed.
    pub open spec fn spec_accept_ok(self, block: BlockInfo, sender: Seq<char>) -> bool {
        &&& self.pending_owner is Some
        &&& (match self.pending_owner {
            Some(p) => p@ == sender,
            None => false,
        })
        &&& (match self.pending_expiry {
            Some(e) => !e.spec_is_expired(block),
            None => true,
        })
    }

    /// Applies `action` to the ownership record. On success the record is
    /// updated as the action prescribes; on failure it is unchanged.
    pub fn update(
        &mut self,
        block: &BlockInfo,
        sender: &str,
        action: Action,
    ) -> (r: Result<(), OwnershipError>)
        ensures
            match action {
                Action::TransferOwnership { new_owner, expiry } => {
                    &&& (r is Ok <==> old(self).spec_transfer_ok(sender@))
                    &&& r is Ok ==> {
                        &&& final(self).owner == old(self).owner
                        &&& (match final(self).pending_owner {
                            Some(p) => p@ == new_owner@,
                            None => false,
                        })
                        &&& final(self).pending_expiry == expiry
                    }
                },
                Action::AcceptOwnership => {
                    &&& (r is Ok <==> old(self).spec_accept_ok(*block, sender@))
                    &&& r is Ok ==> {
                        &&& final(self).owner == old(self).pending_owner
                        &&& final(self).pending_owner is None
                        &&& final(self).pending_expiry is None
                    }
                },
                Action::RenounceOwnership => {
                    &&& (r is Ok <==> old(self).spec_is_owner(sender@))
                    &&& r is Ok ==> {
                        &&& final(self).owner is None
                        &&& final(self).pending_owner is None
                        &&& final(self).pending_expiry is None
                    }
                },
            },
            r is Err ==> *final(self) == *old(self),
    {
        match action {
            Action::TransferOwnership { new_owner, expiry } => {
                match &self.owner {
                    None => Err(OwnershipError::NoOwner),
                    Some(owner) => {
                        if !str_eq(owner.as_str(), sender) {
                            Err(OwnershipError::NotOwner)
                        } else {
                            self.pending_owner = Some(new_owner);
                            self.pending_expiry = expiry;
                            Ok(())
                        }
                    },
                }
            },
            Action::AcceptOwnership => {
                match &self.pending_owner {
                    None => Err(OwnershipError::TransferNotFound),
                    Some(pending) => {
                        if !str_eq(pending.as_str(), sender) {
                            Err(OwnershipError::NotPendingOwner)
                        } else {
                            let expired = match &self.pending_expiry {
                                Some(e) => e.is_expired(block),
                                None => false,
                            };
                            if expired {
                                Err(OwnershipError::TransferExpired)
                            } else {
                                self.owner = self.pending_owner.take();
                                self.pending_expiry = None;
                                Ok(())
                            }
                        }
                    },
                }
            },
            Action::RenounceOwnership => {
                match &self.owner {
                    None => Err(OwnershipError::NoOwner),
                    Some(owner) => {
                        if !str_eq(owner.as_str(), sender) {
                            Err(OwnershipError::NotOwner)
                        } else {
                            self.owner = None;
                            self.pending_owner = None;
                            self.pending_expiry = None;
                            Ok(())
                        }
                    },
                }
            },
        }
    }
}

} // verus!
