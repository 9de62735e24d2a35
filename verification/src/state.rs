//! The collection record and the ticket record.

use vstd::prelude::*;
use crate::error::ErrorCode;
use crate::keys::Pubkey;

verus! {

/// Number of tickets that a collection can hold: ids run from 0 up to, but
/// not including, this number.
pub const MAX_SUPPLY: u32 = 10000;

/// The configuration and supply counter of one collection.
#[derive(Clone, Debug, PartialEq, Eq)]
pub struct NftCollection {
    /// The operator, who alone may transfer, burn, reconfigure and lock.
    pub authority: Pubkey,
    /// The key whose signatures authorize claims.
    pub signer: Pubkey,
    /// Once set, nothing in the collection or its tickets changes any more.
    pub is_locked: bool,
    /// Number of live tickets.
    pub total_supply: u32,
    /// Where the tickets' metadata is found.
    pub base_uri: String,
}

/// A collection as a mathematical value.
pub struct CollectionView {
    pub authority: Pubkey,
    pub signer: Pubkey,
    pub is_locked: bool,
    pub total_supply: nat,
    pub base_uri: Seq<char>,
}

impl View for NftCollection {
    type V = CollectionView;

    open spec fn view(&self) -> CollectionView {
        CollectionView {
            authority: self.authority,
            signer: self.signer,
            is_locked: self.is_locked,
            total_supply: self.total_supply as nat,
            base_uri: self.base_uri@,
        }
    }
}

impl CollectionView {
    /// The collection as it is created: unlocked and empty.
    pub open spec fn fresh(authority: Pubkey, signer: Pubkey, base_uri: Seq<char>) -> CollectionView {
        CollectionView { authority, signer, is_locked: false, total_supply: 0, base_uri }
    }

    /// The same collection with another supply.
    pub open spec fn with_supply(self, total_supply: nat) -> CollectionView {
        CollectionView { total_supply, ..self }
    }

    /// The same collection with another signer.
    pub open spec fn with_signer(self, signer: Pubkey) -> CollectionView {
        CollectionView { signer, ..self }
    }

    /// The same collection with another metadata location.
    pub open spec fn with_base_uri(self, base_uri: Seq<char>) -> CollectionView {
        CollectionView { base_uri, ..self }
    }

    /// The same collection, locked.
    pub open spec fn locked(self) -> CollectionView {
        CollectionView { is_locked: true, ..self }
    }
}

impl NftCollection {
    /// Bytes set aside for a stored collection record: an 8-byte tag, the
    /// two keys, the lock flag, the supply counter, a length-prefixed
    /// `base_uri` of up to 200 bytes, and 100 bytes in reserve.
    pub const LEN: usize = 8 + 32 + 32 + 1 + 4 + (4 + 200) + 100;

    /// A new collection: unlocked, with no tickets.
    pub fn create(authority: Pubkey, signer: Pubkey, base_uri: String) -> (collection: NftCollection)
        ensures
            collection@ == CollectionView::fresh(authority, signer, base_uri@),
    {
        NftCollection { authority, signer, is_locked: false, total_supply: 0, base_uri }
    }

    /// Refuses with [`ErrorCode::ContractLocked`] exactly when the collection
    /// is locked.
    pub fn assert_unlocked(&self) -> (outcome: Result<(), ErrorCode>)
        ensures
            outcome == (if self.is_locked {
                Err(ErrorCode::ContractLocked)
            } else {
                Ok(())
            }),
    {
        if self.is_locked {
            Err(ErrorCode::ContractLocked)
        } else {
            Ok(())
        }
    }

    /// Refuses with [`ErrorCode::Unauthorized`] exactly when `caller` is not
    /// the collection's authority.
    pub fn assert_authority(&self, caller: &Pubkey) -> (outcome: Result<(), ErrorCode>)
        ensures
            outcome == (if *caller == self.authority {
                Ok(())
            } else {
                Err(ErrorCode::Unauthorized)
            }),
    {
        if *caller == self.authority {
            Ok(())
        } else {
            Err(ErrorCode::Unauthorized)
        }
    }

    /// Counts one more live ticket. Refuses with
    /// [`ErrorCode::SupplyInvariant`], changing nothing, when the counter is
    /// at its maximum.
    pub fn increment_supply(&mut self) -> (outcome: Result<(), ErrorCode>)
        ensures
            old(self).total_supply < u32::MAX ==> outcome == Ok::<(), ErrorCode>(())
                && final(self)@ == old(self)@.with_supply(old(self)@.total_supply + 1),
            old(self).total_supply == u32::MAX ==> outcome == Err::<(), ErrorCode>(
                ErrorCode::SupplyInvariant,
            ) && *final(self) == *old(self),
    {
        match self.total_supply.checked_add(1) {
            Some(supply) => {
                self.total_supply = supply;
                Ok(())
            },
            None => Err(ErrorCode::SupplyInvariant),
        }
    }

    /// Counts one live ticket fewer. Refuses with
    /// [`ErrorCode::SupplyInvariant`], changing nothing, when the counter is
    /// zero.
    pub fn decrement_supply(&mut self) -> (outcome: Result<(), ErrorCode>)
        ensures
            old(self).total_supply > 0 ==> outcome == Ok::<(), ErrorCode>(())
                && final(self)@ == old(self)@.with_supply((old(self)@.total_supply - 1) as nat),
            old(self).total_supply == 0 ==> outcome == Err::<(), ErrorCode>(
                ErrorCode::SupplyInvariant,
            ) && *final(self) == *old(self),
    {
        match self.total_supply.checked_sub(1) {
            Some(supply) => {
                self.total_supply = supply;
                Ok(())
            },
            None => Err(ErrorCode::SupplyInvariant),
        }
    }
}

/// One ticket: its number, who holds it, and the collection it belongs to.
#[derive(Clone, Copy, Debug, PartialEq, Eq)]
pub struct Nft {
    /// The ticket's number, below [`MAX_SUPPLY`]; it never changes.
    pub nft_id: u32,
    /// The current holder.
    pub owner: Pubkey,
    /// The address of the collection that issued the ticket.
    pub collection: Pubkey,
}

impl Nft {
    /// Bytes set aside for a stored ticket record: an 8-byte tag, the
    /// number, the two keys, and 50 bytes in reserve.
    pub const LEN: usize = 8 + 4 + 32 + 32 + 50;

    /// The ticket `id` of `collection`, held by `owner`.
    pub fn create(id: u32, owner: Pubkey, collection: Pubkey) -> (nft: Nft)
        ensures
            nft == (Nft { nft_id: id, owner, collection }),
    {
        Nft { nft_id: id, owner, collection }
    }

    /// Hands the ticket to `new_owner`; its number and collection stay.
    pub fn set_owner(&mut self, new_owner: Pubkey)
        ensures
            *final(self) == (Nft { owner: new_owner, ..*old(self) }),
    {
        self.owner = new_owner;
    }
}

} // verus!
