//! What each successful operation reports to those who follow the
//! collection from outside.

use vstd::prelude::*;
use crate::keys::Pubkey;

verus! {

/// A ticket was claimed.
#[derive(Clone, Copy, Debug, PartialEq, Eq)]
pub struct ClaimEvent {
    pub nft_id: u32,
    pub recipient: Pubkey,
    pub timestamp: i64,
}

/// A ticket changed hands.
#[derive(Clone, Copy, Debug, PartialEq, Eq)]
pub struct TransferEvent {
    pub nft_id: u32,
    pub from: Pubkey,
    pub to: Pubkey,
    pub operator: Pubkey,
}

/// A ticket was destroyed.
#[derive(Clone, Copy, Debug, PartialEq, Eq)]
pub struct BurnEvent {
    pub nft_id: u32,
    pub operator: Pubkey,
}

/// The collection was locked.
#[derive(Clone, Copy, Debug, PartialEq, Eq)]
pub struct LockEvent {
    pub operator: Pubkey,
    pub timestamp: i64,
}

/// The key that authorizes claims was replaced.
#[derive(Clone, Copy, Debug, PartialEq, Eq)]
pub struct SignerUpdatedEvent {
    pub old_signer: Pubkey,
    pub new_signer: Pubkey,
    pub operator: Pubkey,
}

/// The metadata location was replaced.
#[derive(Clone, Debug, PartialEq, Eq)]
pub struct BaseUriUpdatedEvent {
    pub old_base_uri: String,
    pub new_base_uri: String,
    pub operator: Pubkey,
}

/// A metadata change as a mathematical value.
pub struct BaseUriUpdatedView {
    pub old_base_uri: Seq<char>,
    pub new_base_uri: Seq<char>,
    pub operator: Pubkey,
}

impl View for BaseUriUpdatedEvent {
    type V = BaseUriUpdatedView;

    open spec fn view(&self) -> BaseUriUpdatedView {
        BaseUriUpdatedView {
            old_base_uri: self.old_base_uri@,
            new_base_uri: self.new_base_uri@,
            operator: self.operator,
        }
    }
}

} // verus!
