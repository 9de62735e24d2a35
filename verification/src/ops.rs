//! The lifecycle operations on a collection and on one ticket.
//!
//! Each operation takes the records it works on, checks its preconditions
//! in a fixed order, and either changes the records and returns the event
//! to publish, or refuses and changes nothing. The lock is consulted first
//! by every operation but the one that sets it.

use vstd::prelude::*;
use crate::authorization::proof_accepted;
use crate::authorization::verify_ed25519_signature;
use crate::codec::SiblingRecordView;
use crate::error::ErrorCode;
use crate::events::BaseUriUpdatedEvent;
use crate::events::BaseUriUpdatedView;
use crate::events::BurnEvent;
use crate::events::ClaimEvent;
use crate::events::LockEvent;
use crate::events::SignerUpdatedEvent;
use crate::events::TransferEvent;
use crate::instructions::instructions_sysvar_id;
use crate::instructions::verification_record;
use crate::instructions::InstructionsAccount;
use crate::keys::Pubkey;
use crate::state::CollectionView;
use crate::state::Nft;
use crate::state::NftCollection;
use crate::state::MAX_SUPPLY;

verus! {

/// What stands in the way of an operator action by `caller`: the lock
/// first, then the caller's identity.
pub open spec fn operator_check(collection: CollectionView, caller: Pubkey) -> Result<(), ErrorCode> {
    if collection.is_locked {
        Err(ErrorCode::ContractLocked)
    } else if caller != collection.authority {
        Err(ErrorCode::Unauthorized)
    } else {
        Ok(())
    }
}

/// What stands in the way of a claim: the lock, then the id's range, then
/// the proof, then the supply counter.
pub open spec fn claim_check(
    collection: CollectionView,
    proof: Seq<u8>,
    nft_id: u32,
    recipient: Pubkey,
    record: Option<SiblingRecordView>,
) -> Result<(), ErrorCode> {
    if collection.is_locked {
        Err(ErrorCode::ContractLocked)
    } else if nft_id >= MAX_SUPPLY {
        Err(ErrorCode::NftIdOutOfRange)
    } else if !proof_accepted(proof, recipient@, nft_id, collection.signer@, record) {
        Err(ErrorCode::InvalidProof)
    } else if collection.total_supply >= u32::MAX {
        Err(ErrorCode::SupplyInvariant)
    } else {
        Ok(())
    }
}

/// What stands in the way of a transfer: the lock, the caller's identity,
/// then the declared current owner.
pub open spec fn transfer_check(
    collection: CollectionView,
    nft: Nft,
    from: Pubkey,
    caller: Pubkey,
) -> Result<(), ErrorCode> {
    if operator_check(collection, caller) is Err {
        operator_check(collection, caller)
    } else if nft.owner != from {
        Err(ErrorCode::InvalidOwner)
    } else {
        Ok(())
    }
}

/// What stands in the way of a burn: the lock, the caller's identity, then
/// the supply counter.
pub open spec fn burn_check(collection: CollectionView, caller: Pubkey) -> Result<(), ErrorCode> {
    if operator_check(collection, caller) is Err {
        operator_check(collection, caller)
    } else if collection.total_supply == 0 {
        Err(ErrorCode::SupplyInvariant)
    } else {
        Ok(())
    }
}

/// Creates the collection record: unlocked, with no tickets.
pub fn initialize(authority: Pubkey, signer: Pubkey, base_uri: String) -> (collection: NftCollection)
    ensures
        collection@ == CollectionView::fresh(authority, signer, base_uri@),
{
    NftCollection::create(authority, signer, base_uri)
}

/// Creates ticket `nft_id` for `recipient` and counts it.
///
/// Refuses with [`ErrorCode::SupplyInvariant`] when the counter cannot take
/// one more.
pub fn issue_ticket(
    collection: &mut NftCollection,
    collection_key: Pubkey,
    nft_id: u32,
    recipient: Pubkey,
    timestamp: i64,
) -> (outcome: Result<(Nft, ClaimEvent), ErrorCode>)
    ensures
        old(collection).total_supply < u32::MAX ==> {
            &&& outcome == Ok::<(Nft, ClaimEvent), ErrorCode>(
                (
                    Nft { nft_id, owner: recipient, collection: collection_key },
                    ClaimEvent { nft_id, recipient, timestamp },
                ),
            )
            &&& final(collection)@ == old(collection)@.with_supply(
                old(collection)@.total_supply + 1,
            )
        },
        old(collection).total_supply == u32::MAX ==> {
            &&& outcome == Err::<(Nft, ClaimEvent), ErrorCode>(ErrorCode::SupplyInvariant)
            &&& *final(collection) == *old(collection)
        },
{
    collection.increment_supply()?;
    let nft = Nft::create(nft_id, recipient, collection_key);
    Ok((nft, ClaimEvent { nft_id, recipient, timestamp }))
}

/// Claims ticket `nft_id` for `recipient`.
///
/// Succeeds when the collection is unlocked, the id is below
/// [`MAX_SUPPLY`], and `proof` is attested, by the verification record of
/// the atomic unit whose instructions `instruction_sysvar` holds, as the
/// collection signer's signature over the digest of (`recipient`,
/// `nft_id`). Then the new ticket and the event are returned and the supply
/// grows by one.
pub fn claim(
    collection: &mut NftCollection,
    collection_key: Pubkey,
    proof: &[u8; 64],
    nft_id: u32,
    recipient: Pubkey,
    instruction_sysvar: &InstructionsAccount,
    timestamp: i64,
) -> (outcome: Result<(Nft, ClaimEvent), ErrorCode>)
    ensures
        match claim_check(
            old(collection)@,
            proof@,
            nft_id,
            recipient,
            verification_record(instruction_sysvar@),
        ) {
            Ok(_) => {
                &&& outcome == Ok::<(Nft, ClaimEvent), ErrorCode>(
                    (
                        Nft { nft_id, owner: recipient, collection: collection_key },
                        ClaimEvent { nft_id, recipient, timestamp },
                    ),
                )
                &&& final(collection)@ == old(collection)@.with_supply(
                    old(collection)@.total_supply + 1,
                )
            },
            Err(e) => {
                &&& outcome == Err::<(Nft, ClaimEvent), ErrorCode>(e)
                &&& *final(collection) == *old(collection)
            },
        },
        old(collection).is_locked ==> outcome == Err::<(Nft, ClaimEvent), ErrorCode>(
            ErrorCode::ContractLocked,
        ),
        !old(collection).is_locked && nft_id >= MAX_SUPPLY ==> outcome == Err::<
            (Nft, ClaimEvent),
            ErrorCode,
        >(ErrorCode::NftIdOutOfRange),
        !old(collection).is_locked && nft_id < MAX_SUPPLY && instruction_sysvar.key@
            != instructions_sysvar_id() ==> outcome == Err::<(Nft, ClaimEvent), ErrorCode>(
            ErrorCode::InvalidProof,
        ),
        old(collection).is_locked ==> final(collection).is_locked,
{
    collection.assert_unlocked()?;
    if nft_id >= MAX_SUPPLY {
        return Err(ErrorCode::NftIdOutOfRange);
    }
    verify_ed25519_signature(proof, recipient, nft_id, &collection.signer, instruction_sysvar)?;
    issue_ticket(collection, collection_key, nft_id, recipient, timestamp)
}

/// Hands a ticket to `new_owner`. Only the authority may do so, and it must
/// name the ticket's current owner.
pub fn transfer(
    collection: &NftCollection,
    nft: &mut Nft,
    from: Pubkey,
    authority: Pubkey,
    new_owner: Pubkey,
) -> (outcome: Result<TransferEvent, ErrorCode>)
    ensures
        match transfer_check(collection@, *old(nft), from, authority) {
            Ok(_) => {
                &&& outcome == Ok::<TransferEvent, ErrorCode>(
                    TransferEvent {
                        nft_id: old(nft).nft_id,
                        from: old(nft).owner,
                        to: new_owner,
                        operator: authority,
                    },
                )
                &&& *final(nft) == (Nft { owner: new_owner, ..*old(nft) })
            },
            Err(e) => {
                &&& outcome == Err::<TransferEvent, ErrorCode>(e)
                &&& *final(nft) == *old(nft)
            },
        },
        collection.is_locked ==> outcome == Err::<TransferEvent, ErrorCode>(
            ErrorCode::ContractLocked,
        ),
{
    collection.assert_unlocked()?;
    collection.assert_authority(&authority)?;
    if nft.owner != from {
        return Err(ErrorCode::InvalidOwner);
    }
    let old_owner = nft.owner;
    nft.set_owner(new_owner);
    Ok(TransferEvent { nft_id: nft.nft_id, from: old_owner, to: new_owner, operator: authority })
}

/// Destroys a ticket and counts it out. Only the authority may do so.
pub fn burn(collection: &mut NftCollection, nft: Nft, authority: Pubkey) -> (outcome: Result<
    BurnEvent,
    ErrorCode,
>)
    ensures
        match burn_check(old(collection)@, authority) {
            Ok(_) => {
                &&& outcome == Ok::<BurnEvent, ErrorCode>(
                    BurnEvent { nft_id: nft.nft_id, operator: authority },
                )
                &&& final(collection)@ == old(collection)@.with_supply(
                    (old(collection)@.total_supply - 1) as nat,
                )
            },
            Err(e) => {
                &&& outcome == Err::<BurnEvent, ErrorCode>(e)
                &&& *final(collection) == *old(collection)
            },
        },
        old(collection).is_locked ==> outcome == Err::<BurnEvent, ErrorCode>(
            ErrorCode::ContractLocked,
        ),
        old(collection).is_locked ==> final(collection).is_locked,
{
    collection.assert_unlocked()?;
    collection.assert_authority(&authority)?;
    let nft_id = nft.nft_id;
    collection.decrement_supply()?;
    Ok(BurnEvent { nft_id, operator: authority })
}

/// Replaces the key that authorizes claims. Only the authority may do so.
pub fn update_signer(collection: &mut NftCollection, authority: Pubkey, new_signer: Pubkey) -> (outcome:
    Result<SignerUpdatedEvent, ErrorCode>)
    ensures
        match operator_check(old(collection)@, authority) {
            Ok(_) => {
                &&& outcome == Ok::<SignerUpdatedEvent, ErrorCode>(
                    SignerUpdatedEvent {
                        old_signer: old(collection).signer,
                        new_signer,
                        operator: authority,
                    },
                )
                &&& final(collection)@ == old(collection)@.with_signer(new_signer)
            },
            Err(e) => {
                &&& outcome == Err::<SignerUpdatedEvent, ErrorCode>(e)
                &&& *final(collection) == *old(collection)
            },
        },
        old(collection).is_locked ==> outcome == Err::<SignerUpdatedEvent, ErrorCode>(
            ErrorCode::ContractLocked,
        ),
        old(collection).is_locked ==> final(collection).is_locked,
{
    collection.assert_unlocked()?;
    collection.assert_authority(&authority)?;
    let old_signer = collection.signer;
    collection.signer = new_signer;
    Ok(SignerUpdatedEvent { old_signer, new_signer, operator: authority })
}

/// Replaces the metadata location. Only the authority may do so.
pub fn update_base_uri(
    collection: &mut NftCollection,
    authority: Pubkey,
    new_base_uri: String,
) -> (outcome: Result<BaseUriUpdatedEvent, ErrorCode>)
    ensures
        match operator_check(old(collection)@, authority) {
            Ok(_) => {
                &&& outcome matches Ok(event)
                &&& event@ == (BaseUriUpdatedView {
                    old_base_uri: old(collection)@.base_uri,
                    new_base_uri: new_base_uri@,
                    operator: authority,
                })
                &&& final(collection)@ == old(collection)@.with_base_uri(new_base_uri@)
            },
            Err(e) => {
                &&& outcome matches Err(refusal)
                &&& refusal == e
                &&& *final(collection) == *old(collection)
            },
        },
        old(collection).is_locked ==> outcome matches Err(ErrorCode::ContractLocked),
        old(collection).is_locked ==> final(collection).is_locked,
{
    collection.assert_unlocked()?;
    collection.assert_authority(&authority)?;
    let mut old_base_uri = new_base_uri.clone();
    core::mem::swap(&mut collection.base_uri, &mut old_base_uri);
    Ok(BaseUriUpdatedEvent { old_base_uri, new_base_uri, operator: authority })
}

/// Locks the collection for good. Only the authority may do so; locking a
/// locked collection succeeds and changes nothing.
pub fn lock_contract(collection: &mut NftCollection, authority: Pubkey, timestamp: i64) -> (outcome:
    Result<LockEvent, ErrorCode>)
    ensures
        authority == old(collection).authority ==> {
            &&& outcome == Ok::<LockEvent, ErrorCode>(LockEvent { operator: authority, timestamp })
            &&& final(collection)@ == old(collection)@.locked()
        },
        authority != old(collection).authority ==> {
            &&& outcome == Err::<LockEvent, ErrorCode>(ErrorCode::Unauthorized)
            &&& *final(collection) == *old(collection)
        },
        old(collection).is_locked ==> final(collection)@ == old(collection)@,
{
    collection.assert_authority(&authority)?;
    collection.is_locked = true;
    Ok(LockEvent { operator: authority, timestamp })
}

} // verus!
