//! What holds of the ledger whatever is asked of it.
//!
//! The laws are stated over [`LedgerView`] and the checks and effects by
//! which the contracts of [`crate::ledger::Ledger`] describe its
//! operations.

use vstd::prelude::*;
use crate::authorization::proof_accepted;
use crate::authorization::verify_spec;
use crate::codec::attestation_of;
use crate::codec::expected_digest;
use crate::codec::SiblingRecordView;
use crate::error::ErrorCode;
use crate::keys::Pubkey;
use crate::ledger::lemma_supply_bounded;
use crate::ledger::LedgerError;
use crate::ledger::LedgerView;
use crate::ops;
use crate::state::CollectionView;
use crate::state::MAX_SUPPLY;

verus! {

/// A request to the ledger, with everything that its outcome depends on.
/// For a claim that includes the verification record found in the same
/// atomic unit, if there is one.
pub enum Operation {
    Claim { proof: Seq<u8>, nft_id: u32, recipient: Pubkey, record: Option<SiblingRecordView> },
    Transfer { nft_id: u32, from: Pubkey, authority: Pubkey, new_owner: Pubkey },
    Burn { nft_id: u32, authority: Pubkey },
    UpdateSigner { authority: Pubkey, new_signer: Pubkey },
    UpdateBaseUri { authority: Pubkey, new_base_uri: Seq<char> },
    Lock { authority: Pubkey },
}

/// What stands in the way of `op` on `ledger`, if anything.
pub open spec fn check(ledger: LedgerView, op: Operation) -> Result<(), LedgerError> {
    match op {
        Operation::Claim { proof, nft_id, recipient, record } => ledger.claim_check(
            proof,
            nft_id,
            recipient,
            record,
        ),
        Operation::Transfer { nft_id, from, authority, new_owner } => ledger.transfer_check(
            nft_id,
            from,
            authority,
        ),
        Operation::Burn { nft_id, authority } => ledger.burn_check(nft_id, authority),
        Operation::UpdateSigner { authority, new_signer } => ledger.operator_check(authority),
        Operation::UpdateBaseUri { authority, new_base_uri } => ledger.operator_check(authority),
        Operation::Lock { authority } => ledger.lock_check(authority),
    }
}

/// The ledger after `op` has been asked of it: changed as the operation
/// says where nothing stands in its way, and untouched otherwise.
pub open spec fn step(ledger: LedgerView, op: Operation) -> LedgerView {
    if check(ledger, op) is Err {
        ledger
    } else {
        match op {
            Operation::Claim { proof, nft_id, recipient, record } => ledger.after_claim(
                nft_id,
                recipient,
            ),
            Operation::Transfer { nft_id, from, authority, new_owner } => ledger.after_transfer(
                nft_id,
                new_owner,
            ),
            Operation::Burn { nft_id, authority } => ledger.after_burn(nft_id),
            Operation::UpdateSigner { authority, new_signer } => ledger.after_update_signer(
                new_signer,
            ),
            Operation::UpdateBaseUri { authority, new_base_uri } => ledger.after_update_base_uri(
                new_base_uri,
            ),
            Operation::Lock { authority } => ledger.after_lock(),
        }
    }
}

/// The ledger after a sequence of operations, asked for one after another.
pub open spec fn run(ledger: LedgerView, ops: Seq<Operation>) -> LedgerView
    decreases ops.len(),
{
    if ops.len() == 0 {
        ledger
    } else {
        step(run(ledger, ops.drop_last()), ops.last())
    }
}

/// Every operation leaves a well-formed ledger well formed: the supply
/// counter stays equal to the number of live tickets, and each live ticket
/// stays filed under its own number.
pub proof fn law_step_keeps_wf(ledger: LedgerView, op: Operation)
    requires
        ledger.wf(),
    ensures
        step(ledger, op).wf(),
{
    let next = step(ledger, op);
    if check(ledger, op) is Ok {
        match op {
            Operation::Claim { proof, nft_id, recipient, record } => {
                assert(next.tickets.dom() =~= ledger.tickets.dom().insert(nft_id));
            },
            Operation::Transfer { nft_id, from, authority, new_owner } => {
                assert(next.tickets.dom() =~= ledger.tickets.dom());
            },
            Operation::Burn { nft_id, authority } => {
                assert(next.tickets.dom() =~= ledger.tickets.dom().remove(nft_id));
            },
            _ => {},
        }
    }
}

/// Whatever is asked of a well-formed ledger, and in whatever order, it
/// stays well formed and never holds more than [`MAX_SUPPLY`] tickets.
pub proof fn law_run_keeps_wf(ledger: LedgerView, ops: Seq<Operation>)
    requires
        ledger.wf(),
    ensures
        run(ledger, ops).wf(),
        run(ledger, ops).collection.total_supply <= MAX_SUPPLY,
    decreases ops.len(),
{
    if ops.len() > 0 {
        law_run_keeps_wf(ledger, ops.drop_last());
        law_step_keeps_wf(run(ledger, ops.drop_last()), ops.last());
    }
    lemma_supply_bounded(run(ledger, ops));
}

/// On a well-formed ledger the supply counter never stands in the way: no
/// operation is refused with [`ErrorCode::SupplyInvariant`].
pub proof fn law_supply_never_refuses(ledger: LedgerView, op: Operation)
    requires
        ledger.wf(),
    ensures
        check(ledger, op) != Err::<(), LedgerError>(
            LedgerError::Refused(ErrorCode::SupplyInvariant),
        ),
{
    lemma_supply_bounded(ledger);
    match op {
        Operation::Burn { nft_id, authority } => {
            if ledger.is_live(nft_id) {
                assert(ledger.tickets.dom().contains(nft_id));
                assert(ledger.tickets.dom().len() > 0);
            }
        },
        _ => {},
    }
}

/// A claim of a free number below [`MAX_SUPPLY`], on an unlocked ledger and
/// with an accepted proof, succeeds. While the ticket lives, every further
/// claim of its number is refused as a conflict, whatever proof comes with
/// it.
pub proof fn law_claim_succeeds_once(
    ledger: LedgerView,
    proof: Seq<u8>,
    nft_id: u32,
    recipient: Pubkey,
    record: Option<SiblingRecordView>,
    later_proof: Seq<u8>,
    later_recipient: Pubkey,
    later_record: Option<SiblingRecordView>,
)
    requires
        ledger.wf(),
        !ledger.collection.is_locked,
        nft_id < MAX_SUPPLY,
        !ledger.is_live(nft_id),
        proof_accepted(proof, recipient@, nft_id, ledger.collection.signer@, record),
    ensures
        ledger.claim_check(proof, nft_id, recipient, record) is Ok,
        ledger.after_claim(nft_id, recipient).is_live(nft_id),
        ledger.after_claim(nft_id, recipient).tickets[nft_id].owner == recipient,
        ledger.after_claim(nft_id, recipient).claim_check(
            later_proof,
            nft_id,
            later_recipient,
            later_record,
        ) == Err::<(), LedgerError>(LedgerError::Conflict),
{
    lemma_supply_bounded(ledger);
}

/// A claim of a number that is not below [`MAX_SUPPLY`] is refused with
/// [`ErrorCode::NftIdOutOfRange`] on every unlocked collection, whatever
/// proof comes with it.
pub proof fn law_out_of_range_refused(
    ledger: LedgerView,
    proof: Seq<u8>,
    nft_id: u32,
    recipient: Pubkey,
    record: Option<SiblingRecordView>,
)
    requires
        nft_id >= MAX_SUPPLY,
        !ledger.collection.is_locked,
    ensures
        ops::claim_check(ledger.collection, proof, nft_id, recipient, record) == Err::<
            (),
            ErrorCode,
        >(ErrorCode::NftIdOutOfRange),
        ledger.claim_check(proof, nft_id, recipient, record) == Err::<(), LedgerError>(
            LedgerError::Refused(ErrorCode::NftIdOutOfRange),
        ),
{
}

/// A record whose signed message is not the digest of the request's own
/// (`recipient`, `nft_id`) authorizes nothing: verification fails, and a
/// claim that gets as far as the proof is refused with
/// [`ErrorCode::InvalidProof`], whatever signature and signer the record
/// attests to.
pub proof fn law_foreign_digest_refused(
    collection: CollectionView,
    proof: Seq<u8>,
    nft_id: u32,
    recipient: Pubkey,
    record: SiblingRecordView,
)
    requires
        attestation_of(record.data).message != expected_digest(recipient@, nft_id),
    ensures
        verify_spec(proof, recipient@, nft_id, collection.signer@, record) is Err,
        !proof_accepted(proof, recipient@, nft_id, collection.signer@, Some(record)),
        !collection.is_locked && nft_id < MAX_SUPPLY ==> ops::claim_check(
            collection,
            proof,
            nft_id,
            recipient,
            Some(record),
        ) == Err::<(), ErrorCode>(ErrorCode::InvalidProof),
{
}

/// On a locked ledger every operation but locking is refused with
/// [`ErrorCode::ContractLocked`], whoever asks and whatever else is wrong
/// with the request; and no operation, locking included, changes anything.
pub proof fn law_locked_is_frozen(ledger: LedgerView, op: Operation)
    requires
        ledger.collection.is_locked,
    ensures
        !(op is Lock) ==> check(ledger, op) == Err::<(), LedgerError>(
            LedgerError::Refused(ErrorCode::ContractLocked),
        ),
        step(ledger, op) == ledger,
{
}

/// Once locked, a ledger stays locked and stays as it is, whatever is asked
/// of it afterwards.
pub proof fn law_lock_is_permanent(ledger: LedgerView, ops: Seq<Operation>)
    requires
        ledger.collection.is_locked,
    ensures
        run(ledger, ops) == ledger,
        run(ledger, ops).collection.is_locked,
    decreases ops.len(),
{
    if ops.len() > 0 {
        law_lock_is_permanent(ledger, ops.drop_last());
        law_locked_is_frozen(ledger, ops.last());
    }
}

/// No operation unlocks: a collection that was locked before an operation
/// is locked after it.
pub proof fn law_never_unlocks(ledger: LedgerView, op: Operation)
    ensures
        ledger.collection.is_locked ==> step(ledger, op).collection.is_locked,
{
}

/// No operation changes the collection's authority or address, and none
/// changes the number or the collection of a ticket that stays live.
pub proof fn law_identities_are_fixed(ledger: LedgerView, op: Operation, nft_id: u32)
    requires
        ledger.wf(),
    ensures
        step(ledger, op).collection.authority == ledger.collection.authority,
        step(ledger, op).address == ledger.address,
        ledger.is_live(nft_id) && step(ledger, op).is_live(nft_id) ==> {
            &&& step(ledger, op).tickets[nft_id].nft_id == nft_id
            &&& step(ledger, op).tickets[nft_id].collection == ledger.tickets[nft_id].collection
        },
{
}

/// Only the authority changes anything on an unlocked ledger, a claim
/// apart: a transfer, burn, change of signer or of metadata, or lock asked
/// for by anyone else leaves the ledger as it was.
pub proof fn law_only_authority_operates(ledger: LedgerView, op: Operation, caller: Pubkey)
    requires
        caller != ledger.collection.authority,
        match op {
            Operation::Claim { .. } => false,
            Operation::Transfer { authority, .. } => authority == caller,
            Operation::Burn { authority, .. } => authority == caller,
            Operation::UpdateSigner { authority, .. } => authority == caller,
            Operation::UpdateBaseUri { authority, .. } => authority == caller,
            Operation::Lock { authority } => authority == caller,
        },
    ensures
        check(ledger, op) is Err,
        step(ledger, op) == ledger,
{
}

/// Claiming a ticket and then burning it restores the ledger: the supply
/// is what it was before the claim, the number is free, and the same claim
/// would succeed again.
pub proof fn law_claim_then_burn_restores(
    ledger: LedgerView,
    proof: Seq<u8>,
    nft_id: u32,
    recipient: Pubkey,
    record: Option<SiblingRecordView>,
)
    requires
        ledger.wf(),
        ledger.claim_check(proof, nft_id, recipient, record) is Ok,
    ensures
        ledger.after_claim(nft_id, recipient).burn_check(nft_id, ledger.collection.authority) is Ok,
        ledger.after_claim(nft_id, recipient).after_burn(nft_id) == ledger,
        ledger.after_claim(nft_id, recipient).after_burn(nft_id).collection.total_supply
            == ledger.collection.total_supply,
        !ledger.after_claim(nft_id, recipient).after_burn(nft_id).is_live(nft_id),
        ledger.after_claim(nft_id, recipient).after_burn(nft_id).claim_check(
            proof,
            nft_id,
            recipient,
            record,
        ) is Ok,
{
    let claimed = ledger.after_claim(nft_id, recipient);
    let burned = claimed.after_burn(nft_id);
    assert(burned.tickets =~= ledger.tickets);
    assert(burned.collection == ledger.collection);
}

} // verus!
