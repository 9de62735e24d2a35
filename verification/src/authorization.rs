//! Binding a proof to a request.
//!
//! The Ed25519 arithmetic is done by the native verifier, which leaves a
//! record of what it checked. This module only confirms that the record was
//! produced by that verifier and that it attests to the very signature,
//! signer and digest that the request calls for.

use vstd::prelude::*;
use crate::codec::attestation_of;
use crate::codec::build_message;
use crate::codec::digest;
use crate::codec::expected_digest;
use crate::codec::message_size;
use crate::codec::parse_sibling_record;
use crate::codec::record_well_formed;
use crate::codec::same_bytes;
use crate::codec::SiblingRecord;
use crate::codec::SiblingRecordView;
use crate::codec::DIGEST_BYTES;
use crate::codec::SIGNATURE_BYTES;
use crate::error::ErrorCode;
use crate::error::ProofError;
use crate::instructions::instructions_sysvar_id;
use crate::instructions::load_verification_record;
use crate::instructions::verification_record;
use crate::instructions::InstructionsAccount;
use crate::keys::lemma_pubkey_ext;
use crate::keys::Pubkey;
use crate::keys::PUBKEY_BYTES;

verus! {

/// The address of the native Ed25519 signature-verification program.
pub open spec fn native_verifier_id() -> Seq<u8> {
    seq![
        3u8, 125, 70, 214, 124, 147, 251, 190,
        18, 249, 66, 143, 131, 141, 64, 255,
        5, 112, 116, 73, 39, 244, 138, 100,
        252, 202, 112, 68, 128, 0, 0, 0,
    ]
}

/// Calls `solana_program::ed25519_program::id` and takes the bytes of the
/// address. Trusted: they are the 32 bytes that the base-58 text
/// `Ed25519SigVerify111111111111111111111111111` stands for.
#[verifier::external_body]
fn ed25519_program_id() -> (id: Pubkey)
    ensures
        id@ == native_verifier_id(),
{
    Pubkey { bytes: solana_program::ed25519_program::id().to_bytes() }
}

/// The native Ed25519 verifier, the only producer whose records count.
pub fn native_verifier() -> (id: Pubkey)
    ensures
        id@ == native_verifier_id(),
{
    ed25519_program_id()
}

/// Whether a well-formed record attests to exactly this signature, signer
/// and digest.
pub open spec fn attests_to(data: Seq<u8>, proof: Seq<u8>, signer: Seq<u8>, digest: Seq<u8>) -> bool {
    &&& attestation_of(data).signature == proof
    &&& attestation_of(data).public_key == signer
    &&& attestation_of(data).message == digest
}

/// The outcome of checking a record against a proof, a signer and the digest
/// that should have been signed. The producer is checked first, then the
/// layout, then the three attested values.
pub open spec fn check_spec(
    record: SiblingRecordView,
    proof: Seq<u8>,
    signer: Seq<u8>,
    digest: Seq<u8>,
) -> Result<(), ProofError> {
    if record.program_id != native_verifier_id() {
        Err(ProofError::WrongVerifier)
    } else if !record_well_formed(record.data) {
        Err(ProofError::Malformed)
    } else if !attests_to(record.data, proof, signer, digest) {
        Err(ProofError::Mismatch)
    } else {
        Ok(())
    }
}

/// The outcome of verifying a proof for (`recipient`, `nft_id`): the record
/// is checked against the digest of the request's own canonical message.
pub open spec fn verify_spec(
    proof: Seq<u8>,
    recipient: Seq<u8>,
    nft_id: u32,
    signer: Seq<u8>,
    record: SiblingRecordView,
) -> Result<(), ProofError> {
    check_spec(record, proof, signer, expected_digest(recipient, nft_id))
}

/// Whether a claim of `nft_id` by `recipient` is authorized by `proof`,
/// given the record found beside the claim, if any.
pub open spec fn proof_accepted(
    proof: Seq<u8>,
    recipient: Seq<u8>,
    nft_id: u32,
    signer: Seq<u8>,
    record: Option<SiblingRecordView>,
) -> bool {
    record matches Some(r) && verify_spec(proof, recipient, nft_id, signer, r) is Ok
}

/// An accepted record declares a signed message of exactly the length of a
/// digest.
pub proof fn lemma_accepted_message_is_a_digest(
    record: SiblingRecordView,
    proof: Seq<u8>,
    signer: Seq<u8>,
    digest: Seq<u8>,
)
    requires
        digest.len() == DIGEST_BYTES,
        check_spec(record, proof, signer, digest) is Ok,
    ensures
        message_size(record.data) == DIGEST_BYTES,
        proof.len() == SIGNATURE_BYTES,
        signer.len() == PUBKEY_BYTES,
{
    assert(attestation_of(record.data).message.len() == message_size(record.data));
}

/// Checks a record against a proof, the expected signer and the digest that
/// should have been signed.
pub fn check_attestation(
    proof: &[u8; 64],
    expected_signer: &Pubkey,
    expected_digest: &[u8; 32],
    record: &SiblingRecord,
) -> (outcome: Result<(), ProofError>)
    ensures
        outcome == check_spec(record@, proof@, expected_signer@, expected_digest@),
{
    let native = native_verifier();
    proof {
        lemma_pubkey_ext(record.program_id, native);
    }
    if record.program_id != native {
        return Err(ProofError::WrongVerifier);
    }
    let attestation = match parse_sibling_record(record.data.as_slice()) {
        Ok(attestation) => attestation,
        Err(_) => {
            return Err(ProofError::Malformed);
        },
    };
    proof {
        lemma_pubkey_ext(attestation.public_key, *expected_signer);
    }
    if !same_bytes(attestation.signature.as_slice(), proof.as_slice()) {
        return Err(ProofError::Mismatch);
    }
    if attestation.public_key != *expected_signer {
        return Err(ProofError::Mismatch);
    }
    if !same_bytes(attestation.message.as_slice(), expected_digest.as_slice()) {
        return Err(ProofError::Mismatch);
    }
    Ok(())
}

/// Verifies that `proof` authorizes `recipient` to claim ticket `nft_id`.
///
/// The digest is recomputed from the request's own recipient and id, so a
/// record that attests to a signature over any other message is refused.
pub fn verify(
    proof: &[u8; 64],
    recipient: &Pubkey,
    nft_id: u32,
    expected_signer: &Pubkey,
    record: &SiblingRecord,
) -> (outcome: Result<(), ProofError>)
    ensures
        outcome == verify_spec(proof@, recipient@, nft_id, expected_signer@, record@),
{
    let message = build_message(recipient, nft_id);
    let message_hash = digest(message.as_slice());
    check_attestation(proof, expected_signer, &message_hash, record)
}

/// Verifies a claim's proof against the verification record that sits in
/// the same atomic unit, whose instructions the host keeps in
/// `instruction_sysvar`. Every failure, a missing record included, is
/// reported as [`ErrorCode::InvalidProof`].
pub fn verify_ed25519_signature(
    signature: &[u8; 64],
    recipient: Pubkey,
    nft_id: u32,
    expected_signer: &Pubkey,
    instruction_sysvar: &InstructionsAccount,
) -> (outcome: Result<(), ErrorCode>)
    ensures
        outcome == (if proof_accepted(
            signature@,
            recipient@,
            nft_id,
            expected_signer@,
            verification_record(instruction_sysvar@),
        ) {
            Ok(())
        } else {
            Err(ErrorCode::InvalidProof)
        }),
        instruction_sysvar.key@ != instructions_sysvar_id() ==> outcome == Err::<(), ErrorCode>(
            ErrorCode::InvalidProof,
        ),
{
    match load_verification_record(instruction_sysvar) {
        Some(record) => match verify(signature, &recipient, nft_id, expected_signer, &record) {
            Ok(()) => Ok(()),
            Err(_) => Err(ErrorCode::InvalidProof),
        },
        None => Err(ErrorCode::InvalidProof),
    }
}

} // verus!
