use fight_tickets::authorization::check_attestation;
use fight_tickets::authorization::native_verifier;
use fight_tickets::authorization::verify;
use fight_tickets::authorization::verify_ed25519_signature;
use fight_tickets::codec::build_message;
use fight_tickets::codec::digest;
use fight_tickets::codec::SiblingRecord;
use fight_tickets::error::ErrorCode;
use fight_tickets::error::ProofError;
use fight_tickets::instructions::InstructionsAccount;
use solana_program::sysvar::instructions::construct_instructions_data;
use solana_program::sysvar::instructions::BorrowedInstruction;
use fight_tickets::instructions::VERIFICATION_RECORD_INDEX;
use fight_tickets::keys::Pubkey;

const ED25519_PROGRAM: [u8; 32] = [
    3, 125, 70, 214, 124, 147, 251, 190, 18, 249, 66, 143, 131, 141, 64, 255, 5, 112, 116, 73,
    39, 244, 138, 100, 252, 202, 112, 68, 128, 0, 0, 0,
];

fn record_bytes(signature: &[u8; 64], public_key: &[u8; 32], message: &[u8]) -> Vec<u8> {
    let mut data = vec![1u8, 0];
    data.extend_from_slice(&48u16.to_le_bytes());
    data.extend_from_slice(&u16::MAX.to_le_bytes());
    data.extend_from_slice(&16u16.to_le_bytes());
    data.extend_from_slice(&u16::MAX.to_le_bytes());
    data.extend_from_slice(&112u16.to_le_bytes());
    data.extend_from_slice(&(message.len() as u16).to_le_bytes());
    data.extend_from_slice(&u16::MAX.to_le_bytes());
    data.extend_from_slice(public_key);
    data.extend_from_slice(signature);
    data.extend_from_slice(message);
    data
}

/// The record that the native verifier leaves after checking `signature`
/// by `signer` over the digest of (`recipient`, `nft_id`).
fn attested(signature: &[u8; 64], signer: &Pubkey, recipient: &Pubkey, nft_id: u32) -> SiblingRecord {
    let signed = digest(&build_message(recipient, nft_id));
    SiblingRecord {
        program_id: native_verifier(),
        data: record_bytes(signature, &signer.to_bytes(), &signed),
    }
}

/// The instructions account of a unit that holds the given instructions, in
/// order, as the host serializes it.
fn unit(records: &[&SiblingRecord]) -> InstructionsAccount {
    let programs: Vec<solana_program::pubkey::Pubkey> = records
        .iter()
        .map(|r| solana_program::pubkey::Pubkey::new_from_array(r.program_id.to_bytes()))
        .collect();
    let instructions: Vec<BorrowedInstruction> = records
        .iter()
        .zip(programs.iter())
        .map(|(r, program_id)| BorrowedInstruction { program_id, accounts: vec![], data: &r.data })
        .collect();
    InstructionsAccount {
        key: Pubkey::new(solana_program::sysvar::instructions::ID.to_bytes()),
        data: construct_instructions_data(&instructions).unwrap(),
    }
}

fn signer() -> Pubkey {
    Pubkey::new([0x51u8; 32])
}

fn recipient() -> Pubkey {
    Pubkey::new([7u8; 32])
}

#[test]
fn the_record_sits_first_in_the_unit() {
    assert_eq!(VERIFICATION_RECORD_INDEX, 0);
}

#[test]
fn native_verifier_is_the_ed25519_program() {
    assert_eq!(native_verifier().to_bytes(), ED25519_PROGRAM);
    assert_eq!(
        native_verifier().to_bytes(),
        solana_program::ed25519_program::ID.to_bytes()
    );
}

#[test]
fn verify_accepts_a_record_that_matches_the_request() {
    let proof = [0xa5u8; 64];
    let record = attested(&proof, &signer(), &recipient(), 3);
    assert_eq!(verify(&proof, &recipient(), 3, &signer(), &record), Ok(()));
}

#[test]
fn verify_refuses_a_record_of_another_program() {
    let proof = [0xa5u8; 64];
    let mut record = attested(&proof, &signer(), &recipient(), 3);
    record.program_id = Pubkey::new([0u8; 32]);
    assert_eq!(
        verify(&proof, &recipient(), 3, &signer(), &record),
        Err(ProofError::WrongVerifier)
    );
    let mut almost = ED25519_PROGRAM;
    almost[31] = 1;
    record.program_id = Pubkey::new(almost);
    assert_eq!(
        verify(&proof, &recipient(), 3, &signer(), &record),
        Err(ProofError::WrongVerifier)
    );
}

#[test]
fn the_producer_is_checked_before_the_layout() {
    let proof = [0xa5u8; 64];
    let record = SiblingRecord { program_id: Pubkey::new([1u8; 32]), data: vec![] };
    assert_eq!(
        verify(&proof, &recipient(), 3, &signer(), &record),
        Err(ProofError::WrongVerifier)
    );
}

#[test]
fn verify_refuses_a_malformed_record() {
    let proof = [0xa5u8; 64];
    let good = attested(&proof, &signer(), &recipient(), 3);
    let short = SiblingRecord { program_id: native_verifier(), data: good.data[..15].to_vec() };
    assert_eq!(verify(&proof, &recipient(), 3, &signer(), &short), Err(ProofError::Malformed));
    let mut two = good.clone();
    two.data[0] = 2;
    assert_eq!(verify(&proof, &recipient(), 3, &signer(), &two), Err(ProofError::Malformed));
    let cut = SiblingRecord { program_id: native_verifier(), data: good.data[..143].to_vec() };
    assert_eq!(verify(&proof, &recipient(), 3, &signer(), &cut), Err(ProofError::Malformed));
    let empty = SiblingRecord { program_id: native_verifier(), data: vec![] };
    assert_eq!(verify(&proof, &recipient(), 3, &signer(), &empty), Err(ProofError::Malformed));
}

#[test]
fn the_layout_is_checked_before_the_values() {
    let proof = [0xa5u8; 64];
    let mut record = attested(&[0u8; 64], &signer(), &recipient(), 3);
    record.data[0] = 0;
    assert_eq!(verify(&proof, &recipient(), 3, &signer(), &record), Err(ProofError::Malformed));
}

#[test]
fn verify_refuses_another_signature() {
    let proof = [0xa5u8; 64];
    let mut other = proof;
    other[63] ^= 1;
    let record = attested(&other, &signer(), &recipient(), 3);
    assert_eq!(verify(&proof, &recipient(), 3, &signer(), &record), Err(ProofError::Mismatch));
}

#[test]
fn verify_refuses_another_signer() {
    let proof = [0xa5u8; 64];
    let record = attested(&proof, &Pubkey::new([0x52u8; 32]), &recipient(), 3);
    assert_eq!(verify(&proof, &recipient(), 3, &signer(), &record), Err(ProofError::Mismatch));
}

#[test]
fn verify_refuses_a_digest_of_another_recipient_or_id() {
    let proof = [0xa5u8; 64];
    let record = attested(&proof, &signer(), &recipient(), 3);
    let attacker = Pubkey::new([9u8; 32]);
    assert_eq!(verify(&proof, &attacker, 3, &signer(), &record), Err(ProofError::Mismatch));
    assert_eq!(verify(&proof, &recipient(), 4, &signer(), &record), Err(ProofError::Mismatch));
    assert_eq!(verify(&proof, &recipient(), 3, &signer(), &record), Ok(()));
}

#[test]
fn verify_refuses_the_raw_message_in_place_of_its_digest() {
    let proof = [0xa5u8; 64];
    let record = SiblingRecord {
        program_id: native_verifier(),
        data: record_bytes(&proof, &signer().to_bytes(), &build_message(&recipient(), 3)),
    };
    assert_eq!(verify(&proof, &recipient(), 3, &signer(), &record), Err(ProofError::Mismatch));
}

#[test]
fn verify_refuses_a_signed_message_of_another_length() {
    let proof = [0xa5u8; 64];
    let signed = digest(&build_message(&recipient(), 3));
    let shorter = SiblingRecord {
        program_id: native_verifier(),
        data: record_bytes(&proof, &signer().to_bytes(), &signed[..31]),
    };
    assert_eq!(verify(&proof, &recipient(), 3, &signer(), &shorter), Err(ProofError::Mismatch));
    let mut long = signed.to_vec();
    long.push(0);
    let longer = SiblingRecord {
        program_id: native_verifier(),
        data: record_bytes(&proof, &signer().to_bytes(), &long),
    };
    assert_eq!(verify(&proof, &recipient(), 3, &signer(), &longer), Err(ProofError::Mismatch));
}

#[test]
fn check_attestation_takes_the_digest_as_given() {
    let proof = [1u8; 64];
    let expected = [2u8; 32];
    let record = SiblingRecord {
        program_id: native_verifier(),
        data: record_bytes(&proof, &signer().to_bytes(), &expected),
    };
    assert_eq!(check_attestation(&proof, &signer(), &expected, &record), Ok(()));
    assert_eq!(
        check_attestation(&proof, &signer(), &[3u8; 32], &record),
        Err(ProofError::Mismatch)
    );
    assert_eq!(
        check_attestation(&[0u8; 64], &signer(), &expected, &record),
        Err(ProofError::Mismatch)
    );
    assert_eq!(
        check_attestation(&proof, &recipient(), &expected, &record),
        Err(ProofError::Mismatch)
    );
}

#[test]
fn every_failure_is_an_invalid_proof() {
    let proof = [0xa5u8; 64];
    let good = attested(&proof, &signer(), &recipient(), 3);
    assert_eq!(
        verify_ed25519_signature(&proof, recipient(), 3, &signer(), &unit(&[&good])),
        Ok(())
    );
    assert_eq!(
        verify_ed25519_signature(&proof, recipient(), 3, &signer(), &unit(&[])),
        Err(ErrorCode::InvalidProof)
    );
    let mut foreign = good.clone();
    foreign.program_id = Pubkey::new([4u8; 32]);
    assert_eq!(
        verify_ed25519_signature(&proof, recipient(), 3, &signer(), &unit(&[&foreign])),
        Err(ErrorCode::InvalidProof)
    );
    let mut malformed = good.clone();
    malformed.data.truncate(20);
    assert_eq!(
        verify_ed25519_signature(&proof, recipient(), 3, &signer(), &unit(&[&malformed])),
        Err(ErrorCode::InvalidProof)
    );
    assert_eq!(
        verify_ed25519_signature(&proof, recipient(), 5, &signer(), &unit(&[&good])),
        Err(ErrorCode::InvalidProof)
    );
    assert_eq!(
        verify_ed25519_signature(&[0u8; 64], recipient(), 3, &signer(), &unit(&[&good])),
        Err(ErrorCode::InvalidProof)
    );
}

#[test]
fn the_record_must_come_first_in_the_unit() {
    let proof = [0xa5u8; 64];
    let good = attested(&proof, &signer(), &recipient(), 3);
    let other = SiblingRecord { program_id: Pubkey::new([4u8; 32]), data: vec![1, 2, 3] };
    assert_eq!(
        verify_ed25519_signature(&proof, recipient(), 3, &signer(), &unit(&[&good, &other])),
        Ok(())
    );
    assert_eq!(
        verify_ed25519_signature(&proof, recipient(), 3, &signer(), &unit(&[&other, &good])),
        Err(ErrorCode::InvalidProof)
    );
}

#[test]
fn only_the_instructions_sysvar_vouches() {
    let proof = [0xa5u8; 64];
    let good = attested(&proof, &signer(), &recipient(), 3);
    let mut account = unit(&[&good]);
    account.key = Pubkey::new([6u8; 32]);
    assert_eq!(
        verify_ed25519_signature(&proof, recipient(), 3, &signer(), &account),
        Err(ErrorCode::InvalidProof)
    );
    account.key = native_verifier();
    assert_eq!(
        verify_ed25519_signature(&proof, recipient(), 3, &signer(), &account),
        Err(ErrorCode::InvalidProof)
    );
}
